//! The mark of a cell, and of the side that is to move.

use vstd::prelude::*;

verus! {

/// A cell's value, or a player's side. `Empty` is the unset cell and is never
/// a side.
#[derive(Clone, Copy, Debug, PartialEq, Eq, Structural)]
pub enum PlayerMark {
    Cross,
    Circle,
    Empty,
}

impl PlayerMark {
    /// The name of the mark on the wire.
    pub open spec fn wire_name(self) -> Seq<char> {
        match self {
            PlayerMark::Cross => "cross"@,
            PlayerMark::Circle => "circle"@,
            PlayerMark::Empty => ""@,
        }
    }

    /// Whether the mark is one of the two sides.
    pub open spec fn is_side(self) -> bool {
        self != PlayerMark::Empty
    }

    /// The side that moves after `self` has moved. `Empty` has no opponent and
    /// stands for itself.
    pub open spec fn opponent_spec(self) -> PlayerMark {
        match self {
            PlayerMark::Cross => PlayerMark::Circle,
            PlayerMark::Circle => PlayerMark::Cross,
            PlayerMark::Empty => PlayerMark::Empty,
        }
    }

    /// The name of the mark on the wire.
    pub fn as_str(&self) -> (name: &'static str)
        ensures
            name@ == self.wire_name(),
    {
        match self {
            PlayerMark::Cross => "cross",
            PlayerMark::Circle => "circle",
            PlayerMark::Empty => "",
        }
    }

    /// The mark that a wire name stands for, if it is one of the three.
    pub open spec fn named(name: Seq<char>) -> Option<PlayerMark> {
        if name == "cross"@ {
            Some(PlayerMark::Cross)
        } else if name == "circle"@ {
            Some(PlayerMark::Circle)
        } else if name == ""@ {
            Some(PlayerMark::Empty)
        } else {
            None
        }
    }

    /// Reads a mark from its wire name.
    pub fn from_wire(name: &String) -> (mark: Option<PlayerMark>)
        ensures
            mark == Self::named(name@),
    {
        if *name == "cross".to_owned() {
            Some(PlayerMark::Cross)
        } else if *name == "circle".to_owned() {
            Some(PlayerMark::Circle)
        } else if *name == "".to_owned() {
            Some(PlayerMark::Empty)
        } else {
            None
        }
    }

    /// The side that moves after this one.
    #[verifier::when_used_as_spec(opponent_spec)]
    pub fn opponent(self) -> (other: PlayerMark)
        ensures
            other == self.opponent_spec(),
    {
        match self {
            PlayerMark::Cross => PlayerMark::Circle,
            PlayerMark::Circle => PlayerMark::Cross,
            PlayerMark::Empty => PlayerMark::Empty,
        }
    }

    /// The three wire names differ, so a name stands for one mark only, and
    /// reading the name of a mark gives the mark back.
    pub proof fn wire_names_differ(a: PlayerMark, b: PlayerMark)
        ensures
            a.wire_name() == b.wire_name() ==> a == b,
            Self::named(a.wire_name()) == Some(a),
    {
        reveal_strlit("cross");
        reveal_strlit("circle");
        reveal_strlit("");
        assert("cross"@.len() == 5);
        assert("circle"@.len() == 6);
        assert(""@.len() == 0);
    }

    /// The opponent of a side is the other side, and its opponent is the first
    /// again.
    pub proof fn opponent_is_other_side(m: PlayerMark)
        requires
            m.is_side(),
        ensures
            m.opponent_spec().is_side(),
            m.opponent_spec() != m,
            m.opponent_spec().opponent_spec() == m,
    {
    }
}

} // verus!
