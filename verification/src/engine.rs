//! The rules of a match: its state, how it is made, read and moved on.
//!
//! A match lives in a key-value store that the caller owns. Each rule here
//! takes what the caller read from the store and hands back, as a
//! [`Persist`], what the caller has to write.

use vstd::prelude::*;
use crate::mark::PlayerMark;

verus! {

/// The side length of the board.
pub const BOARD_SIDE: usize = 9;

/// How long the store keeps a match that nobody writes to, in seconds.
pub const RETENTION_SECONDS: u64 = 7200;

/// Why a rule of the match engine refused.
#[derive(Clone, Copy, Debug, PartialEq, Eq, Structural)]
pub enum MatchError {
    /// The store holds nothing under the match identifier.
    NotFound,
    /// What the store holds is not a match.
    Deserialization,
    /// The store could not be reached, or refused.
    Store,
    /// The cell already holds a mark.
    OccupiedCell,
    /// The coordinates lie outside the board.
    OutOfBounds,
    /// `Empty` was given as the mark to place.
    EmptyMark,
}

/// One match, as it is stored.
#[derive(Clone, Debug, PartialEq, Eq)]
pub struct MatchData {
    pub player_one: String,
    pub player_two: Option<String>,
    pub turn: PlayerMark,
    pub board: Vec<Vec<PlayerMark>>,
}

/// The mathematical value of a [`MatchData`].
pub ghost struct MatchView {
    pub player_one: Seq<char>,
    pub player_two: Option<Seq<char>>,
    pub turn: PlayerMark,
    pub board: Seq<Seq<PlayerMark>>,
}

impl MatchView {
    /// The board is nine by nine and one of the two sides is to move.
    pub open spec fn wf(self) -> bool {
        &&& self.turn.is_side()
        &&& self.board.len() == BOARD_SIDE
        &&& forall|col: int| 0 <= col < self.board.len() ==> (#[trigger] self.board[col]).len() == BOARD_SIDE
    }

    /// Whether `(col, row)` names a cell of the board.
    pub open spec fn has_cell(self, col: int, row: int) -> bool {
        0 <= col < self.board.len() && 0 <= row < self.board[col].len()
    }

    /// The match that a first player opens: every cell empty, cross to move,
    /// no second player.
    pub open spec fn fresh(player_one: Seq<char>) -> MatchView {
        MatchView {
            player_one,
            player_two: None,
            turn: PlayerMark::Cross,
            board: Seq::new(BOARD_SIDE as nat, |col: int| Seq::new(BOARD_SIDE as nat, |row: int| PlayerMark::Empty)),
        }
    }

    /// The match after `mark` went to `(col, row)`: that one cell holds
    /// `mark`, and the other side is to move.
    pub open spec fn with_move(self, mark: PlayerMark, col: int, row: int) -> MatchView {
        MatchView {
            turn: mark.opponent_spec(),
            board: self.board.update(col, self.board[col].update(row, mark)),
            ..self
        }
    }

    /// The match after a second player was seen.
    pub open spec fn with_player_two(self, player_two: Seq<char>) -> MatchView {
        MatchView { player_two: Some(player_two), ..self }
    }

    /// What a move of `mark` to `(col, row)` comes to: the match after it, or
    /// the reason it is refused.
    pub open spec fn move_outcome(self, mark: PlayerMark, col: int, row: int) -> Result<MatchView, MatchError> {
        if !self.has_cell(col, row) {
            Err(MatchError::OutOfBounds)
        } else if self.board[col][row] != PlayerMark::Empty {
            Err(MatchError::OccupiedCell)
        } else if mark == PlayerMark::Empty {
            Err(MatchError::EmptyMark)
        } else {
            Ok(self.with_move(mark, col, row))
        }
    }
}

impl View for MatchData {
    type V = MatchView;

    open spec fn view(&self) -> MatchView {
        MatchView {
            player_one: self.player_one@,
            player_two: match self.player_two {
                Some(p) => Some(p@),
                None => None,
            },
            turn: self.turn,
            board: self.board@.map_values(|line: Vec<PlayerMark>| line@),
        }
    }
}

impl MatchData {
    /// Tests the invariant of a match.
    pub fn is_well_formed(&self) -> (ok: bool)
        ensures
            ok == self@.wf(),
    {
        if self.turn == PlayerMark::Empty || self.board.len() != BOARD_SIDE {
            return false;
        }
        let mut col: usize = 0;
        while col < BOARD_SIDE
            invariant
                col <= BOARD_SIDE,
                self.board.len() == BOARD_SIDE,
                self.turn.is_side(),
                forall|c: int| 0 <= c < col ==> (#[trigger] self@.board[c]).len() == BOARD_SIDE,
            decreases BOARD_SIDE - col,
        {
            if self.board[col].len() != BOARD_SIDE {
                assert(self@.board[col as int].len() != BOARD_SIDE);
                return false;
            }
            col += 1;
        }
        true
    }

    /// Places `mark` on `(x, y)` and hands the turn to the other side. A move
    /// that is refused leaves the match as it was.
    pub fn place(&mut self, mark: PlayerMark, x: usize, y: usize) -> (done: Result<(), MatchError>)
        ensures
            match old(self)@.move_outcome(mark, x as int, y as int) {
                Ok(after) => done == Ok::<(), MatchError>(()) && final(self)@ == after,
                Err(why) => done == Err::<(), MatchError>(why) && *final(self) == *old(self),
            },
            old(self)@.wf() ==> final(self)@.wf(),
    {
        if x >= self.board.len() {
            return Err(MatchError::OutOfBounds);
        }
        if y >= self.board[x].len() {
            return Err(MatchError::OutOfBounds);
        }
        if self.board[x][y] != PlayerMark::Empty {
            return Err(MatchError::OccupiedCell);
        }
        if mark == PlayerMark::Empty {
            return Err(MatchError::EmptyMark);
        }
        self.board[x][y] = mark;
        self.turn = mark.opponent();
        proof {
            let after = old(self)@.with_move(mark, x as int, y as int);
            assert(self@.board =~= after.board);
        }
        Ok(())
    }
}

/// What the caller has to write to the store: `record` under `key`, to be
/// kept for `ttl_seconds` where that is given, and with no change to the time
/// the key is kept for where it is not.
#[derive(Clone, Debug, PartialEq, Eq)]
pub struct Persist {
    pub key: String,
    pub record: MatchData,
    pub ttl_seconds: Option<u64>,
}

impl Persist {
    /// The store after the write, as a map from match identifier to match.
    pub open spec fn apply(self, store: Map<Seq<char>, MatchView>) -> Map<Seq<char>, MatchView> {
        store.insert(self.key@, self.record@)
    }
}

/// What the caller got when it read a match identifier from the store.
#[derive(Clone, Debug, PartialEq, Eq)]
pub enum Fetched {
    /// The store could not be reached, or refused.
    Unavailable,
    /// The store holds nothing under the identifier.
    Absent,
    /// What the store holds could not be read as a match.
    Malformed,
    /// What the store holds, read as a match, with nothing tested yet.
    Record(MatchData),
}

impl Fetched {
    /// What a read comes to: the match, or the reason there is none.
    pub open spec fn outcome(self) -> Result<MatchView, MatchError> {
        match self {
            Fetched::Unavailable => Err(MatchError::Store),
            Fetched::Absent => Err(MatchError::NotFound),
            Fetched::Malformed => Err(MatchError::Deserialization),
            Fetched::Record(data) => if data@.wf() {
                Ok(data@)
            } else {
                Err(MatchError::Deserialization)
            },
        }
    }

    /// Whether this is what a store in the state `store` answers when it is
    /// read under `id`. A stored value that is no well-formed match may come
    /// back either as `Malformed` or as the record it is.
    pub open spec fn answers(self, store: Map<Seq<char>, MatchView>, id: Seq<char>) -> bool {
        match self {
            Fetched::Unavailable => false,
            Fetched::Absent => !store.contains_key(id),
            Fetched::Malformed => store.contains_key(id) && !store[id].wf(),
            Fetched::Record(data) => store.contains_key(id) && store[id] == data@,
        }
    }
}

/// Whether every name of a stored board is the wire name of a mark.
pub open spec fn all_named(names: Vec<Vec<String>>) -> bool {
    forall|col: int, row: int|
        0 <= col < names.len() && 0 <= row < names[col].len() ==> PlayerMark::named(
            #[trigger] names[col][row]@,
        ) is Some
}

/// Whether `board` holds, cell by cell, the marks that `names` name.
pub open spec fn board_reads(names: Vec<Vec<String>>, board: Seq<Seq<PlayerMark>>) -> bool {
    &&& board.len() == names.len()
    &&& forall|col: int| 0 <= col < names.len() ==> (#[trigger] board[col]).len() == names[col].len()
    &&& forall|col: int, row: int|
        0 <= col < names.len() && 0 <= row < names[col].len() ==> PlayerMark::named(names[col][row]@) == Some(
            #[trigger] board[col][row],
        )
}

/// Reads one line of a stored board.
fn line_from_names(names: &Vec<String>) -> (line: Option<Vec<PlayerMark>>)
    ensures
        line is Some <==> forall|row: int| 0 <= row < names.len() ==> PlayerMark::named(#[trigger] names[row]@) is Some,
        line is Some ==> line->Some_0.len() == names.len() && forall|row: int|
            0 <= row < names.len() ==> PlayerMark::named(names[row]@) == Some(#[trigger] line->Some_0[row]),
{
    let mut line: Vec<PlayerMark> = Vec::new();
    let mut row: usize = 0;
    while row < names.len()
        invariant
            row <= names.len(),
            line.len() == row,
            forall|r: int| 0 <= r < row ==> PlayerMark::named(#[trigger] names[r]@) is Some,
            forall|r: int| 0 <= r < row ==> PlayerMark::named(names[r]@) == Some(#[trigger] line[r]),
        decreases names.len() - row,
    {
        match PlayerMark::from_wire(&names[row]) {
            Some(mark) => line.push(mark),
            None => {
                return None;
            },
        }
        row += 1;
    }
    Some(line)
}

/// Puts together what was read from the store: the players as they stand,
/// the side to move and the cells from their wire names. A name that is no
/// mark's makes the whole `Malformed`; the shape of the board is not tested
/// here.
pub fn read_stored(
    player_one: String,
    player_two: Option<String>,
    turn: &String,
    board: &Vec<Vec<String>>,
) -> (fetched: Fetched)
    ensures
        PlayerMark::named(turn@) is Some && all_named(*board) ==> {
            &&& fetched is Record
            &&& fetched->Record_0.player_one == player_one
            &&& fetched->Record_0.player_two == player_two
            &&& Some(fetched->Record_0.turn) == PlayerMark::named(turn@)
            &&& board_reads(*board, fetched->Record_0@.board)
        },
        !(PlayerMark::named(turn@) is Some && all_named(*board)) ==> fetched is Malformed,
{
    let turn = match PlayerMark::from_wire(turn) {
        Some(mark) => mark,
        None => {
            return Fetched::Malformed;
        },
    };
    let mut cells: Vec<Vec<PlayerMark>> = Vec::new();
    let mut col: usize = 0;
    while col < board.len()
        invariant
            col <= board.len(),
            cells.len() == col,
            forall|c: int| 0 <= c < col ==> (#[trigger] cells[c]).len() == board[c].len(),
            forall|c: int, r: int|
                0 <= c < col && 0 <= r < board[c].len() ==> PlayerMark::named(#[trigger] board[c][r]@) is Some,
            forall|c: int, r: int|
                0 <= c < col && 0 <= r < board[c].len() ==> PlayerMark::named(board[c][r]@) == Some(
                    #[trigger] cells[c][r],
                ),
        decreases board.len() - col,
    {
        match line_from_names(&board[col]) {
            Some(line) => cells.push(line),
            None => {
                assert(!all_named(*board)) by {
                    let r = choose|r: int| 0 <= r < board[col as int].len() && !(PlayerMark::named(
                        #[trigger] board[col as int][r]@,
                    ) is Some);
                    assert(PlayerMark::named(board[col as int][r]@) is None);
                }
                return Fetched::Malformed;
            },
        }
        col += 1;
    }
    let record = MatchData { player_one, player_two, turn, board: cells };
    proof {
        assert(record@.board.len() == board.len());
        assert forall|c: int| 0 <= c < board.len() implies (#[trigger] record@.board[c]).len() == board[c].len() by {
            assert(record@.board[c] == cells[c]@);
        }
        assert forall|c: int, r: int| 0 <= c < board.len() && 0 <= r < board[c].len() implies PlayerMark::named(
            board[c][r]@,
        ) == Some(#[trigger] record@.board[c][r]) by {
            assert(record@.board[c] == cells[c]@);
        }
    }
    Fetched::Record(record)
}

/// Whether `names` holds, cell by cell, the wire names of the marks of
/// `board`.
pub open spec fn names_board(names: Vec<Vec<&'static str>>, board: Vec<Vec<PlayerMark>>) -> bool {
    &&& names.len() == board.len()
    &&& forall|col: int| 0 <= col < board.len() ==> (#[trigger] names[col]).len() == board[col].len()
    &&& forall|col: int, row: int|
        0 <= col < board.len() && 0 <= row < board[col].len() ==> (#[trigger] names[col][row])@
            == board[col][row].wire_name()
}

/// The wire names of the cells of a board, line by line.
pub fn board_names(board: &Vec<Vec<PlayerMark>>) -> (names: Vec<Vec<&'static str>>)
    ensures
        names_board(names, *board),
{
    let mut names: Vec<Vec<&'static str>> = Vec::new();
    let mut col: usize = 0;
    while col < board.len()
        invariant
            col <= board.len(),
            names.len() == col,
            forall|c: int| 0 <= c < col ==> (#[trigger] names[c]).len() == board[c].len(),
            forall|c: int, r: int|
                0 <= c < col && 0 <= r < board[c].len() ==> (#[trigger] names[c][r])@ == board[c][r].wire_name(),
        decreases board.len() - col,
    {
        let mut line: Vec<&'static str> = Vec::new();
        let mut row: usize = 0;
        while row < board[col].len()
            invariant
                col < board.len(),
                row <= board[col as int].len(),
                line.len() == row,
                forall|r: int| 0 <= r < row ==> (#[trigger] line[r])@ == board[col as int][r].wire_name(),
            decreases board[col as int].len() - row,
        {
            line.push(board[col][row].as_str());
            row += 1;
        }
        names.push(line);
        col += 1;
    }
    names
}

/// A board with every cell empty.
pub fn empty_board() -> (board: Vec<Vec<PlayerMark>>)
    ensures
        board@.map_values(|line: Vec<PlayerMark>| line@) == MatchView::fresh(Seq::empty()).board,
{
    let mut board: Vec<Vec<PlayerMark>> = Vec::new();
    let mut col: usize = 0;
    while col < BOARD_SIDE
        invariant
            col <= BOARD_SIDE,
            board.len() == col,
            forall|c: int| 0 <= c < col ==> (#[trigger] board[c])@ == Seq::new(BOARD_SIDE as nat, |r: int| PlayerMark::Empty),
        decreases BOARD_SIDE - col,
    {
        let mut line: Vec<PlayerMark> = Vec::new();
        let mut row: usize = 0;
        while row < BOARD_SIDE
            invariant
                row <= BOARD_SIDE,
                line.len() == row,
                forall|r: int| 0 <= r < row ==> line[r] == PlayerMark::Empty,
            decreases BOARD_SIDE - row,
        {
            line.push(PlayerMark::Empty);
            row += 1;
        }
        assert(line@ =~= Seq::new(BOARD_SIDE as nat, |r: int| PlayerMark::Empty));
        board.push(line);
        col += 1;
    }
    assert(board@.map_values(|line: Vec<PlayerMark>| line@) =~= MatchView::fresh(Seq::empty()).board);
    board
}

/// Opens the match `match_id` for its first player: an empty board, cross to
/// move, to be stored for the retention time.
pub fn create_match(match_id: &String, player_one: String) -> (plan: Persist)
    ensures
        plan.key@ == match_id@,
        plan.record@ == MatchView::fresh(player_one@),
        plan.record@.wf(),
        plan.ttl_seconds == Some(RETENTION_SECONDS),
{
    let record = MatchData {
        player_one,
        player_two: None,
        turn: PlayerMark::Cross,
        board: empty_board(),
    };
    Persist { key: match_id.clone(), record, ttl_seconds: Some(RETENTION_SECONDS) }
}

/// Tells what a read of the store comes to. Only a record that is a
/// well-formed match is handed on.
pub fn get_match(fetched: Fetched) -> (found: Result<MatchData, MatchError>)
    ensures
        match fetched.outcome() {
            Ok(view) => found is Ok && found->Ok_0@ == view && fetched == Fetched::Record(found->Ok_0),
            Err(why) => found == Err::<MatchData, MatchError>(why),
        },
{
    match fetched {
        Fetched::Unavailable => Err(MatchError::Store),
        Fetched::Absent => Err(MatchError::NotFound),
        Fetched::Malformed => Err(MatchError::Deserialization),
        Fetched::Record(data) => {
            if data.is_well_formed() {
                Ok(data)
            } else {
                Err(MatchError::Deserialization)
            }
        },
    }
}

/// Notes the second player of the match `match_id`. The write keeps the time
/// that is left to the key.
pub fn update_match(match_id: &String, current: MatchData, player_two: String) -> (plan: Persist)
    ensures
        plan.key@ == match_id@,
        plan.record@ == current@.with_player_two(player_two@),
        current@.wf() ==> plan.record@.wf(),
        plan.ttl_seconds == None::<u64>,
{
    let mut record = current;
    record.player_two = Some(player_two);
    Persist { key: match_id.clone(), record, ttl_seconds: None }
}

/// Moves `mark` to `(x, y)` in the match `match_id`, whose state the caller
/// has just read as `current`. A move that is refused gives nothing to write.
/// Whether `mark` is the side to move is for the caller to see to.
pub fn make_move(match_id: &String, current: MatchData, mark: PlayerMark, x: usize, y: usize) -> (plan: Result<Persist, MatchError>)
    ensures
        match current@.move_outcome(mark, x as int, y as int) {
            Ok(after) => {
                &&& plan is Ok
                &&& plan->Ok_0.key@ == match_id@
                &&& plan->Ok_0.record@ == after
                &&& plan->Ok_0.ttl_seconds == None::<u64>
            },
            Err(why) => plan == Err::<Persist, MatchError>(why),
        },
        current@.wf() && plan is Ok ==> plan->Ok_0.record@.wf(),
{
    let mut record = current;
    match record.place(mark, x, y) {
        Ok(()) => Ok(Persist { key: match_id.clone(), record, ttl_seconds: None }),
        Err(why) => Err(why),
    }
}

/// A move onto a cell that holds a mark is refused as `OccupiedCell`, whatever
/// the mark, and nothing is written: the match stays as it was.
pub proof fn occupied_cell_refuses(current: MatchView, mark: PlayerMark, col: int, row: int)
    requires
        current.has_cell(col, row),
        current.board[col][row] != PlayerMark::Empty,
    ensures
        current.move_outcome(mark, col, row) == Err::<MatchView, MatchError>(MatchError::OccupiedCell),
{
}

/// After a move that was accepted the other side is to move, never `Empty`;
/// the cell holds the mark, and every other cell and both players are as
/// before.
pub proof fn accepted_move_hands_turn_over(current: MatchView, mark: PlayerMark, col: int, row: int)
    requires
        current.move_outcome(mark, col, row) is Ok,
    ensures
        ({
            let after = current.move_outcome(mark, col, row)->Ok_0;
            &&& after.turn == mark.opponent_spec()
            &&& after.turn != mark
            &&& after.turn != PlayerMark::Empty
            &&& after.board[col][row] == mark
            &&& after.player_one == current.player_one
            &&& after.player_two == current.player_two
            &&& after.board.len() == current.board.len()
            &&& forall|c: int, r: int| current.has_cell(c, r) && (c != col || r != row)
                    ==> after.has_cell(c, r) && after.board[c][r] == current.board[c][r]
        }),
{
}

/// Two reads of one match identifier with no write in between come to the
/// same: the same board, turn and players, or the same refusal.
pub proof fn get_match_repeats(store: Map<Seq<char>, MatchView>, id: Seq<char>, first: Fetched, second: Fetched)
    requires
        first.answers(store, id),
        second.answers(store, id),
    ensures
        first.outcome() == second.outcome(),
{
}

/// A write changes the match under its own key and no other.
pub proof fn persist_touches_one_match(store: Map<Seq<char>, MatchView>, plan: Persist, other: Seq<char>)
    requires
        other != plan.key@,
    ensures
        plan.apply(store).contains_key(other) == store.contains_key(other),
        store.contains_key(other) ==> plan.apply(store)[other] == store[other],
        plan.apply(store).contains_key(plan.key@),
        plan.apply(store)[plan.key@] == plan.record@,
{
}

} // verus!
