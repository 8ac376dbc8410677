//! The session of one connection: what the broker decides at each event of
//! the connection's life.
//!
//! The caller owns the socket and the store. It tells the session what
//! happened, and does what the session answers: send a frame, read or write
//! the store, close. A step that is called out of its phase changes nothing
//! and answers `OutOfPhase`.

use vstd::prelude::*;
use crate::engine::{Fetched, MatchData, MatchError, MatchView, Persist, create_match, get_match, make_move};
use crate::frame::{ClientFrame, MoveRequest, ServerFrame, client_frame_of, decode_client_frame};
use crate::mark::PlayerMark;
use crate::path::{match_id_of, parse_match_path};
use crate::registry::{ConnectionRegistry, Delivery, is_broadcast_of};

verus! {

/// Where a connection stands in its life.
#[derive(Clone, Copy, Debug, PartialEq, Eq, Structural)]
pub enum Phase {
    /// The upgrade to a WebSocket has not ended yet.
    Handshaking,
    /// The match is being found or made.
    Resolving,
    /// The connection hears of its match and may move.
    Attached,
    /// The connection is over.
    Closed,
}

impl Phase {
    /// The place of the phase in a connection's life, which only goes
    /// forward.
    pub open spec fn rank(self) -> nat {
        match self {
            Phase::Handshaking => 0,
            Phase::Resolving => 1,
            Phase::Attached => 2,
            Phase::Closed => 3,
        }
    }
}

/// Why a step of a session did not go on.
#[derive(Clone, Copy, Debug, PartialEq, Eq, Structural)]
pub enum BrokerError {
    /// The upgrade failed.
    Handshake,
    /// The request path names no match.
    Path,
    /// The match engine or the store refused.
    Match(MatchError),
    /// The step does not belong to the phase the session is in.
    OutOfPhase,
}

/// One connection, as the broker knows it.
#[derive(Clone, Debug, PartialEq, Eq)]
pub struct Session {
    pub phase: Phase,
    /// The identity of the connection.
    pub user_id: String,
    /// The match the connection asked for, once its path is read.
    pub match_id: Option<String>,
    /// The side the connection plays, once its match is found or made.
    pub mark: Option<PlayerMark>,
}

/// What the caller does next for a session whose match is being resolved.
#[derive(Clone, Debug, PartialEq, Eq)]
pub enum Resolved {
    /// The match exists: send the frame.
    Joined(ServerFrame),
    /// The match does not exist: write the plan, then report with
    /// `on_created`.
    Create(Persist),
}

/// The number of characters of a connection identity that the broker draws.
pub const IDENTITY_LEN: usize = 36;

/// Calls `uuid::Uuid::new_v4` and writes the identifier with `to_string`.
/// Trusted: the text is the hyphenated form, 36 characters long. Which
/// identifier comes is left open: it is drawn at random, and the call does
/// not come back where the operating system has no random bytes to give.
#[verifier::external_body]
fn fresh_identity() -> (id: String)
    ensures
        id@.len() == IDENTITY_LEN,
{
    uuid::Uuid::new_v4().to_string()
}

/// The side of the connection `user_id` in a match: cross for the first
/// player, circle for everyone else.
pub open spec fn assigned_mark_spec(player_one: Seq<char>, user_id: Seq<char>) -> PlayerMark {
    if player_one == user_id {
        PlayerMark::Cross
    } else {
        PlayerMark::Circle
    }
}

/// Tells the side of the connection `user_id` in the match `data`.
pub fn assigned_mark(data: &MatchData, user_id: &String) -> (mark: PlayerMark)
    ensures
        mark == assigned_mark_spec(data.player_one@, user_id@),
{
    if data.player_one == *user_id {
        PlayerMark::Cross
    } else {
        PlayerMark::Circle
    }
}

/// The side that a move is made for: the one whose turn the match records.
pub open spec fn mover_spec(turn: PlayerMark) -> PlayerMark {
    if turn == PlayerMark::Cross {
        PlayerMark::Cross
    } else {
        PlayerMark::Circle
    }
}

/// A move in one match changes nothing of another: what is written goes
/// under the key of the match that moved, and the frame goes to no
/// connection that stands under the other match alone.
pub proof fn moves_stay_in_their_match<H>(
    store: Map<Seq<char>, MatchView>,
    plan: Persist,
    out: Seq<Delivery<H, ServerFrame>>,
    registry: Map<(Seq<char>, Seq<char>), H>,
    frame: &ServerFrame,
    other: Seq<char>,
    bystander: Seq<char>,
)
    requires
        other != plan.key@,
        is_broadcast_of(out, registry, plan.key@, frame),
        registry.contains_key((other, bystander)),
        !registry.contains_key((plan.key@, bystander)),
    ensures
        plan.apply(store).contains_key(other) == store.contains_key(other),
        store.contains_key(other) ==> plan.apply(store)[other] == store[other],
        forall|i: int| 0 <= i < out.len() ==> (#[trigger] out[i]).client.user_id@ != bystander,
{
}

impl Session {
    /// Whether the session waits for its request path.
    pub open spec fn awaits_path(self) -> bool {
        self.phase == Phase::Resolving && self.match_id is None
    }

    /// Whether the session waits for its match to be found or made.
    pub open spec fn awaits_match(self) -> bool {
        self.phase == Phase::Resolving && self.match_id is Some && self.mark is None
    }

    /// Whether the session has its match and is not yet attached.
    pub open spec fn is_resolved(self) -> bool {
        self.phase == Phase::Resolving && self.match_id is Some && self.mark is Some
    }

    /// Whether the session is attached to a match.
    pub open spec fn is_attached(self) -> bool {
        self.phase == Phase::Attached && self.match_id is Some
    }

    /// The place of the session in a registry.
    pub open spec fn key(self) -> (Seq<char>, Seq<char>)
        recommends
            self.match_id is Some,
    {
        (self.match_id->Some_0@, self.user_id@)
    }

    /// The frame that tells the connection of its match.
    pub open spec fn initial_frame(record: MatchData, mark: PlayerMark) -> ServerFrame {
        ServerFrame::InitialMatchData { board: record.board, turn: record.turn, mark }
    }

    /// A session for a connection that has just come in.
    pub fn new(user_id: String) -> (session: Session)
        ensures
            session.phase == Phase::Handshaking,
            session.user_id == user_id,
            session.match_id is None,
            session.mark is None,
    {
        Session { phase: Phase::Handshaking, user_id, match_id: None, mark: None }
    }

    /// A session for a connection that has just come in, under an identity
    /// drawn for it.
    pub fn open() -> (session: Session)
        ensures
            session.phase == Phase::Handshaking,
            session.user_id@.len() == IDENTITY_LEN,
            session.match_id is None,
            session.mark is None,
    {
        Session::new(fresh_identity())
    }

    /// The upgrade has ended. Where it went well the connection is told its
    /// identity and goes on to find its match; where not, it is over.
    pub fn on_handshake(&mut self, upgraded: bool) -> (step: Result<ServerFrame, BrokerError>)
        ensures
            old(self).phase.rank() <= final(self).phase.rank(),
            final(self).user_id == old(self).user_id,
            final(self).match_id == old(self).match_id,
            final(self).mark == old(self).mark,
            old(self).phase == Phase::Handshaking && upgraded ==> final(self).phase == Phase::Resolving && step
                == Ok::<ServerFrame, BrokerError>(ServerFrame::UserId { user_id: old(self).user_id }),
            old(self).phase == Phase::Handshaking && !upgraded ==> final(self).phase == Phase::Closed && step
                == Err::<ServerFrame, BrokerError>(BrokerError::Handshake),
            old(self).phase != Phase::Handshaking ==> final(self).phase == old(self).phase && step
                == Err::<ServerFrame, BrokerError>(BrokerError::OutOfPhase),
    {
        if self.phase != Phase::Handshaking {
            return Err(BrokerError::OutOfPhase);
        }
        if !upgraded {
            self.phase = Phase::Closed;
            return Err(BrokerError::Handshake);
        }
        self.phase = Phase::Resolving;
        Ok(ServerFrame::UserId { user_id: self.user_id.clone() })
    }

    /// The request path is known. Where it names a match, the answer is the
    /// identifier to read from the store; where not, the connection is over.
    pub fn on_path(&mut self, path: &str) -> (step: Result<String, BrokerError>)
        ensures
            old(self).phase.rank() <= final(self).phase.rank(),
            final(self).user_id == old(self).user_id,
            final(self).mark == old(self).mark,
            old(self).awaits_path() ==> match match_id_of(path@) {
                Some(id) => {
                    &&& final(self).phase == Phase::Resolving
                    &&& final(self).match_id is Some
                    &&& final(self).match_id->Some_0@ == id
                    &&& step is Ok
                    &&& step->Ok_0@ == id
                },
                None => {
                    &&& final(self).phase == Phase::Closed
                    &&& final(self).match_id is None
                    &&& step == Err::<String, BrokerError>(BrokerError::Path)
                },
            },
            !old(self).awaits_path() ==> *final(self) == *old(self) && step == Err::<String, BrokerError>(
                BrokerError::OutOfPhase,
            ),
    {
        if self.phase != Phase::Resolving || self.match_id.is_some() {
            return Err(BrokerError::OutOfPhase);
        }
        match parse_match_path(path) {
            Some(id) => {
                self.match_id = Some(id.clone());
                Ok(id)
            },
            None => {
                self.phase = Phase::Closed;
                Err(BrokerError::Path)
            },
        }
    }

    /// The store has answered the read of the match. A match that is there
    /// is joined; one that is not there is to be made, with this connection
    /// as its first player; any other answer ends the connection.
    pub fn on_fetched(&mut self, fetched: Fetched) -> (step: Result<Resolved, BrokerError>)
        ensures
            old(self).phase.rank() <= final(self).phase.rank(),
            final(self).user_id == old(self).user_id,
            final(self).match_id == old(self).match_id,
            old(self).awaits_match() ==> match fetched.outcome() {
                Ok(view) => {
                    let mark = assigned_mark_spec(view.player_one, old(self).user_id@);
                    &&& final(self).phase == Phase::Resolving
                    &&& final(self).mark == Some(mark)
                    &&& step == Ok::<Resolved, BrokerError>(
                        Resolved::Joined(Self::initial_frame(fetched->Record_0, mark)),
                    )
                },
                Err(MatchError::NotFound) => {
                    &&& final(self).phase == Phase::Resolving
                    &&& final(self).mark is None
                    &&& step is Ok
                    &&& step->Ok_0 is Create
                    &&& step->Ok_0->Create_0.key@ == old(self).match_id->Some_0@
                    &&& step->Ok_0->Create_0.record@ == MatchView::fresh(old(self).user_id@)
                    &&& step->Ok_0->Create_0.ttl_seconds == Some(crate::engine::RETENTION_SECONDS)
                },
                Err(why) => {
                    &&& final(self).phase == Phase::Closed
                    &&& final(self).mark is None
                    &&& step == Err::<Resolved, BrokerError>(BrokerError::Match(why))
                },
            },
            !old(self).awaits_match() ==> *final(self) == *old(self) && step == Err::<Resolved, BrokerError>(
                BrokerError::OutOfPhase,
            ),
    {
        if self.phase != Phase::Resolving || self.mark.is_some() {
            return Err(BrokerError::OutOfPhase);
        }
        match &self.match_id {
            None => Err(BrokerError::OutOfPhase),
            Some(match_id) => match get_match(fetched) {
                Ok(data) => {
                    let mark = assigned_mark(&data, &self.user_id);
                    self.mark = Some(mark);
                    Ok(Resolved::Joined(ServerFrame::InitialMatchData { board: data.board, turn: data.turn, mark }))
                },
                Err(MatchError::NotFound) => Ok(Resolved::Create(create_match(match_id, self.user_id.clone()))),
                Err(why) => {
                    self.phase = Phase::Closed;
                    Err(BrokerError::Match(why))
                },
            },
        }
    }

    /// The caller has tried to write the match that `on_fetched` asked for.
    /// Where the store took it, the match is joined; where not, the
    /// connection is over.
    pub fn on_created(&mut self, plan: Persist, written: bool) -> (step: Result<ServerFrame, BrokerError>)
        ensures
            old(self).phase.rank() <= final(self).phase.rank(),
            final(self).user_id == old(self).user_id,
            final(self).match_id == old(self).match_id,
            old(self).awaits_match() && written ==> {
                let mark = assigned_mark_spec(plan.record.player_one@, old(self).user_id@);
                &&& final(self).phase == Phase::Resolving
                &&& final(self).mark == Some(mark)
                &&& step == Ok::<ServerFrame, BrokerError>(Self::initial_frame(plan.record, mark))
            },
            old(self).awaits_match() && !written ==> {
                &&& final(self).phase == Phase::Closed
                &&& final(self).mark is None
                &&& step == Err::<ServerFrame, BrokerError>(BrokerError::Match(MatchError::Store))
            },
            !old(self).awaits_match() ==> *final(self) == *old(self) && step == Err::<ServerFrame, BrokerError>(
                BrokerError::OutOfPhase,
            ),
    {
        if self.phase != Phase::Resolving || self.mark.is_some() || self.match_id.is_none() {
            return Err(BrokerError::OutOfPhase);
        }
        if !written {
            self.phase = Phase::Closed;
            return Err(BrokerError::Match(MatchError::Store));
        }
        let mark = assigned_mark(&plan.record, &self.user_id);
        self.mark = Some(mark);
        let record = plan.record;
        Ok(ServerFrame::InitialMatchData { board: record.board, turn: record.turn, mark })
    }

    /// Puts the connection, with its match resolved, into the registry: from
    /// now on it hears of every move of its match. Out of phase the handle
    /// comes back.
    pub fn attach<H>(&mut self, registry: &mut ConnectionRegistry<H>, handle: H) -> (step: Result<(), H>)
        requires
            old(registry).wf(),
        ensures
            final(registry).wf(),
            old(self).phase.rank() <= final(self).phase.rank(),
            final(self).user_id == old(self).user_id,
            final(self).match_id == old(self).match_id,
            final(self).mark == old(self).mark,
            old(self).is_resolved() ==> {
                &&& final(self).phase == Phase::Attached
                &&& final(registry)@ == old(registry)@.insert(old(self).key(), handle)
                &&& step is Ok
            },
            !old(self).is_resolved() ==> {
                &&& final(self).phase == old(self).phase
                &&& final(registry)@ == old(registry)@
                &&& step == Err::<(), H>(handle)
            },
    {
        if self.phase != Phase::Resolving || self.mark.is_none() {
            return Err(handle);
        }
        match &self.match_id {
            None => Err(handle),
            Some(match_id) => {
                registry.register(match_id, &self.user_id, handle);
                self.phase = Phase::Attached;
                Ok(())
            },
        }
    }

    /// Tells what a frame from the client asks for: the move, where the
    /// session is attached and the frame is a move onto the board.
    pub fn on_frame(&self, frame: ClientFrame) -> (request: Option<MoveRequest>)
        ensures
            request == self.request_of(frame),
    {
        if self.phase != Phase::Attached || self.match_id.is_none() {
            return None;
        }
        match frame {
            ClientFrame::Move(request) => {
                if request.cell().is_some() {
                    Some(request)
                } else {
                    None
                }
            },
            _ => None,
        }
    }

    /// The move that a frame asks this session for.
    pub open spec fn request_of(self, frame: ClientFrame) -> Option<MoveRequest> {
        if self.is_attached() && frame is Move && frame->Move_0.in_range() {
            Some(frame->Move_0)
        } else {
            None
        }
    }

    /// A text frame has come in. The answer is the move it asks for, if it
    /// asks for one: the caller then reads the match and reports with
    /// `on_move`. Any other text is passed over.
    pub fn on_text(&self, text: &str) -> (request: Option<MoveRequest>)
        ensures
            request == self.request_of(client_frame_of(text@)),
    {
        self.on_frame(decode_client_frame(text))
    }

    /// What a move comes to in a match with the value `current`: the match
    /// after it, moved for the side whose turn it is, or the refusal.
    pub open spec fn move_outcome(current: Result<MatchView, MatchError>, request: MoveRequest) -> Result<
        MatchView,
        MatchError,
    > {
        match current {
            Err(why) => Err(why),
            Ok(view) => match request.cell_spec() {
                None => Err(MatchError::OutOfBounds),
                Some(at) => view.move_outcome(mover_spec(view.turn), at.0 as int, at.1 as int),
            },
        }
    }

    /// The store has answered the read that comes before a move. The move is
    /// made for the side whose turn the match records. Where it is accepted
    /// the answer is what to write; where not, nothing is to be written or
    /// sent. The session stays attached either way.
    pub fn on_move(&self, fetched: Fetched, request: MoveRequest) -> (step: Result<Persist, BrokerError>)
        ensures
            self.is_attached() ==> match Self::move_outcome(fetched.outcome(), request) {
                Ok(after) => {
                    &&& step is Ok
                    &&& step->Ok_0.key@ == self.match_id->Some_0@
                    &&& step->Ok_0.record@ == after
                    &&& step->Ok_0.record@.wf()
                    &&& step->Ok_0.ttl_seconds == None::<u64>
                },
                Err(why) => step == Err::<Persist, BrokerError>(BrokerError::Match(why)),
            },
            !self.is_attached() ==> step == Err::<Persist, BrokerError>(BrokerError::OutOfPhase),
    {
        if self.phase != Phase::Attached {
            return Err(BrokerError::OutOfPhase);
        }
        match &self.match_id {
            None => Err(BrokerError::OutOfPhase),
            Some(match_id) => {
                let current = match get_match(fetched) {
                    Ok(data) => data,
                    Err(why) => {
                        return Err(BrokerError::Match(why));
                    },
                };
                let at = match request.cell() {
                    Some(at) => at,
                    None => {
                        return Err(BrokerError::Match(MatchError::OutOfBounds));
                    },
                };
                let mark = if current.turn == PlayerMark::Cross {
                    PlayerMark::Cross
                } else {
                    PlayerMark::Circle
                };
                match make_move(match_id, current, mark, at.0, at.1) {
                    Ok(plan) => Ok(plan),
                    Err(why) => Err(BrokerError::Match(why)),
                }
            },
        }
    }

    /// The caller has tried to write the match after a move. Where the store
    /// took it, the answer is the frame that tells of the move; where not,
    /// nothing is to be sent.
    pub fn on_moved(&self, plan: Persist, request: MoveRequest, written: bool) -> (step: Result<
        ServerFrame,
        BrokerError,
    >)
        ensures
            self.is_attached() && written ==> step == Ok::<ServerFrame, BrokerError>(
                ServerFrame::Move {
                    board: plan.record.board,
                    turn: plan.record.turn,
                    active_grid: crate::frame::GridPoint { x: request.x, y: request.y },
                },
            ),
            self.is_attached() && !written ==> step == Err::<ServerFrame, BrokerError>(
                BrokerError::Match(MatchError::Store),
            ),
            !self.is_attached() ==> step == Err::<ServerFrame, BrokerError>(BrokerError::OutOfPhase),
    {
        if self.phase != Phase::Attached || self.match_id.is_none() {
            return Err(BrokerError::OutOfPhase);
        }
        if !written {
            return Err(BrokerError::Match(MatchError::Store));
        }
        let record = plan.record;
        Ok(ServerFrame::Move { board: record.board, turn: record.turn, active_grid: request.active_grid() })
    }

    /// The deliveries that carry `frame` to every connection of this
    /// session's match, one each. A session that is not attached reaches
    /// nobody.
    pub fn announce<'a, H>(&self, registry: &'a ConnectionRegistry<H>, frame: &'a ServerFrame) -> (out: Vec<
        Delivery<'a, H, ServerFrame>,
    >)
        requires
            registry.wf(),
        ensures
            self.is_attached() ==> is_broadcast_of(
                out@,
                registry@,
                self.match_id->Some_0@,
                frame,
            ),
            !self.is_attached() ==> out@.len() == 0,
    {
        if self.phase != Phase::Attached {
            return Vec::new();
        }
        match &self.match_id {
            None => Vec::new(),
            Some(match_id) => registry.broadcast(match_id, frame),
        }
    }

    /// The connection is over: it leaves the registry, where it stood there,
    /// and its handle comes back.
    pub fn close<H>(&mut self, registry: &mut ConnectionRegistry<H>) -> (handle: Option<H>)
        requires
            old(registry).wf(),
        ensures
            final(registry).wf(),
            final(self).phase == Phase::Closed,
            old(self).phase.rank() <= final(self).phase.rank(),
            final(self).user_id == old(self).user_id,
            final(self).match_id == old(self).match_id,
            final(self).mark == old(self).mark,
            old(self).is_attached() ==> {
                &&& final(registry)@ == old(registry)@.remove(old(self).key())
                &&& handle == if old(registry)@.contains_key(old(self).key()) {
                    Some(old(registry)@[old(self).key()])
                } else {
                    None
                }
            },
            !old(self).is_attached() ==> final(registry)@ == old(registry)@ && handle is None,
    {
        let was_attached = self.phase == Phase::Attached;
        self.phase = Phase::Closed;
        if !was_attached {
            return None;
        }
        match &self.match_id {
            None => None,
            Some(match_id) => registry.unregister(match_id, &self.user_id),
        }
    }
}

} // verus!
