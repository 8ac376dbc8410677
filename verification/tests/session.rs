use match_broker::engine::{Fetched, MatchData, MatchError, Persist};
use match_broker::frame::{GridPoint, MoveRequest, ServerFrame};
use match_broker::mark::PlayerMark;
use match_broker::registry::ConnectionRegistry;
use match_broker::session::{assigned_mark, BrokerError, Phase, Resolved, Session};

fn s(text: &str) -> String {
    text.to_string()
}

fn empty_cells() -> Vec<Vec<PlayerMark>> {
    vec![vec![PlayerMark::Empty; 9]; 9]
}

/// Brings a connection up to the point where its match is read.
fn resolving(user_id: &str, path: &str) -> Session {
    let mut session = Session::new(s(user_id));
    assert_eq!(session.on_handshake(true), Ok(ServerFrame::UserId { user_id: s(user_id) }));
    assert!(session.on_path(path).is_ok());
    session
}

/// Opens the match `abc` as its first player and attaches.
fn first_player(registry: &mut ConnectionRegistry<u32>, user_id: &str, handle: u32) -> (Session, MatchData) {
    let mut session = resolving(user_id, "/match/abc");
    let plan = match session.on_fetched(Fetched::Absent) {
        Ok(Resolved::Create(plan)) => plan,
        other => panic!("no plan: {:?}", other),
    };
    let stored = plan.record.clone();
    assert!(session.on_created(plan, true).is_ok());
    assert_eq!(session.attach(registry, handle), Ok(()));
    (session, stored)
}

/// Joins the match `abc` as it is stored and attaches.
fn joiner(registry: &mut ConnectionRegistry<u32>, user_id: &str, handle: u32, stored: &MatchData) -> Session {
    let mut session = resolving(user_id, "/match/abc");
    assert!(session.on_fetched(Fetched::Record(stored.clone())).is_ok());
    assert_eq!(session.attach(registry, handle), Ok(()));
    session
}

fn handles(registry: &ConnectionRegistry<u32>, session: &Session, frame: &ServerFrame) -> Vec<u32> {
    let mut out: Vec<u32> = session
        .announce(registry, frame)
        .iter()
        .map(|delivery| {
            assert_eq!(delivery.message, frame);
            delivery.client.sender
        })
        .collect();
    out.sort();
    out
}

#[test]
fn new_session_is_handshaking() {
    let session = Session::new(s("U1"));
    assert_eq!(session.phase, Phase::Handshaking);
    assert_eq!(session.user_id, "U1");
    assert_eq!(session.match_id, None);
    assert_eq!(session.mark, None);
}

#[test]
fn handshake_tells_the_identity() {
    let mut session = Session::new(s("U1"));
    assert_eq!(session.on_handshake(true), Ok(ServerFrame::UserId { user_id: s("U1") }));
    assert_eq!(session.phase, Phase::Resolving);
}

#[test]
fn failed_handshake_ends_the_connection() {
    let mut session = Session::new(s("U1"));
    assert_eq!(session.on_handshake(false), Err(BrokerError::Handshake));
    assert_eq!(session.phase, Phase::Closed);
    assert_eq!(session.on_handshake(true), Err(BrokerError::OutOfPhase));
    assert_eq!(session.on_path("/match/abc"), Err(BrokerError::OutOfPhase));
    assert_eq!(session.phase, Phase::Closed);
}

#[test]
fn path_gives_the_match_to_read() {
    let mut session = Session::new(s("U1"));
    session.on_handshake(true).unwrap();
    assert_eq!(session.on_path("/match/abc"), Ok(s("abc")));
    assert_eq!(session.phase, Phase::Resolving);
    assert_eq!(session.match_id, Some(s("abc")));
}

#[test]
fn bad_path_ends_the_connection() {
    let mut session = Session::new(s("U1"));
    session.on_handshake(true).unwrap();
    assert_eq!(session.on_path("/match/ABC"), Err(BrokerError::Path));
    assert_eq!(session.phase, Phase::Closed);
    assert_eq!(session.match_id, None);
}

#[test]
fn path_before_handshake_is_out_of_phase() {
    let mut session = Session::new(s("U1"));
    assert_eq!(session.on_path("/match/abc"), Err(BrokerError::OutOfPhase));
    assert_eq!(session, Session::new(s("U1")));
}

#[test]
fn fresh_match_scenario() {
    let mut session = resolving("U1", "/match/abc");
    let plan = match session.on_fetched(Fetched::Absent) {
        Ok(Resolved::Create(plan)) => plan,
        other => panic!("no plan: {:?}", other),
    };
    assert_eq!(plan.key, "abc");
    assert_eq!(plan.ttl_seconds, Some(7200));
    assert_eq!(plan.record.player_one, "U1");
    assert_eq!(plan.record.player_two, None);
    assert_eq!(plan.record.turn, PlayerMark::Cross);
    assert_eq!(plan.record.board, empty_cells());
    assert_eq!(session.mark, None);

    let frame = session.on_created(plan, true).unwrap();
    assert_eq!(
        frame,
        ServerFrame::InitialMatchData { board: empty_cells(), turn: PlayerMark::Cross, mark: PlayerMark::Cross }
    );
    assert_eq!(frame.kind(), "initial_match_data");
    assert_eq!(session.mark, Some(PlayerMark::Cross));
    assert_eq!(session.mark.unwrap().as_str(), "cross");
    assert_eq!(session.phase, Phase::Resolving);
}

#[test]
fn second_participant_scenario() {
    let mut registry = ConnectionRegistry::new();
    let (first, stored) = first_player(&mut registry, "U1", 1);
    let request = first.on_text(r#"{"type":"move","grid":2,"x":1,"y":1}"#).unwrap();
    let stored = first.on_move(Fetched::Record(stored), request).unwrap().record;

    let mut second = resolving("U2", "/match/abc");
    let step = second.on_fetched(Fetched::Record(stored.clone()));
    assert_eq!(
        step,
        Ok(Resolved::Joined(ServerFrame::InitialMatchData {
            board: stored.board.clone(),
            turn: PlayerMark::Circle,
            mark: PlayerMark::Circle,
        }))
    );
    assert_eq!(second.mark, Some(PlayerMark::Circle));
    assert_eq!(second.mark.unwrap().as_str(), "circle");
    assert_eq!(stored.board[2][4], PlayerMark::Cross);
}

#[test]
fn first_player_coming_back_is_cross_again() {
    let mut registry = ConnectionRegistry::new();
    let (_, stored) = first_player(&mut registry, "U1", 1);
    let mut again = resolving("U1", "/match/abc");
    match again.on_fetched(Fetched::Record(stored)) {
        Ok(Resolved::Joined(ServerFrame::InitialMatchData { mark, .. })) => assert_eq!(mark, PlayerMark::Cross),
        other => panic!("not joined: {:?}", other),
    }
}

#[test]
fn assigned_mark_goes_by_the_first_player() {
    let mut registry = ConnectionRegistry::new();
    let (_, stored) = first_player(&mut registry, "U1", 1);
    assert_eq!(assigned_mark(&stored, &s("U1")), PlayerMark::Cross);
    assert_eq!(assigned_mark(&stored, &s("U2")), PlayerMark::Circle);
    assert_eq!(assigned_mark(&stored, &s("")), PlayerMark::Circle);
}

#[test]
fn store_failure_while_resolving_ends_the_connection() {
    let mut session = resolving("U1", "/match/abc");
    assert_eq!(session.on_fetched(Fetched::Unavailable), Err(BrokerError::Match(MatchError::Store)));
    assert_eq!(session.phase, Phase::Closed);

    let mut session = resolving("U1", "/match/abc");
    assert_eq!(session.on_fetched(Fetched::Malformed), Err(BrokerError::Match(MatchError::Deserialization)));
    assert_eq!(session.phase, Phase::Closed);
}

#[test]
fn failed_write_of_a_new_match_ends_the_connection() {
    let mut session = resolving("U1", "/match/abc");
    let plan = match session.on_fetched(Fetched::Absent) {
        Ok(Resolved::Create(plan)) => plan,
        other => panic!("no plan: {:?}", other),
    };
    assert_eq!(session.on_created(plan, false), Err(BrokerError::Match(MatchError::Store)));
    assert_eq!(session.phase, Phase::Closed);
    assert_eq!(session.mark, None);
}

#[test]
fn attach_needs_a_resolved_match() {
    let mut registry: ConnectionRegistry<u32> = ConnectionRegistry::new();
    let mut session = resolving("U1", "/match/abc");
    assert_eq!(session.attach(&mut registry, 9), Err(9));
    assert_eq!(session.phase, Phase::Resolving);
    assert!(!registry.is_registered(&s("abc"), &s("U1")));
    let mut early = Session::new(s("U1"));
    assert_eq!(early.attach(&mut registry, 4), Err(4));
}

#[test]
fn attach_registers_the_connection() {
    let mut registry = ConnectionRegistry::new();
    let (session, _) = first_player(&mut registry, "U1", 1);
    assert_eq!(session.phase, Phase::Attached);
    assert!(registry.is_registered(&s("abc"), &s("U1")));
}

#[test]
fn accepted_move_scenario() {
    let mut registry = ConnectionRegistry::new();
    let (first, stored) = first_player(&mut registry, "U1", 1);
    let _second = joiner(&mut registry, "U2", 2, &stored);
    let _third = joiner(&mut registry, "U3", 3, &stored);

    let request = first.on_text(r#"{"type":"move","grid":0,"x":0,"y":0}"#).unwrap();
    assert_eq!(request, MoveRequest { grid: 0, x: 0, y: 0 });
    let plan = first.on_move(Fetched::Record(stored), request).unwrap();
    assert_eq!(plan.key, "abc");
    assert_eq!(plan.ttl_seconds, None);
    assert_eq!(plan.record.board[0][0], PlayerMark::Cross);
    assert_eq!(plan.record.turn, PlayerMark::Circle);
    let mut expected = empty_cells();
    expected[0][0] = PlayerMark::Cross;
    assert_eq!(plan.record.board, expected);

    let frame = first.on_moved(plan, request, true).unwrap();
    assert_eq!(
        frame,
        ServerFrame::Move { board: expected, turn: PlayerMark::Circle, active_grid: GridPoint { x: 0, y: 0 } }
    );
    assert_eq!(handles(&registry, &first, &frame), vec![1, 2, 3]);
}

#[test]
fn rejected_move_scenario() {
    let mut registry = ConnectionRegistry::new();
    let (first, stored) = first_player(&mut registry, "U1", 1);
    let request = first.on_text(r#"{"type":"move","grid":0,"x":0,"y":0}"#).unwrap();
    let stored = first.on_move(Fetched::Record(stored), request).unwrap().record;

    let again = first.on_text(r#"{"type":"move","grid":0,"x":0,"y":0}"#).unwrap();
    assert_eq!(
        first.on_move(Fetched::Record(stored.clone()), again),
        Err(BrokerError::Match(MatchError::OccupiedCell))
    );
    assert_eq!(stored.board[0][0], PlayerMark::Cross);
    assert_eq!(stored.turn, PlayerMark::Circle);
}

#[test]
fn move_is_made_for_the_side_to_move() {
    let mut registry = ConnectionRegistry::new();
    let (first, stored) = first_player(&mut registry, "U1", 1);
    let one = first.on_move(Fetched::Record(stored), MoveRequest { grid: 1, x: 1, y: 1 }).unwrap().record;
    assert_eq!(one.board[1][4], PlayerMark::Cross);
    let two = first.on_move(Fetched::Record(one), MoveRequest { grid: 1, x: 2, y: 2 }).unwrap().record;
    assert_eq!(two.board[1][8], PlayerMark::Circle);
    assert_eq!(two.turn, PlayerMark::Cross);
}

#[test]
fn move_needs_the_store() {
    let mut registry = ConnectionRegistry::new();
    let (first, stored) = first_player(&mut registry, "U1", 1);
    let request = MoveRequest { grid: 0, x: 0, y: 0 };
    assert_eq!(first.on_move(Fetched::Unavailable, request), Err(BrokerError::Match(MatchError::Store)));
    assert_eq!(first.on_move(Fetched::Absent, request), Err(BrokerError::Match(MatchError::NotFound)));
    assert_eq!(first.on_move(Fetched::Malformed, request), Err(BrokerError::Match(MatchError::Deserialization)));
    assert_eq!(
        first.on_move(Fetched::Record(stored.clone()), MoveRequest { grid: 9, x: 0, y: 0 }),
        Err(BrokerError::Match(MatchError::OutOfBounds))
    );
    let plan = first.on_move(Fetched::Record(stored), request).unwrap();
    assert_eq!(first.on_moved(plan, request, false), Err(BrokerError::Match(MatchError::Store)));
    assert_eq!(first.phase, Phase::Attached);
}

#[test]
fn text_that_asks_for_no_move_is_passed_over() {
    let mut registry = ConnectionRegistry::new();
    let (first, _) = first_player(&mut registry, "U1", 1);
    assert_eq!(first.on_text("not json"), None);
    assert_eq!(first.on_text(r#"{"type":"ping"}"#), None);
    assert_eq!(first.on_text(r#"{"type":"move","grid":0}"#), None);
    assert_eq!(first.on_text(r#"{"type":"move","grid":9,"x":0,"y":0}"#), None);
    assert_eq!(first.on_text(r#"{"type":"move","grid":0,"x":3,"y":0}"#), None);
    assert_eq!(first.on_text(r#"{"type":"move","grid":0,"x":0,"y":-1}"#), None);
    assert_eq!(
        first.on_text(r#"{"type":"move","grid":8,"x":2,"y":2}"#),
        Some(MoveRequest { grid: 8, x: 2, y: 2 })
    );
}

#[test]
fn steps_of_an_attached_session_are_out_of_phase_before() {
    let session = resolving("U1", "/match/abc");
    let request = MoveRequest { grid: 0, x: 0, y: 0 };
    assert_eq!(session.on_text(r#"{"type":"move","grid":0,"x":0,"y":0}"#), None);
    assert_eq!(session.on_move(Fetched::Absent, request), Err(BrokerError::OutOfPhase));
    let plan = Persist {
        key: s("abc"),
        record: MatchData { player_one: s("U1"), player_two: None, turn: PlayerMark::Cross, board: empty_cells() },
        ttl_seconds: None,
    };
    assert_eq!(session.on_moved(plan, request, true), Err(BrokerError::OutOfPhase));
    let registry: ConnectionRegistry<u32> = ConnectionRegistry::new();
    let frame = ServerFrame::UserId { user_id: s("U1") };
    assert!(session.announce(&registry, &frame).is_empty());
}

#[test]
fn moves_of_one_match_do_not_reach_another() {
    let mut registry = ConnectionRegistry::new();
    let (first, stored) = first_player(&mut registry, "U1", 1);
    let _second = joiner(&mut registry, "U2", 2, &stored);

    let mut elsewhere = resolving("U9", "/match/xyz");
    let plan = match elsewhere.on_fetched(Fetched::Absent) {
        Ok(Resolved::Create(plan)) => plan,
        other => panic!("no plan: {:?}", other),
    };
    assert_eq!(plan.key, "xyz");
    let other_stored = plan.record.clone();
    elsewhere.on_created(plan, true).unwrap();
    assert_eq!(elsewhere.attach(&mut registry, 9), Ok(()));

    let request = MoveRequest { grid: 0, x: 0, y: 0 };
    let plan = first.on_move(Fetched::Record(stored), request).unwrap();
    assert_eq!(plan.key, "abc");
    let frame = first.on_moved(plan, request, true).unwrap();
    assert_eq!(handles(&registry, &first, &frame), vec![1, 2]);
    assert_eq!(handles(&registry, &elsewhere, &frame), vec![9]);
    assert_eq!(other_stored.board, empty_cells());
    assert_eq!(other_stored.turn, PlayerMark::Cross);
}

#[test]
fn close_takes_the_connection_out_of_the_registry() {
    let mut registry = ConnectionRegistry::new();
    let (mut first, stored) = first_player(&mut registry, "U1", 1);
    let second = joiner(&mut registry, "U2", 2, &stored);
    assert_eq!(first.close(&mut registry), Some(1));
    assert_eq!(first.phase, Phase::Closed);
    assert!(!registry.is_registered(&s("abc"), &s("U1")));
    let frame = ServerFrame::UserId { user_id: s("any") };
    assert_eq!(handles(&registry, &second, &frame), vec![2]);
    assert!(first.announce(&registry, &frame).is_empty());
    assert_eq!(first.close(&mut registry), None);
}

#[test]
fn close_before_attaching_leaves_the_registry_alone() {
    let mut registry = ConnectionRegistry::new();
    let (_first, _) = first_player(&mut registry, "U1", 1);
    let mut second = resolving("U1", "/match/abc");
    assert_eq!(second.close(&mut registry), None);
    assert_eq!(second.phase, Phase::Closed);
    assert!(registry.is_registered(&s("abc"), &s("U1")));
}

#[test]
fn open_draws_an_identity() {
    let one = Session::open();
    let two = Session::open();
    assert_eq!(one.phase, Phase::Handshaking);
    assert_eq!(one.match_id, None);
    assert_eq!(one.mark, None);
    assert_eq!(one.user_id.chars().count(), 36);
    assert_eq!(two.user_id.chars().count(), 36);
    assert_ne!(one.user_id, two.user_id);
}
