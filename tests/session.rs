use pong_multiplayer_rs::game::{is_game_active, Playing, Scoreboard};
use pong_multiplayer_rs::liveness::{LivenessPhase, LIVENESS_WINDOW_MS};
use pong_multiplayer_rs::lobby::PlayerSide;
use pong_multiplayer_rs::messages::{ClientMessages, PlayerInput, ServerMessages};
use pong_multiplayer_rs::session::{Command, ServerSession};

fn connected(id: u64) -> ServerMessages {
    ServerMessages::PlayerConnected { id }
}

fn two_players() -> (ServerSession, Playing, Scoreboard) {
    let mut s = ServerSession::new();
    let mut playing = Playing(false);
    let score = Scoreboard::new();
    s.on_client_connected(100);
    s.on_client_connected(200);
    assert!(s.take_reset(&mut playing));
    (s, playing, score)
}

#[test]
fn first_two_clients_take_left_then_right() {
    let mut s = ServerSession::new();
    let mut playing = Playing(false);

    let first = s.on_client_connected(100);
    assert_eq!(
        first,
        vec![
            Command::Send { to: 100, message: ServerMessages::PlayerIsSide { side: PlayerSide::Left } },
            Command::Broadcast { message: connected(100) },
        ]
    );
    assert!(!s.reset_due);

    let second = s.on_client_connected(200);
    assert_eq!(
        second,
        vec![
            Command::Send { to: 200, message: connected(100) },
            Command::Send { to: 200, message: ServerMessages::PlayerIsSide { side: PlayerSide::Right } },
            Command::Broadcast { message: connected(200) },
        ]
    );
    assert_eq!(s.lobby.side_of(100), Some(PlayerSide::Left));
    assert_eq!(s.lobby.side_of(200), Some(PlayerSide::Right));

    // The reset fires once and starts play.
    assert!(s.take_reset(&mut playing));
    assert!(playing.0);
    assert!(is_game_active(&playing));
    assert!(!s.take_reset(&mut playing));
    assert!(playing.0);
}

#[test]
fn third_client_is_disconnected() {
    let (mut s, _playing, _score) = two_players();
    let r = s.on_client_connected(300);
    assert_eq!(r, vec![Command::Disconnect { id: 300 }]);
    assert_eq!(s.lobby.len(), 2);
    assert_eq!(s.lobby.side_of(300), None);
}

#[test]
fn repeated_connect_changes_nothing() {
    let mut s = ServerSession::new();
    s.on_client_connected(100);
    let r = s.on_client_connected(100);
    assert!(r.is_empty());
    assert_eq!(s.lobby.len(), 1);
    assert_eq!(s.lobby.side_of(100), Some(PlayerSide::Left));
}

#[test]
fn freed_slot_is_reused() {
    let (mut s, mut playing, mut score) = two_players();
    s.on_client_disconnected(100, &mut playing, &mut score);
    let r = s.on_client_connected(300);
    assert_eq!(r[0], Command::Send { to: 300, message: connected(200) });
    assert_eq!(s.lobby.side_of(300), Some(PlayerSide::Left));
    assert!(s.reset_due);
}

#[test]
fn disconnect_stops_play_and_clears_score() {
    let (mut s, mut playing, mut score) = two_players();
    score.scoreleft = 4;
    score.scoreright = 7;
    let r = s.on_client_disconnected(200, &mut playing, &mut score);
    assert_eq!(r, vec![Command::Broadcast { message: ServerMessages::PlayerDisconnected { id: 200 } }]);
    assert!(!playing.0);
    assert_eq!((score.scoreleft, score.scoreright), (0, 0));
    assert_eq!(s.lobby.ids(), vec![100]);
}

#[test]
fn disconnect_of_unseated_client_is_silent() {
    let (mut s, mut playing, mut score) = two_players();
    score.scoreleft = 2;
    let r = s.on_client_disconnected(300, &mut playing, &mut score);
    assert!(r.is_empty());
    assert!(playing.0);
    assert_eq!(score.scoreleft, 2);
    assert_eq!(s.lobby.len(), 2);
}

#[test]
fn disconnect_before_reset_cancels_it() {
    let mut s = ServerSession::new();
    let mut playing = Playing(false);
    let mut score = Scoreboard::new();
    s.on_client_connected(100);
    s.on_client_connected(200);
    assert!(s.reset_due);
    s.on_client_disconnected(100, &mut playing, &mut score);
    assert!(!s.take_reset(&mut playing));
    assert!(!playing.0);
}

#[test]
fn silent_peer_is_evicted_after_window() {
    let (mut s, mut playing, mut score) = two_players();
    score.scoreleft = 3;
    score.scoreright = 1;

    let probe = s.on_transport_error(1_000);
    assert_eq!(probe, vec![Command::Broadcast { message: ServerMessages::PlayerCheck }]);
    assert_eq!(s.liveness.phase, LivenessPhase::Collecting);

    // A second error in the same burst does not re-arm.
    assert!(s.on_transport_error(1_001).is_empty());

    assert!(s.on_client_message(100, ClientMessages::PlayerCheckResponse { id: 100 }, 1_500));

    // Before the deadline nothing happens.
    assert!(s.on_tick(1_000 + LIVENESS_WINDOW_MS - 1, &mut playing, &mut score).is_empty());
    assert_eq!(s.lobby.len(), 2);

    let r = s.on_tick(1_000 + LIVENESS_WINDOW_MS, &mut playing, &mut score);
    assert_eq!(
        r,
        vec![
            Command::Disconnect { id: 200 },
            Command::Broadcast { message: ServerMessages::PlayerDisconnected { id: 200 } },
        ]
    );
    assert_eq!(s.lobby.ids(), vec![100]);
    assert_eq!(s.lobby.side_of(100), Some(PlayerSide::Left));
    assert!(!playing.0);
    assert_eq!((score.scoreleft, score.scoreright), (0, 0));
    assert_eq!(s.liveness.phase, LivenessPhase::Idle);
    assert!(!s.liveness.has_responded(100));

    // The transport's own disconnect event that follows is silent.
    assert!(s.on_client_disconnected(200, &mut playing, &mut score).is_empty());
}

#[test]
fn spoofed_response_does_not_protect() {
    let (mut s, mut playing, mut score) = two_players();
    s.on_transport_error(0);
    assert!(s.on_client_message(100, ClientMessages::PlayerCheckResponse { id: 100 }, 10));
    assert!(!s.on_client_message(200, ClientMessages::PlayerCheckResponse { id: 100 }, 20));
    assert!(s.liveness.has_responded(100));
    assert!(!s.liveness.has_responded(200));
    assert_eq!(s.liveness.collected, vec![100]);

    let r = s.on_tick(LIVENESS_WINDOW_MS, &mut playing, &mut score);
    assert_eq!(r[0], Command::Disconnect { id: 200 });
    assert_eq!(s.lobby.ids(), vec![100]);
}

#[test]
fn claim_of_someone_else_is_ignored() {
    let (mut s, _playing, _score) = two_players();
    s.on_transport_error(0);
    assert!(!s.on_client_message(200, ClientMessages::PlayerCheckResponse { id: 100 }, 5));
    assert!(!s.liveness.has_responded(100));
    assert!(!s.liveness.has_responded(200));
}

#[test]
fn all_answering_keeps_everyone() {
    let (mut s, mut playing, mut score) = two_players();
    score.scoreleft = 5;
    s.on_transport_error(10);
    assert!(s.on_client_message(200, ClientMessages::PlayerCheckResponse { id: 200 }, 20));
    assert!(s.on_client_message(100, ClientMessages::PlayerCheckResponse { id: 100 }, 30));
    let r = s.on_tick(10 + LIVENESS_WINDOW_MS, &mut playing, &mut score);
    assert!(r.is_empty());
    assert_eq!(s.lobby.len(), 2);
    assert!(playing.0);
    assert_eq!(score.scoreleft, 5);
    assert_eq!(s.liveness.phase, LivenessPhase::Idle);
}

#[test]
fn nobody_answering_evicts_both() {
    let (mut s, mut playing, mut score) = two_players();
    s.on_transport_error(0);
    let r = s.on_tick(LIVENESS_WINDOW_MS + 5, &mut playing, &mut score);
    assert_eq!(
        r,
        vec![
            Command::Disconnect { id: 100 },
            Command::Broadcast { message: ServerMessages::PlayerDisconnected { id: 100 } },
            Command::Disconnect { id: 200 },
            Command::Broadcast { message: ServerMessages::PlayerDisconnected { id: 200 } },
        ]
    );
    assert_eq!(s.lobby.len(), 0);
    assert!(!playing.0);
}

#[test]
fn cycle_rearms_after_resolution() {
    let (mut s, mut playing, mut score) = two_players();
    s.on_transport_error(0);
    s.on_tick(LIVENESS_WINDOW_MS, &mut playing, &mut score);
    let again = s.on_transport_error(LIVENESS_WINDOW_MS + 1);
    assert_eq!(again, vec![Command::Broadcast { message: ServerMessages::PlayerCheck }]);
    assert_eq!(s.liveness.deadline, 2 * LIVENESS_WINDOW_MS + 1);
}

#[test]
fn responses_outside_collection_are_ignored() {
    let (mut s, _playing, _score) = two_players();
    assert!(!s.on_client_message(100, ClientMessages::PlayerCheckResponse { id: 100 }, 0));
    s.on_transport_error(0);
    assert!(!s.on_client_message(100, ClientMessages::PlayerCheckResponse { id: 100 }, LIVENESS_WINDOW_MS));
    assert!(!s.on_client_message(100, ClientMessages::AuthenticationRequest { id: 100 }, 1));
    assert!(!s.liveness.has_responded(100));
}

#[test]
fn deadline_saturates_at_clock_top() {
    let mut s = ServerSession::new();
    s.on_transport_error(u64::MAX - 1);
    assert_eq!(s.liveness.deadline, u64::MAX);
}

#[test]
fn tick_without_cycle_changes_nothing() {
    let (mut s, mut playing, mut score) = two_players();
    assert!(s.on_tick(1_000_000, &mut playing, &mut score).is_empty());
    assert_eq!(s.lobby.len(), 2);
    assert!(playing.0);
}

#[test]
fn last_input_wins_for_seated_sender() {
    let (s, _playing, _score) = two_players();
    let a = PlayerInput { up: true, down: false, left: false, right: false };
    let b = PlayerInput { up: false, down: true, left: true, right: false };
    assert_eq!(s.route_input(200, &vec![a, b]), Some((PlayerSide::Right, b)));
    assert_eq!(s.route_input(100, &vec![b, a]), Some((PlayerSide::Left, a)));
    assert_eq!(s.route_input(100, &vec![]), None);
    assert_eq!(s.route_input(300, &vec![a]), None);
}

#[test]
fn input_direction() {
    let mut i = PlayerInput::default();
    assert_eq!(i.vertical(), 0);
    i.up = true;
    assert_eq!(i.vertical(), 1);
    i.down = true;
    assert_eq!(i.vertical(), 0);
    i.up = false;
    assert_eq!(i.vertical(), -1);
}

#[test]
fn lobby_never_exceeds_two() {
    let mut s = ServerSession::new();
    let mut playing = Playing(false);
    let mut score = Scoreboard::new();
    for id in 1..10u64 {
        s.on_client_connected(id);
        assert!(s.lobby.len() <= 2);
        if id % 3 == 0 {
            s.on_client_disconnected(id - 1, &mut playing, &mut score);
        }
        if s.lobby.len() == 2 {
            let l = s.lobby.occupant_of(PlayerSide::Left).unwrap();
            let r = s.lobby.occupant_of(PlayerSide::Right).unwrap();
            assert_ne!(l, r);
        }
    }
}
