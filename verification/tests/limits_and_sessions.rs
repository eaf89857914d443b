use gt_server::accounts::AccountRecord;
use gt_server::auth::hash_password;
use gt_server::command::{Command, CommandError, GameSpeed};
use gt_server::rate_limit::RateLimiter;
use gt_server::session::{
    check_game_command, check_login, enter_world, fresh_session, leave_world, opens_session,
    prepare_chat, resume_session, route_unauthenticated, token_subject, Admission, ChatError,
    ClientRequest, CommandRejection, CommandRoute, ConnectedPlayer, ErrorCode, LoginError, SessionGuard,
    Unauthenticated,
};

const SEC: u64 = 1_000_000;

#[test]
fn general_limit_is_ten_per_second() {
    let mut rl = RateLimiter::new();
    for i in 0..10u64 {
        assert!(rl.check_command_at(i * 1000));
    }
    assert!(!rl.check_command_at(50_000));
    assert!(!rl.check_command_at(SEC - 1));
    // The first entry (at 0) leaves the window at exactly one second.
    assert!(rl.check_command_at(SEC));
}

#[test]
fn build_limit_is_three_per_second() {
    let mut rl = RateLimiter::new();
    let c = Command::BuildEdge;
    assert!(rl.check_typed_command_at(&c, 0));
    assert!(rl.check_typed_command_at(&c, 1));
    assert!(rl.check_typed_command_at(&c, 2));
    assert!(!rl.check_typed_command_at(&c, 3));
    // Other categories are counted apart.
    assert!(rl.check_typed_command_at(&Command::RepayLoan { amount: 1 }, 4));
    assert!(rl.check_typed_command_at(&c, SEC + 1));
}

#[test]
fn research_and_espionage_windows() {
    let mut rl = RateLimiter::new();
    let r = Command::StartResearch { corporation: 1 };
    assert!(rl.check_typed_command_at(&r, 0));
    assert!(!rl.check_typed_command_at(&r, 4 * SEC));
    assert!(rl.check_typed_command_at(&r, 5 * SEC));
    let e = Command::LaunchEspionage;
    assert!(rl.check_typed_command_at(&e, 0));
    assert!(!rl.check_typed_command_at(&e, 29 * SEC));
    assert!(rl.check_typed_command_at(&e, 30 * SEC));
}

#[test]
fn chat_limit_is_five_per_ten_seconds() {
    let mut rl = RateLimiter::new();
    for i in 0..5u64 {
        assert!(rl.check_chat_at(i));
    }
    assert!(!rl.check_chat_at(9 * SEC));
    assert!(rl.check_chat_at(10 * SEC));
}

#[test]
fn live_clock_checks_admit_a_first_message() {
    let mut rl = RateLimiter::new();
    assert!(rl.check_command());
    assert!(rl.check_chat());
    assert!(rl.check_typed_command(&Command::LaunchSabotage));
}

fn player(world: Option<u128>, corp: Option<u64>, spectator: bool) -> ConnectedPlayer {
    ConnectedPlayer {
        id: 1,
        username: "alice".to_string(),
        is_guest: false,
        is_admin: false,
        is_spectator: spectator,
        world_id: world,
        corp_id: corp,
    }
}

#[test]
fn guard_refuses_spectator_commands() {
    let mut g = SessionGuard::new();
    let msg = ClientRequest::GameCommand { command: Command::BuildEdge, seq: Some(1) };
    assert_eq!(g.admit_at(&msg, true, 0), Admission::SpectatorDenied);
    assert_eq!(g.admit_at(&ClientRequest::UploadSave, true, 0), Admission::SpectatorDenied);
    assert_eq!(g.admit_at(&ClientRequest::Chat, true, 0), Admission::Proceed);
}

#[test]
fn guard_drops_repeated_sequence_numbers() {
    let mut g = SessionGuard::new();
    let m = |s| ClientRequest::GameCommand { command: Command::TogglePause, seq: Some(s) };
    assert_eq!(g.admit_at(&m(5), false, 0), Admission::Proceed);
    assert_eq!(g.admit_at(&m(5), false, 1), Admission::DuplicateSeq(5));
    assert_eq!(g.admit_at(&m(3), false, 2), Admission::DuplicateSeq(3));
    assert_eq!(g.admit_at(&m(6), false, 3), Admission::Proceed);
    let unnumbered = ClientRequest::GameCommand { command: Command::TogglePause, seq: None };
    assert_eq!(g.admit_at(&unnumbered, false, 4), Admission::Proceed);
}

#[test]
fn guard_rate_limits_chat_and_saves() {
    let mut g = SessionGuard::new();
    for i in 0..5u64 {
        assert_eq!(g.admit_at(&ClientRequest::Chat, false, i), Admission::Proceed);
    }
    assert_eq!(g.admit_at(&ClientRequest::Chat, false, 6), Admission::RateLimited);
    for i in 0..10u64 {
        assert_eq!(g.admit_at(&ClientRequest::DeleteSave, false, i), Admission::Proceed);
    }
    assert_eq!(g.admit_at(&ClientRequest::UploadSave, false, 11), Admission::RateLimited);
    assert_eq!(g.admit_at(&ClientRequest::Ping, false, 12), Admission::Proceed);
}

#[test]
fn unauthenticated_routing() {
    assert!(matches!(route_unauthenticated(&ClientRequest::Auth), Unauthenticated::Handle));
    assert!(matches!(route_unauthenticated(&ClientRequest::Ping), Unauthenticated::Handle));
    assert!(matches!(route_unauthenticated(&ClientRequest::LeaveWorld), Unauthenticated::Acknowledge));
    assert!(matches!(
        route_unauthenticated(&ClientRequest::JoinWorld),
        Unauthenticated::Reject("Must authenticate first")
    ));
    assert!(matches!(
        route_unauthenticated(&ClientRequest::Chat),
        Unauthenticated::Reject("Not authenticated")
    ));
    assert!(opens_session(&ClientRequest::Auth));
    assert!(!opens_session(&ClientRequest::Ping));
}

#[test]
fn game_command_checks() {
    let w = 42u128;
    let p = player(Some(w), Some(7), false);
    assert_eq!(
        check_game_command(&player(Some(w), None, true), w, &Command::BuildEdge, true),
        Err(CommandRejection::Spectator)
    );
    assert_eq!(check_game_command(&p, 43, &Command::BuildEdge, true), Err(CommandRejection::NotInWorld));
    assert_eq!(
        check_game_command(&p, w, &Command::PlaceBid { amount: 0 }, true),
        Err(CommandRejection::Invalid(CommandError::BidNotPositive))
    );
    assert_eq!(
        check_game_command(&p, w, &Command::SetBudget { corporation: 8 }, true),
        Err(CommandRejection::ForeignCorporation)
    );
    assert_eq!(check_game_command(&p, w, &Command::BuildEdge, false), Err(CommandRejection::WorldNotFound));
    assert_eq!(check_game_command(&p, w, &Command::SetBudget { corporation: 7 }, true), Ok(CommandRoute::Simulate(7)));
    assert_eq!(check_game_command(&p, w, &Command::SetSpeed(GameSpeed::Fast), true), Ok(CommandRoute::SpeedVote));
    assert_eq!(CommandRejection::Spectator.code(), ErrorCode::PermissionDenied);
    assert_eq!(CommandRejection::Invalid(CommandError::EmptyRole).message(), "Employee role cannot be empty");
}

#[test]
fn chat_preparation() {
    let w = 9u128;
    let p = player(Some(w), Some(1), false);
    let line = prepare_chat("  hello ", &p, true).unwrap();
    assert_eq!(line.message, "hello");
    assert_eq!(line.sender, "alice");
    assert_eq!(line.world_id, w);
    let s = player(Some(w), None, true);
    assert_eq!(prepare_chat("hi", &s, true).unwrap().sender, "[Spectator] alice");
    assert_eq!(prepare_chat(&"x".repeat(501), &p, true).err(), Some(ChatError::TooLong));
    assert_eq!(prepare_chat(&"x".repeat(500), &p, true).unwrap().message.len(), 500);
    assert_eq!(prepare_chat(" \u{0007} ", &p, true).err(), Some(ChatError::Empty));
    assert_eq!(prepare_chat("hi", &player(None, None, false), true).err(), Some(ChatError::NotInWorld));
    assert_eq!(prepare_chat("hi", &p, false).err(), Some(ChatError::WorldNotFound));
}

#[test]
fn sessions_resume_world_and_corporation() {
    let prev = Some(player(Some(3), Some(11), false));
    let p = resume_session(1, "alice", false, false, &prev);
    assert_eq!(p.world_id, Some(3));
    assert_eq!(p.corp_id, Some(11));
    let s = resume_session(1, "alice", false, true, &prev);
    assert_eq!(s.world_id, Some(3));
    assert_eq!(s.corp_id, None);
    let f = fresh_session(2, "bob", true, false);
    assert_eq!(f.world_id, None);
    assert!(f.is_guest);
    assert!(!f.is_admin);
}

#[test]
fn entering_and_leaving_worlds() {
    let mut p = player(None, None, false);
    enter_world(&mut p, 5, 77);
    assert_eq!((p.world_id, p.corp_id), (Some(5), Some(77)));
    assert_eq!(leave_world(&mut p), Some(5));
    assert_eq!((p.world_id, p.corp_id), (None, None));
    let mut s = player(None, None, true);
    enter_world(&mut s, 5, 77);
    assert_eq!((s.world_id, s.corp_id), (Some(5), None));
}

fn account(hash: String) -> AccountRecord {
    AccountRecord {
        id: 10,
        username: "carol".to_string(),
        email: None,
        password_hash: hash,
        is_guest: false,
        display_name: None,
        avatar_id: "tower_01".to_string(),
        auth_provider: "local".to_string(),
        github_id: None,
    }
}

#[test]
fn login_outcomes() {
    let hash = hash_password("correct horse").unwrap();
    assert_eq!(check_login(None, "x").err(), Some(LoginError::AccountNotFound));
    assert_eq!(check_login(Some(account(hash.clone())), "wrong").err(), Some(LoginError::IncorrectPassword));
    assert_eq!(check_login(Some(account("garbage".to_string())), "x").err(), Some(LoginError::VerificationError));
    assert_eq!(check_login(Some(account(hash)), "correct horse").unwrap().id, 10);
    assert_eq!(LoginError::AccountNotFound.reason(), "Invalid credentials: account not found");
}

#[test]
fn token_subjects() {
    assert_eq!(
        token_subject("00000000-0000-0000-0000-00000000002a"),
        Some(42)
    );
    assert_eq!(token_subject("not-a-uuid"), None);
}

#[test]
fn chat_window_reopens_after_ten_seconds() {
    let mut rl = gt_server::rate_limit::RateLimiter::new();
    let second: u64 = 1_000_000;
    for k in 0..5u64 {
        assert!(rl.check_chat_at(k * second));
    }
    assert!(!rl.check_chat_at(5 * second));
    assert!(rl.check_chat_at(10 * second));
}
