use gt_server::session::{join_error_code, ErrorCode};
use gt_server::social::{check_friend_request, check_search_query, friendship_pair, SocialError};
use gt_server::accounts::{guest_record, AccountError, AccountStore, GitHubSignIn, GitHubUser, LinkError};
use gt_server::command::GameSpeed;
use gt_server::session::token_subject;
use gt_server::auth::claims_at;
use gt_server::speed::{parse_speed_str, speed_str, toggle_pause_target, SpeedVotes, VoteOutcome};
use gt_server::world::{JoinError, JoinPlan, WorldRoster};

#[test]
fn speed_names_round_trip() {
    for s in [GameSpeed::Paused, GameSpeed::Normal, GameSpeed::Fast, GameSpeed::VeryFast, GameSpeed::Ultra] {
        assert_eq!(parse_speed_str(speed_str(s)), s);
    }
    assert_eq!(speed_str(GameSpeed::VeryFast), "VeryFast");
    assert_eq!(parse_speed_str("nonsense"), GameSpeed::Normal);
    assert_eq!(parse_speed_str("paused"), GameSpeed::Normal);
}

#[test]
fn toggling_pause() {
    assert_eq!(toggle_pause_target(GameSpeed::Paused), GameSpeed::Normal);
    assert_eq!(toggle_pause_target(GameSpeed::Ultra), GameSpeed::Paused);
}

#[test]
fn creator_sets_speed_directly() {
    let mut v = SpeedVotes::new();
    v.claim_creator(1);
    assert_eq!(v.request(2, GameSpeed::Fast, 4), VoteOutcome::Pending);
    assert_eq!(v.request(1, GameSpeed::Ultra, 4), VoteOutcome::Applied(GameSpeed::Ultra));
    assert!(v.votes().is_empty());
}

#[test]
fn strict_majority_applies_a_vote() {
    let mut v = SpeedVotes::new();
    v.claim_creator(100);
    assert_eq!(v.request(1, GameSpeed::Fast, 4), VoteOutcome::Pending);
    assert_eq!(v.request(2, GameSpeed::Fast, 4), VoteOutcome::Pending);
    // A player changing their vote does not count twice.
    assert_eq!(v.request(2, GameSpeed::Fast, 4), VoteOutcome::Pending);
    assert_eq!(v.votes().len(), 2);
    assert_eq!(v.request(3, GameSpeed::Fast, 4), VoteOutcome::Applied(GameSpeed::Fast));
    assert!(v.votes().is_empty());
}

#[test]
fn lone_player_vote_applies_at_once() {
    let mut v = SpeedVotes::new();
    v.set_creator(Some(50));
    assert_eq!(v.request(7, GameSpeed::Paused, 1), VoteOutcome::Applied(GameSpeed::Paused));
}

#[test]
fn joining_a_world() {
    let mut w = WorldRoster::new(2);
    assert_eq!(w.plan_join(1, false), Ok(JoinPlan::NewCorporation));
    w.seat_player(1, 100);
    assert_eq!(w.creator(), Some(1));
    assert_eq!(w.plan_join(1, false), Ok(JoinPlan::Reconnect(100)));
    w.seat_player(2, 200);
    assert_eq!(w.creator(), Some(1));
    assert!(w.is_full());
    assert_eq!(w.plan_join(3, false), Err(JoinError::WorldFull));
    assert_eq!(w.plan_join(3, true), Ok(JoinPlan::Spectate));
    w.ban(3);
    assert_eq!(w.plan_join(3, true), Err(JoinError::Banned));
    w.unban(3);
    assert_eq!(w.plan_join(3, true), Ok(JoinPlan::Spectate));
    w.remove_player(2);
    assert_eq!(w.player_count(), 1);
    assert_eq!(w.corp_of(1), Some(100));
    assert_eq!(w.corp_of(2), None);
}

#[test]
fn world_speed_requests_count_world_players() {
    let mut w = WorldRoster::new(8);
    w.seat_player(1, 10);
    w.seat_player(2, 20);
    w.seat_player(3, 30);
    assert_eq!(w.request_speed(2, GameSpeed::Fast), VoteOutcome::Pending);
    assert_eq!(w.request_speed(3, GameSpeed::Fast), VoteOutcome::Applied(GameSpeed::Fast));
    assert_eq!(w.request_speed(1, GameSpeed::Paused), VoteOutcome::Applied(GameSpeed::Paused));
}

#[test]
fn uuid_text() {
    let id: u128 = 0x0123_4567_89ab_cdef_0011_2233_4455_6677;
    let s = claims_at(0, 0, id, "x", false).sub;
    assert_eq!(s, "01234567-89ab-cdef-0011-223344556677");
    assert_eq!(token_subject(&s), Some(id));
    assert_eq!(token_subject("01234567-89AB-CDEF-0011-223344556677"), Some(id));
    assert_eq!(token_subject("xyz"), None);
}

#[test]
fn guests_are_named_after_their_id() {
    let g = guest_record(0xabcdef12_0000_0000_0000_0000_0000_0000);
    assert_eq!(g.username, "Guest_abcdef12");
    assert!(g.is_guest);
    assert_eq!(g.auth_provider, "guest");
    assert_eq!(g.avatar_id, "tower_01");
}

#[test]
fn registration_and_lookup() {
    let mut store = AccountStore::new();
    let a = store
        .register_account_with_id(1, "dave".to_string(), Some("d@x".to_string()), "h".to_string())
        .unwrap();
    assert_eq!(a.auth_provider, "local");
    assert_eq!(a.display_name, None);
    assert_eq!(
        store.register_account_with_id(2, "dave".to_string(), None, "h2".to_string()).err(),
        Some(AccountError::UsernameTaken)
    );
    assert_eq!(store.len(), 1);
    assert_eq!(store.get_account("dave").unwrap().id, 1);
    assert_eq!(store.get_account_by_id(1).unwrap().username, "dave");
    assert!(store.get_account("eve").is_none());
    assert_eq!(store.username_of(1), Some("dave".to_string()));
    assert_eq!(AccountError::UsernameTaken.message(), "Username already taken");
}

#[test]
fn profile_updates_and_removal() {
    let mut store = AccountStore::new();
    store.register_account_with_id(5, "erin".to_string(), None, "h".to_string()).unwrap();
    assert!(store.update_profile(5, Some("Erin".to_string()), "globe_02".to_string()));
    let a = store.get_account("erin").unwrap();
    assert_eq!(a.display_name, Some("Erin".to_string()));
    assert_eq!(a.avatar_id, "globe_02");
    assert!(!store.update_profile(6, None, "globe_01".to_string()));
    assert!(store.remove_by_id(5));
    assert!(!store.remove_by_id(5));
    assert_eq!(store.len(), 0);
}

fn octocat() -> GitHubUser {
    GitHubUser {
        id: 583231,
        login: "octocat".to_string(),
        email: Some("octo@cat".to_string()),
        avatar_url: None,
    }
}

#[test]
fn github_sign_in_creates_then_finds() {
    let mut store = AccountStore::new();
    match store.sign_in_github_with_id(9, octocat()) {
        GitHubSignIn::Created(a) => {
            assert_eq!(a.id, 9);
            assert_eq!(a.username, "octocat");
            assert_eq!(a.display_name, Some("octocat".to_string()));
            assert_eq!(a.auth_provider, "github");
            assert_eq!(a.github_id, Some(583231));
        }
        GitHubSignIn::Existing(_) => panic!("expected a new account"),
    }
    match store.sign_in_github_with_id(10, octocat()) {
        GitHubSignIn::Existing(a) => assert_eq!(a.id, 9),
        GitHubSignIn::Created(_) => panic!("expected the linked account"),
    }
    assert_eq!(store.get_account_by_github_id(583231).unwrap().username, "octocat");
}

#[test]
fn linking_github_accounts() {
    let mut store = AccountStore::new();
    store.register_account_with_id(1, "fay".to_string(), None, "h".to_string()).unwrap();
    store.register_account_with_id(2, "gus".to_string(), None, "h".to_string()).unwrap();
    assert_eq!(store.link_github_account(1, 77), Ok(()));
    assert_eq!(store.get_account("fay").unwrap().github_id, Some(77));
    assert_eq!(store.link_github_account(2, 77), Err(LinkError::AlreadyLinked));
    assert_eq!(store.get_account("gus").unwrap().github_id, None);
    assert_eq!(
        LinkError::AlreadyLinked.message(),
        "This GitHub account is already linked to another user"
    );
}

#[test]
fn friendships_are_keyed_by_ordered_pairs() {
    assert_eq!(friendship_pair(5, 3), (3, 5));
    assert_eq!(friendship_pair(3, 5), (3, 5));
    assert_eq!(friendship_pair(4, 4), (4, 4));
    assert_eq!(check_friend_request(1, 1), Err(SocialError::SelfRequest));
    assert_eq!(check_friend_request(1, 2), Ok(()));
    assert_eq!(check_search_query("a"), Err(SocialError::QueryTooShort));
    assert_eq!(check_search_query("ab"), Ok(()));
    assert_eq!(check_search_query("é"), Ok(()));
    assert_eq!(SocialError::SelfRequest.message(), "Cannot send friend request to yourself");
}

#[test]
fn records_made_for_the_database_paths() {
    let a = gt_server::accounts::local_record(3, "hal".to_string(), None, "h".to_string());
    assert_eq!((a.id, a.auth_provider.as_str(), a.is_guest), (3, "local", false));
    let mut store = AccountStore::new();
    let g = store.cache_guest(0x1234_5678_0000_0000_0000_0000_0000_0000, 99);
    assert_eq!(g.id, 99);
    assert_eq!(g.username, "Guest_12345678");
    assert_eq!(store.get_account("Guest_12345678").unwrap().id, 99);
}

#[test]
fn refusal_codes() {
    assert_eq!(join_error_code(JoinError::Banned), ErrorCode::PermissionDenied);
    assert_eq!(join_error_code(JoinError::WorldFull), ErrorCode::WorldFull);
    assert_eq!(JoinError::Banned.message(), "You are banned from this world");
    assert_eq!(gt_server::admin::TemplateError::Disabled.status(), 400);
    assert_eq!(gt_server::admin::TemplateError::InstanceLimit.status(), 409);
}

#[test]
fn linked_github_account_signs_in_without_a_new_account() {
    let mut store = AccountStore::new();
    let first = match store.sign_in_github(octocat()) {
        GitHubSignIn::Created(a) => a,
        GitHubSignIn::Existing(_) => panic!("expected a new account"),
    };
    let before = store.len();
    match store.sign_in_github(octocat()) {
        GitHubSignIn::Existing(a) => assert_eq!(a.id, first.id),
        GitHubSignIn::Created(_) => panic!("expected the linked account"),
    }
    assert_eq!(store.len(), before);
}
