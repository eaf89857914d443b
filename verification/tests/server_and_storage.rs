use std::collections::HashMap;

use gt_server::admin::{
    chat_history_limit, default_audit_limit, default_page, default_per_page, paginate,
    parse_admin_speed, template_admission, TemplateError,
};
use gt_server::command::GameSpeed;
use gt_server::filtering::{filter_delta, filter_tick_update_for_player, is_event_visible, CorpDelta, EventTag, TickUpdate};
use gt_server::profile::{avatar_list, check_profile_update, is_listed_avatar, ProfileError};
use gt_server::profiling::TickStats;
use gt_server::server::{
    audit_page_bounds, generate_invite_code, memory_usage_estimate, over_connection_limit, AuditLog, IpConnections,
    IpKey,
};
use gt_server::storage::{
    blob_or_fallback, check_save_size, is_missing_object_error, compress_snapshot, delete_outcome, get_outcome, put_outcome, save_key,
    snapshot_key, stored_save_key, CloudSaveMetaRow, SaveError, StorageError,
};
use gt_server::tick::{
    event_type_name, net_worth, plan_tick, should_flush_events, snapshot_interval, tick_step, EventKind, TickStep,
};

#[test]
fn connection_counts() {
    let mut c = IpConnections::new();
    let a = IpKey::V4(0x7f00_0001);
    let b = IpKey::V6(1);
    assert_eq!(c.ip_connect(a), 1);
    assert_eq!(c.ip_connect(a), 2);
    assert_eq!(c.ip_connect(b), 1);
    assert_eq!(c.address_count(), 2);
    c.ip_disconnect(a);
    assert_eq!(c.count(a), 1);
    c.ip_disconnect(a);
    assert_eq!(c.count(a), 0);
    assert_eq!(c.address_count(), 1);
    c.ip_disconnect(a);
    assert_eq!(c.count(a), 0);
    assert!(!over_connection_limit(10));
    assert!(over_connection_limit(11));
}

#[test]
fn invite_codes_are_eight_upper_alphanumerics() {
    for _ in 0..20 {
        let code = generate_invite_code();
        assert_eq!(code.chars().count(), 8);
        assert!(code.chars().all(|c| c.is_ascii_digit() || c.is_ascii_uppercase()));
    }
}

#[test]
fn memory_estimate_formula() {
    assert_eq!(memory_usage_estimate(1, 1, 1, 1, 1), 256 + 128 + 128 + 256 + 32);
    assert_eq!(memory_usage_estimate(10, 0, 4, 0, 2), 2560 + 512 + 64);
}

#[test]
fn audit_log_keeps_the_last_thousand() {
    let mut log = AuditLog::new();
    for i in 0..1005u32 {
        log.log_command(format!("p{i}"), "BuildEdge".to_string(), "t".to_string());
    }
    assert_eq!(log.len(), 1000);
    let page = log.page(0, 2);
    assert_eq!(page.len(), 2);
    assert_eq!(page[0].id, 6);
    assert_eq!(page[0].actor, "p5");
    assert_eq!(page[1].id, 7);
    assert_eq!(log.page(999, 10).len(), 1);
    assert_eq!(log.page(5000, 10).len(), 0);
}

#[test]
fn audit_page_bounds_clamp() {
    assert_eq!(audit_page_bounds(10, 3, 4), (3, 7));
    assert_eq!(audit_page_bounds(10, 8, 4), (8, 10));
    assert_eq!(audit_page_bounds(10, 20, 4), (10, 10));
}

#[test]
fn object_keys() {
    let id: u128 = 0x0123_4567_89ab_cdef_0011_2233_4455_6677;
    assert_eq!(snapshot_key(id, 1200), "snapshots/01234567-89ab-cdef-0011-223344556677/1200.bin");
    assert_eq!(save_key(id, 3), "saves/01234567-89ab-cdef-0011-223344556677/3.bin");
    assert_eq!(save_key(id, -2), "saves/01234567-89ab-cdef-0011-223344556677/-2.bin");
}

#[test]
fn object_store_statuses() {
    assert_eq!(put_outcome(200), Ok(()));
    assert_eq!(put_outcome(201), Err(StorageError::PutStatus(201)));
    assert_eq!(get_outcome(200, vec![1, 2]), Ok(Some(vec![1, 2])));
    assert_eq!(get_outcome(404, vec![]), Ok(None));
    assert_eq!(get_outcome(500, vec![]), Err(StorageError::GetStatus(500)));
    assert_eq!(delete_outcome(204), Ok(()));
    assert_eq!(delete_outcome(404), Ok(()));
    assert_eq!(delete_outcome(403), Err(StorageError::DeleteStatus(403)));
    assert_eq!(StorageError::GetStatus(503).message(), "R2 GET returned status 503");
    assert_eq!(StorageError::PutStatus(400).message(), "R2 PUT returned status 400");
}

#[test]
fn download_falls_back_to_database() {
    assert_eq!(blob_or_fallback(Ok(Some(vec![9]))), Some(vec![9]));
    assert_eq!(blob_or_fallback(Ok(None)), None);
    assert_eq!(blob_or_fallback(Err(StorageError::GetStatus(500))), None);
    assert_eq!(stored_save_key(Some(CloudSaveMetaRow { r2_key: Some("k".to_string()) })), Some("k".to_string()));
    assert_eq!(stored_save_key(Some(CloudSaveMetaRow { r2_key: None })), None);
    assert_eq!(stored_save_key(None), None);
}

#[test]
fn save_size_limit() {
    assert_eq!(check_save_size(50_000_000), Ok(()));
    assert_eq!(check_save_size(50_000_001), Err(SaveError::TooLarge));
    assert_eq!(SaveError::TooLarge.message(), "Save exceeds maximum size of 50000000 bytes");
}

#[test]
fn snapshot_compression_round_trips() {
    let json = "{\"tick\":1,\"corps\":[1,2,3,4,5,6,7,8,9,10,1,2,3,4,5,6,7,8,9,10]}";
    let (data, size) = compress_snapshot(json).unwrap();
    assert_eq!(size as usize, json.len());
    assert_ne!(data, json.as_bytes().to_vec());
    assert_eq!(zstd::decode_all(&data[..]).unwrap(), json.as_bytes().to_vec());
    assert_eq!(data, zstd::encode_all(json.as_bytes(), 3).unwrap());
}

#[test]
fn admin_query_defaults() {
    assert_eq!(default_page(), Some(1));
    assert_eq!(default_per_page(), Some(50));
    assert_eq!(default_audit_limit(), Some(100));
}

#[test]
fn pagination_windows() {
    let w = paginate(Some(3), Some(20));
    assert_eq!((w.page, w.per_page, w.offset), (3, 20, 40));
    let d = paginate(None, None);
    assert_eq!((d.page, d.per_page, d.offset), (1, 50, 0));
    let c = paginate(Some(-4), Some(1000));
    assert_eq!((c.page, c.per_page, c.offset), (1, 200, 0));
    let z = paginate(Some(2), Some(0));
    assert_eq!((z.page, z.per_page, z.offset), (2, 1, 1));
    assert_eq!(chat_history_limit(None), 50);
    assert_eq!(chat_history_limit(Some(0)), 1);
    assert_eq!(chat_history_limit(Some(9999)), 500);
    assert_eq!(chat_history_limit(Some(77)), 77);
}

#[test]
fn admin_speed_names() {
    assert_eq!(parse_admin_speed("Paused"), Some(GameSpeed::Paused));
    assert_eq!(parse_admin_speed("VERYFAST"), Some(GameSpeed::VeryFast));
    assert_eq!(parse_admin_speed("ultra"), Some(GameSpeed::Ultra));
    assert_eq!(parse_admin_speed("very fast"), None);
    assert_eq!(parse_admin_speed(""), None);
}

#[test]
fn template_admission_rules() {
    assert_eq!(template_admission(false, 0, 5), Err(TemplateError::Disabled));
    assert_eq!(template_admission(true, 5, 5), Err(TemplateError::InstanceLimit));
    assert_eq!(template_admission(true, 4, 5), Ok(()));
    assert_eq!(TemplateError::InstanceLimit.message(), "Maximum instances for this template reached");
}

#[test]
fn avatars() {
    let list = avatar_list();
    assert_eq!(list.len(), 30);
    assert_eq!(list[0], "tower_01");
    assert_eq!(list[29], "globe_02");
    assert!(is_listed_avatar("dish_02"));
    assert!(!is_listed_avatar("dish_03"));
}

#[test]
fn profile_update_checks() {
    assert_eq!(check_profile_update(&None, &None), Ok("tower_01".to_string()));
    assert_eq!(check_profile_update(&Some("Zed".to_string()), &Some("radio_01".to_string())), Ok("radio_01".to_string()));
    assert_eq!(check_profile_update(&None, &Some("nope".to_string())), Err(ProfileError::InvalidAvatar));
    assert_eq!(
        check_profile_update(&Some("x".repeat(65)), &Some("nope".to_string())),
        Err(ProfileError::InvalidAvatar)
    );
    assert_eq!(check_profile_update(&Some("x".repeat(65)), &None), Err(ProfileError::DisplayNameTooLong));
    assert_eq!(check_profile_update(&Some("x".repeat(64)), &None), Ok("tower_01".to_string()));
    // 22 three-byte characters are 66 bytes.
    assert_eq!(check_profile_update(&Some("€".repeat(22)), &None), Err(ProfileError::DisplayNameTooLong));
}

#[test]
fn tick_loop_decisions() {
    assert_eq!(snapshot_interval(2), 30);
    assert_eq!(snapshot_interval(3), 60);
    assert_eq!(tick_step(0, GameSpeed::Normal), TickStep::Idle);
    assert_eq!(tick_step(2, GameSpeed::Paused), TickStep::Skip);
    assert_eq!(tick_step(2, GameSpeed::Fast), TickStep::Advance);
    let p = plan_tick(300, 1, true);
    assert!(p.client_snapshot && p.db_snapshot && p.maintenance);
    let q = plan_tick(90, 5, true);
    assert!(!q.client_snapshot && !q.db_snapshot && !q.maintenance);
    let r = plan_tick(200, 1, false);
    assert!(!r.client_snapshot && !r.db_snapshot && r.maintenance);
    assert!(plan_tick(120, 4, false).client_snapshot);
}

#[test]
fn event_flushing() {
    assert!(!should_flush_events(0, 10_000_000));
    assert!(!should_flush_events(5, 1_999_999));
    assert!(should_flush_events(5, 2_000_000));
    assert!(should_flush_events(200, 0));
}

#[test]
fn leaderboard_net_worth() {
    assert_eq!(net_worth(1_000, 50, 300), 1_000 + 5_000 - 300);
    assert_eq!(net_worth(-10, 0, 5), -15);
    assert_eq!(event_type_name(EventKind::NodeBuilt), "NodeBuilt");
    assert_eq!(event_type_name(EventKind::Other), "Other");
}

#[test]
fn tick_profiling() {
    let mut s = TickStats::new();
    s.record_tick_duration(100);
    assert_eq!((s.last_tick_us(), s.avg_tick_us(), s.max_tick_us(), s.p99_tick_us()), (100, 100, 100, 100));
    s.record_tick_duration(200);
    assert_eq!(s.avg_tick_us(), (100 * 9 + 200) / 10);
    assert_eq!(s.max_tick_us(), 200);
    let mut t = TickStats::new();
    for d in 1..=100u64 {
        t.record_tick_duration(d);
    }
    assert_eq!(t.p99_tick_us(), 99);
    assert_eq!(t.max_tick_us(), 100);
    t.record_tick_duration(1);
    // The maximum only looks at the last 60 ticks.
    assert_eq!(t.max_tick_us(), 100);
}

fn delta(corp: u64) -> CorpDelta {
    CorpDelta {
        corp_id: corp,
        node_count: Some(4),
        cash: Some(123_456),
        revenue: Some(1_499),
        cost: Some(700),
        debt: Some(2_500_000),
        avg_utilization_bits: Some(0.5f64.to_bits()),
        avg_health_bits: Some(1.0f64.to_bits()),
        total_throughput_bits: Some(10.0f64.to_bits()),
    }
}

#[test]
fn graduated_intel() {
    let mut intel = HashMap::new();
    intel.insert(2u64, 1u8);
    intel.insert(3u64, 2u8);
    intel.insert(4u64, 3u8);
    assert_eq!(filter_delta(&delta(1), Some(1), &intel), delta(1));
    let none = filter_delta(&delta(5), Some(1), &intel);
    assert_eq!((none.node_count, none.cash, none.avg_health_bits), (Some(4), None, None));
    let basic = filter_delta(&delta(2), Some(1), &intel);
    assert_eq!(
        (basic.cash, basic.revenue, basic.cost, basic.debt),
        (Some(100_000), Some(1_000), Some(1_000), Some(3_000_000))
    );
    assert_eq!(basic.avg_utilization_bits, None);
    let detailed = filter_delta(&delta(3), Some(1), &intel);
    assert_eq!((detailed.cash, detailed.total_throughput_bits), (Some(123_456), None));
    assert_eq!(filter_delta(&delta(4), Some(1), &intel), delta(4));
}

#[test]
fn event_visibility_and_updates() {
    let global = EventTag { index: 0, related_corps: vec![] };
    let mine = EventTag { index: 1, related_corps: vec![1, 9] };
    let theirs = EventTag { index: 2, related_corps: vec![9] };
    assert!(is_event_visible(&global, None));
    assert!(is_event_visible(&mine, Some(1)));
    assert!(!is_event_visible(&mine, None));
    assert!(!is_event_visible(&theirs, Some(1)));
    let u = TickUpdate { tick: 7, corp_updates: vec![delta(1), delta(9)], events: vec![global, mine, theirs] };
    let intel = HashMap::new();
    let f = filter_tick_update_for_player(&u, Some(1), false, &intel);
    assert_eq!(f.tick, 7);
    assert_eq!(f.events.iter().map(|e| e.index).collect::<Vec<_>>(), vec![0, 1]);
    assert_eq!(f.corp_updates[0], delta(1));
    assert_eq!(f.corp_updates[1].cash, None);
    let s = filter_tick_update_for_player(&u, None, true, &intel);
    assert_eq!(s.events.len(), 3);
    assert_eq!(s.corp_updates[1], delta(9));
}

#[test]
fn missing_object_errors() {
    assert!(is_missing_object_error("Got HTTP 404 with content"));
    assert!(is_missing_object_error("NoSuchKey"));
    assert!(!is_missing_object_error("HTTP 403 Forbidden"));
    assert!(!is_missing_object_error(""));
    assert!(!is_missing_object_error("NoSuchBucket 40"));
}

#[test]
fn p99_sorts_the_samples() {
    let mut t = TickStats::new();
    for d in (1..=100u64).rev() {
        t.record_tick_duration(d);
    }
    assert_eq!(t.p99_tick_us(), 99);
    let mut u = TickStats::new();
    for d in [50u64, 10, 40, 30, 20] {
        u.record_tick_duration(d);
    }
    // Five samples: the 99th percentile is the largest.
    assert_eq!(u.p99_tick_us(), 50);
    assert_eq!(u.max_tick_us(), 50);
}

#[test]
fn framed_snapshot_follows_the_encoder() {
    assert_eq!(gt_server::storage::framed_snapshot(None, 12), None);
    assert_eq!(gt_server::storage::framed_snapshot(Some(vec![1, 2]), 12), Some((vec![1, 2], 12)));
    assert_eq!(gt_server::storage::framed_snapshot(Some(vec![]), (1usize << 32) + 3).map(|p| p.1), Some(3));
}
