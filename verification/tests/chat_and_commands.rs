use gt_server::chat::{approximate_money, sanitize_chat};
use gt_server::command::{
    categorize_command, command_target_corp, is_blank, validate_command, Command, CommandCategory,
    CommandError, GameSpeed,
};

#[test]
fn sanitize_keeps_plain_text() {
    assert_eq!(sanitize_chat("hello world"), Some("hello world".to_string()));
}

#[test]
fn sanitize_trims_and_strips_controls() {
    assert_eq!(sanitize_chat("  hi\u{0007} there \t"), Some("hi there".to_string()));
    assert_eq!(sanitize_chat("a\u{0000}b\u{009f}c"), Some("abc".to_string()));
}

#[test]
fn sanitize_keeps_newlines_inside() {
    assert_eq!(sanitize_chat("line one\nline two"), Some("line one\nline two".to_string()));
}

#[test]
fn sanitize_rejects_blank() {
    assert_eq!(sanitize_chat(""), None);
    assert_eq!(sanitize_chat("   \n\t "), None);
    assert_eq!(sanitize_chat("\u{0001}\u{0002}"), None);
    assert_eq!(sanitize_chat("\u{3000}\u{00a0}"), None);
}

#[test]
fn sanitizing_twice_changes_nothing() {
    let once = sanitize_chat("  \u{0007}ping\u{0008} me  ").unwrap();
    assert_eq!(sanitize_chat(&once), Some(once.clone()));
}

#[test]
fn approximate_money_small_bucket() {
    assert_eq!(approximate_money(0), 0);
    assert_eq!(approximate_money(499), 0);
    assert_eq!(approximate_money(500), 1000);
    assert_eq!(approximate_money(1499), 1000);
    assert_eq!(approximate_money(1500), 2000);
    assert_eq!(approximate_money(9600), 10000);
}

#[test]
fn approximate_money_medium_and_large_buckets() {
    assert_eq!(approximate_money(123_456), 100_000);
    assert_eq!(approximate_money(150_000), 200_000);
    assert_eq!(approximate_money(1_500_000), 2_000_000);
    assert_eq!(approximate_money(1_499_999), 1_000_000);
}

#[test]
fn approximate_money_is_odd() {
    assert_eq!(approximate_money(-1500), -2000);
    assert_eq!(approximate_money(-123_456), -100_000);
    for v in [7i64, 4_321, 98_765, 5_555_555] {
        assert_eq!(approximate_money(-v), -approximate_money(v));
    }
}

#[test]
fn approximate_money_is_close() {
    for v in [1i64, 999, 10_001, 777_777, 12_345_678] {
        let a = approximate_money(v);
        let bucket = if v < 10_000 { 1_000 } else if v < 1_000_000 { 100_000 } else { 1_000_000 };
        assert!((a - v).abs() <= bucket / 2);
    }
}

#[test]
fn approximate_money_extremes() {
    assert_eq!(approximate_money(i64::MAX), -9_223_372_036_854_551_616);
    assert_eq!(approximate_money(i64::MIN), 9_223_372_036_854_551_616);
}

#[test]
fn categories_of_commands() {
    assert_eq!(categorize_command(&Command::BuildEdge), CommandCategory::Build);
    assert_eq!(categorize_command(&Command::ServiceSatellite), CommandCategory::Build);
    assert_eq!(
        categorize_command(&Command::TakeLoan { corporation: 1, amount: 5 }),
        CommandCategory::Financial
    );
    assert_eq!(categorize_command(&Command::SetSatellitePricing), CommandCategory::Financial);
    assert_eq!(categorize_command(&Command::StartResearch { corporation: 2 }), CommandCategory::Research);
    assert_eq!(categorize_command(&Command::LaunchSabotage), CommandCategory::Espionage);
    assert_eq!(categorize_command(&Command::TogglePause), CommandCategory::General);
    assert_eq!(categorize_command(&Command::SetPolicy { corporation: 3 }), CommandCategory::General);
}

#[test]
fn target_corporations() {
    assert_eq!(
        command_target_corp(&Command::HireEmployee { corporation: 7, role: "eng".to_string() }),
        Some(7)
    );
    assert_eq!(
        command_target_corp(&Command::ProposeContract { from: 9, terms: String::new() }),
        Some(9)
    );
    assert_eq!(command_target_corp(&Command::CreateSubsidiary { parent: 4 }), Some(4));
    assert_eq!(command_target_corp(&Command::DeclareBankruptcy { entity: 5 }), Some(5));
    assert_eq!(command_target_corp(&Command::RepayLoan { amount: 3 }), None);
    assert_eq!(command_target_corp(&Command::SetSpeed(GameSpeed::Fast)), None);
}

fn build(lon: f64, lat: f64) -> Command {
    Command::BuildNode { lon_bits: lon.to_bits(), lat_bits: lat.to_bits() }
}

#[test]
fn build_node_coordinates() {
    assert_eq!(validate_command(&build(0.0, 0.0)), Ok(()));
    assert_eq!(validate_command(&build(-180.0, 90.0)), Ok(()));
    assert_eq!(validate_command(&build(180.0, -90.0)), Ok(()));
    assert_eq!(validate_command(&build(f64::NAN, 0.0)), Err(CommandError::CoordinatesNotFinite));
    assert_eq!(validate_command(&build(0.0, f64::INFINITY)), Err(CommandError::CoordinatesNotFinite));
    assert_eq!(validate_command(&build(180.5, 0.0)), Err(CommandError::LongitudeOutOfRange));
    assert_eq!(validate_command(&build(-181.0, 100.0)), Err(CommandError::LongitudeOutOfRange));
    assert_eq!(validate_command(&build(10.0, -90.01)), Err(CommandError::LatitudeOutOfRange));
}

#[test]
fn amounts_must_be_positive() {
    assert_eq!(
        validate_command(&Command::TakeLoan { corporation: 1, amount: 0 }),
        Err(CommandError::LoanNotPositive)
    );
    assert_eq!(validate_command(&Command::TakeLoan { corporation: 1, amount: 1 }), Ok(()));
    assert_eq!(validate_command(&Command::RepayLoan { amount: -4 }), Err(CommandError::RepaymentNotPositive));
    assert_eq!(validate_command(&Command::PlaceBid { amount: 0 }), Err(CommandError::BidNotPositive));
    assert_eq!(validate_command(&Command::ProposeAcquisition { offer: -1 }), Err(CommandError::OfferNotPositive));
    assert_eq!(
        validate_command(&Command::StartLobbying { budget: 0 }),
        Err(CommandError::LobbyingBudgetNotPositive)
    );
    assert_eq!(validate_command(&Command::ProposeBuyout { price: 0 }), Err(CommandError::BuyoutNotPositive));
}

#[test]
fn role_and_terms() {
    assert_eq!(
        validate_command(&Command::HireEmployee { corporation: 1, role: "  \t".to_string() }),
        Err(CommandError::EmptyRole)
    );
    assert_eq!(
        validate_command(&Command::HireEmployee { corporation: 1, role: " engineer ".to_string() }),
        Ok(())
    );
    assert_eq!(
        validate_command(&Command::ProposeContract { from: 1, terms: "x".repeat(10_000) }),
        Ok(())
    );
    assert_eq!(
        validate_command(&Command::ProposeContract { from: 1, terms: "x".repeat(10_001) }),
        Err(CommandError::TermsTooLong)
    );
}

#[test]
fn co_ownership_share() {
    let share = |v: f64| Command::ProposeCoOwnership { share_pct_bits: v.to_bits() };
    assert_eq!(validate_command(&share(50.0)), Ok(()));
    assert_eq!(validate_command(&share(100.0)), Ok(()));
    assert_eq!(validate_command(&share(0.0)), Err(CommandError::ShareOutOfRange));
    assert_eq!(validate_command(&share(-0.0)), Err(CommandError::ShareOutOfRange));
    assert_eq!(validate_command(&share(100.5)), Err(CommandError::ShareOutOfRange));
    assert_eq!(validate_command(&share(f64::NAN)), Ok(()));
}

#[test]
fn command_error_messages() {
    assert_eq!(CommandError::LoanNotPositive.message(), "Loan amount must be positive");
    assert_eq!(CommandError::TermsTooLong.message(), "Contract terms too long (max 10,000 chars)");
}

#[test]
fn blank_strings() {
    assert!(is_blank(""));
    assert!(is_blank(" \u{2003}\n"));
    assert!(!is_blank(" a "));
}
