//! Player commands as the server sees them, their rate-limit categories,
//! the corporation they target, and parameter validation.

use vstd::prelude::*;

use crate::chat::{is_white_space, trim};
use crate::ieee::{
    f64_is_finite, f64_le, f64_lt, is_finite, le, lt, F64_100, F64_180, F64_90, F64_NEG_180,
    F64_NEG_90, F64_ZERO,
};

verus! {

/// Identifier of a simulation entity (corporation, node, ...).
pub type EntityId = u64;

/// Simulation speed.
#[derive(Clone, Copy, Debug, PartialEq, Eq, Structural)]
pub enum GameSpeed {
    Paused,
    Normal,
    Fast,
    VeryFast,
    Ultra,
}

/// A game command, holding the parameters that the server itself inspects.
/// Floating-point parameters are carried as their IEEE-754 bit patterns.
#[derive(Clone, Debug)]
pub enum Command {
    BuildNode { lon_bits: u64, lat_bits: u64 },
    BuildEdge,
    UpgradeNode,
    DecommissionNode,
    RepairNode,
    RepairEdge,
    EmergencyRepair,
    HireEmployee { corporation: EntityId, role: String },
    FireEmployee,
    AssignTeam,
    TakeLoan { corporation: EntityId, amount: i64 },
    RepayLoan { amount: i64 },
    SetBudget { corporation: EntityId },
    StartResearch { corporation: EntityId },
    CancelResearch { corporation: EntityId },
    SetPolicy { corporation: EntityId },
    DeclareBankruptcy { entity: EntityId },
    RequestBailout { entity: EntityId },
    AcceptBailout { entity: EntityId },
    ProposeContract { from: EntityId, terms: String },
    AcceptContract,
    RejectContract,
    CreateSubsidiary { parent: EntityId },
    PurchaseInsurance,
    CancelInsurance,
    PlaceBid { amount: i64 },
    ProposeAcquisition { offer: i64 },
    RespondToAcquisition,
    LaunchEspionage,
    LaunchSabotage,
    UpgradeSecurity,
    StartLobbying { budget: i64 },
    CancelLobbying,
    ProposeCoOwnership { share_pct_bits: u64 },
    RespondCoOwnership,
    ProposeBuyout { price: i64 },
    VoteUpgrade,
    UpdateEdgeWaypoints,
    BidSpectrum,
    AssignSpectrum,
    UnassignSpectrum,
    PurchaseCableShip,
    SetSpeed(GameSpeed),
    TogglePause,
    LoadGame,
    SaveGame,
    ProposeAlliance,
    AcceptAlliance,
    DissolveAlliance,
    FileLawsuit,
    SettleLawsuit,
    DefendLawsuit,
    FilePatent,
    RequestLicense,
    SetLicensePrice,
    RevokeLicense,
    StartIndependentResearch,
    BidForGrant,
    CompleteGrant,
    SetRegionPricing,
    SetMaintenancePriority,
    BuildConstellation,
    OrderSatellites,
    ScheduleLaunch,
    ContractLaunch,
    DeorbitSatellite,
    OrderTerminals,
    ShipTerminals,
    SetSatellitePricing,
    ServiceSatellite,
}

/// Command category for per-type rate limiting.
#[derive(Clone, Copy, Debug, PartialEq, Eq, Structural)]
pub enum CommandCategory {
    /// BuildNode, BuildEdge, UpgradeNode, DecommissionNode, repairs, satellites.
    Build,
    /// Loans, budgets, insurance, bids, acquisitions, contracts, satellite pricing.
    Financial,
    /// StartResearch, CancelResearch.
    Research,
    /// LaunchEspionage, LaunchSabotage.
    Espionage,
    /// Everything else.
    General,
}

/// The rate-limit category of each command.
pub open spec fn category_of(c: Command) -> CommandCategory {
    match c {
        Command::BuildNode { .. } | Command::BuildEdge | Command::UpgradeNode
        | Command::DecommissionNode | Command::RepairNode | Command::RepairEdge
        | Command::EmergencyRepair | Command::UpdateEdgeWaypoints | Command::BuildConstellation
        | Command::OrderSatellites | Command::ScheduleLaunch | Command::ContractLaunch
        | Command::DeorbitSatellite | Command::OrderTerminals | Command::ShipTerminals
        | Command::ServiceSatellite => CommandCategory::Build,
        Command::TakeLoan { .. } | Command::RepayLoan { .. } | Command::SetBudget { .. }
        | Command::PurchaseInsurance | Command::CancelInsurance | Command::PlaceBid { .. }
        | Command::ProposeAcquisition { .. } | Command::ProposeContract { .. }
        | Command::SetSatellitePricing => CommandCategory::Financial,
        Command::StartResearch { .. } | Command::CancelResearch { .. } => CommandCategory::Research,
        Command::LaunchEspionage | Command::LaunchSabotage => CommandCategory::Espionage,
        _ => CommandCategory::General,
    }
}

/// Categorize a command for per-type rate limiting.
pub fn categorize_command(command: &Command) -> (c: CommandCategory)
    ensures
        c == category_of(*command),
{
    match command {
        Command::BuildNode { .. } | Command::BuildEdge | Command::UpgradeNode
        | Command::DecommissionNode | Command::RepairNode | Command::RepairEdge
        | Command::EmergencyRepair | Command::UpdateEdgeWaypoints | Command::BuildConstellation
        | Command::OrderSatellites | Command::ScheduleLaunch | Command::ContractLaunch
        | Command::DeorbitSatellite | Command::OrderTerminals | Command::ShipTerminals
        | Command::ServiceSatellite => CommandCategory::Build,
        Command::TakeLoan { .. } | Command::RepayLoan { .. } | Command::SetBudget { .. }
        | Command::PurchaseInsurance | Command::CancelInsurance | Command::PlaceBid { .. }
        | Command::ProposeAcquisition { .. } | Command::ProposeContract { .. }
        | Command::SetSatellitePricing => CommandCategory::Financial,
        Command::StartResearch { .. } | Command::CancelResearch { .. } => CommandCategory::Research,
        Command::LaunchEspionage | Command::LaunchSabotage => CommandCategory::Espionage,
        _ => CommandCategory::General,
    }
}

/// The corporation a command names directly, if any. Commands that act on
/// nodes, edges and other entities are checked for ownership by the
/// simulation instead.
pub open spec fn target_corp_of(c: Command) -> Option<EntityId> {
    match c {
        Command::HireEmployee { corporation, .. } => Some(corporation),
        Command::TakeLoan { corporation, .. } => Some(corporation),
        Command::SetBudget { corporation } => Some(corporation),
        Command::StartResearch { corporation } => Some(corporation),
        Command::CancelResearch { corporation } => Some(corporation),
        Command::SetPolicy { corporation } => Some(corporation),
        Command::DeclareBankruptcy { entity } => Some(entity),
        Command::RequestBailout { entity } => Some(entity),
        Command::AcceptBailout { entity } => Some(entity),
        Command::ProposeContract { from, .. } => Some(from),
        Command::CreateSubsidiary { parent } => Some(parent),
        _ => None,
    }
}

/// Extract the corporation a command targets, if any (anti-cheat: players may
/// only issue such commands for their own corporation).
pub fn command_target_corp(command: &Command) -> (r: Option<EntityId>)
    ensures
        r == target_corp_of(*command),
{
    match command {
        Command::HireEmployee { corporation, .. } => Some(*corporation),
        Command::TakeLoan { corporation, .. } => Some(*corporation),
        Command::SetBudget { corporation } => Some(*corporation),
        Command::StartResearch { corporation } => Some(*corporation),
        Command::CancelResearch { corporation } => Some(*corporation),
        Command::SetPolicy { corporation } => Some(*corporation),
        Command::DeclareBankruptcy { entity } => Some(*entity),
        Command::RequestBailout { entity } => Some(*entity),
        Command::AcceptBailout { entity } => Some(*entity),
        Command::ProposeContract { from, .. } => Some(*from),
        Command::CreateSubsidiary { parent } => Some(*parent),
        _ => None,
    }
}

/// Why command validation failed.
#[derive(Clone, Copy, Debug, PartialEq, Eq, Structural)]
pub enum CommandError {
    CoordinatesNotFinite,
    LongitudeOutOfRange,
    LatitudeOutOfRange,
    LoanNotPositive,
    EmptyRole,
    TermsTooLong,
    RepaymentNotPositive,
    BidNotPositive,
    OfferNotPositive,
    LobbyingBudgetNotPositive,
    ShareOutOfRange,
    BuyoutNotPositive,
}

/// The message of a validation error.
pub open spec fn command_error_text(e: CommandError) -> Seq<char> {
    match e {
        CommandError::CoordinatesNotFinite => "Coordinates must be finite numbers"@,
        CommandError::LongitudeOutOfRange => "Longitude must be between -180 and 180"@,
        CommandError::LatitudeOutOfRange => "Latitude must be between -90 and 90"@,
        CommandError::LoanNotPositive => "Loan amount must be positive"@,
        CommandError::EmptyRole => "Employee role cannot be empty"@,
        CommandError::TermsTooLong => "Contract terms too long (max 10,000 chars)"@,
        CommandError::RepaymentNotPositive => "Repayment amount must be positive"@,
        CommandError::BidNotPositive => "Bid amount must be positive"@,
        CommandError::OfferNotPositive => "Acquisition offer must be positive"@,
        CommandError::LobbyingBudgetNotPositive => "Lobbying budget must be positive"@,
        CommandError::ShareOutOfRange => "Co-ownership share must be between 0 and 100"@,
        CommandError::BuyoutNotPositive => "Buyout price must be positive"@,
    }
}

impl CommandError {
    /// The message sent to the client.
    pub fn message(&self) -> (r: &'static str)
        ensures
            r@ == command_error_text(*self),
    {
        match self {
            CommandError::CoordinatesNotFinite => "Coordinates must be finite numbers",
            CommandError::LongitudeOutOfRange => "Longitude must be between -180 and 180",
            CommandError::LatitudeOutOfRange => "Latitude must be between -90 and 90",
            CommandError::LoanNotPositive => "Loan amount must be positive",
            CommandError::EmptyRole => "Employee role cannot be empty",
            CommandError::TermsTooLong => "Contract terms too long (max 10,000 chars)",
            CommandError::RepaymentNotPositive => "Repayment amount must be positive",
            CommandError::BidNotPositive => "Bid amount must be positive",
            CommandError::OfferNotPositive => "Acquisition offer must be positive",
            CommandError::LobbyingBudgetNotPositive => "Lobbying budget must be positive",
            CommandError::ShareOutOfRange => "Co-ownership share must be between 0 and 100",
            CommandError::BuyoutNotPositive => "Buyout price must be positive",
        }
    }
}

/// Maximum length of contract terms, in bytes.
pub const MAX_CONTRACT_TERMS: usize = 10_000;

/// The outcome of parameter validation for each command.
pub open spec fn validation_of(c: Command) -> Result<(), CommandError> {
    match c {
        Command::BuildNode { lon_bits, lat_bits } => {
            if !is_finite(lon_bits) || !is_finite(lat_bits) {
                Err(CommandError::CoordinatesNotFinite)
            } else if lt(lon_bits, F64_NEG_180) || lt(F64_180, lon_bits) {
                Err(CommandError::LongitudeOutOfRange)
            } else if lt(lat_bits, F64_NEG_90) || lt(F64_90, lat_bits) {
                Err(CommandError::LatitudeOutOfRange)
            } else {
                Ok(())
            }
        },
        Command::TakeLoan { amount, .. } => if amount <= 0 { Err(CommandError::LoanNotPositive) } else { Ok(()) },
        Command::HireEmployee { role, .. } => if trim(role@).len() == 0 { Err(CommandError::EmptyRole) } else { Ok(()) },
        Command::ProposeContract { terms, .. } => {
            if crate::text::byte_len(terms@) > MAX_CONTRACT_TERMS {
                Err(CommandError::TermsTooLong)
            } else {
                Ok(())
            }
        },
        Command::RepayLoan { amount } => if amount <= 0 { Err(CommandError::RepaymentNotPositive) } else { Ok(()) },
        Command::PlaceBid { amount } => if amount <= 0 { Err(CommandError::BidNotPositive) } else { Ok(()) },
        Command::ProposeAcquisition { offer } => if offer <= 0 { Err(CommandError::OfferNotPositive) } else { Ok(()) },
        Command::StartLobbying { budget } => if budget <= 0 { Err(CommandError::LobbyingBudgetNotPositive) } else { Ok(()) },
        Command::ProposeCoOwnership { share_pct_bits } => {
            if le(share_pct_bits, F64_ZERO) || lt(F64_100, share_pct_bits) {
                Err(CommandError::ShareOutOfRange)
            } else {
                Ok(())
            }
        },
        Command::ProposeBuyout { price } => if price <= 0 { Err(CommandError::BuyoutNotPositive) } else { Ok(()) },
        _ => Ok(()),
    }
}

/// True when every character of `s` is white space.
pub fn is_blank(s: &str) -> (b: bool)
    ensures
        b == (trim(s@).len() == 0),
{
    let ghost src = s@;
    let mut all = true;
    for c in it: s.chars()
        invariant
            it.seq() == src,
            all == (forall|j: int| 0 <= j < it.index() ==> is_white_space(#[trigger] src[j])),
    {
        if !crate::chat::is_white_space_char(c) {
            all = false;
        }
    }
    proof {
        crate::chat::lemma_trim_empty_iff_blank(src);
    }
    all
}

/// A node is built only at finite coordinates within the globe: longitude
/// in [-180, 180] and latitude in [-90, 90] (bounds included); a finite
/// point with the longitude in range but the latitude outside is refused for
/// its latitude.
pub proof fn build_node_accepts_exactly_in_range(lon_bits: u64, lat_bits: u64)
    ensures
        validation_of(Command::BuildNode { lon_bits, lat_bits }) is Ok <==> (
            is_finite(lon_bits) && is_finite(lat_bits)
            && le(F64_NEG_180, lon_bits) && le(lon_bits, F64_180)
            && le(F64_NEG_90, lat_bits) && le(lat_bits, F64_90)),
        (is_finite(lon_bits) && is_finite(lat_bits) && le(F64_NEG_180, lon_bits) && le(lon_bits, F64_180)
            && (lt(lat_bits, F64_NEG_90) || lt(F64_90, lat_bits)))
            ==> validation_of(Command::BuildNode { lon_bits, lat_bits })
                == Err::<(), CommandError>(CommandError::LatitudeOutOfRange),
{
}

/// Validate command parameters before forwarding them to the simulation.
pub fn validate_command(command: &Command) -> (r: Result<(), CommandError>)
    ensures
        r == validation_of(*command),
        *command is BuildNode ==> (r is Ok <==> (
            is_finite(command->lon_bits) && is_finite(command->lat_bits)
            && le(F64_NEG_180, command->lon_bits) && le(command->lon_bits, F64_180)
            && le(F64_NEG_90, command->lat_bits) && le(command->lat_bits, F64_90))),
{
    proof {
        if let Command::BuildNode { lon_bits, lat_bits } = *command {
            build_node_accepts_exactly_in_range(lon_bits, lat_bits);
        }
    }
    match command {
        Command::BuildNode { lon_bits, lat_bits } => {
            if !f64_is_finite(*lon_bits) || !f64_is_finite(*lat_bits) {
                return Err(CommandError::CoordinatesNotFinite);
            }
            if f64_lt(*lon_bits, F64_NEG_180) || f64_lt(F64_180, *lon_bits) {
                return Err(CommandError::LongitudeOutOfRange);
            }
            if f64_lt(*lat_bits, F64_NEG_90) || f64_lt(F64_90, *lat_bits) {
                return Err(CommandError::LatitudeOutOfRange);
            }
            Ok(())
        },
        Command::TakeLoan { amount, .. } => if *amount <= 0 { Err(CommandError::LoanNotPositive) } else { Ok(()) },
        Command::HireEmployee { role, .. } => if is_blank(role.as_str()) { Err(CommandError::EmptyRole) } else { Ok(()) },
        Command::ProposeContract { terms, .. } => {
            if terms.as_str().len() > MAX_CONTRACT_TERMS {
                Err(CommandError::TermsTooLong)
            } else {
                Ok(())
            }
        },
        Command::RepayLoan { amount } => if *amount <= 0 { Err(CommandError::RepaymentNotPositive) } else { Ok(()) },
        Command::PlaceBid { amount } => if *amount <= 0 { Err(CommandError::BidNotPositive) } else { Ok(()) },
        Command::ProposeAcquisition { offer } => if *offer <= 0 { Err(CommandError::OfferNotPositive) } else { Ok(()) },
        Command::StartLobbying { budget } => if *budget <= 0 { Err(CommandError::LobbyingBudgetNotPositive) } else { Ok(()) },
        Command::ProposeCoOwnership { share_pct_bits } => {
            if f64_le(*share_pct_bits, F64_ZERO) || f64_lt(F64_100, *share_pct_bits) {
                Err(CommandError::ShareOutOfRange)
            } else {
                Ok(())
            }
        },
        Command::ProposeBuyout { price } => if *price <= 0 { Err(CommandError::BuyoutNotPositive) } else { Ok(()) },
        _ => Ok(()),
    }
}

} // verus!
