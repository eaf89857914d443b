//! The decisions of a client session: which messages are let through
//! (spectator rights, rate limits, duplicate command numbers), which need an
//! authenticated player, how game commands and chat lines are checked, and
//! how a player's session state follows logins, joins and leaves.

use vstd::prelude::*;

use crate::accounts::AccountRecord;
use crate::auth::{argon2_accepts, phc_parses, verify_password};
use crate::chat::{sanitize_chat, sanitized};
use crate::command::{
    command_error_text, command_target_corp, target_corp_of, validate_command, validation_of, Command, CommandError, EntityId,
    GameSpeed,
};
use crate::ids::{new_uuid, parse_uuid, uuid_parse};
use crate::rate_limit::{
    category_limit, checks_stay_within_limits, window_step, LimiterView, RateLimiter, CHAT_WINDOW_US,
    SECOND_US,
};
use crate::command::{category_of, CommandCategory};
use crate::text::{byte_len, owned, push_str};
use crate::world::JoinError;

verus! {

/// Maximum chat message length, in bytes.
pub const MAX_CHAT_LENGTH: usize = 500;
/// Seconds a new connection has to authenticate.
pub const AUTH_TIMEOUT_SECS: u64 = 30;

/// Error codes sent to clients.
#[derive(Clone, Copy, Debug, PartialEq, Eq, Structural)]
pub enum ErrorCode {
    NotAuthenticated,
    PermissionDenied,
    NotInWorld,
    InvalidCommand,
    WorldNotFound,
    WorldFull,
    RateLimited,
    InternalError,
}

/// A player connected to the server.
#[derive(Debug)]
pub struct ConnectedPlayer {
    pub id: u128,
    pub username: String,
    pub is_guest: bool,
    pub is_admin: bool,
    pub is_spectator: bool,
    pub world_id: Option<u128>,
    pub corp_id: Option<EntityId>,
}

impl ConnectedPlayer {
    /// A field-by-field copy.
    pub fn duplicate(&self) -> (r: ConnectedPlayer)
        ensures
            r == *self,
    {
        ConnectedPlayer {
            id: self.id,
            username: self.username.clone(),
            is_guest: self.is_guest,
            is_admin: self.is_admin,
            is_spectator: self.is_spectator,
            world_id: self.world_id,
            corp_id: self.corp_id,
        }
    }
}

/// The session of a player who logs in (or presents a token), resuming the
/// world and corporation of an existing session; spectators get no corporation.
pub open spec fn resumed_session(
    id: u128,
    username: Seq<char>,
    is_guest: bool,
    spectator: bool,
    previous: Option<ConnectedPlayer>,
    p: ConnectedPlayer,
) -> bool {
    &&& p.id == id
    &&& p.username@ == username
    &&& p.is_guest == is_guest
    &&& !p.is_admin
    &&& p.is_spectator == spectator
    &&& p.world_id == (match previous { Some(s) => s.world_id, None => None })
    &&& p.corp_id == (if spectator { None } else { match previous { Some(s) => s.corp_id, None => None } })
}

/// Session state after a login or token authentication.
pub fn resume_session(
    id: u128,
    username: &str,
    is_guest: bool,
    spectator: bool,
    previous: &Option<ConnectedPlayer>,
) -> (p: ConnectedPlayer)
    ensures
        resumed_session(id, username@, is_guest, spectator, *previous, p),
{
    let (world_id, corp_id) = match previous {
        Some(s) => (s.world_id, s.corp_id),
        None => (None, None),
    };
    ConnectedPlayer {
        id,
        username: owned(username),
        is_guest,
        is_admin: false,
        is_spectator: spectator,
        world_id,
        corp_id: if spectator { None } else { corp_id },
    }
}

/// Session state of a new player: not in any world.
pub fn fresh_session(id: u128, username: &str, is_guest: bool, spectator: bool) -> (p: ConnectedPlayer)
    ensures
        resumed_session(id, username@, is_guest, spectator, None, p),
{
    ConnectedPlayer {
        id,
        username: owned(username),
        is_guest,
        is_admin: false,
        is_spectator: spectator,
        world_id: None,
        corp_id: None,
    }
}

/// Why a password login fails.
#[derive(Clone, Copy, Debug, PartialEq, Eq, Structural)]
pub enum LoginError {
    AccountNotFound,
    IncorrectPassword,
    VerificationError,
}

impl LoginError {
    /// The reason reported to the client.
    pub fn reason(&self) -> (r: &'static str)
        ensures
            r@ == match *self {
                LoginError::AccountNotFound => "Invalid credentials: account not found"@,
                LoginError::IncorrectPassword => "Invalid credentials: incorrect password"@,
                LoginError::VerificationError => "Invalid credentials: password verification error"@,
            },
    {
        match self {
            LoginError::AccountNotFound => "Invalid credentials: account not found",
            LoginError::IncorrectPassword => "Invalid credentials: incorrect password",
            LoginError::VerificationError => "Invalid credentials: password verification error",
        }
    }
}

/// Check a password login against the account found (if any).
pub fn check_login(account: Option<AccountRecord>, password: &str) -> (r: Result<AccountRecord, LoginError>)
    ensures
        match account {
            None => r == Err::<AccountRecord, LoginError>(LoginError::AccountNotFound),
            Some(a) => if !phc_parses(a.password_hash@) {
                r == Err::<AccountRecord, LoginError>(LoginError::VerificationError)
            } else if !argon2_accepts(password@, a.password_hash@) {
                r == Err::<AccountRecord, LoginError>(LoginError::IncorrectPassword)
            } else {
                r == Ok::<AccountRecord, LoginError>(a)
            },
        },
{
    let a = match account {
        Some(a) => a,
        None => return Err(LoginError::AccountNotFound),
    };
    match verify_password(password, a.password_hash.as_str()) {
        Ok(true) => Ok(a),
        Ok(false) => Err(LoginError::IncorrectPassword),
        Err(_) => Err(LoginError::VerificationError),
    }
}

/// The player id of a token subject; `None` if it is not a UUID.
pub fn token_subject(sub: &str) -> (r: Option<u128>)
    ensures
        r == uuid_parse(sub@),
{
    parse_uuid(sub)
}

/// The player id of a refresh token's subject, or a fresh random id if the
/// subject is not a UUID.
pub fn refresh_subject(sub: &str) -> (r: u128)
    ensures
        uuid_parse(sub@) matches Some(id) ==> r == id,
{
    match parse_uuid(sub) {
        Some(id) => id,
        None => new_uuid(),
    }
}

/// The kinds of client message, with what the guard needs of game commands.
#[derive(Debug)]
pub enum ClientRequest {
    Auth,
    JoinWorld,
    LeaveWorld,
    GameCommand { command: Command, seq: Option<u64> },
    RequestSnapshot,
    Ping,
    Chat,
    UploadSave,
    RequestSaves,
    DownloadSave,
    DeleteSave,
    InviteFriend,
}

/// Messages that spectators may not send.
pub open spec fn spectator_forbidden(m: ClientRequest) -> bool {
    m is GameCommand || m is UploadSave || m is DeleteSave
}

/// What the guard decides for a message.
#[derive(Clone, Copy, Debug, PartialEq, Eq, Structural)]
pub enum Admission {
    /// Handle the message.
    Proceed,
    /// Spectators cannot send game commands, uploads or deletes.
    SpectatorDenied,
    /// Over a rate limit.
    RateLimited,
    /// A game command whose sequence number was already seen.
    DuplicateSeq(u64),
}

impl Admission {
    /// The error code and message sent back for a message that is not let
    /// through (a duplicate is answered with a failed acknowledgement that
    /// carries this message).
    pub fn refusal(&self) -> (r: Option<(ErrorCode, &'static str)>)
        ensures
            (*self == Admission::Proceed) <==> r is None,
            *self == Admission::SpectatorDenied ==> (r matches Some((c, m)) && c == ErrorCode::PermissionDenied
                && m@ == "Spectators cannot send game commands"@),
            *self == Admission::RateLimited ==> (r matches Some((c, m)) && c == ErrorCode::RateLimited
                && m@ == "Too many requests, slow down"@),
            *self is DuplicateSeq ==> (r matches Some((c, m)) && c == ErrorCode::InvalidCommand
                && m@ == "Duplicate command (seq already processed)"@),
    {
        match self {
            Admission::Proceed => None,
            Admission::SpectatorDenied => Some((ErrorCode::PermissionDenied, "Spectators cannot send game commands")),
            Admission::RateLimited => Some((ErrorCode::RateLimited, "Too many requests, slow down")),
            Admission::DuplicateSeq(_) => Some((ErrorCode::InvalidCommand, "Duplicate command (seq already processed)")),
        }
    }
}

/// The error code of a refused join: a ban is a permission error.
pub fn join_error_code(e: JoinError) -> (r: ErrorCode)
    ensures
        r == (if e == JoinError::Banned { ErrorCode::PermissionDenied } else { ErrorCode::WorldFull }),
{
    match e {
        JoinError::Banned => ErrorCode::PermissionDenied,
        JoinError::WorldFull => ErrorCode::WorldFull,
    }
}

/// The per-connection guard in front of message handling.
pub struct SessionGuard {
    limiter: RateLimiter,
    last_seq: u64,
}

impl SessionGuard {
    /// The highest game-command sequence number let through so far (0 at first).
    pub closed spec fn last_seq_spec(&self) -> u64 {
        self.last_seq
    }

    /// What the guard's rate limiter has recorded.
    pub closed spec fn limits(&self) -> LimiterView {
        self.limiter@
    }

    /// A guard for a new connection.
    pub fn new() -> (r: SessionGuard)
        ensures
            r.last_seq_spec() == 0,
            r.limits().within_limits(),
    {
        SessionGuard { limiter: RateLimiter::new(), last_seq: 0 }
    }

    /// Decide a message at time `now` (microseconds on the guard's clock):
    /// spectators are refused game commands, uploads and deletes; then the
    /// rate limits apply (per command category for game commands, the general
    /// limit for uploads and deletes, the chat limit for chat); then game
    /// commands with a sequence number not above the last one are duplicates.
    pub fn admit_at(&mut self, msg: &ClientRequest, is_spectator: bool, now: u64) -> (r: Admission)
        ensures
            final(self).last_seq_spec() >= old(self).last_seq_spec(),
            (r == Admission::Proceed && *msg is GameCommand && msg->seq is Some)
                ==> msg->seq->0 > old(self).last_seq_spec() && final(self).last_seq_spec() == msg->seq->0,
            old(self).limits().within_limits() ==> final(self).limits().within_limits(),
            is_spectator && spectator_forbidden(*msg) ==> r == Admission::SpectatorDenied
                && final(self).limits() == old(self).limits() && final(self).last_seq_spec() == old(self).last_seq_spec(),
            !(is_spectator && spectator_forbidden(*msg)) ==> match *msg {
                ClientRequest::GameCommand { command, seq } => {
                    let c = category_of(command);
                    let (allowed, entries) = window_step(old(self).limits().of(c), now, category_limit(c).0, category_limit(c).1);
                    &&& final(self).limits() == old(self).limits().with(c, entries)
                    &&& !allowed ==> r == Admission::RateLimited && final(self).last_seq_spec() == old(self).last_seq_spec()
                    &&& allowed ==> match seq {
                        Some(s) => if s <= old(self).last_seq_spec() {
                            r == Admission::DuplicateSeq(s) && final(self).last_seq_spec() == old(self).last_seq_spec()
                        } else {
                            r == Admission::Proceed && final(self).last_seq_spec() == s
                        },
                        None => r == Admission::Proceed && final(self).last_seq_spec() == old(self).last_seq_spec(),
                    }
                },
                ClientRequest::UploadSave | ClientRequest::DeleteSave => {
                    let (allowed, entries) = window_step(old(self).limits().general, now, SECOND_US, 10);
                    &&& final(self).limits() == (LimiterView { general: entries, ..old(self).limits() })
                    &&& r == (if allowed { Admission::Proceed } else { Admission::RateLimited })
                    &&& final(self).last_seq_spec() == old(self).last_seq_spec()
                },
                ClientRequest::Chat => {
                    let (allowed, entries) = window_step(old(self).limits().chat, now, CHAT_WINDOW_US, 5);
                    &&& final(self).limits() == (LimiterView { chat: entries, ..old(self).limits() })
                    &&& r == (if allowed { Admission::Proceed } else { Admission::RateLimited })
                    &&& final(self).last_seq_spec() == old(self).last_seq_spec()
                },
                _ => r == Admission::Proceed && final(self).limits() == old(self).limits()
                    && final(self).last_seq_spec() == old(self).last_seq_spec(),
            },
    {
        proof {
            if !self.limits().within_limits() {
            } else if msg is GameCommand {
                checks_stay_within_limits(self.limits(), category_of(msg->command), now);
            } else {
                checks_stay_within_limits(self.limits(), CommandCategory::General, now);
            }
        }
        let forbidden = match msg {
            ClientRequest::GameCommand { .. } | ClientRequest::UploadSave | ClientRequest::DeleteSave => true,
            _ => false,
        };
        if is_spectator && forbidden {
            return Admission::SpectatorDenied;
        }
        match msg {
            ClientRequest::GameCommand { command, seq } => {
                if !self.limiter.check_typed_command_at(command, now) {
                    return Admission::RateLimited;
                }
                match seq {
                    Some(s) => {
                        if *s <= self.last_seq {
                            Admission::DuplicateSeq(*s)
                        } else {
                            self.last_seq = *s;
                            Admission::Proceed
                        }
                    },
                    None => Admission::Proceed,
                }
            },
            ClientRequest::UploadSave | ClientRequest::DeleteSave => {
                if self.limiter.check_command_at(now) {
                    Admission::Proceed
                } else {
                    Admission::RateLimited
                }
            },
            ClientRequest::Chat => {
                if self.limiter.check_chat_at(now) {
                    Admission::Proceed
                } else {
                    Admission::RateLimited
                }
            },
            _ => Admission::Proceed,
        }
    }
}

/// How a message is routed when the connection has no authenticated player.
#[derive(Clone, Copy, Debug)]
pub enum Unauthenticated {
    /// The message can be handled without a player.
    Handle,
    /// Answer with a `NotAuthenticated` error and this message.
    Reject(&'static str),
    /// Answer with a successful acknowledgement.
    Acknowledge,
}

/// Route a message that arrives without an authenticated player: joins and
/// invites need authentication "first", commands, chat and saves need it,
/// leaving is acknowledged, and authentication, snapshots and pings are handled.
pub fn route_unauthenticated(msg: &ClientRequest) -> (r: Unauthenticated)
    ensures
        (*msg is Auth || *msg is RequestSnapshot || *msg is Ping) <==> r == Unauthenticated::Handle,
        *msg is LeaveWorld <==> r == Unauthenticated::Acknowledge,
        (*msg is JoinWorld || *msg is InviteFriend) ==> (r matches Unauthenticated::Reject(m) && m@ == "Must authenticate first"@),
        (*msg is GameCommand || *msg is Chat || *msg is UploadSave || *msg is RequestSaves || *msg is DownloadSave
            || *msg is DeleteSave) ==> (r matches Unauthenticated::Reject(m) && m@ == "Not authenticated"@),
{
    match msg {
        ClientRequest::Auth | ClientRequest::RequestSnapshot | ClientRequest::Ping => Unauthenticated::Handle,
        ClientRequest::LeaveWorld => Unauthenticated::Acknowledge,
        ClientRequest::JoinWorld | ClientRequest::InviteFriend => Unauthenticated::Reject("Must authenticate first"),
        _ => Unauthenticated::Reject("Not authenticated"),
    }
}

/// The opening message of a connection must be an authentication.
pub fn opens_session(msg: &ClientRequest) -> (b: bool)
    ensures
        b == (*msg is Auth),
{
    match msg {
        ClientRequest::Auth => true,
        _ => false,
    }
}

/// Where an accepted game command goes.
#[derive(Clone, Copy, Debug, PartialEq, Eq, Structural)]
pub enum CommandRoute {
    /// `SetSpeed` and `TogglePause` go through the speed vote.
    SpeedVote,
    /// Everything else is run by the simulation for this corporation.
    Simulate(EntityId),
}

/// Why a game command is refused.
#[derive(Clone, Copy, Debug, PartialEq, Eq, Structural)]
pub enum CommandRejection {
    Spectator,
    NotInWorld,
    Invalid(CommandError),
    ForeignCorporation,
    WorldNotFound,
}

impl CommandRejection {
    /// The error code sent to the client.
    pub fn code(&self) -> (r: ErrorCode)
        ensures
            r == match *self {
                CommandRejection::Spectator => ErrorCode::PermissionDenied,
                CommandRejection::NotInWorld => ErrorCode::NotInWorld,
                CommandRejection::Invalid(_) => ErrorCode::InvalidCommand,
                CommandRejection::ForeignCorporation => ErrorCode::PermissionDenied,
                CommandRejection::WorldNotFound => ErrorCode::WorldNotFound,
            },
    {
        match self {
            CommandRejection::Spectator => ErrorCode::PermissionDenied,
            CommandRejection::NotInWorld => ErrorCode::NotInWorld,
            CommandRejection::Invalid(_) => ErrorCode::InvalidCommand,
            CommandRejection::ForeignCorporation => ErrorCode::PermissionDenied,
            CommandRejection::WorldNotFound => ErrorCode::WorldNotFound,
        }
    }

    /// The message sent to the client.
    pub fn message(&self) -> (r: &'static str)
        ensures
            r@ == match *self {
                CommandRejection::Spectator => "Spectators cannot send game commands"@,
                CommandRejection::NotInWorld => "Not in this world"@,
                CommandRejection::Invalid(e) => command_error_text(e),
                CommandRejection::ForeignCorporation => "Command targets a corporation you do not own"@,
                CommandRejection::WorldNotFound => "World not found"@,
            },
    {
        match self {
            CommandRejection::Spectator => "Spectators cannot send game commands",
            CommandRejection::NotInWorld => "Not in this world",
            CommandRejection::Invalid(e) => e.message(),
            CommandRejection::ForeignCorporation => "Command targets a corporation you do not own",
            CommandRejection::WorldNotFound => "World not found",
        }
    }
}

/// How a game command is decided.
pub open spec fn command_decision(
    p: ConnectedPlayer,
    world_id: u128,
    c: Command,
    world_exists: bool,
) -> Result<CommandRoute, CommandRejection> {
    if p.is_spectator {
        Err(CommandRejection::Spectator)
    } else if p.world_id != Some(world_id) {
        Err(CommandRejection::NotInWorld)
    } else if validation_of(c) is Err {
        Err(CommandRejection::Invalid(validation_of(c)->Err_0))
    } else if target_corp_of(c) is Some && p.corp_id != target_corp_of(c) {
        Err(CommandRejection::ForeignCorporation)
    } else if !world_exists {
        Err(CommandRejection::WorldNotFound)
    } else if c is SetSpeed || c is TogglePause {
        Ok(CommandRoute::SpeedVote)
    } else {
        Ok(CommandRoute::Simulate(match p.corp_id { Some(id) => id, None => 0 }))
    }
}

/// Check a game command of a player for world `world_id` (`world_exists`:
/// whether that world is running): spectators, players of other worlds,
/// invalid parameters and commands naming another corporation are refused.
pub fn check_game_command(
    player: &ConnectedPlayer,
    world_id: u128,
    command: &Command,
    world_exists: bool,
) -> (r: Result<CommandRoute, CommandRejection>)
    ensures
        r == command_decision(*player, world_id, *command, world_exists),
{
    if player.is_spectator {
        return Err(CommandRejection::Spectator);
    }
    if player.world_id != Some(world_id) {
        return Err(CommandRejection::NotInWorld);
    }
    if let Err(e) = validate_command(command) {
        return Err(CommandRejection::Invalid(e));
    }
    if let Some(target) = command_target_corp(command) {
        if player.corp_id != Some(target) {
            return Err(CommandRejection::ForeignCorporation);
        }
    }
    if !world_exists {
        return Err(CommandRejection::WorldNotFound);
    }
    match command {
        Command::SetSpeed(_) | Command::TogglePause => Ok(CommandRoute::SpeedVote),
        _ => Ok(CommandRoute::Simulate(match player.corp_id {
            Some(id) => id,
            None => 0,
        })),
    }
}

/// A game command goes through only from a non-spectator in that world,
/// with valid parameters, and (anti-cheat) only if every corporation it
/// names is the player's own.
pub proof fn accepted_commands_are_own_and_valid(p: ConnectedPlayer, world_id: u128, c: Command, world_exists: bool)
    ensures
        command_decision(p, world_id, c, world_exists) is Ok ==> {
            &&& !p.is_spectator
            &&& p.world_id == Some(world_id)
            &&& world_exists
            &&& validation_of(c) is Ok
            &&& (target_corp_of(c) is Some ==> p.corp_id == target_corp_of(c))
        },
        command_decision(p, world_id, c, world_exists) matches Ok(CommandRoute::Simulate(corp))
            ==> p.corp_id == Some(corp) || (p.corp_id is None && corp == 0),
{
}

/// A chat line ready to broadcast.
#[derive(Debug)]
pub struct ChatLine {
    pub world_id: u128,
    pub sender: String,
    pub message: String,
}

/// Why a chat message is refused (all reported as `InvalidCommand`).
#[derive(Clone, Copy, Debug, PartialEq, Eq, Structural)]
pub enum ChatError {
    TooLong,
    Empty,
    NotInWorld,
    WorldNotFound,
}

impl ChatError {
    /// The message sent to the client.
    pub fn message(&self) -> (r: &'static str)
        ensures
            r@ == match *self {
                ChatError::TooLong => "Chat message too long (max 500 chars)"@,
                ChatError::Empty => "Chat message is empty"@,
                ChatError::NotInWorld => "Not in a world"@,
                ChatError::WorldNotFound => "World not found"@,
            },
    {
        match self {
            ChatError::TooLong => "Chat message too long (max 500 chars)",
            ChatError::Empty => "Chat message is empty",
            ChatError::NotInWorld => "Not in a world",
            ChatError::WorldNotFound => "World not found",
        }
    }
}

/// The name chat lines of a player are shown under.
pub open spec fn chat_sender(p: ConnectedPlayer) -> Seq<char> {
    if p.is_spectator {
        "[Spectator] "@ + p.username@
    } else {
        p.username@
    }
}

/// Check and prepare a chat message: at most 500 bytes, not empty once
/// sanitized, and from a player in a running world (`world_exists`).
pub fn prepare_chat(message: &str, player: &ConnectedPlayer, world_exists: bool) -> (r: Result<ChatLine, ChatError>)
    ensures
        byte_len(message@) > MAX_CHAT_LENGTH ==> r == Err::<ChatLine, ChatError>(ChatError::TooLong),
        byte_len(message@) <= MAX_CHAT_LENGTH && sanitized(message@) is None ==> r == Err::<ChatLine, ChatError>(ChatError::Empty),
        byte_len(message@) <= MAX_CHAT_LENGTH && sanitized(message@) is Some && player.world_id is None
            ==> r == Err::<ChatLine, ChatError>(ChatError::NotInWorld),
        byte_len(message@) <= MAX_CHAT_LENGTH && sanitized(message@) is Some && player.world_id is Some && !world_exists
            ==> r == Err::<ChatLine, ChatError>(ChatError::WorldNotFound),
        byte_len(message@) <= MAX_CHAT_LENGTH && sanitized(message@) is Some && player.world_id is Some && world_exists
            ==> r is Ok,
        r matches Ok(line) ==> {
            &&& byte_len(message@) <= MAX_CHAT_LENGTH
            &&& Some(line.message@) == sanitized(message@)
            &&& Some(line.world_id) == player.world_id
            &&& world_exists
            &&& line.sender@ == chat_sender(*player)
        },
{
    if message.len() > MAX_CHAT_LENGTH {
        return Err(ChatError::TooLong);
    }
    let text = match sanitize_chat(message) {
        Some(t) => t,
        None => return Err(ChatError::Empty),
    };
    let world_id = match player.world_id {
        Some(id) => id,
        None => return Err(ChatError::NotInWorld),
    };
    if !world_exists {
        return Err(ChatError::WorldNotFound);
    }
    let sender = if player.is_spectator {
        let mut s = owned("[Spectator] ");
        push_str(&mut s, player.username.as_str());
        s
    } else {
        player.username.clone()
    };
    Ok(ChatLine { world_id, sender, message: text })
}

/// Record a join in the player's session: now in `world_id`, and (unless a
/// spectator) playing corporation `corp`.
pub fn enter_world(player: &mut ConnectedPlayer, world_id: u128, corp: EntityId)
    ensures
        final(player).world_id == Some(world_id),
        final(player).corp_id == (if old(player).is_spectator { old(player).corp_id } else { Some(corp) }),
        final(player).id == old(player).id,
        final(player).username == old(player).username,
        final(player).is_spectator == old(player).is_spectator,
        final(player).is_guest == old(player).is_guest,
        final(player).is_admin == old(player).is_admin,
{
    player.world_id = Some(world_id);
    if !player.is_spectator {
        player.corp_id = Some(corp);
    }
}

/// Record leaving the current world; returns the world left, if any.
pub fn leave_world(player: &mut ConnectedPlayer) -> (left: Option<u128>)
    ensures
        left == old(player).world_id,
        final(player).world_id is None,
        final(player).corp_id is None,
        final(player).id == old(player).id,
        final(player).username == old(player).username,
        final(player).is_spectator == old(player).is_spectator,
        final(player).is_guest == old(player).is_guest,
        final(player).is_admin == old(player).is_admin,
{
    let left = player.world_id;
    player.world_id = None;
    player.corp_id = None;
    left
}

} // verus!
