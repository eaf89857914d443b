//! Server configuration: assembled from environment values (read by the
//! caller), with the defaults of a development setup.

use vstd::prelude::*;

use crate::auth::{AuthConfig, DEV_JWT_SECRET};
use crate::chat::{trim, trim_chars};
use crate::text::{chars_of, decimal, owned, push_decimal, push_str, string_from_chars};

verus! {

/// GitHub OAuth configuration.
#[derive(Debug)]
pub struct OAuthConfig {
    pub github_client_id: String,
    pub github_client_secret: String,
    pub github_redirect_uri: String,
}

/// Server configuration.
#[derive(Debug)]
pub struct ServerConfig {
    pub host: String,
    pub port: u16,
    pub auth: AuthConfig,
    pub database_url: Option<String>,
    pub default_world_name: String,
    pub default_max_players: u32,
    /// Directory with satellite tiles in `{z}/{y}/{x}.jpg` layout, if served.
    pub tile_dir: Option<String>,
    /// GitHub OAuth, if configured.
    pub oauth: Option<OAuthConfig>,
    /// Cloudflare Worker that sends password-reset mail, if configured.
    pub cf_reset_worker_url: Option<String>,
    pub r2_account_id: Option<String>,
    pub r2_access_key_id: Option<String>,
    pub r2_secret_access_key: Option<String>,
    pub r2_bucket_name: Option<String>,
}

/// The environment values the configuration is built from (`None`: unset or
/// not valid Unicode).
pub struct EnvValues {
    pub gt_host: Option<String>,
    pub gt_port: Option<String>,
    pub gt_jwt_secret: Option<String>,
    pub gt_access_token_expiry: Option<String>,
    pub gt_refresh_token_expiry: Option<String>,
    pub database_url: Option<String>,
    pub gt_default_world: Option<String>,
    pub gt_max_players: Option<String>,
    pub tile_dir: Option<String>,
    pub github_client_id: Option<String>,
    pub github_client_secret: Option<String>,
    pub github_redirect_uri: Option<String>,
    pub cf_reset_worker_url: Option<String>,
    pub r2_account_id: Option<String>,
    pub r2_access_key_id: Option<String>,
    pub r2_secret_access_key: Option<String>,
    pub r2_bucket_name: Option<String>,
}

/// The value of a decimal digit character.
pub open spec fn digit_value(c: char) -> int {
    c as int - 48
}

/// Whether a character is an ASCII digit.
pub open spec fn is_digit(c: char) -> bool {
    '0' <= c && c <= '9'
}

/// The number that a sequence of digits denotes.
pub open spec fn digits_value(s: Seq<char>) -> int
    decreases s.len(),
{
    if s.len() == 0 {
        0
    } else {
        digits_value(s.drop_last()) * 10 + digit_value(s.last())
    }
}

/// The digits of a numeral: the text after an optional leading `+`.
pub open spec fn numeral_digits(s: Seq<char>) -> Seq<char> {
    if s.len() > 0 && s[0] == '+' { s.skip(1) } else { s }
}

/// Whether every character is an ASCII digit.
pub open spec fn all_digits(t: Seq<char>) -> bool {
    forall|i: int| 0 <= i < t.len() ==> is_digit(#[trigger] t[i])
}

/// What `str::parse` gives for an unsigned integer type whose largest value
/// is `max`: an optional `+`, then at least one ASCII digit and nothing else,
/// denoting a value that fits.
pub open spec fn parse_unsigned(s: Seq<char>, max: int) -> Option<int> {
    let digits = numeral_digits(s);
    if digits.len() > 0 && all_digits(digits) && digits_value(digits) <= max {
        Some(digits_value(digits))
    } else {
        None
    }
}

/// A numeral of digits denotes a non-negative value.
proof fn lemma_digits_value_nonneg(t: Seq<char>)
    requires
        forall|i: int| 0 <= i < t.len() ==> is_digit(#[trigger] t[i]),
    ensures
        digits_value(t) >= 0,
    decreases t.len(),
{
    if t.len() > 0 {
        let p = t.drop_last();
        assert forall|i: int| 0 <= i < p.len() implies is_digit(#[trigger] p[i]) by {
            assert(p[i] == t[i]);
        }
        lemma_digits_value_nonneg(p);
        assert(is_digit(t[t.len() - 1]));
    }
}

/// Appending digits never makes a numeral's value smaller.
proof fn lemma_digits_value_grows(t: Seq<char>, k: int)
    requires
        0 <= k <= t.len(),
        forall|i: int| 0 <= i < t.len() ==> is_digit(#[trigger] t[i]),
    ensures
        digits_value(t) >= digits_value(t.take(k)),
    decreases t.len(),
{
    if k == t.len() {
        assert(t.take(k) =~= t);
    } else {
        let p = t.drop_last();
        assert forall|i: int| 0 <= i < p.len() implies is_digit(#[trigger] p[i]) by {
            assert(p[i] == t[i]);
        }
        lemma_digits_value_grows(p, k);
        assert(p.take(k) =~= t.take(k));
        lemma_digits_value_nonneg(p);
        assert(is_digit(t[t.len() - 1]));
    }
}

/// The value of an optionally `+`-signed decimal numeral of `s` that is at
/// most `max`, as `str::parse` reads unsigned integers.
fn parse_bounded(s: &str, max: u64) -> (r: Option<u64>)
    requires
        max >= 9,
    ensures
        match r {
            Some(v) => parse_unsigned(s@, max as int) == Some(v as int),
            None => parse_unsigned(s@, max as int) is None,
        },
{
    let cs = chars_of(s);
    let ghost src = s@;
    let start: usize = if cs.len() > 0 && cs[0] == '+' { 1 } else { 0 };
    let ghost digits = numeral_digits(src);
    proof {
        assert(digits =~= src.skip(start as int));
    }
    if start >= cs.len() {
        return None;
    }
    let mut acc: u64 = 0;
    let mut i: usize = start;
    while i < cs.len()
        invariant
            cs@ == src,
            src == s@,
            start <= i <= cs.len(),
            digits == src.skip(start as int),
            digits == numeral_digits(src),
            max >= 9,
            forall|j: int| 0 <= j < i - start ==> is_digit(#[trigger] digits[j]),
            acc == digits_value(digits.take(i - start)),
            acc <= max,
        decreases cs.len() - i,
    {
        let c = cs[i];
        proof {
            assert(digits[i - start] == c);
        }
        if !('0' <= c && c <= '9') {
            proof {
                assert(!is_digit(digits[i - start]));
                assert(0 <= i - start < digits.len());
            }
            return None;
        }
        let d: u64 = ((c as u32) - 48) as u64;
        let ghost next = digits.take(i + 1 - start);
        proof {
            assert(next.drop_last() =~= digits.take(i - start));
            assert(next.last() == c);
            assert(digits_value(next) == acc * 10 + d);
        }
        if acc > (max - d) / 10 {
            proof {
                assert(acc * 10 + d > max) by (nonlinear_arith)
                    requires
                        acc > (max - d) / 10,
                        d <= 9,
                        max >= 9,
                ;
                if all_digits(digits) {
                    lemma_digits_value_grows(digits, i + 1 - start);
                }
            }
            return None;
        }
        proof {
            assert(acc * 10 + d <= max) by (nonlinear_arith)
                requires
                    acc <= (max - d) / 10,
                    d <= 9,
                    max >= 9,
            ;
        }
        acc = acc * 10 + d;
        i += 1;
    }
    proof {
        assert(digits.take(i - start) =~= digits);
    }
    Some(acc)
}

/// `str::parse::<u16>`: the value of an optionally `+`-signed decimal
/// numeral that fits in 16 bits.
pub(crate) fn parse_u16(s: &str) -> (r: Option<u16>)
    ensures
        match r {
            Some(v) => parse_unsigned(s@, u16::MAX as int) == Some(v as int),
            None => parse_unsigned(s@, u16::MAX as int) is None,
        },
{
    match parse_bounded(s, 0xffff) {
        Some(v) => Some(v as u16),
        None => None,
    }
}

/// `str::parse::<u32>`: as for `u16`, with 32 bits.
pub(crate) fn parse_u32(s: &str) -> (r: Option<u32>)
    ensures
        match r {
            Some(v) => parse_unsigned(s@, u32::MAX as int) == Some(v as int),
            None => parse_unsigned(s@, u32::MAX as int) is None,
        },
{
    match parse_bounded(s, 0xffff_ffff) {
        Some(v) => Some(v as u32),
        None => None,
    }
}

/// `str::parse::<u64>`: as for `u16`, with 64 bits.
pub(crate) fn parse_u64(s: &str) -> (r: Option<u64>)
    ensures
        match r {
            Some(v) => parse_unsigned(s@, u64::MAX as int) == Some(v as int),
            None => parse_unsigned(s@, u64::MAX as int) is None,
        },
{
    parse_bounded(s, u64::MAX)
}

/// A value, or `default` when unset.
pub open spec fn or_default(v: Option<Seq<char>>, default: Seq<char>) -> Seq<char> {
    match v {
        Some(s) => s,
        None => default,
    }
}

/// A value, with empty ones counted as unset.
pub open spec fn non_empty(v: Option<Seq<char>>) -> Option<Seq<char>> {
    match v {
        Some(s) => if s.len() == 0 { None } else { Some(s) },
        None => None,
    }
}

/// The view of an optional string.
pub open spec fn opt_view(v: Option<String>) -> Option<Seq<char>> {
    match v {
        Some(s) => Some(s@),
        None => None,
    }
}

/// A parsed value, or `fallback` when it does not parse.
pub open spec fn parsed_or(v: Option<int>, fallback: int) -> int {
    match v {
        Some(x) => x,
        None => fallback,
    }
}

/// The value of an environment variable, or a default when it is unset.
pub fn env_or(value: &Option<String>, default: &str) -> (r: String)
    ensures
        r@ == or_default(opt_view(*value), default@),
{
    match value {
        Some(v) => v.clone(),
        None => owned(default),
    }
}

/// The number an environment value denotes, or `default` when it is unset
/// or not an unsigned 64-bit numeral.
pub fn env_u64_or(value: &Option<String>, default: u64) -> (r: u64)
    ensures
        r as int == match opt_view(*value) {
            Some(t) => parsed_or(parse_unsigned(t, u64::MAX as int), default as int),
            None => default as int,
        },
{
    match value {
        Some(v) => match parse_u64(v.as_str()) {
            Some(n) => n,
            None => default,
        },
        None => default,
    }
}

/// The value of an environment variable, unless it is unset or empty.
pub fn non_empty_value(value: Option<String>) -> (r: Option<String>)
    ensures
        opt_view(r) == non_empty(opt_view(value)),
{
    match value {
        Some(v) => if v.as_str().is_empty() { None } else { Some(v) },
        None => None,
    }
}

/// The comma-separated fields of a text (a text without commas is one field).
pub open spec fn comma_fields(s: Seq<char>) -> Seq<Seq<char>>
    decreases s.len(),
{
    if s.len() == 0 {
        seq![Seq::empty()]
    } else {
        let prev = comma_fields(s.drop_last());
        if s.last() == ',' {
            prev.push(Seq::empty())
        } else {
            prev.update(prev.len() - 1, prev.last().push(s.last()))
        }
    }
}

proof fn lemma_comma_fields_nonempty(s: Seq<char>)
    ensures
        comma_fields(s).len() >= 1,
    decreases s.len(),
{
    if s.len() > 0 {
        lemma_comma_fields_nonempty(s.drop_last());
    }
}

/// The trimmed fields that are not empty, in order.
pub open spec fn listed_origins(fields: Seq<Seq<char>>) -> Seq<Seq<char>>
    decreases fields.len(),
{
    if fields.len() == 0 {
        Seq::empty()
    } else {
        let prev = listed_origins(fields.drop_last());
        let t = trim(fields.last());
        if t.len() == 0 {
            prev
        } else {
            prev.push(t)
        }
    }
}

/// The allowed CORS origins: the trimmed, non-empty entries of the
/// comma-separated `CORS_ORIGINS`, then the trimmed `CORS_ORIGIN` unless it is
/// empty or already listed. No origins means any origin is allowed.
pub open spec fn cors_origin_texts(multi: Option<Seq<char>>, single: Option<Seq<char>>) -> Seq<Seq<char>> {
    let base = match multi {
        Some(m) => listed_origins(comma_fields(m)),
        None => Seq::empty(),
    };
    match single {
        Some(t0) => {
            let t = trim(t0);
            if t.len() == 0 || base.contains(t) {
                base
            } else {
                base.push(t)
            }
        },
        None => base,
    }
}

/// The texts of a list of strings.
pub open spec fn texts(v: Seq<String>) -> Seq<Seq<char>> {
    v.map_values(|x: String| x@)
}

fn push_origin(list: &mut Vec<String>, field: &Vec<char>)
    ensures
        texts(final(list)@) == (if trim(field@).len() == 0 { texts(old(list)@) } else { texts(old(list)@).push(trim(field@)) }),
{
    let t = trim_chars(field);
    if t.len() > 0 {
        let s = string_from_chars(&t, 0, t.len());
        assert(s@ =~= trim(field@));
        list.push(s);
        assert(texts(list@) =~= texts(old(list)@).push(trim(field@)));
    }
}

fn listed(list: &Vec<String>, t: &Vec<char>) -> (b: bool)
    ensures
        b == texts(list@).contains(t@),
{
    let mut i: usize = 0;
    while i < list.len()
        invariant
            i <= list.len(),
            forall|j: int| 0 <= j < i ==> texts(list@)[j] != t@,
        decreases list.len() - i,
    {
        let c = chars_of(list[i].as_str());
        if c.len() == t.len() {
            let mut k: usize = 0;
            let mut same = true;
            while k < c.len()
                invariant
                    c.len() == t.len(),
                    k <= c.len(),
                    same == (forall|j: int| 0 <= j < k ==> c@[j] == t@[j]),
                decreases c.len() - k,
            {
                if c[k] != t[k] {
                    same = false;
                }
                k += 1;
            }
            if same {
                assert(c@ =~= t@);
                assert(texts(list@)[i as int] == t@);
                return true;
            }
            assert(c@ != t@) by {
                let j = choose|j: int| 0 <= j < k && c@[j] != t@[j];
            }
        }
        assert(texts(list@)[i as int] == c@);
        i += 1;
    }
    false
}

/// The allowed CORS origins, from the values of `CORS_ORIGINS` and `CORS_ORIGIN`.
pub fn cors_origins(multi: &Option<String>, single: &Option<String>) -> (r: Vec<String>)
    ensures
        texts(r@) == cors_origin_texts(opt_view(*multi), opt_view(*single)),
{
    let mut list: Vec<String> = Vec::new();
    if let Some(m) = multi {
        let chars = chars_of(m.as_str());
        let ghost src = chars@;
        let mut field: Vec<char> = Vec::new();
        let mut i: usize = 0;
        while i < chars.len()
            invariant
                chars@ == src,
                i <= chars.len(),
                comma_fields(src.take(i as int)).len() >= 1,
                texts(list@) == listed_origins(comma_fields(src.take(i as int)).drop_last()),
                comma_fields(src.take(i as int)).last() == field@,
            decreases chars.len() - i,
        {
            let ghost pre = src.take(i as int);
            proof {
                assert(src.take(i + 1).drop_last() =~= pre);
                lemma_comma_fields_nonempty(pre);
            }
            let ghost cf = comma_fields(pre);
            if chars[i] == ',' {
                push_origin(&mut list, &field);
                field = Vec::new();
                proof {
                    assert(comma_fields(src.take(i + 1)) == cf.push(Seq::<char>::empty()));
                    assert(comma_fields(src.take(i + 1)).drop_last() =~= cf);
                    assert(field@ =~= Seq::<char>::empty());
                }
            } else {
                field.push(chars[i]);
                proof {
                    assert(comma_fields(src.take(i + 1)).drop_last() =~= cf.drop_last());
                }
            }
            i += 1;
        }
        proof {
            assert(src.take(src.len() as int) =~= src);
            lemma_comma_fields_nonempty(src);
        }
        push_origin(&mut list, &field);
    }
    if let Some(s) = single {
        let c = chars_of(s.as_str());
        let t = trim_chars(&c);
        if t.len() > 0 && !listed(&list, &t) {
            let o = string_from_chars(&t, 0, t.len());
            assert(o@ =~= t@);
            let ghost before = list@;
            list.push(o);
            assert(texts(list@) =~= texts(before).push(t@));
        }
    }
    list
}

impl ServerConfig {
    /// Assemble the configuration from environment values: host `0.0.0.0`,
    /// port 3001, the development signing secret, tokens of 1 hour and 30
    /// days, world `Default World` with 8 players, unless set otherwise
    /// (unparsable numbers fall back to the defaults); optional settings
    /// count as unset when empty; GitHub OAuth needs both id and secret.
    pub fn from_values(env: EnvValues) -> (c: ServerConfig)
        ensures
            c.host@ == or_default(opt_view(env.gt_host), "0.0.0.0"@),
            c.port as int == parsed_or(parse_unsigned(or_default(opt_view(env.gt_port), "3001"@), u16::MAX as int), 3001),
            c.auth.jwt_secret@ == or_default(opt_view(env.gt_jwt_secret), DEV_JWT_SECRET@),
            c.auth.access_token_expiry_secs as int == parsed_or(
                parse_unsigned(or_default(opt_view(env.gt_access_token_expiry), "3600"@), u64::MAX as int), 3600),
            c.auth.refresh_token_expiry_secs as int == parsed_or(
                parse_unsigned(or_default(opt_view(env.gt_refresh_token_expiry), "2592000"@), u64::MAX as int), 2592000),
            opt_view(c.database_url) == opt_view(env.database_url),
            c.default_world_name@ == or_default(opt_view(env.gt_default_world), "Default World"@),
            c.default_max_players as int == parsed_or(parse_unsigned(or_default(opt_view(env.gt_max_players), "8"@), u32::MAX as int), 8),
            opt_view(c.tile_dir) == non_empty(opt_view(env.tile_dir)),
            (c.oauth is Some) == (non_empty(opt_view(env.github_client_id)) is Some && non_empty(opt_view(env.github_client_secret)) is Some),
            c.oauth matches Some(o) ==> {
                &&& Some(o.github_client_id@) == non_empty(opt_view(env.github_client_id))
                &&& Some(o.github_client_secret@) == non_empty(opt_view(env.github_client_secret))
                &&& o.github_redirect_uri@ == or_default(opt_view(env.github_redirect_uri), "http://localhost:5173/auth/github/callback"@)
            },
            opt_view(c.cf_reset_worker_url) == non_empty(opt_view(env.cf_reset_worker_url)),
            opt_view(c.r2_account_id) == non_empty(opt_view(env.r2_account_id)),
            opt_view(c.r2_access_key_id) == non_empty(opt_view(env.r2_access_key_id)),
            opt_view(c.r2_secret_access_key) == non_empty(opt_view(env.r2_secret_access_key)),
            opt_view(c.r2_bucket_name) == non_empty(opt_view(env.r2_bucket_name)),
    {
        let client_id = non_empty_value(env.github_client_id);
        let client_secret = non_empty_value(env.github_client_secret);
        let oauth = match (client_id, client_secret) {
            (Some(id), Some(secret)) => Some(OAuthConfig {
                github_client_id: id,
                github_client_secret: secret,
                github_redirect_uri: env_or(&env.github_redirect_uri, "http://localhost:5173/auth/github/callback"),
            }),
            _ => None,
        };
        let port_text = env_or(&env.gt_port, "3001");
        let port = match parse_u16(port_text.as_str()) {
            Some(p) => p,
            None => 3001,
        };
        let access_text = env_or(&env.gt_access_token_expiry, "3600");
        let access = match parse_u64(access_text.as_str()) {
            Some(v) => v,
            None => 3600,
        };
        let refresh_text = env_or(&env.gt_refresh_token_expiry, "2592000");
        let refresh = match parse_u64(refresh_text.as_str()) {
            Some(v) => v,
            None => 2592000,
        };
        let players_text = env_or(&env.gt_max_players, "8");
        let players = match parse_u32(players_text.as_str()) {
            Some(v) => v,
            None => 8,
        };
        ServerConfig {
            host: env_or(&env.gt_host, "0.0.0.0"),
            port,
            auth: AuthConfig {
                jwt_secret: env_or(&env.gt_jwt_secret, DEV_JWT_SECRET),
                access_token_expiry_secs: access,
                refresh_token_expiry_secs: refresh,
            },
            database_url: env.database_url,
            default_world_name: env_or(&env.gt_default_world, "Default World"),
            default_max_players: players,
            tile_dir: non_empty_value(env.tile_dir),
            oauth,
            cf_reset_worker_url: non_empty_value(env.cf_reset_worker_url),
            r2_account_id: non_empty_value(env.r2_account_id),
            r2_access_key_id: non_empty_value(env.r2_access_key_id),
            r2_secret_access_key: non_empty_value(env.r2_secret_access_key),
            r2_bucket_name: non_empty_value(env.r2_bucket_name),
        }
    }

    /// The address to listen on: `host:port`.
    pub fn bind_addr(&self) -> (r: String)
        ensures
            r@ == self.host@ + seq![':'] + decimal(self.port as nat),
    {
        let mut r = self.host.clone();
        crate::text::push_char(&mut r, ':');
        push_decimal(&mut r, self.port as u64);
        r
    }
}

/// The GitHub authorization URL of an OAuth configuration.
pub open spec fn github_authorize_url(client_id: Seq<char>, redirect_uri: Seq<char>) -> Seq<char> {
    "https://github.com/login/oauth/authorize?client_id="@ + client_id + "&redirect_uri="@ + redirect_uri
        + "&scope=read:user,user:email"@
}

/// Build the URL that sends a user to GitHub to authorize this server.
pub fn github_auth_url(oauth: &OAuthConfig) -> (url: String)
    ensures
        url@ == github_authorize_url(oauth.github_client_id@, oauth.github_redirect_uri@),
{
    let mut url = owned("https://github.com/login/oauth/authorize?client_id=");
    push_str(&mut url, oauth.github_client_id.as_str());
    push_str(&mut url, "&redirect_uri=");
    push_str(&mut url, oauth.github_redirect_uri.as_str());
    push_str(&mut url, "&scope=read:user,user:email");
    url
}

/// Default player slots of a world created without a number.
pub fn default_max_players() -> (n: u32)
    ensures
        n == 8,
{
    8
}

} // verus!
