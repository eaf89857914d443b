//! Query defaults and limits of the admin endpoints, the speed names an admin
//! may type, and the admission of worlds created from catalog templates.

use vstd::prelude::*;

use crate::command::GameSpeed;
use crate::text::chars_of;

verus! {

/// The page requested when the query names none.
pub fn default_page() -> (r: Option<i64>)
    ensures
        r == Some(1i64),
{
    Some(1)
}

/// The page size requested when the query names none.
pub fn default_per_page() -> (r: Option<i64>)
    ensures
        r == Some(50i64),
{
    Some(50)
}

/// The number of audit-log entries requested when the query names none.
pub fn default_audit_limit() -> (r: Option<i64>)
    ensures
        r == Some(100i64),
{
    Some(100)
}

/// `v` if present, else `d`.
pub open spec fn or_else(v: Option<i64>, d: i64) -> i64 {
    match v {
        Some(x) => x,
        None => d,
    }
}

/// `x` brought into `[lo, hi]`.
pub open spec fn clamped(x: i64, lo: i64, hi: i64) -> i64 {
    if x < lo {
        lo
    } else if x > hi {
        hi
    } else {
        x
    }
}

/// The page of an account listing: 1 by default, and at least 1.
pub open spec fn page_number(page: Option<i64>) -> i64 {
    let p = or_else(page, 1);
    if p < 1 {
        1
    } else {
        p
    }
}

/// The page size of an account listing: 50 by default, between 1 and 200.
pub open spec fn page_size(per_page: Option<i64>) -> i64 {
    clamped(or_else(per_page, 50), 1, 200)
}

/// The page of an account listing that a request asks for (`page_number`).
pub fn listing_page(page: Option<i64>) -> (r: i64)
    ensures
        r == page_number(page),
{
    let p = match page {
        Some(x) => x,
        None => 1,
    };
    if p < 1 { 1 } else { p }
}

/// The page size of an account listing that a request asks for (`page_size`).
pub fn listing_page_size(per_page: Option<i64>) -> (r: i64)
    ensures
        r == page_size(per_page),
{
    let s = match per_page {
        Some(x) => x,
        None => 50,
    };
    if s < 1 { 1 } else if s > 200 { 200 } else { s }
}

/// A page of a listing: its number, its size and the offset of its first row.
#[derive(Clone, Copy, Debug, PartialEq, Eq, Structural)]
pub struct PageWindow {
    pub page: i64,
    pub per_page: i64,
    pub offset: i64,
}

/// The page window of an account listing: the offset is `(page - 1) * per_page`.
pub fn paginate(page: Option<i64>, per_page: Option<i64>) -> (r: PageWindow)
    requires
        (page_number(page) - 1) * page_size(per_page) <= i64::MAX,
    ensures
        r.page == page_number(page),
        r.per_page == page_size(per_page),
        r.offset == (r.page - 1) * r.per_page,
{
    let p = listing_page(page);
    let s = listing_page_size(per_page);
    assert(0 <= (p - 1) * s) by (nonlinear_arith)
        requires
            p >= 1,
            s >= 1,
    ;
    PageWindow { page: p, per_page: s, offset: (p - 1) * s }
}

/// The number of chat messages returned by the world chat history: 50 by
/// default, between 1 and 500.
pub fn chat_history_limit(limit: Option<i64>) -> (r: i64)
    ensures
        r == clamped(or_else(limit, 50), 1, 500),
        1 <= r <= 500,
{
    let l = match limit {
        Some(x) => x,
        None => 50,
    };
    if l < 1 {
        1
    } else if l > 500 {
        500
    } else {
        l
    }
}

/// The lower-case form of a string, as `str::to_lowercase` computes it.
pub uninterp spec fn lowercase(s: Seq<char>) -> Seq<char>;

/// `str::to_lowercase`: the string with every character replaced by its
/// Unicode lower-case mapping. Only the name of the result is stated.
#[verifier::external_body]
fn to_lowercase(s: &str) -> (r: String)
    ensures
        r@ == lowercase(s@),
{
    s.to_lowercase()
}

/// The speed an admin's request names, compared in lower case; `None` for
/// anything else.
pub open spec fn admin_speed_of(lower: Seq<char>) -> Option<GameSpeed> {
    if lower == "paused"@ {
        Some(GameSpeed::Paused)
    } else if lower == "normal"@ {
        Some(GameSpeed::Normal)
    } else if lower == "fast"@ {
        Some(GameSpeed::Fast)
    } else if lower == "veryfast"@ {
        Some(GameSpeed::VeryFast)
    } else if lower == "ultra"@ {
        Some(GameSpeed::Ultra)
    } else {
        None
    }
}

fn chars_are(a: &Vec<char>, b: &str) -> (r: bool)
    ensures
        r == (a@ == b@),
{
    let bc = chars_of(b);
    if a.len() != bc.len() {
        return false;
    }
    let mut i: usize = 0;
    while i < a.len()
        invariant
            bc@ == b@,
            a.len() == bc.len(),
            i <= a.len(),
            forall|j: int| 0 <= j < i ==> a@[j] == bc@[j],
        decreases a.len() - i,
    {
        if a[i] != bc[i] {
            return false;
        }
        i += 1;
    }
    assert(a@ =~= bc@);
    true
}

/// The speed named by the lower-case form of an admin's text.
pub fn speed_of_lowercase(lower: &str) -> (r: Option<GameSpeed>)
    ensures
        r == admin_speed_of(lower@),
{
    let c = chars_of(lower);
    if chars_are(&c, "paused") {
        Some(GameSpeed::Paused)
    } else if chars_are(&c, "normal") {
        Some(GameSpeed::Normal)
    } else if chars_are(&c, "fast") {
        Some(GameSpeed::Fast)
    } else if chars_are(&c, "veryfast") {
        Some(GameSpeed::VeryFast)
    } else if chars_are(&c, "ultra") {
        Some(GameSpeed::Ultra)
    } else {
        None
    }
}

/// The speed an admin asks for, whatever the case of the letters.
pub fn parse_admin_speed(text: &str) -> (r: Option<GameSpeed>)
    ensures
        r == admin_speed_of(lowercase(text@)),
{
    let lower = to_lowercase(text);
    speed_of_lowercase(lower.as_str())
}

/// Message of a refused speed request.
pub const INVALID_SPEED_MESSAGE: &'static str = "Invalid speed. Use: Paused, Normal, Fast, VeryFast, Ultra";

/// Why a world cannot be created from a template.
#[derive(Clone, Copy, Debug, PartialEq, Eq, Structural)]
pub enum TemplateError {
    Disabled,
    InstanceLimit,
}

impl TemplateError {
    /// The message sent to the client.
    pub fn message(&self) -> (r: &'static str)
        ensures
            r@ == match *self {
                TemplateError::Disabled => "Template is disabled"@,
                TemplateError::InstanceLimit => "Maximum instances for this template reached"@,
            },
    {
        match self {
            TemplateError::Disabled => "Template is disabled",
            TemplateError::InstanceLimit => "Maximum instances for this template reached",
        }
    }
}

impl TemplateError {
    /// The HTTP status of the refusal: 400 for a disabled template, 409 at
    /// the instance limit.
    pub fn status(&self) -> (r: u16)
        ensures
            r == (if *self == TemplateError::Disabled { 400u16 } else { 409u16 }),
    {
        match self {
            TemplateError::Disabled => 400,
            TemplateError::InstanceLimit => 409,
        }
    }
}

/// A template admits a new world when it is enabled and has fewer running
/// instances than its maximum.
pub fn template_admission(enabled: bool, instances: i64, max_instances: i32) -> (r: Result<(), TemplateError>)
    ensures
        !enabled ==> r == Err::<(), TemplateError>(TemplateError::Disabled),
        enabled && instances >= max_instances ==> r == Err::<(), TemplateError>(TemplateError::InstanceLimit),
        enabled && instances < max_instances ==> r is Ok,
{
    if !enabled {
        Err(TemplateError::Disabled)
    } else if instances >= max_instances as i64 {
        Err(TemplateError::InstanceLimit)
    } else {
        Ok(())
    }
}

} // verus!
