//! Blob storage: the object keys of world snapshots and cloud saves, how the
//! status codes of the object store are read, snapshot compression, and the
//! rows that describe stored blobs.

use vstd::prelude::*;
use vstd::string::StringSliceAdditionalSpecFns;

use crate::ids::{hyphenated, uuid_string};
use crate::text::{chars_of, decimal, owned, push_decimal, push_signed_decimal, push_str, signed_decimal};

verus! {

/// A stored world snapshot.
#[derive(Debug)]
pub struct SnapshotRow {
    pub tick: i64,
    pub state_data: Vec<u8>,
}

/// Where a world snapshot was stored in the object store.
#[derive(Debug)]
pub struct SnapshotMetaRow {
    pub tick: i64,
    pub r2_key: String,
}

/// The object key of a cloud save, if its blob is in the object store.
#[derive(Debug)]
pub struct CloudSaveMetaRow {
    pub r2_key: Option<String>,
}

/// Key of a world snapshot: `snapshots/{world}/{tick}.bin`.
pub open spec fn snapshot_key_text(world_id: u128, tick: u64) -> Seq<char> {
    "snapshots/"@ + hyphenated(world_id) + "/"@ + decimal(tick as nat) + ".bin"@
}

/// Key of a cloud save: `saves/{account}/{slot}.bin`.
pub open spec fn save_key_text(account_id: u128, slot: i32) -> Seq<char> {
    "saves/"@ + hyphenated(account_id) + "/"@ + signed_decimal(slot as int) + ".bin"@
}

/// The object key of a world snapshot.
pub fn snapshot_key(world_id: u128, tick: u64) -> (r: String)
    ensures
        r@ == snapshot_key_text(world_id, tick),
{
    let mut r = owned("snapshots/");
    let id = uuid_string(world_id);
    push_str(&mut r, id.as_str());
    push_str(&mut r, "/");
    push_decimal(&mut r, tick);
    push_str(&mut r, ".bin");
    r
}

/// The object key of a cloud save.
pub fn save_key(account_id: u128, slot: i32) -> (r: String)
    ensures
        r@ == save_key_text(account_id, slot),
{
    let mut r = owned("saves/");
    let id = uuid_string(account_id);
    push_str(&mut r, id.as_str());
    push_str(&mut r, "/");
    push_signed_decimal(&mut r, slot as i64);
    push_str(&mut r, ".bin");
    r
}

/// An object-store request answered with a status that means failure.
#[derive(Clone, Copy, Debug, PartialEq, Eq, Structural)]
pub enum StorageError {
    PutStatus(u16),
    GetStatus(u16),
    DeleteStatus(u16),
}

/// The text of a storage error: the request, `returned status` and the code.
pub open spec fn storage_error_text(e: StorageError) -> Seq<char> {
    match e {
        StorageError::PutStatus(c) => "R2 PUT returned status "@ + decimal(c as nat),
        StorageError::GetStatus(c) => "R2 GET returned status "@ + decimal(c as nat),
        StorageError::DeleteStatus(c) => "R2 DELETE returned status "@ + decimal(c as nat),
    }
}

impl StorageError {
    /// The message logged for the error.
    pub fn message(&self) -> (r: String)
        ensures
            r@ == storage_error_text(*self),
    {
        let (mut r, code) = match self {
            StorageError::PutStatus(c) => (owned("R2 PUT returned status "), *c),
            StorageError::GetStatus(c) => (owned("R2 GET returned status "), *c),
            StorageError::DeleteStatus(c) => (owned("R2 DELETE returned status "), *c),
        };
        push_decimal(&mut r, code as u64);
        r
    }
}

/// An upload succeeded only with status 200.
pub fn put_outcome(status: u16) -> (r: Result<(), StorageError>)
    ensures
        status == 200 <==> r is Ok,
        status != 200 ==> r == Err::<(), StorageError>(StorageError::PutStatus(status)),
{
    if status == 200 {
        Ok(())
    } else {
        Err(StorageError::PutStatus(status))
    }
}

/// A download with status 200 gives the body, 404 means no such object, any
/// other status is an error.
pub fn get_outcome(status: u16, body: Vec<u8>) -> (r: Result<Option<Vec<u8>>, StorageError>)
    ensures
        status == 200 ==> (r matches Ok(Some(b)) && b@ == body@),
        status == 404 ==> r matches Ok(None),
        status != 200 && status != 404 ==> r == Err::<Option<Vec<u8>>, StorageError>(StorageError::GetStatus(status)),
{
    if status == 200 {
        Ok(Some(body))
    } else if status == 404 {
        Ok(None)
    } else {
        Err(StorageError::GetStatus(status))
    }
}

/// A deletion succeeded with status 200 or 204, and an object that was
/// already gone (404) is no error.
pub fn delete_outcome(status: u16) -> (r: Result<(), StorageError>)
    ensures
        (status == 200 || status == 204 || status == 404) <==> r is Ok,
        r is Err ==> r == Err::<(), StorageError>(StorageError::DeleteStatus(status)),
{
    if status == 200 || status == 204 || status == 404 {
        Ok(())
    } else {
        Err(StorageError::DeleteStatus(status))
    }
}

/// Whether `t` occurs in `s` as a contiguous run of characters.
pub open spec fn has_substring(s: Seq<char>, t: Seq<char>) -> bool {
    exists|i: int| 0 <= i && i + t.len() <= s.len() && #[trigger] s.subrange(i, i + t.len()) == t
}

fn occurs_at(s: &Vec<char>, t: &Vec<char>, i: usize) -> (r: bool)
    requires
        i + t.len() <= s.len(),
    ensures
        r == (s@.subrange(i as int, i + t.len()) == t@),
{
    let mut k: usize = 0;
    while k < t.len()
        invariant
            i + t.len() <= s.len(),
            k <= t.len(),
            forall|j: int| 0 <= j < k ==> s@[i + j] == t@[j],
        decreases t.len() - k,
    {
        if s[i + k] != t[k] {
            assert(s@.subrange(i as int, i + t.len())[k as int] != t@[k as int]);
            return false;
        }
        k += 1;
    }
    assert(s@.subrange(i as int, i + t.len()) =~= t@);
    true
}

fn contains_text(s: &str, t: &str) -> (r: bool)
    ensures
        r == has_substring(s@, t@),
{
    let sc = chars_of(s);
    let tc = chars_of(t);
    if tc.len() > sc.len() {
        return false;
    }
    let last = sc.len() - tc.len();
    let mut i: usize = 0;
    loop
        invariant
            sc@ == s@,
            tc@ == t@,
            tc.len() <= sc.len(),
            last == sc.len() - tc.len(),
            i <= last,
            forall|j: int| 0 <= j < i ==> #[trigger] s@.subrange(j, j + t@.len()) != t@,
        decreases last - i,
    {
        if occurs_at(&sc, &tc, i) {
            return true;
        }
        if i == last {
            return false;
        }
        i += 1;
    }
}

/// A failed download whose error text mentions `404` or `NoSuchKey` means
/// that the object does not exist.
pub fn is_missing_object_error(message: &str) -> (r: bool)
    ensures
        r == (has_substring(message@, "404"@) || has_substring(message@, "NoSuchKey"@)),
{
    contains_text(message, "404") || contains_text(message, "NoSuchKey")
}

/// What a download from the object store leaves to do: serve the blob it
/// found, or fall back to the blob kept in the database when the object is
/// missing or the store failed.
pub fn blob_or_fallback(reply: Result<Option<Vec<u8>>, StorageError>) -> (r: Option<Vec<u8>>)
    ensures
        match reply {
            Ok(Some(b)) => r == Some(b),
            _ => r is None,
        },
{
    match reply {
        Ok(Some(b)) => Some(b),
        _ => None,
    }
}

/// The object-store key recorded for a cloud save, if any.
pub fn stored_save_key(meta: Option<CloudSaveMetaRow>) -> (r: Option<String>)
    ensures
        match meta {
            Some(m) => r == m.r2_key,
            None => r is None,
        },
{
    match meta {
        Some(m) => m.r2_key,
        None => None,
    }
}

/// Largest cloud save accepted, in bytes (50 MB).
pub const MAX_SAVE_SIZE: usize = 50_000_000;

/// Why a cloud save was refused.
#[derive(Clone, Copy, Debug, PartialEq, Eq, Structural)]
pub enum SaveError {
    TooLarge,
}

impl SaveError {
    /// The message sent to the client.
    pub fn message(&self) -> (r: String)
        ensures
            r@ == "Save exceeds maximum size of "@ + decimal(MAX_SAVE_SIZE as nat) + " bytes"@,
    {
        let mut r = owned("Save exceeds maximum size of ");
        push_decimal(&mut r, MAX_SAVE_SIZE as u64);
        push_str(&mut r, " bytes");
        r
    }
}

/// A save of `len` bytes is accepted up to the maximum size.
pub fn check_save_size(len: usize) -> (r: Result<(), SaveError>)
    ensures
        len <= MAX_SAVE_SIZE <==> r is Ok,
        r is Err ==> r == Err::<(), SaveError>(SaveError::TooLarge),
{
    if len > MAX_SAVE_SIZE {
        Err(SaveError::TooLarge)
    } else {
        Ok(())
    }
}

/// The zstd frame that `zstd::encode_all` produces for `data` at `level`.
pub uninterp spec fn zstd_frame(data: Seq<u8>, level: i32) -> Seq<u8>;

/// `zstd::encode_all(data, level)`: on success, the zstd frame of the data at
/// that level; an I/O error of the encoder gives `None`. When the encoder
/// fails is not stated.
#[verifier::external_body]
fn zstd_encode(data: &[u8], level: i32) -> (r: Option<Vec<u8>>)
    ensures
        r matches Some(v) ==> v@ == zstd_frame(data@, level),
{
    zstd::encode_all(data, level).ok()
}

/// Compression level of snapshots sent to clients.
pub const SNAPSHOT_LEVEL: i32 = 3;

/// What a snapshot of `json_len` bytes is sent as, given the encoder's
/// outcome: the frame with the length (truncated to 32 bits) when the encoder
/// gave one, `None` exactly when it failed.
pub fn framed_snapshot(frame: Option<Vec<u8>>, json_len: usize) -> (r: Option<(Vec<u8>, u32)>)
    ensures
        r is Some <==> frame is Some,
        r matches Some((c, n)) ==> (c@ == frame->0@ && n == json_len as u32),
{
    match frame {
        Some(c) => Some((c, json_len as u32)),
        None => None,
    }
}

/// Compress a JSON snapshot at level 3, with its uncompressed length in bytes
/// (truncated to 32 bits). `None` when the encoder fails (the outcome goes
/// through `framed_snapshot`); the caller then sends the snapshot
/// uncompressed.
pub fn compress_snapshot(json: &str) -> (r: Option<(Vec<u8>, u32)>)
    ensures
        r matches Some((c, n)) ==> (c@ == zstd_frame(json.spec_bytes(), SNAPSHOT_LEVEL)
            && n == (json.spec_bytes().len() as usize) as u32),
{
    let frame = zstd_encode(json.as_bytes(), SNAPSHOT_LEVEL);
    framed_snapshot(frame, json.len())
}

} // verus!
