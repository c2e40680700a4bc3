//! The scan of raw storage keys of the asset map.
//!
//! A raw key of that map starts with a prefix of fixed length (the hashes of
//! the pallet and map names and of the asset identifier), followed by the
//! identifier itself as four little-endian bytes, followed by key material
//! that the scan does not read.

use vstd::prelude::*;
use vstd::slice::slice_subrange;
use vstd::string::*;
use crate::codec::{le_u32, lemma_le_u32_range, scale_decode_u32};
use crate::text::{decimal, render_u64};

verus! {

/// Length of the hashed prefix that precedes the identifier in a raw key.
pub const IDENTIFIER_OFFSET: usize = 48;

/// Index just past the identifier in a raw key.
pub const IDENTIFIER_END: usize = 52;

/// Why a raw key failed the scan.
#[derive(Clone, Copy, Debug, PartialEq, Eq)]
pub enum ScanError {
    /// The key ends before the identifier does.
    KeyTooShort { len: usize },
    /// The key holds another identifier than the one asked for.
    Mismatch { found: u32, expected: u32 },
}

/// The first key of a scan that failed, and why.
#[derive(Clone, Copy, Debug, PartialEq, Eq)]
pub struct ScanFailure {
    pub index: usize,
    pub error: ScanError,
}

/// The identifier that a raw key carries, if the key is long enough to hold
/// one.
pub open spec fn identifier_of(key: Seq<u8>) -> Result<u32, ScanError> {
    if key.len() < IDENTIFIER_END {
        Err(ScanError::KeyTooShort { len: key.len() as usize })
    } else {
        Ok(le_u32(key.subrange(IDENTIFIER_OFFSET as int, IDENTIFIER_END as int)) as u32)
    }
}

/// What the scan says of one raw key when looking for `target`.
pub open spec fn check_of(key: Seq<u8>, target: u32) -> Result<(), ScanError> {
    match identifier_of(key) {
        Err(e) => Err(e),
        Ok(found) => if found == target {
            Ok(())
        } else {
            Err(ScanError::Mismatch { found, expected: target })
        },
    }
}

/// Extracts the identifier of a raw storage key.
pub fn key_identifier(key: &[u8]) -> (out: Result<u32, ScanError>)
    ensures
        out == identifier_of(key@),
{
    if key.len() < IDENTIFIER_END {
        return Err(ScanError::KeyTooShort { len: key.len() });
    }
    let window = slice_subrange(key, IDENTIFIER_OFFSET, IDENTIFIER_END);
    proof {
        lemma_le_u32_range(window@);
    }
    match scale_decode_u32(window) {
        Ok(found) => Ok(found),
        Err(_) => Err(ScanError::KeyTooShort { len: key.len() }),
    }
}

/// Compares the identifier of a raw storage key with `target`.
pub fn check_key(key: &[u8], target: u32) -> (out: Result<(), ScanError>)
    ensures
        out == check_of(key@, target),
{
    match key_identifier(key) {
        Err(e) => Err(e),
        Ok(found) => if found == target {
            Ok(())
        } else {
            Err(ScanError::Mismatch { found, expected: target })
        },
    }
}

/// The line that reports one key of a scan: the identifier that was asked
/// for, then the one that the key holds.
pub open spec fn report_of(target: u32, found: u32) -> Seq<char> {
    "key: "@ + decimal(target as nat) + " - storage_key: "@ + decimal(found as nat)
}

/// Renders the line that reports one key of a scan.
pub fn report(target: u32, found: u32) -> (s: String)
    ensures
        s@ == report_of(target, found),
{
    let mut s = String::from_str("key: ");
    let asked = render_u64(target as u64);
    s.append(asked.as_str());
    s.append(" - storage_key: ");
    let held = render_u64(found as u64);
    s.append(held.as_str());
    s
}

/// Checks every key in turn and stops at the first that fails.
pub fn scan_keys(keys: &Vec<Vec<u8>>, target: u32) -> (out: Result<(), ScanFailure>)
    ensures
        match out {
            Ok(()) => forall|i: int|
                0 <= i < keys@.len() ==> check_of(#[trigger] keys@[i]@, target) is Ok,
            Err(failure) => {
                &&& failure.index < keys@.len()
                &&& check_of(keys@[failure.index as int]@, target) == Err::<(), ScanError>(
                    failure.error,
                )
                &&& forall|i: int|
                    0 <= i < failure.index ==> check_of(#[trigger] keys@[i]@, target) is Ok
            },
        },
{
    let mut index: usize = 0;
    while index < keys.len()
        invariant
            index <= keys@.len(),
            forall|i: int| 0 <= i < index ==> check_of(#[trigger] keys@[i]@, target) is Ok,
        decreases keys@.len() - index,
    {
        match check_key(keys[index].as_slice(), target) {
            Ok(()) => {},
            Err(error) => {
                return Err(ScanFailure { index, error });
            },
        }
        index = index + 1;
    }
    Ok(())
}

/// A key whose identifier bytes spell `v` passes the check for `v` and fails
/// it, with a mismatch that names both numbers, for every other target.
pub proof fn lemma_check_accepts_only_the_identifier(key: Seq<u8>, v: u32, target: u32)
    requires
        key.len() >= IDENTIFIER_END,
        le_u32(key.subrange(IDENTIFIER_OFFSET as int, IDENTIFIER_END as int)) == v,
    ensures
        check_of(key, v) == Ok::<(), ScanError>(()),
        target != v ==> check_of(key, target) == Err::<(), ScanError>(
            ScanError::Mismatch { found: v, expected: target },
        ),
{
}

} // verus!
