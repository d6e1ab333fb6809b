//! Logical channel identifiers and the error taxonomy shared by every
//! entry point of the library.

use vstd::prelude::*;
use vstd::slice::slice_to_vec;
use vstd::string::StringSliceAdditionalSpecFns;

verus! {

/// Smallest valid logical channel identifier.
pub const MIN_ID: u8 = 1;

/// Largest valid logical channel identifier.
pub const MAX_ID: u8 = 4;

/// Number of logical channels.
pub const ID_COUNT: usize = 4;

/// A logical identifier is valid exactly when it lies in the closed
/// range `MIN_ID ..= MAX_ID`; no other value is accepted by any entry
/// point of the library.
pub open spec fn valid_id(id: u8) -> bool {
    MIN_ID <= id <= MAX_ID
}

/// Runtime check for membership in the valid identifier set.
pub fn is_valid_id(id: u8) -> (r: bool)
    ensures
        r == valid_id(id),
{
    MIN_ID <= id && id <= MAX_ID
}

/// ASCII code of `+`, the one sign a numeral may carry.
pub const PLUS: u8 = 43;

/// ASCII code of the digit `0`.
pub const ASCII_ZERO: u8 = 48;

/// An ASCII decimal digit.
pub open spec fn is_digit(b: u8) -> bool {
    ASCII_ZERO <= b <= ASCII_ZERO + 9
}

/// Numeric value of one ASCII digit.
pub open spec fn digit_val(b: u8) -> int
    recommends
        is_digit(b),
{
    b - ASCII_ZERO
}

/// Value of a run of ASCII digits read left to right.
pub open spec fn numeral_value(ds: Seq<u8>) -> int
    decreases ds.len(),
{
    if ds.len() == 0 {
        0
    } else {
        numeral_value(ds.drop_last()) * 10 + digit_val(ds.last())
    }
}

/// The digit run of a numeral: everything after one optional leading
/// `+` sign.
pub open spec fn numeral_digits(bs: Seq<u8>) -> Seq<u8> {
    if bs.len() > 0 && bs[0] == PLUS {
        bs.skip(1)
    } else {
        bs
    }
}

/// The byte string spells a valid channel id: an optional `+`, then one
/// or more decimal digits (leading zeros allowed) whose value lies in
/// the valid set.
pub open spec fn spells_valid_id(bs: Seq<u8>) -> bool {
    let ds = numeral_digits(bs);
    &&& ds.len() > 0
    &&& (forall|k: int| 0 <= k < ds.len() ==> is_digit(#[trigger] ds[k]))
    &&& MIN_ID <= numeral_value(ds) <= MAX_ID
}

/// Parses a channel id from its decimal spelling.
///
/// Accepts exactly the strings whose bytes spell a valid id and rejects
/// every other string — a sign other than one leading `+`, a non-digit,
/// an empty digit run, or a value outside the valid set — with
/// `InvalidId`.
pub fn parse_id(s: &str) -> (r: Result<u8, EngineError>)
    ensures
        r matches Ok(id) ==> spells_valid_id(s.spec_bytes()) && valid_id(id) && id
            == numeral_value(numeral_digits(s.spec_bytes())),
        r is Err ==> r == Err::<u8, EngineError>(EngineError::InvalidId) && !spells_valid_id(
            s.spec_bytes(),
        ),
{
    let bytes: Vec<u8> = slice_to_vec(s.as_bytes());
    let n = bytes.len();
    let start: usize = if n > 0 && bytes[0] == PLUS {
        1
    } else {
        0
    };
    let ghost ds = numeral_digits(s.spec_bytes());
    proof {
        assert(ds =~= bytes@.skip(start as int));
    }
    if start == n {
        return Err(EngineError::InvalidId);
    }
    let mut val: u32 = 0;
    let mut too_big = false;
    let mut j: usize = 0;
    let m = n - start;
    while j < m
        invariant
            m == n - start,
            start + m == n,
            n == bytes@.len(),
            bytes@ == s.spec_bytes(),
            ds == numeral_digits(s.spec_bytes()),
            ds == bytes@.skip(start as int),
            ds.len() == m,
            j <= m,
            forall|k: int| 0 <= k < j ==> is_digit(#[trigger] ds[k]),
            !too_big ==> val <= 4 && val == numeral_value(ds.take(j as int)),
            too_big ==> numeral_value(ds.take(j as int)) > 4,
        decreases m - j,
    {
        let c = bytes[start + j];
        if !(ASCII_ZERO <= c && c <= ASCII_ZERO + 9) {
            proof {
                assert(!is_digit(ds[j as int]));
            }
            return Err(EngineError::InvalidId);
        }
        proof {
            assert(ds.take(j + 1).drop_last() =~= ds.take(j as int));
            assert(ds.take(j + 1).last() == ds[j as int]);
        }
        if !too_big {
            let nv = val * 10 + ((c - ASCII_ZERO) as u32);
            if nv > 4 {
                too_big = true;
            } else {
                val = nv;
            }
        }
        j += 1;
    }
    proof {
        assert(ds.take(m as int) =~= ds);
    }
    if too_big || val == 0 {
        return Err(EngineError::InvalidId);
    }
    Ok(val as u8)
}

/// Why a request was rejected.
///
/// Every error is local to one request: none poisons the device
/// connection or the state record for later requests.
#[derive(Clone, Copy, Debug, PartialEq, Eq, Structural)]
pub enum EngineError {
    /// The identifier lies outside the valid set; nothing was written.
    InvalidId,
    /// The identifier is valid but has no pin mapping for the requested
    /// line kind; nothing was written.
    UnconfiguredId,
    /// The mapped physical pin lies outside the expander's 0..=7 range;
    /// nothing was written.
    InvalidPinConfig,
    /// A bus write failed; the state record was not touched and the
    /// connection stays open.
    DeviceError,
    /// The state record was updated in memory but writing it to durable
    /// storage failed; the action still counts as physically done.
    PersistenceError,
}

} // verus!
