//! Canonical on-disk encoding of the system-state record.
//!
//! The record is persisted as one pretty-printed JSON object with a
//! `current_input` field (a channel digit, or `null` before the first
//! selection) and a `hard_power_state` object mapping each stringified
//! channel id to `0` or `1`:
//!
//! ```text
//! {
//!   "current_input": null,
//!   "hard_power_state": {
//!     "1": 0,
//!     "2": 0,
//!     "3": 0,
//!     "4": 0
//!   }
//! }
//! ```
//!
//! The encoding is canonical: every well-formed state has exactly one
//! byte representation, and the decoder accepts exactly those
//! representations. The fixed runs of bytes between the variable digits
//! are named below and spelled as ASCII codes.

use vstd::prelude::*;

use crate::ids::valid_id;
use crate::state::{HardPowerFlags, SystemState};

verus! {

/// ASCII code of the digit `0`; the digits of the channel ids and of the
/// relay flags are offsets from it.
pub const DIGIT_ZERO: u8 = 48;

/// ASCII code of the letter `n`, the first byte of the `null` literal.
pub const LETTER_N: u8 = 110;

/// Opening of the record up to and including `"current_input": `.
pub open spec fn head_bytes() -> Seq<u8> {
    seq![123, 10, 32, 32, 34, 99, 117, 114, 114, 101, 110, 116, 95, 105, 110, 112, 117, 116, 34, 58, 32]
}

/// The JSON `null` literal.
pub open spec fn null_lit_bytes() -> Seq<u8> {
    seq![110, 117, 108, 108]
}

/// From the end of the `current_input` value up to and including the
/// `"1": ` key of the `hard_power_state` object.
pub open spec fn mid1_bytes() -> Seq<u8> {
    seq![44, 10, 32, 32, 34, 104, 97, 114, 100, 95, 112, 111, 119, 101, 114, 95, 115, 116, 97, 116, 101, 34, 58, 32, 123, 10, 32, 32, 32, 32, 34, 49, 34, 58, 32]
}

/// Separator introducing the `"2": ` key.
pub open spec fn sep2_bytes() -> Seq<u8> {
    seq![44, 10, 32, 32, 32, 32, 34, 50, 34, 58, 32]
}

/// Separator introducing the `"3": ` key.
pub open spec fn sep3_bytes() -> Seq<u8> {
    seq![44, 10, 32, 32, 32, 32, 34, 51, 34, 58, 32]
}

/// Separator introducing the `"4": ` key.
pub open spec fn sep4_bytes() -> Seq<u8> {
    seq![44, 10, 32, 32, 32, 32, 34, 52, 34, 58, 32]
}

/// Closing braces of the `hard_power_state` object and of the record.
pub open spec fn tail_bytes() -> Seq<u8> {
    seq![10, 32, 32, 125, 10, 125]
}

/// ASCII digit of a channel id.
pub open spec fn id_byte(id: u8) -> u8
    recommends
        valid_id(id),
{
    (DIGIT_ZERO + id) as u8
}

/// ASCII digit of one relay flag: `1` for on, `0` for off.
pub open spec fn flag_byte(on: bool) -> u8 {
    if on {
        (DIGIT_ZERO + 1) as u8
    } else {
        DIGIT_ZERO
    }
}

/// Bytes of the `current_input` value.
pub open spec fn input_bytes(ci: Option<u8>) -> Seq<u8> {
    match ci {
        None => null_lit_bytes(),
        Some(id) => seq![id_byte(id)],
    }
}

/// Length of the `current_input` value: `null` takes four bytes, a
/// channel digit one.
pub open spec fn input_len(ci: Option<u8>) -> int {
    match ci {
        None => 4,
        Some(_) => 1,
    }
}

/// Bytes of the record from the comma after the `current_input` value to
/// the end.
pub open spec fn flags_bytes(h: HardPowerFlags) -> Seq<u8> {
    mid1_bytes() + seq![flag_byte(h.ch1)] + sep2_bytes() + seq![flag_byte(h.ch2)] + sep3_bytes()
        + seq![flag_byte(h.ch3)] + sep4_bytes() + seq![flag_byte(h.ch4)] + tail_bytes()
}

/// The canonical encoding of a well-formed state.
pub open spec fn encode_spec(s: SystemState) -> Seq<u8>
    recommends
        s.wf(),
{
    head_bytes() + input_bytes(s.current_input) + flags_bytes(s.hard_power)
}

/// Encodes a well-formed state into its canonical byte representation.
#[verifier::rlimit(50)]
pub fn encode_state(s: &SystemState) -> (r: Vec<u8>)
    requires
        s.wf(),
    ensures
        r@ == encode_spec(*s),
{
    let mut v = head_vec();
    match s.current_input {
        None => {
            let mut p = null_lit_vec();
            v.append(&mut p);
        },
        Some(id) => {
            v.push(DIGIT_ZERO + id);
        },
    }
    let mut p = mid1_vec();
    v.append(&mut p);
    v.push(exec_flag_byte(s.hard_power.ch1));
    let mut p = sep2_vec();
    v.append(&mut p);
    v.push(exec_flag_byte(s.hard_power.ch2));
    let mut p = sep3_vec();
    v.append(&mut p);
    v.push(exec_flag_byte(s.hard_power.ch3));
    let mut p = sep4_vec();
    v.append(&mut p);
    v.push(exec_flag_byte(s.hard_power.ch4));
    let mut p = tail_vec();
    v.append(&mut p);
    proof {
        assert(v@ =~= encode_spec(*s));
    }
    v
}

fn exec_flag_byte(on: bool) -> (r: u8)
    ensures
        r == flag_byte(on),
{
    if on {
        DIGIT_ZERO + 1
    } else {
        DIGIT_ZERO
    }
}

/// Where each separator and each relay digit sits inside the fixed part
/// that follows the `current_input` value.
pub proof fn lemma_flags_structure(h: HardPowerFlags)
    ensures
        flags_bytes(h).len() == 78,
        forall|k: int| 0 <= k < 35 ==> flags_bytes(h)[k] == mid1_bytes()[k],
        flags_bytes(h)[35] == flag_byte(h.ch1),
        forall|k: int| 0 <= k < 11 ==> flags_bytes(h)[36 + k] == sep2_bytes()[k],
        flags_bytes(h)[47] == flag_byte(h.ch2),
        forall|k: int| 0 <= k < 11 ==> flags_bytes(h)[48 + k] == sep3_bytes()[k],
        flags_bytes(h)[59] == flag_byte(h.ch3),
        forall|k: int| 0 <= k < 11 ==> flags_bytes(h)[60 + k] == sep4_bytes()[k],
        flags_bytes(h)[71] == flag_byte(h.ch4),
        forall|k: int| 0 <= k < 6 ==> flags_bytes(h)[72 + k] == tail_bytes()[k],
{
}

/// Where the head, the `current_input` value and the fixed rest sit
/// inside the encoding of a well-formed state.
pub proof fn lemma_encode_structure(s: SystemState)
    requires
        s.wf(),
    ensures
        encode_spec(s).len() == 99 + input_len(s.current_input),
        forall|k: int| 0 <= k < 21 ==> encode_spec(s)[k] == head_bytes()[k],
        forall|k: int|
            0 <= k < input_len(s.current_input) ==> encode_spec(s)[21 + k] == input_bytes(
                s.current_input,
            )[k],
        forall|k: int|
            0 <= k < 78 ==> encode_spec(s)[21 + input_len(s.current_input) + k] == flags_bytes(
                s.hard_power,
            )[k],
{
    lemma_flags_structure(s.hard_power);
}

/// The encoding is injective: equal record bytes mean equal states, so
/// the persisted file determines the logical state completely.
pub proof fn lemma_encode_injective(s1: SystemState, s2: SystemState)
    requires
        s1.wf(),
        s2.wf(),
        encode_spec(s1) == encode_spec(s2),
    ensures
        s1 == s2,
{
    lemma_encode_structure(s1);
    lemma_encode_structure(s2);
    lemma_flags_structure(s1.hard_power);
    lemma_flags_structure(s2.hard_power);
    let e = encode_spec(s1);
    match (s1.current_input, s2.current_input) {
        (None, None) => {
        },
        (Some(a), Some(c)) => {
            assert(e[21] == id_byte(a) && e[21] == id_byte(c));
        },
        (None, Some(c)) => {
            assert(e[21] == null_lit_bytes()[0] && e[21] == id_byte(c));
            assert(false);
        },
        (Some(a), None) => {
            assert(e[21] == id_byte(a) && e[21] == null_lit_bytes()[0]);
            assert(false);
        },
    }
    let cl = input_len(s1.current_input);
    assert(e[21 + cl + 35] == flag_byte(s1.hard_power.ch1) && e[21 + cl + 35] == flag_byte(
        s2.hard_power.ch1,
    ));
    assert(e[21 + cl + 47] == flag_byte(s1.hard_power.ch2) && e[21 + cl + 47] == flag_byte(
        s2.hard_power.ch2,
    ));
    assert(e[21 + cl + 59] == flag_byte(s1.hard_power.ch3) && e[21 + cl + 59] == flag_byte(
        s2.hard_power.ch3,
    ));
    assert(e[21 + cl + 71] == flag_byte(s1.hard_power.ch4) && e[21 + cl + 71] == flag_byte(
        s2.hard_power.ch4,
    ));
    assert(s1.hard_power =~= s2.hard_power);
    assert(s1 =~= s2);
}

/// Reports whether two byte vectors hold the same bytes.
fn vecs_equal(a: &Vec<u8>, b: &Vec<u8>) -> (r: bool)
    ensures
        r <==> a@ == b@,
{
    if a.len() != b.len() {
        return false;
    }
    let n = a.len();
    let mut j: usize = 0;
    while j < n
        invariant
            j <= n,
            n == a@.len(),
            n == b@.len(),
            forall|k: int| 0 <= k < j ==> a@[k] == b@[k],
        decreases n - j,
    {
        if a[j] != b[j] {
            return false;
        }
        j += 1;
    }
    proof {
        assert(a@ =~= b@);
    }
    true
}

/// Reads one relay digit: `0` is off, `1` is on, anything else is
/// malformed.
fn read_flag(b: &Vec<u8>, i: usize) -> (r: Option<bool>)
    requires
        i < b@.len(),
    ensures
        r matches Some(on) ==> b@[i as int] == flag_byte(on),
        r is None ==> b@[i as int] != flag_byte(true) && b@[i as int] != flag_byte(false),
{
    let c = b[i];
    if c == DIGIT_ZERO {
        Some(false)
    } else if c == DIGIT_ZERO + 1 {
        Some(true)
    } else {
        None
    }
}

/// Decodes a persisted record.
///
/// Returns the unique well-formed state whose canonical encoding is
/// exactly `b`, and `None` when no such state exists — any deviation
/// from the canonical bytes counts as a malformed record.
///
/// The decoder reads the five variable digits at their fixed offsets,
/// re-encodes the candidate state, and accepts only when the bytes agree
/// wholesale.
#[verifier::rlimit(100)]
pub fn parse_state(b: &Vec<u8>) -> (r: Option<SystemState>)
    ensures
        r matches Some(s) ==> s.wf() && b@ == encode_spec(s),
        forall|s: SystemState| s.wf() && b@ == #[trigger] encode_spec(s) ==> r == Some(s),
{
    let n = b.len();
    if n < 22 {
        proof {
            assert forall|s: SystemState| !(s.wf() && b@ == #[trigger] encode_spec(s)) by {
                if s.wf() && b@ == encode_spec(s) {
                    lemma_encode_structure(s);
                }
            }
        }
        return None;
    }

    // The byte after the head names the current input: `n` opens the
    // `null` literal, a digit names the channel.
    let c = b[21];
    let ci: Option<u8>;
    let ci_len: usize;
    if c == LETTER_N {
        ci = None;
        ci_len = 4;
    } else if DIGIT_ZERO + 1 <= c && c <= DIGIT_ZERO + 4 {
        ci = Some(c - DIGIT_ZERO);
        ci_len = 1;
    } else {
        proof {
            assert forall|s: SystemState| !(s.wf() && b@ == #[trigger] encode_spec(s)) by {
                if s.wf() && b@ == encode_spec(s) {
                    lemma_encode_structure(s);
                }
            }
        }
        return None;
    }
    proof {
        assert(ci_len == input_len(ci));
        assert forall|s: SystemState|
            s.wf() && b@ == #[trigger] encode_spec(s) implies s.current_input == ci by {
            lemma_encode_structure(s);
        }
    }

    // A canonical record has a fixed length once the input value's form
    // is known.
    if n != 99 + ci_len {
        proof {
            assert forall|s: SystemState| !(s.wf() && b@ == #[trigger] encode_spec(s)) by {
                if s.wf() && b@ == encode_spec(s) {
                    lemma_encode_structure(s);
                }
            }
        }
        return None;
    }

    // The four relay digits sit at fixed offsets behind the input value.
    let base = 21 + ci_len;
    let f1 = match read_flag(b, base + 35) {
        Some(on) => on,
        None => {
            proof {
                assert forall|s: SystemState| !(s.wf() && b@ == #[trigger] encode_spec(s)) by {
                    if s.wf() && b@ == encode_spec(s) {
                        lemma_encode_structure(s);
                        lemma_flags_structure(s.hard_power);
                    }
                }
            }
            return None;
        },
    };
    let f2 = match read_flag(b, base + 47) {
        Some(on) => on,
        None => {
            proof {
                assert forall|s: SystemState| !(s.wf() && b@ == #[trigger] encode_spec(s)) by {
                    if s.wf() && b@ == encode_spec(s) {
                        lemma_encode_structure(s);
                        lemma_flags_structure(s.hard_power);
                    }
                }
            }
            return None;
        },
    };
    let f3 = match read_flag(b, base + 59) {
        Some(on) => on,
        None => {
            proof {
                assert forall|s: SystemState| !(s.wf() && b@ == #[trigger] encode_spec(s)) by {
                    if s.wf() && b@ == encode_spec(s) {
                        lemma_encode_structure(s);
                        lemma_flags_structure(s.hard_power);
                    }
                }
            }
            return None;
        },
    };
    let f4 = match read_flag(b, base + 71) {
        Some(on) => on,
        None => {
            proof {
                assert forall|s: SystemState| !(s.wf() && b@ == #[trigger] encode_spec(s)) by {
                    if s.wf() && b@ == encode_spec(s) {
                        lemma_encode_structure(s);
                        lemma_flags_structure(s.hard_power);
                    }
                }
            }
            return None;
        },
    };

    let st = SystemState {
        current_input: ci,
        hard_power: HardPowerFlags { ch1: f1, ch2: f2, ch3: f3, ch4: f4 },
    };
    assert(st.wf());

    // Accept exactly the canonical bytes of the candidate.
    let e = encode_state(&st);
    if !vecs_equal(&e, b) {
        proof {
            assert forall|s: SystemState| !(s.wf() && b@ == #[trigger] encode_spec(s)) by {
                if s.wf() && b@ == encode_spec(s) {
                    lemma_encode_structure(s);
                    lemma_flags_structure(s.hard_power);
                    assert(s.hard_power =~= st.hard_power);
                    assert(s =~= st);
                }
            }
        }
        return None;
    }
    proof {
        assert forall|s: SystemState|
            s.wf() && b@ == #[trigger] encode_spec(s) implies s == st by {
            lemma_encode_structure(s);
            lemma_flags_structure(s.hard_power);
            assert(s.hard_power =~= st.hard_power);
            assert(s =~= st);
        }
    }
    Some(st)
}

fn head_vec() -> (v: Vec<u8>)
    ensures
        v@ == head_bytes(),
{
    let mut v: Vec<u8> = Vec::new();
    v.push(123u8);
    v.push(10u8);
    v.push(32u8);
    v.push(32u8);
    v.push(34u8);
    v.push(99u8);
    v.push(117u8);
    v.push(114u8);
    v.push(114u8);
    v.push(101u8);
    v.push(110u8);
    v.push(116u8);
    v.push(95u8);
    v.push(105u8);
    v.push(110u8);
    v.push(112u8);
    v.push(117u8);
    v.push(116u8);
    v.push(34u8);
    v.push(58u8);
    v.push(32u8);
    assert(v@ =~= head_bytes());
    v
}

fn null_lit_vec() -> (v: Vec<u8>)
    ensures
        v@ == null_lit_bytes(),
{
    let mut v: Vec<u8> = Vec::new();
    v.push(110u8);
    v.push(117u8);
    v.push(108u8);
    v.push(108u8);
    assert(v@ =~= null_lit_bytes());
    v
}

fn mid1_vec() -> (v: Vec<u8>)
    ensures
        v@ == mid1_bytes(),
{
    let mut v: Vec<u8> = Vec::new();
    v.push(44u8);
    v.push(10u8);
    v.push(32u8);
    v.push(32u8);
    v.push(34u8);
    v.push(104u8);
    v.push(97u8);
    v.push(114u8);
    v.push(100u8);
    v.push(95u8);
    v.push(112u8);
    v.push(111u8);
    v.push(119u8);
    v.push(101u8);
    v.push(114u8);
    v.push(95u8);
    v.push(115u8);
    v.push(116u8);
    v.push(97u8);
    v.push(116u8);
    v.push(101u8);
    v.push(34u8);
    v.push(58u8);
    v.push(32u8);
    v.push(123u8);
    v.push(10u8);
    v.push(32u8);
    v.push(32u8);
    v.push(32u8);
    v.push(32u8);
    v.push(34u8);
    v.push(49u8);
    v.push(34u8);
    v.push(58u8);
    v.push(32u8);
    assert(v@ =~= mid1_bytes());
    v
}

fn sep2_vec() -> (v: Vec<u8>)
    ensures
        v@ == sep2_bytes(),
{
    let mut v: Vec<u8> = Vec::new();
    v.push(44u8);
    v.push(10u8);
    v.push(32u8);
    v.push(32u8);
    v.push(32u8);
    v.push(32u8);
    v.push(34u8);
    v.push(50u8);
    v.push(34u8);
    v.push(58u8);
    v.push(32u8);
    assert(v@ =~= sep2_bytes());
    v
}

fn sep3_vec() -> (v: Vec<u8>)
    ensures
        v@ == sep3_bytes(),
{
    let mut v: Vec<u8> = Vec::new();
    v.push(44u8);
    v.push(10u8);
    v.push(32u8);
    v.push(32u8);
    v.push(32u8);
    v.push(32u8);
    v.push(34u8);
    v.push(51u8);
    v.push(34u8);
    v.push(58u8);
    v.push(32u8);
    assert(v@ =~= sep3_bytes());
    v
}

fn sep4_vec() -> (v: Vec<u8>)
    ensures
        v@ == sep4_bytes(),
{
    let mut v: Vec<u8> = Vec::new();
    v.push(44u8);
    v.push(10u8);
    v.push(32u8);
    v.push(32u8);
    v.push(32u8);
    v.push(32u8);
    v.push(34u8);
    v.push(52u8);
    v.push(34u8);
    v.push(58u8);
    v.push(32u8);
    assert(v@ =~= sep4_bytes());
    v
}

fn tail_vec() -> (v: Vec<u8>)
    ensures
        v@ == tail_bytes(),
{
    let mut v: Vec<u8> = Vec::new();
    v.push(10u8);
    v.push(32u8);
    v.push(32u8);
    v.push(125u8);
    v.push(10u8);
    v.push(125u8);
    assert(v@ =~= tail_bytes());
    v
}

} // verus!
