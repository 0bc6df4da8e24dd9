//! Driver-string handling.
//!
//! The driver reports names (device names, layer and extension names) as
//! fixed-size byte arrays terminated by a NUL byte. These helpers extract
//! the NUL-terminated prefix and decode it as UTF-8.

use vstd::prelude::*;
use vstd::utf8::{decode_utf8, valid_utf8};

use crate::error::EngineError;

verus! {

/// The byte sequence contains a NUL terminator.
pub open spec fn has_nul(raw: Seq<u8>) -> bool {
    exists|i: int| 0 <= i < raw.len() && raw[i] == 0
}

/// Index of the first NUL byte, or the length when there is none.
pub open spec fn spec_first_nul(raw: Seq<u8>) -> int
    decreases raw.len(),
{
    if raw.len() == 0 {
        0
    } else if raw[0] == 0 {
        0
    } else {
        1 + spec_first_nul(raw.drop_first())
    }
}

/// The string content of a NUL-terminated byte array: the bytes before the
/// first NUL.
pub open spec fn vk_string_content(raw: Seq<u8>) -> Seq<u8> {
    raw.take(spec_first_nul(raw))
}

/// An index is the first NUL exactly when it holds a NUL (or is the end)
/// and no NUL precedes it.
proof fn lemma_first_nul_unique(raw: Seq<u8>, n: int)
    requires
        0 <= n <= raw.len(),
        n < raw.len() ==> raw[n] == 0,
        n == raw.len() ==> !has_nul(raw),
        forall|j: int| 0 <= j < n ==> raw[j] != 0,
    ensures
        n == spec_first_nul(raw),
    decreases raw.len(),
{
    if raw.len() == 0 {
    } else if raw[0] == 0 {
        assert(n == 0);
    } else {
        let rest = raw.drop_first();
        assert(n >= 1) by {
            if n == 0 {
                assert(raw[0] == 0);
            }
        }
        assert forall|j: int| 0 <= j < n - 1 implies rest[j] != 0 by {
            assert(rest[j] == raw[j + 1]);
        }
        if n == raw.len() {
            assert forall|i: int| 0 <= i < rest.len() implies rest[i] != 0 by {
                assert(rest[i] == raw[i + 1]);
            }
        } else {
            assert(rest[n - 1] == raw[n]);
        }
        lemma_first_nul_unique(rest, n - 1);
    }
}

/// Copies the bytes before the first NUL terminator.
fn nul_prefix(raw: &[u8]) -> (r: Vec<u8>)
    requires
        has_nul(raw@),
    ensures
        r@ == vk_string_content(raw@),
{
    let n: usize = raw.len();
    let mut out: Vec<u8> = Vec::new();
    let mut i: usize = 0;
    loop
        invariant
            n == raw@.len(),
            has_nul(raw@),
            0 <= i <= n,
            out@ == raw@.take(i as int),
            forall|j: int| 0 <= j < i ==> raw@[j] != 0,
        decreases n - i,
    {
        proof {
            if i == n {
                let w = choose|w: int| 0 <= w < raw@.len() && raw@[w] == 0;
                assert(raw@[w] != 0);
            }
        }
        if raw[i] == 0 {
            proof {
                lemma_first_nul_unique(raw@, i as int);
            }
            return out;
        }
        out.push(raw[i]);
        proof {
            assert(out@ =~= raw@.take(i + 1));
        }
        i = i + 1;
    }
}

/// Relies on `String::from_utf8`: the bytes convert to a string exactly
/// when they are valid UTF-8, and the string's characters are the UTF-8
/// decoding of the bytes.
#[verifier::external_body]
fn string_from_utf8(bytes: Vec<u8>) -> (r: Option<String>)
    ensures
        r is Some <==> valid_utf8(bytes@),
        r matches Some(s) ==> s@ == decode_utf8(bytes@),
{
    String::from_utf8(bytes).ok()
}

/// Decodes a NUL-terminated driver string whose content is known to be
/// valid UTF-8. The array must contain a terminator, as the driver
/// guarantees for every name it reports.
pub fn from_vk_string(raw: &[u8]) -> (r: String)
    requires
        has_nul(raw@),
        valid_utf8(vk_string_content(raw@)),
    ensures
        r@ == decode_utf8(vk_string_content(raw@)),
{
    let bytes = nul_prefix(raw);
    match string_from_utf8(bytes) {
        Some(s) => s,
        None => {
            proof {
                assert(false);
            }
            String::new()
        },
    }
}

/// Decodes a NUL-terminated driver string, reporting invalid UTF-8 as an
/// error. The array must contain a terminator, as the driver guarantees
/// for every name it reports.
pub fn checked_from_vk_string(raw: &[u8]) -> (r: Result<String, EngineError>)
    requires
        has_nul(raw@),
    ensures
        match r {
            Ok(s) => valid_utf8(vk_string_content(raw@)) && s@ == decode_utf8(
                vk_string_content(raw@),
            ),
            Err(e) => e == EngineError::InvalidUtf8 && !valid_utf8(vk_string_content(raw@)),
        },
{
    let bytes = nul_prefix(raw);
    match string_from_utf8(bytes) {
        Some(s) => Ok(s),
        None => Err(EngineError::InvalidUtf8),
    }
}

/// The list contains a string equal to `name`.
pub fn contains_string(names: &Vec<String>, name: &str) -> (r: bool)
    ensures
        r == exists|i: int| 0 <= i < names@.len() && names@[i]@ == name@,
{
    let n: usize = names.len();
    let mut i: usize = 0;
    while i < n
        invariant
            n == names@.len(),
            0 <= i <= n,
            forall|j: int| 0 <= j < i ==> names@[j]@ != name@,
        decreases n - i,
    {
        let candidate: &String = &names[i];
        let wanted: String = name.to_owned();
        if *candidate == wanted {
            return true;
        }
        i = i + 1;
    }
    false
}

/// Entry-point name of every shader module the engine loads.
pub fn main_function_name() -> (r: String)
    ensures
        r@ == "main"@,
{
    "main".to_owned()
}

} // verus!
