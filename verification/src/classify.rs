//! The failure classifier.
//!
//! Invoked only after the converter process exits non-zero. From the exit
//! code, the captured stderr bytes, and a byte-pattern verdict over the
//! original input file, it produces exactly one typed error. The decision
//! is a priority ranking: an out-of-range crash signature in stderr wins
//! over the byte-pattern heuristic, which wins over the exit-code table.

use vstd::prelude::*;

use crate::codes::{error_code_message_spec, get_error_code_message};
use crate::errors::{ErrorResponse, ErrorResponseV};

verus! {

/// Best-effort classification of raw file bytes, produced by a byte-pattern
/// heuristic that runs only when the converter process has failed.
#[derive(Clone, Copy, PartialEq, Eq, Structural, Debug)]
pub enum FileCondition {
    Unknown,
    LikelyCorrupted,
    LikelyEncrypted,
    Healthy,
}

/// The stderr crash signature that empirically correlates with
/// password-protected input: the bytes of `std::out_of_range`.
pub open spec fn out_of_range_sig() -> Seq<u8> {
    seq![
        's' as u8, 't' as u8, 'd' as u8, ':' as u8, ':' as u8,
        'o' as u8, 'u' as u8, 't' as u8, '_' as u8, 'o' as u8,
        'f' as u8, '_' as u8, 'r' as u8, 'a' as u8, 'n' as u8,
        'g' as u8, 'e' as u8,
    ]
}

/// `needle` occurs in `hay` starting at offset `i`.
pub open spec fn matches_at(hay: Seq<u8>, needle: Seq<u8>, i: int) -> bool {
    &&& 0 <= i
    &&& i + needle.len() <= hay.len()
    &&& forall|j: int| 0 <= j < needle.len() ==> hay[i + j] == needle[j]
}

/// `needle` occurs somewhere in `hay`.
pub open spec fn has_subrange(hay: Seq<u8>, needle: Seq<u8>) -> bool {
    exists|i: int| matches_at(hay, needle, i)
}

/// The out-of-range crash signature as runtime bytes.
pub fn out_of_range_signature() -> (v: Vec<u8>)
    ensures
        v@ == out_of_range_sig(),
{
    let mut v: Vec<u8> = Vec::new();
    v.push('s' as u8);
    v.push('t' as u8);
    v.push('d' as u8);
    v.push(':' as u8);
    v.push(':' as u8);
    v.push('o' as u8);
    v.push('u' as u8);
    v.push('t' as u8);
    v.push('_' as u8);
    v.push('o' as u8);
    v.push('f' as u8);
    v.push('_' as u8);
    v.push('r' as u8);
    v.push('a' as u8);
    v.push('n' as u8);
    v.push('g' as u8);
    v.push('e' as u8);
    proof {
        assert(v@ =~= out_of_range_sig());
    }
    v
}

/// Whether `needle` occurs in `hay` starting exactly at offset `i`.
fn check_match_at(hay: &Vec<u8>, needle: &Vec<u8>, i: usize) -> (r: bool)
    requires
        i + needle@.len() <= hay@.len(),
    ensures
        r == matches_at(hay@, needle@, i as int),
{
    let hay_len = hay.len();
    let mut j: usize = 0;
    while j < needle.len()
        invariant
            i + needle@.len() <= hay@.len(),
            hay_len == hay@.len(),
            j <= needle@.len(),
            forall|l: int| 0 <= l < j ==> hay@[i + l] == needle@[l],
        decreases needle@.len() - j,
    {
        if hay[i + j] != needle[j] {
            assert(hay@[i + j] != needle@[j as int]);
            return false;
        }
        j += 1;
    }
    true
}

/// Whether `needle` occurs anywhere in `hay`.
pub fn contains_subrange(hay: &Vec<u8>, needle: &Vec<u8>) -> (r: bool)
    ensures
        r == has_subrange(hay@, needle@),
{
    if needle.len() > hay.len() {
        assert(forall|i: int| !matches_at(hay@, needle@, i));
        return false;
    }
    if needle.len() == 0 {
        assert(matches_at(hay@, needle@, 0));
        return true;
    }
    let hay_len = hay.len();
    let last = hay.len() - needle.len();
    let mut i: usize = 0;
    while i <= last
        invariant
            1 <= needle@.len() <= hay@.len(),
            hay_len == hay@.len(),
            last == hay@.len() - needle@.len(),
            i <= last + 1,
            forall|k: int| 0 <= k < i ==> !matches_at(hay@, needle@, k),
        decreases last + 1 - i,
    {
        if check_match_at(hay, needle, i) {
            return true;
        }
        i += 1;
    }
    assert(forall|k: int| matches_at(hay@, needle@, k) ==> 0 <= k <= last);
    false
}

/// Model of the `FILE_LIKELY_ENCRYPTED` classification.
pub open spec fn encrypted_v(code: Option<i32>) -> ErrorResponseV {
    ErrorResponseV {
        reason: Some("FILE_LIKELY_ENCRYPTED"@),
        x2t_code: code,
        message: "file is encrypted"@,
    }
}

/// Model of the `FILE_LIKELY_CORRUPTED` classification.
pub open spec fn corrupted_v(code: Option<i32>) -> ErrorResponseV {
    ErrorResponseV {
        reason: Some("FILE_LIKELY_CORRUPTED"@),
        x2t_code: code,
        message: "file is corrupted"@,
    }
}

/// The message reported when neither the crash signature nor the byte
/// heuristic decided: the exit-code table's entry, or the generic message
/// for a code outside the table (or no code at all).
pub open spec fn generic_message_v(code: Option<i32>) -> Seq<char> {
    match code {
        Some(c) => match error_code_message_spec(c) {
            Some(m) => m,
            None => "unknown error occurred"@,
        },
        None => "unknown error occurred"@,
    }
}

/// Model of the classification that falls through to the exit-code table:
/// no machine-readable reason, the raw code preserved.
pub open spec fn generic_code_v(code: Option<i32>) -> ErrorResponseV {
    ErrorResponseV {
        reason: None,
        x2t_code: code,
        message: generic_message_v(code),
    }
}

/// The classifier's full decision, from most to least specific signal:
/// crash signature in stderr, then byte-pattern verdict, then exit-code
/// table.
pub open spec fn classify_spec(
    code: Option<i32>,
    stderr: Seq<u8>,
    condition: FileCondition,
) -> ErrorResponseV {
    if has_subrange(stderr, out_of_range_sig()) {
        encrypted_v(code)
    } else {
        match condition {
            FileCondition::LikelyCorrupted => corrupted_v(code),
            FileCondition::LikelyEncrypted => encrypted_v(code),
            _ => generic_code_v(code),
        }
    }
}

/// Classify a converter failure into exactly one typed error.
pub fn classify_failure(code: Option<i32>, stderr: &Vec<u8>, condition: FileCondition) -> (r:
    ErrorResponse)
    ensures
        r@ == classify_spec(code, stderr@, condition),
{
    let sig = out_of_range_signature();
    if contains_subrange(stderr, &sig) {
        return ErrorResponse {
            reason: Some("FILE_LIKELY_ENCRYPTED"),
            x2t_code: code,
            message: "file is encrypted".to_owned(),
        };
    }
    match condition {
        FileCondition::LikelyCorrupted => ErrorResponse {
            reason: Some("FILE_LIKELY_CORRUPTED"),
            x2t_code: code,
            message: "file is corrupted".to_owned(),
        },
        FileCondition::LikelyEncrypted => ErrorResponse {
            reason: Some("FILE_LIKELY_ENCRYPTED"),
            x2t_code: code,
            message: "file is encrypted".to_owned(),
        },
        _ => {
            let message = match code {
                Some(c) => match get_error_code_message(c) {
                    Some(m) => m.to_owned(),
                    None => "unknown error occurred".to_owned(),
                },
                None => "unknown error occurred".to_owned(),
            };
            ErrorResponse { reason: None, x2t_code: code, message }
        },
    }
}

/// Law: classifier priority. Whenever stderr carries the out-of-range
/// crash signature, the classification is the encrypted-file error,
/// whatever the byte-pattern heuristic reported.
pub proof fn lemma_classifier_priority(
    code: Option<i32>,
    stderr: Seq<u8>,
    condition: FileCondition,
)
    requires
        has_subrange(stderr, out_of_range_sig()),
    ensures
        classify_spec(code, stderr, condition) == encrypted_v(code),
{
}

/// Law: the exit-code mapping is a function of the code alone, and code
/// 0x5b names the converter's password error.
pub proof fn lemma_password_code()
    ensures
        error_code_message_spec(0x5b) == Some("AVS_FILEUTILS_ERROR_CONVERT_PASSWORD"@),
{
}

/// Law: a code outside the table always yields the generic unknown-error
/// message while preserving the raw code in the response.
pub proof fn lemma_unknown_code(code: i32, stderr: Seq<u8>, condition: FileCondition)
    requires
        !has_subrange(stderr, out_of_range_sig()),
        condition is Unknown || condition is Healthy,
        error_code_message_spec(code) is None,
    ensures
        classify_spec(Some(code), stderr, condition) == (ErrorResponseV {
            reason: None,
            x2t_code: Some(code),
            message: "unknown error occurred"@,
        }),
{
}

} // verus!
