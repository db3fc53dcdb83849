//! The check of a payload for UTF-8.

use vstd::prelude::*;
use vstd::utf8::{encode_utf8, valid_utf8};
use crate::error::Utf8Failure;

verus! {

/// True if the first `n` bytes are the longest prefix of `bytes` that is
/// valid UTF-8.
pub open spec fn valid_up_to(bytes: Seq<u8>, n: int) -> bool {
    &&& 0 <= n <= bytes.len()
    &&& valid_utf8(bytes.take(n))
    &&& forall|m: int| n < m <= bytes.len() ==> !valid_utf8(#[trigger] bytes.take(m))
}

/// The length of the longest prefix of `bytes` that is valid UTF-8.
pub open spec fn valid_prefix_len(bytes: Seq<u8>) -> int {
    choose|n: int| valid_up_to(bytes, n)
}

/// There is only one longest valid prefix.
pub proof fn lemma_valid_up_to_is_prefix_len(bytes: Seq<u8>, n: int)
    requires
        valid_up_to(bytes, n),
    ensures
        valid_prefix_len(bytes) == n,
{
    let m = valid_prefix_len(bytes);
    assert(valid_up_to(bytes, m));
    if m < n {
        assert(!valid_utf8(bytes.take(n)));
    }
    if n < m {
        assert(!valid_utf8(bytes.take(m)));
    }
}

/// Calls `std::str::from_utf8` and, where that fails, `valid_up_to` on its
/// error. The first returns the bytes as a string if and only if they are
/// valid UTF-8; the second gives the greatest length at which a prefix of the
/// bytes would have been accepted.
#[verifier::external_body]
pub(crate) fn check_utf8<'a>(bytes: &'a [u8]) -> (res: Result<&'a str, Utf8Failure>)
    ensures
        match res {
            Ok(text) => valid_utf8(bytes@) && encode_utf8(text@) == bytes@,
            Err(failure) => !valid_utf8(bytes@) && valid_up_to(bytes@, failure.valid_up_to as int),
        },
{
    match std::str::from_utf8(bytes) {
        Ok(text) => Ok(text),
        Err(err) => Err(Utf8Failure { valid_up_to: err.valid_up_to() }),
    }
}

} // verus!
