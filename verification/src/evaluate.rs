//! Response evaluation: interprets the body of the exchange response.
//! A body is accepted exactly when it contains the token marker
//! `access_token` as a substring; the status code plays no part. No token
//! value is extracted or retained.

use vstd::prelude::*;
use crate::gate::DenyReason;

verus! {

use vstd::string::StrSliceExecFns;

/// Whether `needle` occurs contiguously inside `haystack`.
pub open spec fn spec_contains(haystack: Seq<char>, needle: Seq<char>) -> bool {
    exists|k: int|
        0 <= k && k + needle.len() <= haystack.len() && #[trigger] haystack.subrange(
            k,
            k + needle.len(),
        ) == needle
}

/// The substring whose presence in the exchange response body counts as a
/// successfully issued token.
pub open spec fn token_marker() -> Seq<char> {
    "access_token"@
}

/// Whether the exchange response body counts as carrying a token.
pub open spec fn spec_token_present(body: Seq<char>) -> bool {
    spec_contains(body, token_marker())
}

/// The verdict of the response evaluator.
pub enum Verdict {
    /// The exchange returned a token: the suspended request may resume.
    Authorized,
    /// The exchange returned no token: the request is to be denied.
    Denied { reason: DenyReason },
}

/// Returns whether `needle` occurs contiguously inside `haystack`.
pub fn contains_subseq(haystack: &str, needle: &str) -> (r: bool)
    ensures
        r == spec_contains(haystack@, needle@),
{
    let hl = haystack.unicode_len();
    let nl = needle.unicode_len();
    if nl > hl {
        return false;
    }
    if nl == 0 {
        assert(haystack@.subrange(0, 0 + needle@.len() as int) =~= needle@);
        assert(spec_contains(haystack@, needle@));
        return true;
    }
    let mut k: usize = 0;
    while k <= hl - nl
        invariant
            0 <= k <= hl - nl + 1,
            1 <= nl <= hl,
            hl == haystack@.len(),
            nl == needle@.len(),
            forall|kk: int|
                0 <= kk < k ==> #[trigger] haystack@.subrange(kk, kk + needle@.len()) != needle@,
        decreases hl - nl - k + 1,
    {
        let mut j: usize = 0;
        let mut matched = true;
        while j < nl
            invariant
                0 <= j <= nl,
                k + nl <= hl,
                hl == haystack@.len(),
                nl == needle@.len(),
                matched ==> forall|jj: int| 0 <= jj < j ==> haystack@[k + jj] == needle@[jj],
                !matched ==> haystack@.subrange(k as int, k + needle@.len()) != needle@,
            decreases nl - j,
        {
            if haystack.get_char(k + j) != needle.get_char(j) {
                assert(haystack@.subrange(k as int, k + needle@.len())[j as int]
                    != needle@[j as int]);
                matched = false;
                j = nl;
            } else {
                j = j + 1;
            }
        }
        if matched {
            assert(haystack@.subrange(k as int, k + needle@.len()) =~= needle@);
            return true;
        }
        k = k + 1;
    }
    assert forall|kk: int| 0 <= kk && kk + needle@.len() <= haystack@.len() implies #[trigger]
    haystack@.subrange(kk, kk + needle@.len()) != needle@ by {
        assert(kk < k);
    }
    false
}

/// Evaluates the exchange response body: `Authorized` exactly when the body
/// contains the token marker, `Denied` with `InvalidCredentials` otherwise.
pub fn evaluate_exchange_body(body: &str) -> (v: Verdict)
    ensures
        v == if spec_token_present(body@) {
            Verdict::Authorized
        } else {
            Verdict::Denied { reason: DenyReason::InvalidCredentials }
        },
{
    if contains_subseq(body, "access_token") {
        Verdict::Authorized
    } else {
        Verdict::Denied { reason: DenyReason::InvalidCredentials }
    }
}

} // verus!
