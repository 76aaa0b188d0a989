use vstd::prelude::*;
use vstd::string::*;
use reqwest::header::{HeaderValue, InvalidHeaderValue};
use crate::error::ApiError;

verus! {

/// http's `HeaderValue` (re-exported by reqwest), carried as it is.
#[verifier::external_type_specification]
#[verifier::external_body]
pub struct ExHeaderValue(HeaderValue);

/// http's `InvalidHeaderValue`, the error of `HeaderValue::from_str`.
#[verifier::external_type_specification]
#[verifier::external_body]
pub struct ExInvalidHeaderValue(InvalidHeaderValue);

/// The scheme word that precedes the credential in the `Authorization` header.
pub open spec fn token_scheme() -> Seq<char> {
    seq!['T', 'o', 'k', 'e', 'n', ' ']
}

/// A character that may stand in a header value: a tab, or any character
/// from the space upward except DEL.  A character beyond ASCII is encoded as
/// bytes of 128 and above, which are all admitted.
pub open spec fn header_char_ok(c: char) -> bool {
    c == '\t' || (c >= ' ' && c != '\x7f')
}

/// Every character of `s` may stand in a header value.
pub open spec fn header_text_ok(s: Seq<char>) -> bool {
    forall|i: int| 0 <= i < s.len() ==> header_char_ok(#[trigger] s[i])
}

/// Relies on http's `HeaderValue::from_str` (re-exported by reqwest): it
/// fails exactly when some byte is below 32 and not a tab, or is 127.
#[verifier::external_body]
fn header_value(s: &str) -> (r: Result<HeaderValue, InvalidHeaderValue>)
    ensures
        r is Ok <==> header_text_ok(s@),
{
    HeaderValue::from_str(s)
}

/// The text of the `Authorization` header for `credential`: `Token <credential>`.
pub fn authorization_text(credential: &str) -> (r: String)
    ensures
        r@ == token_scheme() + credential@,
{
    let scheme = String::from_str("Token ");
    proof {
        reveal_strlit("Token ");
    }
    assert(scheme@ =~= token_scheme());
    scheme.concat(credential)
}

/// The `Authorization` header text for `credential`, once the HTTP layer
/// has accepted it as a header value, or `InvalidCredential` when the
/// credential holds a character that a header value cannot carry.
pub fn authorization_header(credential: &str) -> (r: Result<String, ApiError>)
    ensures
        r is Ok <==> header_text_ok(credential@),
        r is Err ==> r->Err_0 is InvalidCredential,
        r is Ok ==> r->Ok_0@ == token_scheme() + credential@,
{
    let text = authorization_text(credential);
    proof {
        lemma_scheme_prefix_ok(credential@);
    }
    match header_value(text.as_str()) {
        Ok(_) => Ok(text),
        Err(_) => Err(ApiError::InvalidCredential(String::from_str("credential holds a character not allowed in a header"))),
    }
}

/// Prefixing the scheme word changes nothing about whether a text may stand
/// in a header.
pub proof fn lemma_scheme_prefix_ok(credential: Seq<char>)
    ensures
        header_text_ok(token_scheme() + credential) == header_text_ok(credential),
{
    let full = token_scheme() + credential;
    if header_text_ok(credential) {
        assert forall|i: int| 0 <= i < full.len() implies header_char_ok(#[trigger] full[i]) by {
            if i >= 6 {
                assert(full[i] == credential[i - 6]);
            }
        }
    }
    if header_text_ok(full) {
        assert forall|i: int| 0 <= i < credential.len() implies header_char_ok(#[trigger] credential[i]) by {
            assert(full[i + 6] == credential[i]);
        }
    }
}

/// A credential that holds a control character other than a tab (a newline,
/// say) or DEL is refused with `InvalidCredential`, never turned into a header.
pub proof fn lemma_control_char_refused(credential: Seq<char>, i: int)
    requires
        0 <= i < credential.len(),
        (credential[i] < ' ' && credential[i] != '\t') || credential[i] == '\x7f',
    ensures
        !header_text_ok(credential),
        !header_text_ok(token_scheme() + credential),
{
    lemma_scheme_prefix_ok(credential);
    assert(!header_char_ok(credential[i]));
}

/// How many leading characters of a credential may appear in diagnostics.
pub const HINT_CHARS: usize = 5;

/// A character of one byte in UTF-8.
pub open spec fn is_ascii_char(c: char) -> bool {
    c <= '\x7f'
}

/// Whether the first `k` characters of `credential` are the hint that
/// diagnostics may show: ASCII characters only, so one byte each, as many
/// as `HINT_CHARS` allows, stopping before the first character that is not
/// ASCII.
pub open spec fn is_hint_len(credential: Seq<char>, k: int) -> bool {
    &&& 0 <= k <= HINT_CHARS
    &&& k <= credential.len()
    &&& forall|i: int| 0 <= i < k ==> is_ascii_char(#[trigger] credential[i])
    &&& (k == HINT_CHARS || k == credential.len() || !is_ascii_char(credential[k]))
}

/// A short prefix of `credential` for log lines: nothing for a credential
/// of at most five characters, so that it never appears whole; otherwise
/// its leading ASCII characters, at most five, so at most five bytes.
pub fn credential_hint(credential: &str) -> (r: String)
    ensures
        credential@.len() <= HINT_CHARS ==> r@.len() == 0,
        credential@.len() > HINT_CHARS ==> is_hint_len(credential@, r@.len() as int)
            && r@ == credential@.take(r@.len() as int),
        r@.len() <= HINT_CHARS,
        credential@.len() > 0 ==> r@.len() < credential@.len(),
{
    let n = credential.unicode_len();
    if n <= HINT_CHARS {
        return String::new();
    }
    let mut k: usize = 0;
    while k < HINT_CHARS && credential.get_char(k) <= '\x7f'
        invariant
            n == credential@.len(),
            n > HINT_CHARS,
            0 <= k <= HINT_CHARS,
            forall|i: int| 0 <= i < k ==> is_ascii_char(#[trigger] credential@[i]),
        decreases HINT_CHARS - k,
    {
        k = k + 1;
    }
    let head = credential.substring_char(0, k);
    assert(head@ =~= credential@.take(k as int));
    String::from_str(head)
}

} // verus!
