//! Syntactic validation of submitted URLs.
//!
//! A candidate is accepted iff it is a well-formed absolute URL: an ASCII
//! letter followed by scheme characters, a colon, and a non-empty remainder
//! of printable ASCII characters.  No network reachability check is made.

use vstd::prelude::*;

verus! {

/// Error reported for a candidate URL that is not syntactically well formed.
#[derive(Clone, Copy, Debug, PartialEq, Eq, Structural)]
pub enum ValidationError {
    Malformed,
}

/// A URL string that passed syntactic validation, stored verbatim.
pub struct ValidatedUrl {
    url: String,
}

/// ASCII letter: the only character a URL scheme may start with.
pub open spec fn is_url_alpha(c: char) -> bool {
    (('a' as u32) <= (c as u32) && (c as u32) <= ('z' as u32)) || (('A' as u32) <= (c as u32)
        && (c as u32) <= ('Z' as u32))
}

/// Character allowed inside a URL scheme: letter, digit, `+`, `-` or `.`.
pub open spec fn is_scheme_char(c: char) -> bool {
    is_url_alpha(c) || (('0' as u32) <= (c as u32) && (c as u32) <= ('9' as u32)) || c == '+'
        || c == '-' || c == '.'
}

/// Character allowed after the scheme: any printable ASCII character other
/// than space.  Anything outside this set (spaces, control characters,
/// unencoded non-ASCII text) makes the candidate malformed.
pub open spec fn is_component_char(c: char) -> bool {
    ('!' as u32) <= (c as u32) && (c as u32) <= ('~' as u32)
}

/// `s` splits at position `i` into a scheme and a non-empty remainder:
/// `s[0..i]` is a well-formed scheme, `s[i]` is the colon, and `s[i+1..]` is
/// non-empty and made of printable ASCII characters.
pub open spec fn scheme_splits_at(s: Seq<char>, i: int) -> bool {
    &&& 1 <= i
    &&& i + 1 < s.len()
    &&& s[i] == ':'
    &&& is_url_alpha(s[0])
    &&& forall|j: int| 1 <= j < i ==> is_scheme_char(#[trigger] s[j])
    &&& forall|j: int| i < j < s.len() ==> is_component_char(#[trigger] s[j])
}

/// A candidate is a syntactically valid absolute URL iff it splits into
/// scheme, colon and remainder at some position.  Because a colon is not a
/// scheme character, at most one position qualifies: the first colon.
pub open spec fn is_valid_url(s: Seq<char>) -> bool {
    exists|i: int| scheme_splits_at(s, i)
}

impl View for ValidatedUrl {
    type V = Seq<char>;

    closed spec fn view(&self) -> Seq<char> {
        self.url@
    }
}

impl ValidatedUrl {
    /// The validated URL, exactly as it was submitted.
    pub fn as_str(&self) -> (r: &str)
        ensures
            r@ == self@,
    {
        self.url.as_str()
    }

    /// Gives up the validated URL string.
    pub fn into_string(self) -> (r: String)
        ensures
            r@ == self@,
    {
        self.url
    }
}

fn url_alpha_at(s: &str, i: usize) -> (b: bool)
    requires
        i < s@.len(),
    ensures
        b == is_url_alpha(s@[i as int]),
{
    let u = s.get_char(i) as u32;
    (('a' as u32) <= u && u <= ('z' as u32)) || (('A' as u32) <= u && u <= ('Z' as u32))
}

fn scheme_char_at(s: &str, i: usize) -> (b: bool)
    requires
        i < s@.len(),
    ensures
        b == is_scheme_char(s@[i as int]),
{
    let c = s.get_char(i);
    let u = c as u32;
    (('a' as u32) <= u && u <= ('z' as u32)) || (('A' as u32) <= u && u <= ('Z' as u32)) || (('0' as u32) <= u
        && u <= ('9' as u32)) || c == '+' || c == '-' || c == '.'
}

fn component_char_at(s: &str, i: usize) -> (b: bool)
    requires
        i < s@.len(),
    ensures
        b == is_component_char(s@[i as int]),
{
    let u = s.get_char(i) as u32;
    ('!' as u32) <= u && u <= ('~' as u32)
}

/// Accepts `candidate` iff it is a syntactically well-formed absolute URL,
/// returning it verbatim; rejects everything else as malformed.
pub fn validate(candidate: &str) -> (r: Result<ValidatedUrl, ValidationError>)
    ensures
        r matches Ok(v) ==> v@ == candidate@ && is_valid_url(candidate@),
        r matches Err(e) ==> !is_valid_url(candidate@) && e == ValidationError::Malformed,
{
    let n = candidate.unicode_len();
    if n == 0 {
        return Err(ValidationError::Malformed);
    }
    if !url_alpha_at(candidate, 0) {
        return Err(ValidationError::Malformed);
    }
    // Scan the scheme: every character up to the first colon must be a
    // scheme character.
    let mut i: usize = 1;
    while i < n && scheme_char_at(candidate, i)
        invariant
            1 <= i <= n,
            n == candidate@.len(),
            forall|j: int| 1 <= j < i ==> is_scheme_char(#[trigger] candidate@[j]),
        decreases n - i,
    {
        i = i + 1;
    }
    if i == n {
        // No colon: every character is a scheme character, and a colon is not.
        proof {
            assert forall|k: int| !scheme_splits_at(candidate@, k) by {
                if 1 <= k < n && candidate@[k] == ':' {
                    assert(is_scheme_char(candidate@[k]));
                    assert(!is_scheme_char(':'));
                }
            }
        }
        return Err(ValidationError::Malformed);
    }
    let ghost gi = i as int;
    if candidate.get_char(i) != ':' {
        // The scheme scan stopped at a character that is neither a scheme
        // character nor a colon, so no split position can exist.
        proof {
            assert(!is_scheme_char(candidate@[gi]));
            assert forall|k: int| !scheme_splits_at(candidate@, k) by {
                if scheme_splits_at(candidate@, k) {
                    if k < gi {
                        assert(is_scheme_char(candidate@[k]));
                        assert(!is_scheme_char(':'));
                    } else if k > gi {
                        assert(is_scheme_char(candidate@[gi]));
                    }
                }
            }
        }
        return Err(ValidationError::Malformed);
    }
    if i + 1 >= n {
        // Nothing follows the colon.
        proof {
            assert forall|k: int| !scheme_splits_at(candidate@, k) by {
                if scheme_splits_at(candidate@, k) {
                    if k < gi {
                        assert(is_scheme_char(candidate@[k]));
                        assert(!is_scheme_char(':'));
                    } else if k > gi {
                        assert(is_scheme_char(candidate@[gi]));
                        assert(!is_scheme_char(':'));
                    }
                }
            }
        }
        return Err(ValidationError::Malformed);
    }
    // Scan the remainder: every character after the colon must be printable
    // ASCII.
    let mut k: usize = i + 1;
    while k < n && component_char_at(candidate, k)
        invariant
            gi < k <= n,
            n == candidate@.len(),
            forall|j: int| gi < j < k ==> is_component_char(#[trigger] candidate@[j]),
        decreases n - k,
    {
        k = k + 1;
    }
    if k < n {
        // A character after the colon is outside the printable ASCII range.
        proof {
            let gk = k as int;
            assert(!is_component_char(candidate@[gk]));
            assert forall|m: int| !scheme_splits_at(candidate@, m) by {
                if scheme_splits_at(candidate@, m) {
                    if m < gi {
                        assert(is_scheme_char(candidate@[m]));
                        assert(!is_scheme_char(':'));
                    } else if m > gi {
                        assert(is_scheme_char(candidate@[gi]));
                        assert(!is_scheme_char(':'));
                    } else {
                        assert(is_component_char(candidate@[gk]));
                    }
                }
            }
        }
        return Err(ValidationError::Malformed);
    }
    proof {
        assert(scheme_splits_at(candidate@, gi));
    }
    Ok(ValidatedUrl { url: candidate.to_owned() })
}

} // verus!
