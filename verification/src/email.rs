//! Email value object with normalization and validation.
//!
//! An accepted address is the input trimmed of surrounding whitespace and
//! lowercased; the normalized text must consist of a nonempty local part,
//! exactly one `@`, and a nonempty domain that contains a dot. Trimming
//! and Unicode lowercasing are the standard library's; the validation of
//! the normalized text is verified character by character.

use vstd::prelude::*;
use vstd::string::StrSliceExecFns;

use crate::error::AuthError;

verus! {

/// What str::trim leaves of the text: the input without its leading and
/// trailing whitespace. A function of the characters alone.
pub uninterp spec fn trim_of(s: Seq<char>) -> Seq<char>;

/// What str::to_lowercase makes of the text: its Unicode lowercase form.
/// A function of the characters alone.
pub uninterp spec fn lower_of(s: Seq<char>) -> Seq<char>;

/// The normalized form of an input address: trimmed, then lowercased.
pub open spec fn normal_form(s: Seq<char>) -> Seq<char> {
    lower_of(trim_of(s))
}

/// Relies on str::trim: the result is the input without its leading and
/// trailing whitespace, and depends on the characters alone.
#[verifier::external_body]
fn str_trim(s: &str) -> (r: &str)
    ensures
        r@ == trim_of(s@),
{
    s.trim()
}

/// Relies on str::to_lowercase: the result depends on the characters
/// alone.
#[verifier::external_body]
fn str_to_lowercase(s: &str) -> (r: String)
    ensures
        r@ == lower_of(s@),
{
    s.to_lowercase()
}

/// `i` marks a well-placed `@`: a nonempty local part before it, no other
/// `@`, and a nonempty domain after it containing a `.`.
pub open spec fn valid_email_with_at(s: Seq<char>, i: int) -> bool {
    &&& 0 < i && i + 1 < s.len()
    &&& s[i] == '@'
    &&& forall|j: int| 0 <= j < s.len() && j != i ==> s[j] != '@'
    &&& exists|k: int| i < k < s.len() && s[k] == '.'
}

/// A (normalized) text is a valid email.
pub open spec fn valid_email(s: Seq<char>) -> bool {
    exists|i: int| valid_email_with_at(s, i)
}

/// Whether the text passes email validation: a single well-placed `@`
/// with a dotted, nonempty domain.
fn text_is_valid_email(s: &str) -> (r: bool)
    ensures
        r == valid_email(s@),
{
    // Locate the `@`: its position, and whether it is unique.
    let n: usize = s.unicode_len();
    let mut at_pos: usize = 0;
    let mut has_at: bool = false;
    let mut dup_at: bool = false;
    let mut p: usize = 0;
    while p < n
        invariant
            p <= n,
            n == s@.len(),
            has_at ==> at_pos < p && s@[at_pos as int] == '@',
            !has_at ==> forall|j: int| 0 <= j < p ==> s@[j] != '@',
            has_at && !dup_at ==> forall|j: int| 0 <= j < p && j != at_pos ==> s@[j] != '@',
            dup_at ==> has_at && exists|j: int| 0 <= j < p && j != at_pos && s@[j] == '@',
        decreases n - p,
    {
        if s.get_char(p) == '@' {
            if has_at {
                dup_at = true;
            } else {
                has_at = true;
                at_pos = p;
            }
        }
        p += 1;
    }

    // Look for a dot after the `@`.
    let mut has_dot: bool = false;
    if has_at {
        let mut k: usize = at_pos + 1;
        while k < n
            invariant
                at_pos < k <= n,
                n == s@.len(),
                has_dot ==> exists|m: int| at_pos < m < n && s@[m] == '.',
                !has_dot ==> forall|m: int| at_pos < m < k ==> s@[m] != '.',
            decreases n - k,
        {
            if s.get_char(k) == '.' {
                has_dot = true;
            }
            k += 1;
        }
    }

    let ok: bool = has_at && !dup_at && at_pos > 0 && at_pos + 1 < n && has_dot;
    proof {
        if ok {
            assert(valid_email_with_at(s@, at_pos as int));
        } else {
            assert forall|ii: int| !valid_email_with_at(s@, ii) by {
                if valid_email_with_at(s@, ii) {
                    assert(s@[ii] == '@');
                    assert(has_at);
                    assert(ii == at_pos);
                    assert(!dup_at);
                    assert(has_dot);
                }
            }
        }
    }
    ok
}

/// Email value object; the held string is always normalized.
#[derive(Debug, Clone, PartialEq, Eq)]
pub struct Email(String);

impl View for Email {
    type V = Seq<char>;

    closed spec fn view(&self) -> Seq<char> {
        self.0@
    }
}

impl Email {
    /// A well-formed email holds text that passes validation.
    pub open spec fn wf(self) -> bool {
        valid_email(self@)
    }

    /// Validate and normalize an email address: the input is trimmed and
    /// lowercased, and is accepted exactly when the result has a nonempty
    /// local part, a single `@`, and a nonempty domain containing a dot.
    /// Anything else is rejected as InvalidEmail.
    pub fn new(value: &str) -> (r: Result<Email, AuthError>)
        ensures
            match r {
                Ok(e) => {
                    &&& e@ == normal_form(value@)
                    &&& valid_email(normal_form(value@))
                    &&& e.wf()
                },
                Err(err) => {
                    &&& err is InvalidEmail
                    &&& !valid_email(normal_form(value@))
                },
            },
    {
        let folded: String = str_to_lowercase(str_trim(value));
        if text_is_valid_email(folded.as_str()) {
            Ok(Email(folded))
        } else {
            Err(AuthError::InvalidEmail)
        }
    }

    /// The normalized email as a string slice.
    pub fn as_str(&self) -> (r: &str)
        ensures
            r@ == self@,
    {
        self.0.as_str()
    }

    /// Reconstruct an email from persisted text, trusting that it was
    /// normalized and validated when first stored.
    pub(crate) fn from_persistence(value: String) -> (r: Email)
        ensures
            r@ == value@,
    {
        Email(value)
    }
}

} // verus!
