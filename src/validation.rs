//! Validation of request bodies: email shape and password strength.

use vstd::prelude::*;
use crate::api::auth::{ApiAuthLoginRequest, AuthRegisterRequest, RegisterRequest};
use crate::text::{is_blank, lemma_trimmed_empty_iff_blank, trim};

verus! {

pub open spec fn is_ascii_upper(c: char) -> bool {
    'A' <= c && c <= 'Z'
}

pub open spec fn is_ascii_lower(c: char) -> bool {
    'a' <= c && c <= 'z'
}

pub open spec fn is_ascii_digit(c: char) -> bool {
    '0' <= c && c <= '9'
}

pub open spec fn is_ascii_alnum(c: char) -> bool {
    is_ascii_upper(c) || is_ascii_lower(c) || is_ascii_digit(c)
}

/// A character allowed before the `@` of an email address.
pub open spec fn is_local_char(c: char) -> bool {
    is_ascii_alnum(c) || c == '.' || c == '_' || c == '%' || c == '+' || c == '-'
}

/// A character allowed in the domain of an email address.
pub open spec fn is_domain_char(c: char) -> bool {
    is_ascii_alnum(c) || c == '.' || c == '-'
}

/// `s` has the shape `local@domain.tld`: a non-empty local part of letters,
/// digits and `._%+-`; a non-empty domain of letters, digits and `.-`; a dot;
/// and a top-level part of at least two letters.
pub open spec fn is_email_address(s: Seq<char>) -> bool {
    exists|at: int, dot: int|
        #![trigger s[at], s[dot]]
        0 < at && at + 1 < dot && dot + 3 <= s.len() && s[at] == '@' && s[dot] == '.' && (forall|i: int|
            0 <= i < at ==> is_local_char(#[trigger] s[i])) && (forall|i: int|
            at < i < dot ==> is_domain_char(#[trigger] s[i])) && (forall|i: int|
            dot < i < s.len() ==> (is_ascii_upper(#[trigger] s[i]) || is_ascii_lower(s[i])))
}

/// Relies on `regex::Regex::new` and `Regex::is_match` for the pattern
/// `^[A-Za-z0-9._%+-]+@[A-Za-z0-9.-]+\.[A-Za-z]{2,}$`, whose language is
/// `is_email_address` (the pattern is valid, so `new` succeeds).
#[verifier::external_body]
fn email_pattern_matches(s: &str) -> (r: bool)
    ensures
        r == is_email_address(s@),
{
    match regex::Regex::new("^[A-Za-z0-9._%+-]+@[A-Za-z0-9.-]+\\.[A-Za-z]{2,}$") {
        Ok(re) => re.is_match(s),
        Err(_) => false,
    }
}

pub open spec fn has_upper(s: Seq<char>) -> bool {
    exists|i: int| 0 <= i < s.len() && is_ascii_upper(#[trigger] s[i])
}

pub open spec fn has_lower(s: Seq<char>) -> bool {
    exists|i: int| 0 <= i < s.len() && is_ascii_lower(#[trigger] s[i])
}

pub open spec fn has_digit(s: Seq<char>) -> bool {
    exists|i: int| 0 <= i < s.len() && is_ascii_digit(#[trigger] s[i])
}

/// Why a password is too weak, if it is: it needs at least six characters, an
/// ASCII uppercase letter, a lowercase letter and a digit.
pub open spec fn password_problem(p: Seq<char>) -> Option<Seq<char>> {
    if p.len() < 6 {
        Some("Password must be at least 6 characters"@)
    } else if !(has_upper(p) && has_lower(p) && has_digit(p)) {
        Some(
            "Password must contain at least one uppercase letter, one lowercase letter, and one digit"@,
        )
    } else {
        None
    }
}

/// Why a login body is invalid, if it is.
pub open spec fn login_problem(person: Seq<char>, password: Seq<char>, is_email: bool) -> Option<
    Seq<char>,
> {
    if is_blank(person) {
        Some("Username or email is required"@)
    } else if is_email && !is_email_address(person) {
        Some("Invalid email format"@)
    } else if password.len() == 0 {
        Some("Password is required"@)
    } else {
        None
    }
}

/// Why a registration body is invalid, if it is.
pub open spec fn registration_problem(email: Seq<char>, password: Seq<char>) -> Option<Seq<char>> {
    if !is_email_address(email) {
        Some("Email format is invalid"@)
    } else {
        password_problem(password)
    }
}

/// `r` reports `problem`: `Ok` when there is none, else its text.
pub open spec fn reports(r: Result<(), String>, problem: Option<Seq<char>>) -> bool {
    match problem {
        None => r is Ok,
        Some(m) => r matches Err(e) && e@ == m,
    }
}

/// Whether `s` contains an ASCII uppercase letter, a lowercase letter and a digit.
fn character_classes(s: &str) -> (r: (bool, bool, bool))
    ensures
        r == (has_upper(s@), has_lower(s@), has_digit(s@)),
{
    let n = s.unicode_len();
    let mut upper = false;
    let mut lower = false;
    let mut digit = false;
    let mut i: usize = 0;
    while i < n
        invariant
            i <= n,
            n == s@.len(),
            upper == exists|k: int| 0 <= k < i && is_ascii_upper(#[trigger] s@[k]),
            lower == exists|k: int| 0 <= k < i && is_ascii_lower(#[trigger] s@[k]),
            digit == exists|k: int| 0 <= k < i && is_ascii_digit(#[trigger] s@[k]),
        decreases n - i,
    {
        let c = s.get_char(i);
        if 'A' <= c && c <= 'Z' {
            upper = true;
        }
        if 'a' <= c && c <= 'z' {
            lower = true;
        }
        if '0' <= c && c <= '9' {
            digit = true;
        }
        i = i + 1;
    }
    (upper, lower, digit)
}

/// Checks that a password is strong enough: at least six characters, with an
/// ASCII uppercase letter, a lowercase letter and a digit.
pub fn is_password_suitable(password: &str) -> (r: Result<(), String>)
    ensures
        reports(r, password_problem(password@)),
{
    if password.unicode_len() < 6 {
        return Err("Password must be at least 6 characters".to_owned());
    }
    let (upper, lower, digit) = character_classes(password);
    if !(upper && lower && digit) {
        return Err(
            "Password must contain at least one uppercase letter, one lowercase letter, and one digit".to_owned(),
        );
    }
    Ok(())
}

fn registration_check(email: &str, password: &str) -> (r: Result<(), String>)
    ensures
        reports(r, registration_problem(email@, password@)),
{
    if !email_pattern_matches(email) {
        return Err("Email format is invalid".to_owned());
    }
    is_password_suitable(password)
}

/// Whether `s` is an email address of the accepted shape.
pub fn is_valid_email(s: &str) -> (r: bool)
    ensures
        r == is_email_address(s@),
{
    email_pattern_matches(s)
}

impl ApiAuthLoginRequest {
    /// Checks that the login names someone (a well-formed email when
    /// `is_email` is set) and carries a password.
    pub fn validate(&self) -> (r: Result<(), String>)
        ensures
            reports(r, login_problem(self.person@, self.password@, self.is_email)),
    {
        let person = trim(self.person.as_str());
        proof {
            lemma_trimmed_empty_iff_blank(self.person@);
        }
        if person.as_str().is_empty() {
            return Err("Username or email is required".to_owned());
        }
        if self.is_email && !email_pattern_matches(self.person.as_str()) {
            return Err("Invalid email format".to_owned());
        }
        if self.password.as_str().is_empty() {
            return Err("Password is required".to_owned());
        }
        Ok(())
    }
}

impl AuthRegisterRequest {
    /// Checks the email's shape and the password's strength.
    pub fn validate(&self) -> (r: Result<(), String>)
        ensures
            reports(r, registration_problem(self.email@, self.password@)),
    {
        registration_check(self.email.as_str(), self.password.as_str())
    }
}

impl RegisterRequest {
    /// Checks the email's shape and the password's strength.
    pub fn validate(&self) -> (r: Result<(), String>)
        ensures
            reports(r, registration_problem(self.email@, self.password@)),
    {
        registration_check(self.email.as_str(), self.password.as_str())
    }
}

} // verus!
