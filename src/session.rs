//! Session credentials: the claims that a signed session token carries.

use vstd::prelude::*;
use crate::error::ApiError;
use crate::relay::hex_char;
use crate::validation::is_ascii_digit;

verus! {

/// How long a session token stays valid: seven days, in seconds.
pub const SESSION_SECONDS: usize = 604800;

/// The claims of a session token: the user id as subject, and when the token
/// was issued and expires (Unix seconds).
#[derive(Clone, Debug)]
pub struct Claims {
    pub sub: String,
    pub iat: usize,
    pub exp: usize,
}

impl Claims {
    /// The claims of a token issued at `now` for `sub`, valid for
    /// `SESSION_SECONDS`.
    pub fn issued(sub: String, now: usize) -> (r: Claims)
        requires
            now + SESSION_SECONDS <= usize::MAX,
        ensures
            r.sub@ == sub@,
            r.iat == now,
            r.exp == now + SESSION_SECONDS,
    {
        Claims { sub, iat: now, exp: now + SESSION_SECONDS }
    }
}


/// The value of a string of ASCII digits, read in base ten.
pub open spec fn digits_value(s: Seq<char>) -> int
    decreases s.len(),
{
    if s.len() == 0 {
        0
    } else {
        digits_value(s.drop_last()) * 10 + digit_value(s.last())
    }
}

/// The value of an ASCII digit.
pub open spec fn digit_value(c: char) -> int {
    if c == '1' { 1 } else if c == '2' { 2 } else if c == '3' { 3 } else if c == '4' { 4 }
    else if c == '5' { 5 } else if c == '6' { 6 } else if c == '7' { 7 } else if c == '8' { 8 }
    else if c == '9' { 9 } else { 0 }
}

fn digit(c: char) -> (r: u64)
    ensures
        r == digit_value(c),
        r <= 9,
{
    if c == '1' { 1 } else if c == '2' { 2 } else if c == '3' { 3 } else if c == '4' { 4 }
    else if c == '5' { 5 } else if c == '6' { 6 } else if c == '7' { 7 } else if c == '8' { 8 }
    else if c == '9' { 9 } else { 0 }
}

/// Every character of `s` is an ASCII digit.
pub open spec fn all_digits(s: Seq<char>) -> bool {
    forall|i: int| 0 <= i < s.len() ==> is_ascii_digit(#[trigger] s[i])
}

/// The signed decimal integer that `s` writes (an optional `+` or `-`, then
/// at least one digit), when it fits in an `i64`.
pub open spec fn decimal_i64(s: Seq<char>) -> Option<int> {
    let signed = s.len() > 0 && (s[0] == '-' || s[0] == '+');
    let body = if signed {
        s.drop_first()
    } else {
        s
    };
    let v = if signed && s[0] == '-' {
        -digits_value(body)
    } else {
        digits_value(body)
    };
    if body.len() == 0 || !all_digits(body) || v < i64::MIN || v > i64::MAX {
        None
    } else {
        Some(v)
    }
}

proof fn lemma_digits_value_grows(s: Seq<char>, k: int)
    requires
        all_digits(s),
        0 <= k <= s.len(),
    ensures
        0 <= digits_value(s.subrange(0, k)) <= digits_value(s),
    decreases s.len(),
{
    if k < s.len() {
        assert(all_digits(s.drop_last()));
        assert(s.drop_last().subrange(0, k) =~= s.subrange(0, k));
        lemma_digits_value_grows(s.drop_last(), k);
    } else {
        assert(s.subrange(0, k) =~= s);
        if s.len() > 0 {
            assert(all_digits(s.drop_last()));
            lemma_digits_value_grows(s.drop_last(), k - 1);
            assert(s.drop_last().subrange(0, k - 1) =~= s.drop_last());
        }
    }
}

/// Reads a signed decimal integer as `str::parse::<i64>` does: an optional
/// sign and at least one ASCII digit, within the range of `i64`.
pub fn parse_decimal_i64(s: &str) -> (r: Option<i64>)
    ensures
        match decimal_i64(s@) {
            Some(v) => r == Some(v as i64),
            None => r is None,
        },
{
    let n = s.unicode_len();
    let mut start: usize = 0;
    let mut negative = false;
    if n > 0 {
        let c = s.get_char(0);
        if c == '-' || c == '+' {
            start = 1;
            negative = c == '-';
        }
    }
    if start == n {
        return None;
    }
    let ghost body = s@.subrange(start as int, n as int);
    proof {
        if start == 1 {
            assert(body =~= s@.drop_first());
        } else {
            assert(body =~= s@);
        }
    }
    let limit: u64 = 9223372036854775808;
    let mut acc: u64 = 0;
    let mut i: usize = start;
    while i < n
        invariant
            start <= i <= n,
            n == s@.len(),
            body == s@.subrange(start as int, n as int),
            start <= 1,
            start == 1 <==> (s@.len() > 0 && (s@[0] == '-' || s@[0] == '+')),
            negative <==> (start == 1 && s@[0] == '-'),
            start == 1 ==> body == s@.drop_first(),
            start == 0 ==> body == s@,
            start < n,
            limit == 9223372036854775808,
            acc <= limit,
            acc == digits_value(body.subrange(0, i - start)),
            all_digits(body.subrange(0, i - start)),
        decreases n - i,
    {
        let c = s.get_char(i);
        assert(body[i - start] == s@[i as int]);
        if !('0' <= c && c <= '9') {
            assert(!is_ascii_digit(body[i - start]));
            assert(!all_digits(body));
            return None;
        }
        let d = digit(c);
        assert(body.subrange(0, i + 1 - start).drop_last() =~= body.subrange(0, i - start));
        if acc > (limit - d) / 10 {
            proof {
                let k = i + 1 - start;
                assert(digits_value(body.subrange(0, k)) > limit);
                if all_digits(body) {
                    lemma_digits_value_grows(body, k);
                }
            }
            return None;
        }
        acc = acc * 10 + d;
        i = i + 1;
    }
    assert(body.subrange(0, n - start) =~= body);
    if negative {
        Some((0 - (acc as i128)) as i64)
    } else if acc < limit {
        Some(acc as i64)
    } else {
        None
    }
}

impl Claims {
    /// The user id that the subject names, when it is a decimal `i64`.
    pub fn user_id(&self) -> (r: Option<i64>)
        ensures
            match decimal_i64(self.sub@) {
                Some(v) => r == Some(v as i64),
                None => r is None,
            },
    {
        parse_decimal_i64(self.sub.as_str())
    }
}

/// Resolves the claims of a checked session token (none when the cookie is
/// missing or the token is invalid or expired) to the caller's user id. A
/// missing credential and one whose subject is not a user id are both 401.
pub fn session_user(claims: Option<Claims>) -> (r: Result<i64, ApiError>)
    ensures
        claims is None ==> r == Err::<i64, ApiError>(ApiError::Unauthenticated),
        claims matches Some(c) ==> match decimal_i64(c.sub@) {
            Some(v) => r == Ok::<i64, ApiError>(v as i64),
            None => r == Err::<i64, ApiError>(ApiError::Unauthenticated),
        },
{
    match claims {
        None => Err(ApiError::Unauthenticated),
        Some(c) => match c.user_id() {
            Some(id) => Ok(id),
            None => Err(ApiError::Unauthenticated),
        },
    }
}

/// The `SameSite` attribute of a cookie.
#[derive(Clone, Copy, Debug, PartialEq, Eq, Structural)]
pub enum SameSitePolicy {
    Strict,
    Lax,
    NoRestriction,
}

/// The text of a `SameSite` value.
pub open spec fn same_site_text(p: SameSitePolicy) -> Seq<char> {
    match p {
        SameSitePolicy::Strict => "Strict"@,
        SameSitePolicy::Lax => "Lax"@,
        SameSitePolicy::NoRestriction => "None"@,
    }
}

/// The decimal text of a natural number.
pub open spec fn decimal_text(n: nat) -> Seq<char>
    decreases n,
{
    if n < 10 {
        seq![hex_char(n as int)]
    } else {
        decimal_text(n / 10) + seq![hex_char((n % 10) as int)]
    }
}

/// The `Set-Cookie` text of a cookie with a name, a value, a path, the
/// HTTP-only and secure flags, a same-site policy and a maximum age in
/// seconds: the attributes in the order the `cookie` crate writes them.
pub open spec fn cookie_text(
    name: Seq<char>,
    value: Seq<char>,
    path: Seq<char>,
    http_only: bool,
    secure: bool,
    same_site: SameSitePolicy,
    max_age: nat,
) -> Seq<char> {
    name + "="@ + value + (if http_only {
        "; HttpOnly"@
    } else {
        Seq::empty()
    }) + "; SameSite="@ + same_site_text(same_site) + (if secure {
        "; Secure"@
    } else {
        Seq::empty()
    }) + "; Path="@ + path + "; Max-Age="@ + decimal_text(max_age)
}

/// Relies on `cookie::Cookie::build` and the `Display` of `cookie::Cookie`,
/// which writes `name=value`, then `HttpOnly`, `SameSite`, `Secure` (set
/// explicitly, so present exactly when asked for), `Path` and `Max-Age` in
/// whole seconds, in this order.
#[verifier::external_body]
fn cookie_header_text(
    name: &str,
    value: &str,
    path: &str,
    http_only: bool,
    secure: bool,
    same_site: SameSitePolicy,
    max_age: u32,
) -> (r: String)
    ensures
        r@ == cookie_text(name@, value@, path@, http_only, secure, same_site, max_age as nat),
{
    let same_site = match same_site {
        SameSitePolicy::Strict => cookie::SameSite::Strict,
        SameSitePolicy::Lax => cookie::SameSite::Lax,
        SameSitePolicy::NoRestriction => cookie::SameSite::None,
    };
    cookie::Cookie::build((name.to_string(), value.to_string())).path(path.to_string()).http_only(
        http_only,
    ).secure(secure).same_site(same_site).max_age(time::Duration::seconds(max_age as i64)).build().to_string()
}

/// The `Set-Cookie` text that carries a session token: HTTP-only, not
/// secure-only, same-site lax, for the whole site, for `SESSION_SECONDS`.
pub fn build_cookie(value: &str) -> (r: String)
    ensures
        r@ == cookie_text(
            "session_token"@,
            value@,
            "/"@,
            true,
            false,
            SameSitePolicy::Lax,
            SESSION_SECONDS as nat,
        ),
        r@ == "session_token="@ + value@ + "; HttpOnly; SameSite=Lax; Path=/; Max-Age=604800"@,
{
    let r = cookie_header_text("session_token", value, "/", true, false, SameSitePolicy::Lax, SESSION_SECONDS as u32);
    proof {
        reveal_strlit("session_token");
        reveal_strlit("=");
        reveal_strlit("; HttpOnly");
        reveal_strlit("; SameSite=");
        reveal_strlit("Lax");
        reveal_strlit("; Path=");
        reveal_strlit("/");
        reveal_strlit("; Max-Age=");
        reveal_strlit("session_token=");
        reveal_strlit("; HttpOnly; SameSite=Lax; Path=/; Max-Age=604800");
        assert(decimal_text(6) =~= seq!['6']);
        assert(decimal_text(60) =~= seq!['6', '0']);
        assert(decimal_text(604) =~= seq!['6', '0', '4']);
        assert(decimal_text(6048) =~= seq!['6', '0', '4', '8']);
        assert(decimal_text(60480) =~= seq!['6', '0', '4', '8', '0']);
        assert(decimal_text(604800) =~= seq!['6', '0', '4', '8', '0', '0']);
        assert(r@ =~= "session_token="@ + value@ + "; HttpOnly; SameSite=Lax; Path=/; Max-Age=604800"@);
    }
    r
}

} // verus!
