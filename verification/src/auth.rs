//! Grok session cookies and the validity flag of the session they open.
use vstd::prelude::*;
use crate::error::GrokError;
use crate::text::chars_of;

verus! {

/// A character that must not occur in a cookie value: CR, LF or NUL.
pub open spec fn forbidden_cookie_char(c: char) -> bool {
    c == '\r' || c == '\n' || c == '\0'
}

/// True when `s` holds a character that must not occur in a cookie value.
pub open spec fn has_forbidden_cookie_char(s: Seq<char>) -> bool {
    exists|i: int| 0 <= i < s.len() && forbidden_cookie_char(#[trigger] s[i])
}

/// The `sso-rw` value actually sent: an empty one stands for the `sso` value.
pub open spec fn effective_sso_rw(sso: Seq<char>, sso_rw: Seq<char>) -> Seq<char> {
    if sso_rw.len() == 0 {
        sso
    } else {
        sso_rw
    }
}

/// The `Cookie` header built from the two session cookies and any extra cookies.
pub open spec fn cookie_line(sso: Seq<char>, sso_rw: Seq<char>, extra: Seq<char>) -> Seq<char> {
    let base = "sso="@ + sso + "; sso-rw="@ + effective_sso_rw(sso, sso_rw);
    if extra.len() == 0 {
        base
    } else {
        base + "; "@ + extra
    }
}

/// True when the three values are accepted: `sso` is not empty and no value that goes
/// into the header holds CR, LF or NUL.
pub open spec fn cookies_accepted(sso: Seq<char>, sso_rw: Seq<char>, extra: Seq<char>) -> bool {
    &&& sso.len() != 0
    &&& !has_forbidden_cookie_char(sso)
    &&& !has_forbidden_cookie_char(effective_sso_rw(sso, sso_rw))
    &&& !has_forbidden_cookie_char(extra)
}

/// The abstract state of a [`GrokAuth`]: the cookie header and whether the session is
/// believed valid.
pub ghost struct AuthState {
    pub cookies: Seq<char>,
    pub valid: bool,
}

/// Session cookies for grok.com, with a flag that records whether the last answer of the
/// server showed the session to be valid.
pub struct GrokAuth {
    cookies: String,
    session_valid: bool,
}

impl View for GrokAuth {
    type V = AuthState;

    closed spec fn view(&self) -> AuthState {
        AuthState { cookies: self.cookies@, valid: self.session_valid }
    }
}

fn contains_forbidden(s: &str) -> (r: bool)
    ensures
        r == has_forbidden_cookie_char(s@),
{
    let v = chars_of(s);
    let mut i: usize = 0;
    while i < v.len()
        invariant
            v@ == s@,
            i <= v@.len(),
            forall|j: int| 0 <= j < i ==> !forbidden_cookie_char(#[trigger] s@[j]),
        decreases v.len() - i,
    {
        let c = v[i];
        if c == '\r' || c == '\n' || c == '\0' {
            assert(forbidden_cookie_char(s@[i as int]));
            return true;
        }
        i += 1;
    }
    false
}

impl GrokAuth {
    /// Cookies made of `sso` and `sso-rw` alone.
    pub fn new(sso: &str, sso_rw: &str) -> (r: Result<GrokAuth, GrokError>)
        ensures
            r is Ok <==> cookies_accepted(sso@, sso_rw@, Seq::empty()),
            r matches Ok(a) ==> a@ == (AuthState {
                cookies: cookie_line(sso@, sso_rw@, Seq::empty()),
                valid: true,
            }),
            r matches Err(e) ==> e is Config,
    {
        proof {
            reveal_strlit("");
        }
        GrokAuth::with_extra_cookies(sso, sso_rw, "")
    }

    /// Cookies made of `sso`, `sso-rw` (an empty one stands for `sso`) and, when not
    /// empty, further cookies appended after `; `. The session starts out valid.
    pub fn with_extra_cookies(sso: &str, sso_rw: &str, extra: &str) -> (r: Result<
        GrokAuth,
        GrokError,
    >)
        ensures
            r is Ok <==> cookies_accepted(sso@, sso_rw@, extra@),
            r matches Ok(a) ==> a@ == (AuthState {
                cookies: cookie_line(sso@, sso_rw@, extra@),
                valid: true,
            }),
            sso@.len() == 0 ==> (r matches Err(GrokError::Config(m)) && m@
                == "GROK_SSO_COOKIE must not be empty"@),
            sso@.len() != 0 && !cookies_accepted(sso@, sso_rw@, extra@) ==> (r matches Err(
                GrokError::Config(m),
            ) && m@ == "cookie values contain CR/LF/null — likely paste error"@),
    {
        if sso.is_empty() {
            return Err(GrokError::Config("GROK_SSO_COOKIE must not be empty".to_owned()));
        }
        let sso_rw = if sso_rw.is_empty() {
            sso
        } else {
            sso_rw
        };
        if contains_forbidden(sso) || contains_forbidden(sso_rw) || contains_forbidden(extra) {
            return Err(
                GrokError::Config("cookie values contain CR/LF/null — likely paste error".to_owned()),
            );
        }
        let mut cookies = "sso=".to_owned();
        cookies.append(sso);
        cookies.append("; sso-rw=");
        cookies.append(sso_rw);
        if !extra.is_empty() {
            cookies.append("; ");
            cookies.append(extra);
        }
        Ok(GrokAuth { cookies, session_valid: true })
    }

    /// The `Cookie` header value.
    pub fn cookie_header(&self) -> (r: &str)
        ensures
            r@ == self@.cookies,
    {
        self.cookies.as_str()
    }

    /// Whether the session is believed valid.
    pub fn is_valid(&self) -> (r: bool)
        ensures
            r == self@.valid,
    {
        self.session_valid
    }

    /// Records that the server rejected the session; the cookies stay as they are.
    pub fn invalidate(&mut self)
        ensures
            final(self)@ == (AuthState { valid: false, ..old(self)@ }),
    {
        self.session_valid = false;
    }

    /// Records that the server accepted the session; the cookies stay as they are.
    pub fn revalidate(&mut self)
        ensures
            final(self)@ == (AuthState { valid: true, ..old(self)@ }),
    {
        self.session_valid = true;
    }
}

} // verus!
