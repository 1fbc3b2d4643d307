//! Who may use the server: the optional API key and how a request's bearer token is
//! compared with it.
use vstd::prelude::*;
use vstd::string::StringSliceAdditionalSpecFns;
use crate::api_error::{problem, ApiError};
use crate::text::{chars_of, has_prefix_at, opt_str_view, starts_with};

verus! {

/// Whether two byte strings are equal, looking at every byte whatever the first
/// difference, so that the time taken does not tell where they differ.
pub fn constant_time_eq(a: &[u8], b: &[u8]) -> (r: bool)
    ensures
        r == (a@ == b@),
{
    if a.len() != b.len() {
        return false;
    }
    let mut acc: u8 = 0;
    let mut i: usize = 0;
    while i < a.len()
        invariant
            a@.len() == b@.len(),
            i <= a@.len(),
            (acc == 0) == (forall|j: int| 0 <= j < i ==> a@[j] == b@[j]),
        decreases a.len() - i,
    {
        let x = a[i];
        let y = b[i];
        let next = acc | (x ^ y);
        assert((next == 0) == (acc == 0 && x == y)) by (bit_vector)
            requires
                next == acc | (x ^ y),
        ;
        acc = next;
        i += 1;
    }
    if acc == 0 {
        assert(a@ =~= b@);
    }
    acc == 0
}

/// The prefix of an `Authorization` header that carries a bearer token.
pub open spec fn bearer_prefix() -> Seq<char> {
    "Bearer "@
}

/// Whether a request may pass: always when no API key (or an empty one) is set, else
/// only with an `Authorization` header `Bearer <key>`.
pub open spec fn access_granted(api_key: Option<Seq<char>>, authorization: Option<Seq<char>>) -> bool {
    match api_key {
        None => true,
        Some(k) => k.len() == 0 || match authorization {
            Some(h) => starts_with(h, bearer_prefix()) && h.skip(bearer_prefix().len() as int)
                == k,
            None => false,
        },
    }
}

/// Whether a request with the given `Authorization` header (when it has a readable one)
/// may pass (see [`access_granted`]); the key is compared in constant time.
pub fn authorize(api_key: Option<&str>, authorization: Option<&str>) -> (r: bool)
    ensures
        r == access_granted(opt_str_view(api_key), opt_str_view(authorization)),
{
    let key = match api_key {
        None => {
            return true;
        },
        Some(k) => k,
    };
    if key.unicode_len() == 0 {
        return true;
    }
    let header = match authorization {
        None => {
            return false;
        },
        Some(h) => h,
    };
    let hv = chars_of(header);
    let prefix = chars_of("Bearer ");
    proof {
        reveal_strlit("Bearer ");
    }
    if !has_prefix_at(&hv, 0, hv.len(), &prefix) {
        assert(hv@.subrange(0, hv@.len() as int) =~= header@);
        return false;
    }
    assert(hv@.subrange(0, hv@.len() as int) =~= header@);
    let token = header.substring_char(7, hv.len());
    assert(token@ =~= header@.skip(7));
    proof {
        vstd::utf8::encode_utf8_decode_utf8(token@);
        vstd::utf8::encode_utf8_decode_utf8(key@);
    }
    assert(token.spec_bytes() == vstd::utf8::encode_utf8(token@));
    assert(key.spec_bytes() == vstd::utf8::encode_utf8(key@));
    constant_time_eq(token.as_bytes(), key.as_bytes())
}

/// Lets a request through, or answers it as unauthorized: a request that may not pass
/// (see [`access_granted`]) is refused with the `unauthorized` problem (401).
pub fn gate(api_key: Option<&str>, authorization: Option<&str>) -> (r: Result<(), ApiError>)
    ensures
        (r is Ok) == access_granted(opt_str_view(api_key), opt_str_view(authorization)),
        r matches Err(e) ==> e@ == problem(
            "unauthorized"@,
            "Unauthorized"@,
            401,
            "Missing or invalid API key"@,
        ),
{
    if authorize(api_key, authorization) {
        Ok(())
    } else {
        Err(ApiError::unauthorized())
    }
}

} // verus!
