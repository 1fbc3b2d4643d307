//! The anti-bot challenge: the `x-statsig-id` token that grok.com expects on every request.
use vstd::prelude::*;
use vstd::string::StringSliceAdditionalSpecFns;
use crate::error::GrokError;
use crate::text::{decimal, push_decimal};

verus! {

/// Seconds since the Unix epoch at which the token counter starts.
pub const EPOCH: u64 = 1682924400;

/// Length of the static header that opens every token.
pub const HEADER_LEN: usize = 49;

/// Length of a token before it is encoded.
pub const TOKEN_LEN: usize = 70;

/// SHA-256 digest of `data`, as the `sha2` crate computes it.
pub uninterp spec fn sha256_digest(data: Seq<u8>) -> Seq<u8>;

/// Standard base64 without padding of `data`, as the `base64` crate encodes it.
pub uninterp spec fn base64_no_pad(data: Seq<u8>) -> Seq<char>;

/// `sha2::Sha256::digest`: the digest of `data`; a SHA-256 digest is 32 bytes long.
#[verifier::external_body]
fn sha256(data: &[u8]) -> (r: Vec<u8>)
    ensures
        r@ == sha256_digest(data@),
        r@.len() == 32,
{
    <sha2::Sha256 as sha2::Digest>::digest(data).to_vec()
}

/// `base64::engine::general_purpose::STANDARD_NO_PAD.encode`: the encoding of `data`.
#[verifier::external_body]
fn encode_base64(data: &[u8]) -> (r: String)
    ensures
        r@ == base64_no_pad(data@),
{
    <base64::engine::GeneralPurpose as base64::Engine>::encode(
        &base64::engine::general_purpose::STANDARD_NO_PAD,
        data,
    )
}

/// A random byte from `rand::rng()`; nothing is promised of its value.
#[verifier::external_body]
fn random_byte() -> (r: u8) {
    <rand::rngs::ThreadRng as rand::Rng>::random::<u8>(&mut rand::rng())
}

/// Whether `c` is a lowercase hexadecimal digit.
pub open spec fn is_lower_hex(c: char) -> bool {
    ('0' <= c && c <= '9') || ('a' <= c && c <= 'f')
}

/// Whether index `i` of a hyphenated UUID holds a hyphen.
pub open spec fn is_uuid_hyphen_at(i: int) -> bool {
    i == 8 || i == 13 || i == 18 || i == 23
}

/// Whether `s` is the hyphenated, lowercase text of a random UUID: 36 characters,
/// hyphens at 8, 13, 18 and 23, hexadecimal digits elsewhere, version digit `4` and
/// variant digit `8`, `9`, `a` or `b`.
pub open spec fn is_uuid_v4_text(s: Seq<char>) -> bool {
    &&& s.len() == 36
    &&& forall|i: int|
        0 <= i < 36 ==> if is_uuid_hyphen_at(i) {
            s[i] == '-'
        } else {
            is_lower_hex(#[trigger] s[i])
        }
    &&& s[14] == '4'
    &&& (s[19] == '8' || s[19] == '9' || s[19] == 'a' || s[19] == 'b')
}

/// The simple (hyphen-free) form of a hyphenated UUID text.
pub open spec fn uuid_simple_of(s: Seq<char>) -> Seq<char> {
    s.subrange(0, 8) + s.subrange(9, 13) + s.subrange(14, 18) + s.subrange(19, 23) + s.subrange(
        24,
        36,
    )
}

/// A fresh random UUID from `uuid::Uuid::new_v4`, written in its hyphenated and in its
/// simple form. The crate masks in version 4 and the RFC 4122 variant and writes lowercase
/// hexadecimal digits (`format_hyphenated` / `format_simple`); which UUID comes is not
/// promised.
#[verifier::external_body]
pub(crate) fn fresh_uuid() -> (r: (String, String))
    ensures
        is_uuid_v4_text(r.0@),
        r.1@ == uuid_simple_of(r.0@),
{
    let u = uuid::Uuid::new_v4();
    (u.hyphenated().to_string(), u.simple().to_string())
}

/// A fresh random request id (a hyphenated UUID).
pub(crate) fn new_request_id() -> (r: String)
    ensures
        is_uuid_v4_text(r@),
{
    fresh_uuid().0
}

/// Value of an ASCII hexadecimal digit, if `b` is one.
pub open spec fn hex_digit_value(b: u8) -> Option<nat> {
    if 48 <= b <= 57 {
        Some((b - 48) as nat)
    } else if 97 <= b <= 102 {
        Some((b - 87) as nat)
    } else if 65 <= b <= 70 {
        Some((b - 55) as nat)
    } else {
        None
    }
}

/// The byte that the two hexadecimal digits `a b` denote, if both are digits.
pub open spec fn hex_pair_value(a: u8, b: u8) -> Option<u8> {
    match (hex_digit_value(a), hex_digit_value(b)) {
        (Some(x), Some(y)) => Some((x * 16 + y) as u8),
        _ => None,
    }
}

/// The bytes the first `n` pairs of `s` denote, or `None` if some pair is not a byte.
pub open spec fn hex_pairs(s: Seq<u8>, n: int) -> Option<Seq<u8>>
    decreases n,
{
    if n <= 0 {
        Some(seq![])
    } else {
        match (hex_pairs(s, n - 1), hex_pair_value(s[2 * n - 2], s[2 * n - 1])) {
            (Some(prefix), Some(v)) => Some(prefix.push(v)),
            _ => None,
        }
    }
}

/// The message of a failed hexadecimal decoding.
pub open spec fn odd_length_text() -> Seq<char> {
    "Odd-length hex string"@
}

/// The message for a pair that is not two hexadecimal digits.
pub open spec fn invalid_digit_text() -> Seq<char> {
    "invalid digit found in string"@
}

/// The bytes the hexadecimal text `s` (as UTF-8 bytes) denotes, two characters per byte.
pub open spec fn hex_decoded(s: Seq<u8>) -> Result<Seq<u8>, Seq<char>> {
    if s.len() % 2 != 0 {
        Err(odd_length_text())
    } else {
        match hex_pairs(s, s.len() as int / 2) {
            Some(v) => Ok(v),
            None => Err(invalid_digit_text()),
        }
    }
}

/// What the pair `k` of `s` (bytes `2k` and `2k + 1`) denotes, if both are hexadecimal
/// digits.
pub open spec fn pair_at(s: Seq<u8>, k: int) -> Option<u8> {
    hex_pair_value(s[2 * k], s[2 * k + 1])
}

/// Whether decoding `s` pair by pair cuts it only at character boundaries: text of odd
/// length is refused before any cut, and the pairs are cut up to the first one that is
/// not two hexadecimal digits, where decoding stops. (Pairs of digits are ASCII, so only
/// the cut around that first bad pair can split a character.)
pub open spec fn decodes_without_splitting(s: &str) -> bool {
    let b = s.spec_bytes();
    b.len() % 2 == 1 || forall|k: int|
        0 <= k < b.len() / 2 && #[trigger] pair_at(b, k) is None && (forall|j: int|
            0 <= j < k ==> pair_at(b, j) is Some) ==> vstd::utf8::is_char_boundary(b, 2 * k)
            && vstd::utf8::is_char_boundary(b, 2 * k + 2)
}

/// Whether `s` can be decoded without cutting a character (see
/// [`decodes_without_splitting`]).
pub fn hex_cuts_cleanly(s: &str) -> (r: bool)
    ensures
        r == decodes_without_splitting(s),
{
    let b = s.as_bytes();
    let n = b.len();
    if n % 2 == 1 {
        return true;
    }
    let mut k: usize = 0;
    while k < n / 2
        invariant
            b@ == s.spec_bytes(),
            n == b@.len(),
            n % 2 == 0,
            k <= n / 2,
            forall|j: int| 0 <= j < k ==> pair_at(b@, j) is Some,
        decreases n / 2 - k,
    {
        let x = hex_digit(b[2 * k]);
        let y = hex_digit(b[2 * k + 1]);
        if x.is_none() || y.is_none() {
            assert(pair_at(b@, k as int) is None);
            let r = s.is_char_boundary(2 * k) && s.is_char_boundary(2 * k + 2);
            assert forall|m: int|
                0 <= m < b@.len() / 2 && #[trigger] pair_at(b@, m) is None && (forall|j: int|
                    0 <= j < m ==> pair_at(b@, j) is Some) implies m == k by {
                if m < k {
                    assert(pair_at(b@, m) is Some);
                } else if m > k {
                    assert(pair_at(b@, k as int) is Some);
                }
            }
            return r;
        }
        assert(pair_at(b@, k as int) is Some);
        k += 1;
    }
    true
}

fn hex_digit(b: u8) -> (r: Option<u8>)
    ensures
        match hex_digit_value(b) {
            Some(v) => r == Some(v as u8),
            None => r is None,
        },
{
    if 48 <= b && b <= 57 {
        Some(b - 48)
    } else if 97 <= b && b <= 102 {
        Some(b - 87)
    } else if 65 <= b && b <= 70 {
        Some(b - 55)
    } else {
        None
    }
}

/// The bytes a hexadecimal string denotes, two digits per byte; an odd length or a
/// character that is not a hexadecimal digit is an error.
pub fn hex_decode(hex: &str) -> (r: Result<Vec<u8>, String>)
    requires
        decodes_without_splitting(hex),
    ensures
        match r {
            Ok(v) => hex_decoded(hex.spec_bytes()) == Ok::<Seq<u8>, Seq<char>>(v@),
            Err(e) => hex_decoded(hex.spec_bytes()) == Err::<Seq<u8>, Seq<char>>(e@),
        },
{
    let b = hex.as_bytes();
    let n = b.len();
    if n % 2 != 0 {
        return Err("Odd-length hex string".to_owned());
    }
    let mut out: Vec<u8> = Vec::new();
    let mut k: usize = 0;
    while k < n / 2
        invariant
            n == b@.len(),
            b@ == hex.spec_bytes(),
            n % 2 == 0,
            k <= n / 2,
            hex_pairs(b@, k as int) == Some(out@),
        decreases n / 2 - k,
    {
        let x = b[2 * k];
        let y = b[2 * k + 1];
        let v = match (hex_digit(x), hex_digit(y)) {
            (Some(p), Some(q)) => p * 16 + q,
            _ => {
                proof {
                    lemma_hex_pairs_none_sticks(b@, k as int + 1, (n / 2) as int);
                }
                return Err("invalid digit found in string".to_owned());
            },
        };
        out.push(v);
        k += 1;
    }
    Ok(out)
}

/// Once a pair fails to decode, every longer prefix fails.
proof fn lemma_hex_pairs_none_sticks(s: Seq<u8>, m: int, n: int)
    requires
        0 <= m <= n,
        hex_pairs(s, m) is None,
    ensures
        hex_pairs(s, n) is None,
    decreases n - m,
{
    if m < n {
        lemma_hex_pairs_none_sticks(s, m + 1, n);
    }
}


/// The abstract content of a [`ChallengeConfig`].
pub ghost struct ChallengeState {
    pub header: Seq<u8>,
    pub suffix: Seq<char>,
    pub trailer: u8,
}

/// The values grok.com's web client signs requests with: a 49-byte header, a text
/// suffix hashed into every token, and a trailer byte.
pub struct ChallengeConfig {
    static_header: Vec<u8>,
    static_suffix: String,
    trailer_byte: u8,
}

impl View for ChallengeConfig {
    type V = ChallengeState;

    closed spec fn view(&self) -> ChallengeState {
        ChallengeState {
            header: self.static_header@,
            suffix: self.static_suffix@,
            trailer: self.trailer_byte,
        }
    }
}

/// The text that is hashed into a token: `METHOD!PATH!COUNTER` followed by the suffix.
pub open spec fn hash_input(
    method: Seq<char>,
    path: Seq<char>,
    counter: nat,
    suffix: Seq<char>,
) -> Seq<char> {
    method + seq!['!'] + path + seq!['!'] + decimal(counter) + suffix
}

/// The four little-endian bytes of `c` truncated to 32 bits.
pub open spec fn le32(c: nat) -> Seq<u8> {
    seq![(c % 256) as u8, (c / 256 % 256) as u8, (c / 65536 % 256) as u8, (c / 16777216 % 256) as u8]
}

/// The 70 bytes of a token before masking: the header, the counter (little-endian,
/// 32 bits), the first 16 bytes of the SHA-256 of the hash input, and the trailer byte.
pub open spec fn raw_token(st: ChallengeState, path: Seq<char>, method: Seq<char>, counter: nat) -> Seq<u8> {
    st.header + le32(counter) + sha256_digest(
        vstd::utf8::encode_utf8(hash_input(method, path, counter, st.suffix)),
    ).take(16) + seq![st.trailer]
}

/// Every byte of `s` XORed with `key`.
pub open spec fn masked(s: Seq<u8>, key: u8) -> Seq<u8> {
    Seq::new(s.len(), |i: int| s[i] ^ key)
}

/// The token sent for a request: the raw token masked with `key`, in base64 without
/// padding.
pub open spec fn token_text(
    st: ChallengeState,
    path: Seq<char>,
    method: Seq<char>,
    counter: nat,
    key: u8,
) -> Seq<char> {
    base64_no_pad(masked(raw_token(st, path, method, counter), key))
}

/// The counter of a token generated at `now` seconds since the Unix epoch.
pub open spec fn counter_at(now: u64) -> u64 {
    if now >= EPOCH {
        (now - EPOCH) as u64
    } else {
        0
    }
}

/// The counter at a clock reading: seconds since [`EPOCH`], 0 before it or when the clock
/// cannot be read.
pub open spec fn counter_for_reading(reading: Option<u64>) -> u64 {
    match reading {
        Some(t) => counter_at(t),
        None => counter_at(EPOCH),
    }
}

/// The counter follows the clock: at a reading of `t` seconds since the Unix epoch the
/// token carries, little-endian in bytes 49 to 53 of its raw form, the number of seconds
/// from [`EPOCH`] to `t` (0 for a reading before it), and that number is what is hashed.
pub proof fn law_counter_follows_the_clock(
    st: ChallengeState,
    path: Seq<char>,
    method: Seq<char>,
    t: u64,
)
    requires
        st.header.len() == HEADER_LEN,
        sha256_digest(
            vstd::utf8::encode_utf8(
                hash_input(
                    method,
                    path,
                    if t >= EPOCH {
                        (t - EPOCH) as nat
                    } else {
                        0
                    },
                    st.suffix,
                ),
            ),
        ).len() == 32,
    ensures
        t >= EPOCH ==> counter_for_reading(Some(t)) == t - EPOCH,
        t < EPOCH ==> counter_for_reading(Some(t)) == 0,
        counter_for_reading(None) == 0,
        raw_token(st, path, method, counter_for_reading(Some(t)) as nat).subrange(49, 53) == le32(
            if t >= EPOCH {
                (t - EPOCH) as nat
            } else {
                0
            },
        ),
        raw_token(st, path, method, counter_for_reading(Some(t)) as nat).subrange(53, 69)
            == sha256_digest(
            vstd::utf8::encode_utf8(
                hash_input(
                    method,
                    path,
                    if t >= EPOCH {
                        (t - EPOCH) as nat
                    } else {
                        0
                    },
                    st.suffix,
                ),
            ),
        ).take(16),
{
    let c: nat = if t >= EPOCH {
        (t - EPOCH) as nat
    } else {
        0
    };
    let d = sha256_digest(vstd::utf8::encode_utf8(hash_input(method, path, c, st.suffix)));
    let raw = raw_token(st, path, method, c);
    assert(raw.subrange(49, 53) =~= le32(c));
    assert(raw.subrange(53, 69) =~= d.take(16));
}

/// Masking twice with the same key gives the raw token back, so a server that knows the
/// key reads the layout of [`raw_token`].
pub proof fn law_mask_undoes_itself(s: Seq<u8>, key: u8)
    ensures
        masked(masked(s, key), key) == s,
{
    assert forall|i: int| 0 <= i < s.len() implies #[trigger] masked(masked(s, key), key)[i]
        == s[i] by {
        let x = s[i];
        assert((x ^ key) ^ key == x) by (bit_vector);
    }
    assert(masked(masked(s, key), key) =~= s);
}

/// A raw token is always 70 bytes long when the header is 49 bytes long.
pub proof fn law_raw_token_length(st: ChallengeState, path: Seq<char>, method: Seq<char>, counter: nat)
    requires
        st.header.len() == HEADER_LEN,
        sha256_digest(vstd::utf8::encode_utf8(hash_input(method, path, counter, st.suffix))).len()
            == 32,
    ensures
        raw_token(st, path, method, counter).len() == TOKEN_LEN,
{
}

impl ChallengeConfig {
    #[verifier::type_invariant]
    spec fn header_has_its_length(self) -> bool {
        self.static_header@.len() == HEADER_LEN
    }

    /// A configuration from the header in hexadecimal (it must decode to 49 bytes), the
    /// suffix and the trailer byte.
    pub fn new(static_header_hex: &str, static_suffix: &str, trailer_byte: u8) -> (r: Result<
        ChallengeConfig,
        GrokError,
    >)
        requires
            decodes_without_splitting(static_header_hex),
        ensures
            match hex_decoded(static_header_hex.spec_bytes()) {
                Err(m) => r matches Err(GrokError::Config(msg)) && msg@
                    == "Invalid static_header hex: "@ + m,
                Ok(v) => if v.len() != HEADER_LEN {
                    r matches Err(GrokError::Config(msg)) && msg@
                        == "static_header must be 49 bytes, got "@ + decimal(v.len())
                } else {
                    r matches Ok(c) && c@ == (ChallengeState {
                        header: v,
                        suffix: static_suffix@,
                        trailer: trailer_byte,
                    })
                },
            },
    {
        match hex_decode(static_header_hex) {
            Err(e) => {
                let mut m = "Invalid static_header hex: ".to_owned();
                m.append(e.as_str());
                Err(GrokError::Config(m))
            },
            Ok(v) => {
                if v.len() != HEADER_LEN {
                    let mut m = "static_header must be 49 bytes, got ".to_owned();
                    push_decimal(&mut m, v.len() as u64);
                    Err(GrokError::Config(m))
                } else {
                    Ok(ChallengeConfig {
                        static_header: v,
                        static_suffix: static_suffix.to_owned(),
                        trailer_byte,
                    })
                }
            },
        }
    }

    /// The token for a request to `path` with `method` at counter value `counter`, masked
    /// with `xor_key`.
    pub fn token_for(&self, path: &str, method: &str, counter: u64, xor_key: u8) -> (r: String)
        ensures
            r@ == token_text(self@, path@, method@, counter as nat, xor_key),
            raw_token(self@, path@, method@, counter as nat).len() == TOKEN_LEN,
    {
        proof {
            use_type_invariant(self);
        }
        let mut input = method.to_owned();
        crate::text::push_char(&mut input, '!');
        input.append(path);
        crate::text::push_char(&mut input, '!');
        push_decimal(&mut input, counter);
        input.append(self.static_suffix.as_str());
        assert(input@ =~= hash_input(method@, path@, counter as nat, self.static_suffix@));
        let digest = sha256(input.as_str().as_bytes());
        let mut raw: Vec<u8> = Vec::new();
        let mut i: usize = 0;
        while i < HEADER_LEN
            invariant
                self.static_header@.len() == HEADER_LEN,
                i <= HEADER_LEN,
                raw@ == self.static_header@.take(i as int),
            decreases HEADER_LEN - i,
        {
            raw.push(self.static_header[i]);
            i += 1;
            assert(raw@ =~= self.static_header@.take(i as int));
        }
        raw.push((counter % 256) as u8);
        raw.push((counter / 256 % 256) as u8);
        raw.push((counter / 65536 % 256) as u8);
        raw.push((counter / 16777216 % 256) as u8);
        let ghost head = raw@;
        let mut j: usize = 0;
        while j < 16
            invariant
                digest@.len() == 32,
                j <= 16,
                raw@ == head + digest@.take(j as int),
            decreases 16 - j,
        {
            raw.push(digest[j]);
            j += 1;
            assert(raw@ =~= head + digest@.take(j as int));
        }
        raw.push(self.trailer_byte);
        assert(raw@ =~= raw_token(self@, path@, method@, counter as nat));
        let ghost plain = raw@;
        let mut k: usize = 0;
        while k < raw.len()
            invariant
                raw@.len() == plain.len(),
                k <= raw@.len(),
                forall|t: int| 0 <= t < k ==> raw@[t] == plain[t] ^ xor_key,
                forall|t: int| k <= t < raw@.len() ==> raw@[t] == plain[t],
            decreases raw.len() - k,
        {
            let b = raw[k] ^ xor_key;
            raw.set(k, b);
            k += 1;
        }
        assert(raw@ =~= masked(plain, xor_key));
        encode_base64(raw.as_slice())
    }

    /// The token for a request to `path` with `method` when the clock reads `reading`
    /// seconds since the Unix epoch (`None` when it cannot be read), masked with `key`.
    pub fn token_at_reading(&self, path: &str, method: &str, reading: Option<u64>, key: u8) -> (r:
        String)
        ensures
            r@ == token_text(self@, path@, method@, counter_for_reading(reading) as nat, key),
            raw_token(self@, path@, method@, counter_for_reading(reading) as nat).len() == TOKEN_LEN,
    {
        let now = match reading {
            Some(t) => t,
            None => EPOCH,
        };
        let counter = now.saturating_sub(EPOCH);
        self.token_for(path, method, counter, key)
    }

    /// The token for a request to `path` with `method`, at the reading of the system clock
    /// and masked with a random byte (see [`ChallengeConfig::token_at_reading`]).
    pub fn generate_token(&self, path: &str, method: &str) -> (r: String)
        ensures
            exists|now: u64, key: u8| r@ == token_text(
                self@,
                path@,
                method@,
                counter_at(now) as nat,
                key,
            ) && raw_token(self@, path@, method@, counter_at(now) as nat).len() == TOKEN_LEN,
    {
        let reading = crate::clock::unix_now_secs();
        let key = random_byte();
        let r = self.token_at_reading(path, method, reading, key);
        let ghost now: u64 = match reading {
            Some(t) => t,
            None => EPOCH,
        };
        assert(counter_for_reading(reading) == counter_at(now));
        r
    }

    /// The token for a request and a fresh request id.
    pub fn generate_headers(&self, path: &str, method: &str) -> (r: (String, String))
        ensures
            exists|now: u64, key: u8| r.0@ == token_text(
                self@,
                path@,
                method@,
                counter_at(now) as nat,
                key,
            ) && raw_token(self@, path@, method@, counter_at(now) as nat).len() == TOKEN_LEN,
            is_uuid_v4_text(r.1@),
    {
        let token = self.generate_token(path, method);
        let request_id = new_request_id();
        (token, request_id)
    }
}

} // verus!
