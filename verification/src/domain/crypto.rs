use vstd::prelude::*;
use argon2::password_hash::{PasswordHash, PasswordHasher, PasswordVerifier, Salt, SaltString};
use argon2::Argon2;
use base64::Engine;
use vstd::utf8::encode_utf8;
use rand::distributions::{Alphanumeric, DistString};

verus! {

// ---------------------------------------------------------------------------------------------
// argon2

/// Longest secret that `Argon2::new_with_secret` accepts (`argon2::MAX_SECRET_LEN`).
pub open spec fn argon2_max_secret_len() -> int {
    0xFFFF_FFFF
}

/// The PHC string that argon2 (default algorithm, version and parameters), keyed with `secret`,
/// produces for `password` under the B64 salt `salt`.
pub uninterp spec fn spec_argon2_phc(secret: Seq<u8>, password: Seq<u8>, salt: Seq<char>) -> Seq<char>;

/// Whether argon2 keyed with `secret` accepts `password` against the PHC string `phc`.
pub uninterp spec fn spec_argon2_verify(secret: Seq<u8>, phc: Seq<char>, password: Seq<u8>) -> bool;

/// The eight raw bytes that default argon2 (no secret) derives from the UTF-8 bytes of
/// `password` and of `salt`.
pub uninterp spec fn spec_argon2_raw8(password: Seq<char>, salt: Seq<char>) -> Seq<u8>;

/// A string's UTF-8 encoding takes at least one and at most four bytes per character.
pub proof fn lemma_encode_utf8_len_bounds(s: Seq<char>)
    ensures
        s.len() <= encode_utf8(s).len() <= 4 * s.len(),
    decreases s.len(),
{
    if s.len() > 0 {
        lemma_encode_utf8_len_bounds(s.drop_first());
    }
}

/// `s` is the B64 encoding (standard alphabet, no padding) of some `n` bytes with
/// `lo <= n <= hi`.
pub open spec fn spec_b64_of_bytes(s: Seq<char>, lo: int, hi: int) -> bool {
    exists|b: Seq<u8>| lo <= b.len() <= hi && s == #[trigger] spec_base64_no_pad(b)
}

/// Calls `SaltString::generate(OsRng)`: sixteen fresh random bytes (`Salt::RECOMMENDED_LENGTH`)
/// B64 encoded, that is standard base64 without padding. Claimed: the salt is the encoding of
/// sixteen bytes, twenty-two characters; which bytes is left to the operating system's random
/// source.
#[verifier::external_body]
pub(crate) fn generate_salt() -> (s: String)
    ensures
        spec_b64_of_bytes(s@, 16, 16),
        s@.len() == 22,
{
    SaltString::generate(&mut rand::rngs::OsRng).as_str().to_string()
}

/// Calls `Argon2::new_with_secret(secret, default algorithm, version, params)` and then
/// `PasswordHasher::hash_password(password, Salt::from_b64(salt))`, giving the PHC string.
/// Claimed: a success is the PHC string named by `spec_argon2_phc`, and argon2 keyed with the
/// same secret verifies the same password against it (`verify_password` recomputes the hash with
/// the parameters and salt read from the PHC string and compares). The call succeeds when the
/// salt is the B64 encoding of 8 to 48 bytes (`Salt::from_b64` takes 4 to 64 characters of the
/// B64 alphabet; `hash_password` decodes it into 64 bytes and argon2 wants at least 8) and the
/// password is at most `0xFFFF_FFFF` bytes (`MAX_PWD_LEN`). Which other salts succeed is left
/// unsaid; a failure carries the message of the argon2 error. `new_with_secret` refuses only
/// secrets longer than `MAX_SECRET_LEN`, which the precondition leaves out.
#[verifier::external_body]
pub(crate) fn argon2_hash_phc(secret: &[u8], password: &[u8], salt: &str) -> (r: Result<String, String>)
    requires
        secret@.len() <= argon2_max_secret_len(),
    ensures
        r matches Ok(phc) ==> phc@ == spec_argon2_phc(secret@, password@, salt@)
            && spec_argon2_verify(secret@, phc@, password@),
        (spec_b64_of_bytes(salt@, 8, 48) && password@.len() <= 0xFFFF_FFFF) ==> r is Ok,
{
    let argon2 = match Argon2::new_with_secret(secret, Default::default(), Default::default(), Default::default()) {
        Ok(a) => a,
        Err(e) => return Err(e.to_string()),
    };
    let salt = match Salt::from_b64(salt) {
        Ok(s) => s,
        Err(e) => return Err(e.to_string()),
    };
    match argon2.hash_password(password, salt) {
        Ok(h) => Ok(h.to_string()),
        Err(e) => Err(e.to_string()),
    }
}

/// Calls `Argon2::new_with_secret(secret, defaults)`, `PasswordHash::new(phc)` and
/// `verify_password(password, &hash)`. Claimed: the result is `spec_argon2_verify` of the three
/// arguments (a PHC string that does not parse is never accepted). `new_with_secret` fails only
/// on secrets longer than `MAX_SECRET_LEN`, which the precondition leaves out.
#[verifier::external_body]
pub(crate) fn argon2_verify(secret: &[u8], phc: &str, password: &[u8]) -> (r: bool)
    requires
        secret@.len() <= argon2_max_secret_len(),
    ensures
        r == spec_argon2_verify(secret@, phc@, password@),
{
    let argon2 = match Argon2::new_with_secret(secret, Default::default(), Default::default(), Default::default()) {
        Ok(a) => a,
        Err(_) => return false,
    };
    match PasswordHash::new(phc) {
        Ok(hash) => argon2.verify_password(password, &hash).is_ok(),
        Err(_) => false,
    }
}

/// Calls `Argon2::default().hash_password_into(password.as_bytes(), salt.as_bytes(), &mut
/// [0u8; 8])`. Claimed: a success holds the eight bytes named by `spec_argon2_raw8`; the call
/// fails exactly when the password is longer than `MAX_PWD_LEN` bytes or the salt is shorter than
/// `MIN_SALT_LEN` (8) or longer than `MAX_SALT_LEN` bytes (`verify_inputs`; eight output bytes
/// lie within the default output bounds), with the argon2 error's message.
#[verifier::external_body]
pub(crate) fn argon2_raw8(password: &str, salt: &str) -> (r: Result<Vec<u8>, String>)
    ensures
        (r is Ok) <==> (encode_utf8(password@).len() <= 0xFFFF_FFFF && 8 <= encode_utf8(
            salt@,
        ).len() <= 0xFFFF_FFFF),
        r matches Ok(out) ==> (out@ == spec_argon2_raw8(password@, salt@) && out@.len() == 8),
{
    let mut output = vec![0u8; 8];
    match Argon2::default().hash_password_into(password.as_bytes(), salt.as_bytes(), &mut output) {
        Ok(()) => Ok(output),
        Err(e) => Err(e.to_string()),
    }
}

// ---------------------------------------------------------------------------------------------
// random keys

/// An ASCII letter or digit: what `rand::distributions::Alphanumeric` samples from.
pub open spec fn is_alphanumeric_byte(b: u8) -> bool {
    (65 <= b <= 90) || (97 <= b <= 122) || (48 <= b <= 57)
}

/// Calls `Alphanumeric.sample_string(&mut thread_rng(), len)` and takes its bytes. Claimed: `len`
/// bytes, each an ASCII letter or digit (the charset of `Alphanumeric`); which ones is random.
#[verifier::external_body]
pub(crate) fn random_alphanumeric(len: usize) -> (r: Vec<u8>)
    ensures
        r@.len() == len,
        forall|i: int| 0 <= i < len ==> is_alphanumeric_byte(#[trigger] r@[i]),
{
    Alphanumeric.sample_string(&mut rand::thread_rng(), len).into_bytes()
}

// ---------------------------------------------------------------------------------------------
// bech32

/// A valid bech32 human readable part: 1 to 83 printable ASCII characters (33..=126), not mixing
/// upper and lower case (`Hrp::parse`).
pub open spec fn spec_hrp_valid(hrp: Seq<char>) -> bool {
    &&& 1 <= hrp.len() <= 83
    &&& forall|i: int| 0 <= i < hrp.len() ==> 33 <= (#[trigger] hrp[i]) as int <= 126
    &&& !((exists|i: int| 0 <= i < hrp.len() && 'a' <= #[trigger] hrp[i] <= 'z') && (exists|
        j: int,
    |
        0 <= j < hrp.len() && 'A' <= #[trigger] hrp[j] <= 'Z'))
}

/// No ASCII upper-case letter in `s`.
pub open spec fn spec_no_upper(s: Seq<char>) -> bool {
    forall|i: int| 0 <= i < s.len() ==> !('A' <= #[trigger] s[i] <= 'Z')
}

/// Length of a bech32m string for `hrp` and `n` data bytes: hrp, separator, 5-bit groups,
/// six checksum characters.
pub open spec fn spec_bech32_len(hrp_len: int, n: int) -> int {
    hrp_len + 1 + (n * 8 + 4) / 5 + 6
}

/// Whether `bech32::encode::<Bech32m>` accepts `hrp` with `n` data bytes.
pub open spec fn spec_bech32m_encodable(hrp: Seq<char>, n: int) -> bool {
    spec_hrp_valid(hrp) && spec_bech32_len(hrp.len() as int, n) <= 1023
}

/// Decoding `s` gives back `hrp` and `data`.
pub open spec fn spec_decodes_to(s: Seq<char>, hrp: Seq<char>, data: Seq<u8>) -> bool {
    spec_bech32_decode(s) == Some((hrp, data))
}

/// The lower-case bech32m string that encodes `data` under `hrp`.
pub uninterp spec fn spec_bech32m_encode(hrp: Seq<char>, data: Seq<u8>) -> Seq<char>;

/// What `bech32::decode` gives for a string: the human readable part as `Hrp` prints it and the
/// data bytes, or nothing when the string is not valid bech32 or bech32m.
pub uninterp spec fn spec_bech32_decode(s: Seq<char>) -> Option<(Seq<char>, Seq<u8>)>;

/// Calls `Hrp::parse(hrp)` and `bech32::encode::<Bech32m>(hrp, data)`. Claimed, from the crate's
/// source: it succeeds exactly when the hrp is valid (`spec_hrp_valid`) and the encoded length
/// stays within bech32m's code length of 1023; a success is the string named by
/// `spec_bech32m_encode`, and decoding it gives back the hrp and the data when the hrp holds no
/// upper-case letter (the encoding is written in lower case). A failure carries the message of
/// the bech32 error.
#[verifier::external_body]
pub(crate) fn bech32m_encode(hrp: &str, data: &[u8]) -> (r: Result<String, String>)
    ensures
        r is Ok <==> spec_bech32m_encodable(hrp@, data@.len() as int),
        r matches Ok(s) ==> s@ == spec_bech32m_encode(hrp@, data@),
        r matches Ok(s) ==> (spec_no_upper(hrp@) ==> spec_decodes_to(s@, hrp@, data@)),
{
    let hrp = match bech32::Hrp::parse(hrp) {
        Ok(h) => h,
        Err(e) => return Err(e.to_string()),
    };
    match bech32::encode::<bech32::Bech32m>(hrp, data) {
        Ok(s) => Ok(s),
        Err(e) => Err(e.to_string()),
    }
}

/// Calls `bech32::decode(s)` and prints the human readable part with `Hrp::to_string`. Claimed:
/// the result is `spec_bech32_decode(s)`.
#[verifier::external_body]
pub(crate) fn bech32_decode(s: &str) -> (r: Option<(String, Vec<u8>)>)
    ensures
        match spec_bech32_decode(s@) {
            None => r is None,
            Some((h, d)) => r matches Some((rh, rd)) && rh@ == h && rd@ == d,
        },
{
    match bech32::decode(s) {
        Ok((hrp, data)) => Some((hrp.to_string(), data)),
        Err(_) => None,
    }
}

// ---------------------------------------------------------------------------------------------
// base64

/// The standard base64 alphabet.
pub open spec fn spec_b64_char(v: int) -> char {
    if v < 26 {
        ('A' as int + v) as char
    } else if v < 52 {
        ('a' as int + (v - 26)) as char
    } else if v < 62 {
        ('0' as int + (v - 52)) as char
    } else if v == 62 {
        '+'
    } else {
        '/'
    }
}

/// Standard base64 of `d` without padding: each group of three bytes becomes four characters,
/// a trailing group of two bytes three characters, of one byte two characters.
pub open spec fn spec_base64_no_pad(d: Seq<u8>) -> Seq<char>
    decreases d.len(),
{
    if d.len() == 0 {
        seq![]
    } else if d.len() == 1 {
        seq![spec_b64_char((d[0] as int) / 4), spec_b64_char(((d[0] as int) % 4) * 16)]
    } else if d.len() == 2 {
        seq![
            spec_b64_char((d[0] as int) / 4),
            spec_b64_char(((d[0] as int) % 4) * 16 + (d[1] as int) / 16),
            spec_b64_char(((d[1] as int) % 16) * 4),
        ]
    } else {
        seq![
            spec_b64_char((d[0] as int) / 4),
            spec_b64_char(((d[0] as int) % 4) * 16 + (d[1] as int) / 16),
            spec_b64_char(((d[1] as int) % 16) * 4 + (d[2] as int) / 64),
            spec_b64_char((d[2] as int) % 64),
        ] + spec_base64_no_pad(d.subrange(3, d.len() as int))
    }
}

/// Calls `BASE64_STANDARD_NO_PAD.encode(data)`. Claimed: standard base64 without padding, as
/// `spec_base64_no_pad` writes it out.
#[verifier::external_body]
pub(crate) fn base64_no_pad(data: &[u8]) -> (r: String)
    ensures
        r@ == spec_base64_no_pad(data@),
{
    base64::prelude::BASE64_STANDARD_NO_PAD.encode(data)
}

} // verus!
