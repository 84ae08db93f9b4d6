//! The two primitives the core takes on trust: a memory-hard password hash
//! and a cryptographic source of random tokens.

use vstd::prelude::*;

verus! {

/// The longest password, in bytes, that the password hash accepts.
pub const MAX_PASSWORD_BYTES: usize = 0xFFFF_FFFF;

/// How many characters a freshly drawn token has.
pub const TOKEN_LENGTH: usize = 32;

/// Whether `password` verifies against the stored hash string `hash`, as
/// `password_auth::verify_password` decides it.
pub uninterp spec fn password_verifies(password: Seq<char>, hash: Seq<char>) -> bool;

/// The most decimal digits that a parameter of a hash string may have. A
/// number of so many digits is below 10^8, and so below 2^29.
pub const MAX_PARAMETER_DIGITS: usize = 8;

/// A decimal digit.
pub open spec fn is_digit(c: char) -> bool {
    '0' <= c <= '9'
}

/// Whether `count` decimal digits stand in `s` from position `start` on.
pub open spec fn digits_at(s: Seq<char>, start: int, count: int) -> bool {
    start + count <= s.len() && forall|k: int|
        0 <= k < count ==> is_digit(#[trigger] s[start + k])
}

/// Whether every parameter of the hash string is small: the string is ASCII,
/// and no `=` in it is followed directly by more than
/// [`MAX_PARAMETER_DIGITS`] decimal digits.
pub open spec fn parameters_bounded(hash: Seq<char>) -> bool {
    &&& vstd::utf8::is_ascii_chars(hash)
    &&& forall|i: int|
        0 <= i < hash.len() && #[trigger] hash[i] == '=' ==> !digits_at(
            hash,
            i + 1,
            MAX_PARAMETER_DIGITS + 1,
        )
}

/// Decides [`parameters_bounded`] in one pass over the string.
pub fn has_bounded_parameters(hash: &str) -> (bounded: bool)
    ensures
        bounded == parameters_bounded(hash@),
{
    if !hash.is_ascii() {
        return false;
    }
    let bytes = hash.as_bytes();
    proof {
        vstd::string::is_ascii_spec_bytes(hash);
    }
    let n: usize = bytes.len();
    let mut i: usize = 0;
    while i < n
        invariant
            i <= n,
            n == hash@.len(),
            vstd::utf8::is_ascii_chars(hash@),
            bytes@.len() == n,
            forall|j: int| 0 <= j < n ==> #[trigger] bytes@[j] == hash@[j] as u8,
            forall|j: int|
                0 <= j < i && #[trigger] hash@[j] == '=' ==> !digits_at(
                    hash@,
                    j + 1,
                    MAX_PARAMETER_DIGITS + 1,
                ),
        decreases n - i,
    {
        if bytes[i] == 61u8 {
            let mut k: usize = 0;
            while k <= MAX_PARAMETER_DIGITS && k < n - i - 1 && 48u8 <= bytes[i + 1 + k] && bytes[i
                + 1 + k] <= 57u8
                invariant
                    i < n,
                    k <= MAX_PARAMETER_DIGITS + 1,
                    i + 1 + k <= n,
                    n == hash@.len(),
                    vstd::utf8::is_ascii_chars(hash@),
                    bytes@.len() == n,
                    forall|j: int| 0 <= j < n ==> #[trigger] bytes@[j] == hash@[j] as u8,
                    forall|m: int| 0 <= m < k ==> is_digit(#[trigger] hash@[i + 1 + m]),
                decreases MAX_PARAMETER_DIGITS + 1 - k,
            {
                assert(is_digit(hash@[i + 1 + k]));
                k += 1;
            }
            if k > MAX_PARAMETER_DIGITS {
                assert(digits_at(hash@, i + 1, MAX_PARAMETER_DIGITS + 1));
                assert(hash@[i as int] == '=');
                return false;
            }
            assert(!digits_at(hash@, i + 1, MAX_PARAMETER_DIGITS + 1)) by {
                if i + 1 + k < n {
                    assert(!is_digit(hash@[i + 1 + k]));
                }
            }
        }
        i += 1;
    }
    true
}

/// A letter or a digit of ASCII.
pub open spec fn is_alphanumeric(c: char) -> bool {
    ('a' <= c <= 'z') || ('A' <= c <= 'Z') || ('0' <= c <= '9')
}

/// `password_auth::verify_password`: parses `hash` as a password hash string
/// and checks `password` against it in constant time. The answer depends on
/// the two arguments alone; a hash that does not parse verifies nothing.
///
/// The outside function reads the cost parameters out of the hash string and
/// multiplies one of them in 32 bits before it checks its range, which gives
/// up on a parameter of 2^29 or more. A parameter is what stands between a
/// `=` and the next separator, in decimal digits only, so the precondition
/// leaves those strings out.
#[verifier::external_body]
pub(crate) fn verify_password(password: &str, hash: &str) -> (ok: bool)
    requires
        parameters_bounded(hash@),
    ensures
        ok == password_verifies(password@, hash@),
{
    password_auth::verify_password(password, hash).is_ok()
}

/// `password_auth::generate_hash`: hashes `password` with Argon2 under a
/// freshly drawn salt. The hash differs from call to call; what holds of
/// every one is that the password it was made from verifies against it. The
/// outside function gives up on passwords beyond the length Argon2 takes,
/// which the precondition leaves out, and when the operating system yields
/// no randomness for the salt, which no precondition can express.
///
/// The hash is written in ASCII with the default costs of Argon2 (`v=19`,
/// `m=19456`, `t=2`, `p=1`), the only places where a `=` stands in it, so
/// its parameters are bounded.
#[verifier::external_body]
pub(crate) fn hash_password(password: &str) -> (hash: String)
    requires
        vstd::utf8::encode_utf8(password@).len() <= MAX_PASSWORD_BYTES,
    ensures
        password_verifies(password@, hash@),
        parameters_bounded(hash@),
{
    password_auth::generate_hash(password)
}

/// `rand::distributions::Alphanumeric::sample_string` on `rand::thread_rng`:
/// `length` characters, each a letter or digit of ASCII, drawn from the
/// thread's cryptographic generator. Nothing is claimed of which. The
/// generator gives up when the operating system cannot seed it.
#[verifier::external_body]
pub(crate) fn random_token(length: usize) -> (token: String)
    ensures
        token@.len() == length,
        forall|i: int| 0 <= i < token@.len() ==> is_alphanumeric(#[trigger] token@[i]),
{
    rand::distributions::DistString::sample_string(
        &rand::distributions::Alphanumeric,
        &mut rand::thread_rng(),
        length,
    )
}

} // verus!
