//! Password hashing for the management interface: a PBKDF2-HMAC-SHA-256 key
//! derived from the password under a fixed salt, rendered as lowercase hex.

use vstd::prelude::*;

use crate::strutil::push_char;

verus! {

/// The lowercase hexadecimal digit character for `d`.
pub open spec fn hex_digit(d: int) -> char {
    if d == 0 {
        '0'
    } else if d == 1 {
        '1'
    } else if d == 2 {
        '2'
    } else if d == 3 {
        '3'
    } else if d == 4 {
        '4'
    } else if d == 5 {
        '5'
    } else if d == 6 {
        '6'
    } else if d == 7 {
        '7'
    } else if d == 8 {
        '8'
    } else if d == 9 {
        '9'
    } else if d == 10 {
        'a'
    } else if d == 11 {
        'b'
    } else if d == 12 {
        'c'
    } else if d == 13 {
        'd'
    } else if d == 14 {
        'e'
    } else {
        'f'
    }
}

/// Lowercase hexadecimal rendering: two digits per byte, high nibble first.
pub open spec fn hex_of(bytes: Seq<u8>) -> Seq<char>
    decreases bytes.len(),
{
    if bytes.len() == 0 {
        Seq::empty()
    } else {
        seq![hex_digit(bytes.first() as int / 16), hex_digit(bytes.first() as int % 16)] + hex_of(
            bytes.drop_first(),
        )
    }
}

/// The key that PBKDF2 with HMAC-SHA-256 derives from the password under
/// the given salt, iteration count and output length; the result is a
/// function of these arguments alone.
pub uninterp spec fn pbkdf2_sha256_of(
    password: Seq<char>,
    salt: Seq<u8>,
    rounds: u32,
    out_len: usize,
) -> Seq<u8>;

/// Relies on `pbkdf2::pbkdf2_hmac` with `sha2::Sha256`: fills the output
/// buffer, here of length `out_len`, with the key derived from the
/// password's bytes, the salt and the iteration count.
#[verifier::external_body]
fn derive_key(password: &str, salt: &[u8], rounds: u32, out_len: usize) -> (r: Vec<u8>)
    ensures
        r@ == pbkdf2_sha256_of(password@, salt@, rounds, out_len),
        r@.len() == out_len,
{
    let mut out = vec![0u8; out_len];
    pbkdf2::pbkdf2_hmac::<sha2::Sha256>(password.as_bytes(), salt, rounds, &mut out);
    out
}

/// The rendering of a byte sequence is twice as long as the sequence.
pub proof fn lemma_hex_of_len(bytes: Seq<u8>)
    ensures
        hex_of(bytes).len() == 2 * bytes.len(),
    decreases bytes.len(),
{
    if bytes.len() > 0 {
        lemma_hex_of_len(bytes.drop_first());
    }
}

fn exec_hex_digit(d: u8) -> (c: char)
    requires
        d < 16,
    ensures
        c == hex_digit(d as int),
{
    match d {
        0 => '0',
        1 => '1',
        2 => '2',
        3 => '3',
        4 => '4',
        5 => '5',
        6 => '6',
        7 => '7',
        8 => '8',
        9 => '9',
        10 => 'a',
        11 => 'b',
        12 => 'c',
        13 => 'd',
        14 => 'e',
        _ => 'f',
    }
}

/// Renders bytes as lowercase hexadecimal, two digits per byte, high
/// nibble first.
fn hex_encode(bytes: &[u8]) -> (r: String)
    ensures
        r@ == hex_of(bytes@),
{
    let mut r = String::new();
    let n = bytes.len();
    let mut i: usize = 0;
    proof {
        assert(bytes@.skip(0) =~= bytes@);
    }
    while i < n
        invariant
            n == bytes@.len(),
            i <= n,
            r@ + hex_of(bytes@.skip(i as int)) =~= hex_of(bytes@),
        decreases n - i,
    {
        proof {
            assert(bytes@.skip(i as int).first() == bytes@[i as int]);
            assert(bytes@.skip(i as int).drop_first() =~= bytes@.skip(i as int + 1));
        }
        let b = bytes[i];
        push_char(&mut r, exec_hex_digit(b / 16));
        push_char(&mut r, exec_hex_digit(b % 16));
        proof {
            assert(r@ + hex_of(bytes@.skip(i as int + 1)) =~= hex_of(bytes@));
        }
        i += 1;
    }
    proof {
        assert(bytes@.skip(n as int) =~= Seq::<u8>::empty());
        assert(r@ =~= hex_of(bytes@));
    }
    r
}

/// The fixed salt under which node passwords are hashed ("useless_salt" in
/// ASCII).
pub open spec fn spec_salt() -> Seq<u8> {
    seq![117u8, 115u8, 101u8, 108u8, 101u8, 115u8, 115u8, 95u8, 115u8, 97u8, 108u8, 116u8]
}

fn salt_bytes() -> (r: Vec<u8>)
    ensures
        r@ == spec_salt(),
{
    let mut v: Vec<u8> = Vec::new();
    v.push(117);
    v.push(115);
    v.push(101);
    v.push(108);
    v.push(101);
    v.push(115);
    v.push(115);
    v.push(95);
    v.push(115);
    v.push(97);
    v.push(108);
    v.push(116);
    proof {
        assert(v@ =~= spec_salt());
    }
    v
}

/// The hash stored for a password: lowercase hex of the twenty-byte key
/// derived with one thousand iterations under the fixed salt.
pub open spec fn spec_password_hash(password: Seq<char>) -> Seq<char> {
    hex_of(pbkdf2_sha256_of(password, spec_salt(), 1000, 20))
}

/// Hashes the given password string; the hash is always forty lowercase
/// hexadecimal characters.
pub fn hash_password_string(password: String) -> (r: String)
    ensures
        r@ == spec_password_hash(password@),
        r@.len() == 40,
{
    let salt = salt_bytes();
    let digest = derive_key(password.as_str(), salt.as_slice(), 1000, 20);
    proof {
        lemma_hex_of_len(digest@);
    }
    hex_encode(digest.as_slice())
}

/// Whether the given password matches the given stored hash.
pub fn verify_password_hash(password: String, hash: String) -> (r: bool)
    ensures
        r == (hash@ == spec_password_hash(password@)),
{
    let computed = hash_password_string(password);
    hash == computed
}

} // verus!
