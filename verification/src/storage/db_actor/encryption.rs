//! The key that a user's database is encrypted with.

use vstd::prelude::*;
use vstd::string::StrSliceExecFns;

verus! {

/// The SHA-256 digest of bytes, by `sha2::Sha256`.
pub uninterp spec fn sha256_digest(data: Seq<u8>) -> Seq<u8>;

/// `sha2::Sha256` over some bytes. The result depends on the bytes alone and has 32 bytes.
#[verifier::external_body]
fn sha256(data: &Vec<u8>) -> (r: Vec<u8>)
    ensures
        r@ == sha256_digest(data@),
        r@.len() == 32,
{
    let mut hasher = <sha2::Sha256 as sha2::Digest>::new();
    sha2::Digest::update(&mut hasher, data);
    sha2::Digest::finalize(hasher).to_vec()
}

/// The hexadecimal digit of a number below 16.
pub open spec fn hex_digit(n: u8) -> char {
    if n < 10 {
        (48 + n) as char
    } else {
        (87 + n) as char
    }
}

/// Bytes as hexadecimal digits in lower case, two for each byte, the higher first.
pub open spec fn hex_text(data: Seq<u8>) -> Seq<char> {
    Seq::new(
        2 * data.len(),
        |i: int|
            if i % 2 == 0 {
                hex_digit((data[i / 2] / 16) as u8)
            } else {
                hex_digit((data[i / 2] % 16) as u8)
            },
    )
}

/// `hex::encode`: two lower case hexadecimal digits for each byte.
#[verifier::external_body]
fn hex_encode(data: &Vec<u8>) -> (r: String)
    ensures
        r@ == hex_text(data@),
{
    hex::encode(data)
}

/// The bytes that a user's key is the digest of.
pub open spec fn key_material(uid: Seq<char>) -> Seq<u8> {
    vstd::utf8::encode_utf8("privchat_sdk_encryption_key_v1"@) + vstd::utf8::encode_utf8(uid)
}

/// The key of a user's database: one key for each user, the same on every device.
pub fn derive_encryption_key(uid: &str) -> (r: String)
    ensures
        r@ == hex_text(sha256_digest(key_material(uid@))),
        r@.len() == 64,
{
    let mut material: Vec<u8> = "privchat_sdk_encryption_key_v1".as_bytes_vec();
    let mut tail: Vec<u8> = uid.as_bytes_vec();
    material.append(&mut tail);
    key_text(&sha256(&material))
}

/// A key in the form in which the database takes it.
pub fn key_text(digest: &Vec<u8>) -> (r: String)
    ensures
        r@ == hex_text(digest@),
{
    hex_encode(digest)
}

/// The value of a hexadecimal digit.
pub open spec fn hex_value(c: char) -> int {
    if '0' <= c <= '9' {
        c as int - 48
    } else {
        c as int - 87
    }
}

/// A byte is written by two digits from 0 to f, the higher half first: reading the digits gives the
/// bytes back.
pub proof fn law_bytes_are_written_in_hexadecimal(data: Seq<u8>, i: int)
    requires
        0 <= i < data.len(),
    ensures
        hex_text(data).len() == 2 * data.len(),
        data[i] == 16 * hex_value(hex_text(data)[2 * i]) + hex_value(hex_text(data)[2 * i + 1]),
        0 <= hex_value(hex_text(data)[2 * i]) < 16,
        0 <= hex_value(hex_text(data)[2 * i + 1]) < 16,
        '0' <= hex_text(data)[2 * i] <= '9' || 'a' <= hex_text(data)[2 * i] <= 'f',
        '0' <= hex_text(data)[2 * i + 1] <= '9' || 'a' <= hex_text(data)[2 * i + 1] <= 'f',
{
    let s = hex_text(data);
    assert((2 * i) / 2 == i && (2 * i) % 2 == 0);
    assert((2 * i + 1) / 2 == i && (2 * i + 1) % 2 == 1);
    assert(s[2 * i] == hex_digit((data[i] / 16) as u8));
    assert(s[2 * i + 1] == hex_digit((data[i] % 16) as u8));
}

/// The key of a database is made of the fixed words and, after them, the user's id.
pub proof fn law_the_key_holds_the_user(uid: Seq<char>)
    ensures
        ({
            let words = vstd::utf8::encode_utf8("privchat_sdk_encryption_key_v1"@);
            let id = vstd::utf8::encode_utf8(uid);
            &&& key_material(uid).len() == words.len() + id.len()
            &&& key_material(uid).take(words.len() as int) == words
            &&& key_material(uid).skip(words.len() as int) == id
        }),
{
    let words = vstd::utf8::encode_utf8("privchat_sdk_encryption_key_v1"@);
    let id = vstd::utf8::encode_utf8(uid);
    assert(key_material(uid).take(words.len() as int) =~= words);
    assert(key_material(uid).skip(words.len() as int) =~= id);
}

} // verus!
