use vstd::prelude::*;
use vstd::string::StrSliceExecFns;
use vstd::utf8::encode_utf8;

verus! {

/// The MD5 digest of `data`.
pub uninterp spec fn md5_of(data: Seq<u8>) -> Seq<u8>;

/// The lowercase hexadecimal digit of a value below 16.
pub open spec fn hex_digit(n: u8) -> char {
    "0123456789abcdef"@[n as int]
}

/// The lowercase hexadecimal text of `b`: two digits per byte, high nibble
/// first.
pub open spec fn hex_lower(b: Seq<u8>) -> Seq<char> {
    Seq::new(
        2 * b.len(),
        |i: int|
            if i % 2 == 0 {
                hex_digit(b[i / 2] / 16)
            } else {
                hex_digit(b[i / 2] % 16)
            },
    )
}

/// The MD5-crypt hash of `password` with the given salt.
pub uninterp spec fn md5_crypt_of(password: Seq<char>, salt: Seq<char>) -> Seq<char>;

/// The SHA-256-crypt hash of `password` with the given salt and rounds.
pub uninterp spec fn sha256_crypt_of(password: Seq<char>, salt: Seq<char>, rounds: Option<u32>) -> Seq<char>;

/// The SHA-512-crypt hash of `password` with the given salt and rounds.
pub uninterp spec fn sha512_crypt_of(password: Seq<char>, salt: Seq<char>, rounds: Option<u32>) -> Seq<char>;

/// Every character lies in U+0020..U+007F, where the crypt salt decoder is
/// total.
pub open spec fn printable_ascii(s: Seq<char>) -> bool {
    forall|i: int| 0 <= i < s.len() ==> 0x20 <= #[trigger] (s[i] as u32) && (s[i] as u32) <= 0x7f
}

/// A character of the crypt alphabet: `.`, `/`, digits and ASCII letters.
pub open spec fn crypt_char(c: char) -> bool {
    ||| c == '.'
    ||| c == '/'
    ||| ('0' as u32 <= c as u32 && c as u32 <= '9' as u32)
    ||| ('A' as u32 <= c as u32 && c as u32 <= 'Z' as u32)
    ||| ('a' as u32 <= c as u32 && c as u32 <= 'z' as u32)
}

/// Every character is in the crypt alphabet.
pub open spec fn crypt_salt(s: Seq<char>) -> bool {
    forall|i: int| 0 <= i < s.len() ==> crypt_char(#[trigger] s[i])
}

/// The part of a salt that a scheme with salts of at most `max` characters
/// uses.
pub open spec fn salt_used(s: Seq<char>, max: nat) -> Seq<char> {
    if s.len() <= max {
        s
    } else {
        s.subrange(0, max as int)
    }
}

/// The text of the error that a salt outside the crypt alphabet gives.
pub open spec fn invalid_salt_text() -> Seq<char> {
    "Invalid encoding"@
}

/// `s` begins with `prefix`.
pub open spec fn starts_with(s: Seq<char>, prefix: Seq<char>) -> bool {
    s.len() >= prefix.len() && s.subrange(0, prefix.len() as int) == prefix
}

/// Relies on md5::Md5 (package md-5) through digest::Digest::digest: the
/// 16-byte MD5 digest of `data`.
#[verifier::external_body]
fn md5_digest(data: &[u8]) -> (r: Vec<u8>)
    ensures
        r@ == md5_of(data@),
        r@.len() == 16,
{
    <md5::Md5 as md5::Digest>::digest(data).to_vec()
}

/// Relies on hex::encode: lowercase hexadecimal, two digits per byte.
#[verifier::external_body]
fn to_hex(data: &[u8]) -> (r: String)
    ensures
        r@ == hex_lower(data@),
{
    hex::encode(data)
}

/// Relies on pwhash::md5_crypt::hash_with. Without a salt it draws a random
/// one from the crypt alphabet and succeeds. With a salt, it uses at most its
/// first 8 characters, fails with "Invalid encoding" when one of them is not
/// in the crypt alphabet, and otherwise returns a hash that depends on the
/// password and the salt alone and begins with "$1$", the salt used and
/// "$". Rounds are not used. A salt character outside U+0020..U+007F can make
/// the call panic, so the salt is held to that range.
#[verifier::external_body]
fn md5_crypt_with(password: &str, salt: &Option<String>, rounds: Option<u32>) -> (r: Result<
    String,
    String,
>)
    requires
        salt is Some ==> printable_ascii(salt->Some_0@),
    ensures
        salt is None ==> r is Ok && starts_with(r->Ok_0@, "$1$"@),
        salt is Some ==> (r is Ok <==> crypt_salt(salt_used(salt->Some_0@, 8))),
        salt is Some && r is Ok ==> r->Ok_0@ == md5_crypt_of(password@, salt->Some_0@),
        salt is Some && r is Ok ==> starts_with(
            r->Ok_0@,
            "$1$"@ + salt_used(salt->Some_0@, 8) + "$"@,
        ),
        r is Err ==> r->Err_0@ == invalid_salt_text(),
{
    let setup = pwhash::HashSetup { salt: salt.as_deref(), rounds };
    pwhash::md5_crypt::hash_with(setup, password).map_err(|e| e.to_string())
}

/// Relies on pwhash::sha256_crypt::hash_with. Without a salt it draws a
/// random one from the crypt alphabet and succeeds. With a salt, it uses at
/// most its first 16 characters, fails with "Invalid encoding" when one of
/// them is not in the crypt alphabet, and otherwise returns a hash that
/// depends on the password, the salt and the rounds alone. The hash begins
/// with "$5$"; without rounds the salt used and "$" follow, with rounds
/// "rounds=". A salt character outside U+0020..U+007F can make the call
/// panic, so the salt is held to that range.
#[verifier::external_body]
fn sha256_crypt_with(password: &str, salt: &Option<String>, rounds: Option<u32>) -> (r: Result<
    String,
    String,
>)
    requires
        salt is Some ==> printable_ascii(salt->Some_0@),
    ensures
        salt is None ==> r is Ok && starts_with(r->Ok_0@, "$5$"@),
        salt is Some ==> (r is Ok <==> crypt_salt(salt_used(salt->Some_0@, 16))),
        salt is Some && r is Ok ==> r->Ok_0@ == sha256_crypt_of(password@, salt->Some_0@, rounds),
        salt is Some && r is Ok && rounds is None ==> starts_with(
            r->Ok_0@,
            "$5$"@ + salt_used(salt->Some_0@, 16) + "$"@,
        ),
        r is Ok && rounds is Some ==> starts_with(r->Ok_0@, "$5$rounds="@),
        r is Err ==> r->Err_0@ == invalid_salt_text(),
{
    let setup = pwhash::HashSetup { salt: salt.as_deref(), rounds };
    pwhash::sha256_crypt::hash_with(setup, password).map_err(|e| e.to_string())
}

/// Relies on pwhash::sha512_crypt::hash_with. Without a salt it draws a
/// random one from the crypt alphabet and succeeds. With a salt, it uses at
/// most its first 16 characters, fails with "Invalid encoding" when one of
/// them is not in the crypt alphabet, and otherwise returns a hash that
/// depends on the password, the salt and the rounds alone. The hash begins
/// with "$6$"; without rounds the salt used and "$" follow, with rounds
/// "rounds=". A salt character outside U+0020..U+007F can make the call
/// panic, so the salt is held to that range.
#[verifier::external_body]
fn sha512_crypt_with(password: &str, salt: &Option<String>, rounds: Option<u32>) -> (r: Result<
    String,
    String,
>)
    requires
        salt is Some ==> printable_ascii(salt->Some_0@),
    ensures
        salt is None ==> r is Ok && starts_with(r->Ok_0@, "$6$"@),
        salt is Some ==> (r is Ok <==> crypt_salt(salt_used(salt->Some_0@, 16))),
        salt is Some && r is Ok ==> r->Ok_0@ == sha512_crypt_of(password@, salt->Some_0@, rounds),
        salt is Some && r is Ok && rounds is None ==> starts_with(
            r->Ok_0@,
            "$6$"@ + salt_used(salt->Some_0@, 16) + "$"@,
        ),
        r is Ok && rounds is Some ==> starts_with(r->Ok_0@, "$6$rounds="@),
        r is Err ==> r->Err_0@ == invalid_salt_text(),
{
    let setup = pwhash::HashSetup { salt: salt.as_deref(), rounds };
    pwhash::sha512_crypt::hash_with(setup, password).map_err(|e| e.to_string())
}

/// Whether every character of `s` lies in U+0020..U+007F.
pub fn is_printable_ascii(s: &str) -> (r: bool)
    ensures
        r == printable_ascii(s@),
{
    let n = s.unicode_len();
    let mut i: usize = 0;
    while i < n
        invariant
            n == s@.len(),
            i <= n,
            forall|j: int| 0 <= j < i ==> 0x20 <= #[trigger] (s@[j] as u32) && (s@[j] as u32) <= 0x7f,
        decreases n - i,
    {
        let c = s.get_char(i);
        if (c as u32) < 0x20 || (c as u32) > 0x7f {
            return false;
        }
        i = i + 1;
    }
    true
}

/// A salt that the crypt schemes can take: none, or one of printable ASCII.
fn salt_admissible(salt: &Option<String>) -> (r: bool)
    ensures
        r == (salt is None || printable_ascii(salt->Some_0@)),
{
    match salt {
        None => true,
        Some(s) => is_printable_ascii(s.as_str()),
    }
}

/// The MD5 digest of the UTF-8 bytes of `text`, as lowercase hexadecimal.
pub fn pwhash_create_md5_hash(text: String) -> (r: Result<String, String>)
    ensures
        r is Ok,
        r->Ok_0@ == hex_lower(md5_of(encode_utf8(text@))),
        r->Ok_0@.len() == 32,
{
    let digest = md5_digest(text.as_str().as_bytes());
    let h = to_hex(digest.as_slice());
    assert(h@.len() == 2 * digest@.len());
    Ok(h)
}

/// An MD5-crypt password hash. Without a salt a random one is drawn and the
/// hash succeeds. A given salt must be printable ASCII and its first 8
/// characters must be in the crypt alphabet, else the result is an error
/// "Invalid encoding"; the hash then depends on the password and the salt
/// alone, and holds the salt used. `cost` is not used by this scheme.
pub fn pwhash_create_md5_password_hash(password: String, salt: Option<String>, cost: Option<u32>) -> (r: Result<String, String>)
    ensures
        salt is None ==> r is Ok && starts_with(r->Ok_0@, "$1$"@),
        salt is Some ==> (r is Ok <==> printable_ascii(salt->Some_0@) && crypt_salt(
            salt_used(salt->Some_0@, 8),
        )),
        salt is Some && r is Ok ==> r->Ok_0@ == md5_crypt_of(password@, salt->Some_0@),
        salt is Some && r is Ok ==> starts_with(
            r->Ok_0@,
            "$1$"@ + salt_used(salt->Some_0@, 8) + "$"@,
        ),
        r is Err ==> r->Err_0@ == invalid_salt_text(),
{
    if !salt_admissible(&salt) {
        return Err("Invalid encoding".to_owned());
    }
    md5_crypt_with(password.as_str(), &salt, cost)
}

/// A SHA-256-crypt password hash. Without a salt a random one is drawn and
/// the hash succeeds. A given salt must be printable ASCII and its first 16
/// characters must be in the crypt alphabet, else the result is an error
/// "Invalid encoding"; the hash then depends on the password, the salt and
/// `cost` (the rounds) alone, and holds the salt used when no rounds are
/// given.
pub fn pwhash_create_sha256_password_hash(password: String, salt: Option<String>, cost: Option<u32>) -> (r: Result<String, String>)
    ensures
        salt is None ==> r is Ok && starts_with(r->Ok_0@, "$5$"@),
        salt is Some ==> (r is Ok <==> printable_ascii(salt->Some_0@) && crypt_salt(
            salt_used(salt->Some_0@, 16),
        )),
        salt is Some && r is Ok ==> r->Ok_0@ == sha256_crypt_of(password@, salt->Some_0@, cost),
        salt is Some && r is Ok && cost is None ==> starts_with(
            r->Ok_0@,
            "$5$"@ + salt_used(salt->Some_0@, 16) + "$"@,
        ),
        r is Ok && cost is Some ==> starts_with(r->Ok_0@, "$5$rounds="@),
        r is Err ==> r->Err_0@ == invalid_salt_text(),
{
    if !salt_admissible(&salt) {
        return Err("Invalid encoding".to_owned());
    }
    sha256_crypt_with(password.as_str(), &salt, cost)
}

/// A SHA-512-crypt password hash. Without a salt a random one is drawn and
/// the hash succeeds. A given salt must be printable ASCII and its first 16
/// characters must be in the crypt alphabet, else the result is an error
/// "Invalid encoding"; the hash then depends on the password, the salt and
/// `cost` (the rounds) alone, and holds the salt used when no rounds are
/// given.
pub fn pwhash_create_sha512_password_hash(password: String, salt: Option<String>, cost: Option<u32>) -> (r: Result<String, String>)
    ensures
        salt is None ==> r is Ok && starts_with(r->Ok_0@, "$6$"@),
        salt is Some ==> (r is Ok <==> printable_ascii(salt->Some_0@) && crypt_salt(
            salt_used(salt->Some_0@, 16),
        )),
        salt is Some && r is Ok ==> r->Ok_0@ == sha512_crypt_of(password@, salt->Some_0@, cost),
        salt is Some && r is Ok && cost is None ==> starts_with(
            r->Ok_0@,
            "$6$"@ + salt_used(salt->Some_0@, 16) + "$"@,
        ),
        r is Ok && cost is Some ==> starts_with(r->Ok_0@, "$6$rounds="@),
        r is Err ==> r->Err_0@ == invalid_salt_text(),
{
    if !salt_admissible(&salt) {
        return Err("Invalid encoding".to_owned());
    }
    sha512_crypt_with(password.as_str(), &salt, cost)
}

} // verus!
