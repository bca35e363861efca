//! SHA-256 checks of downloaded files.
//!
//! The caller reads the file and feeds its bytes, chunk by chunk, to a
//! `Sha256Stream`; the digest is then compared with the catalog's value.
use vstd::prelude::*;
use crate::text::{eq_ignore_ascii_case, str_eq_ignore_ascii_case, trim, trimmed};
use vstd::string::StringExecFns;

verus! {

/// The SHA-256 digest of `data` (FIPS 180-4), as `sha2` computes it.
pub uninterp spec fn sha256_digest(data: Seq<u8>) -> Seq<u8>;

/// A running SHA-256 computation (`sha2::Sha256`). The hasher is kept in a
/// private field and its contents are known only through `sha256_fed`:
/// `sha2::Sha256` is an alias of a deeply generic `digest` wrapper type, so
/// the struct stands for it as a whole.
#[verifier::external_body]
pub struct Sha256Stream {
    hasher: sha2::Sha256,
}

/// The bytes a stream has been fed so far.
pub uninterp spec fn sha256_fed(s: Sha256Stream) -> Seq<u8>;

/// `<sha2::Sha256 as Digest>::new`: a hasher that has been fed nothing.
#[verifier::external_body]
fn sha256_new() -> (s: Sha256Stream)
    ensures
        sha256_fed(s) == Seq::<u8>::empty(),
{
    Sha256Stream { hasher: <sha2::Sha256 as sha2::Digest>::new() }
}

/// `<sha2::Sha256 as Digest>::update`: appends `chunk` to what the hasher has been fed.
#[verifier::external_body]
fn sha256_update(s: &mut Sha256Stream, chunk: &[u8])
    ensures
        sha256_fed(*final(s)) == sha256_fed(*old(s)) + chunk@,
{
    sha2::Digest::update(&mut s.hasher, chunk)
}

/// `<sha2::Sha256 as Digest>::finalize`: the 32-byte digest of everything fed.
#[verifier::external_body]
fn sha256_finalize(s: Sha256Stream) -> (d: Vec<u8>)
    ensures
        d@ == sha256_digest(sha256_fed(s)),
        d@.len() == 32,
{
    sha2::Digest::finalize(s.hasher).to_vec()
}

impl Sha256Stream {
    pub fn new() -> (s: Self)
        ensures
            sha256_fed(s) == Seq::<u8>::empty(),
    {
        sha256_new()
    }

    pub fn feed(&mut self, chunk: &[u8])
        ensures
            sha256_fed(*final(self)) == sha256_fed(*old(self)) + chunk@,
    {
        sha256_update(self, chunk)
    }

    pub fn digest(self) -> (d: Vec<u8>)
        ensures
            d@ == sha256_digest(sha256_fed(self)),
            d@.len() == 32,
    {
        sha256_finalize(self)
    }
}

pub open spec fn hex_digit(n: nat) -> char {
    if n < 10 {
        (('0' as u32) + n) as char
    } else {
        (('a' as u32) + n - 10) as char
    }
}

/// Lower-case hexadecimal, two digits per byte (what `{:x}` prints for a digest).
pub open spec fn hex_lower(bytes: Seq<u8>) -> Seq<char>
    decreases bytes.len(),
{
    if bytes.len() == 0 {
        Seq::empty()
    } else {
        hex_lower(bytes.drop_last()) + seq![
            hex_digit((bytes.last() / 16) as nat),
            hex_digit((bytes.last() % 16) as nat),
        ]
    }
}

fn hex_digit_exec(n: u8) -> (c: char)
    requires
        n < 16,
    ensures
        c == hex_digit(n as nat),
{
    if n < 10 {
        let b = 48 + n;
        b as char
    } else {
        let b = 87 + n;
        b as char
    }
}

fn hex_lower_chars(bytes: &Vec<u8>) -> (v: Vec<char>)
    ensures
        v@ == hex_lower(bytes@),
{
    let mut v: Vec<char> = Vec::new();
    let mut i: usize = 0;
    while i < bytes.len()
        invariant
            i <= bytes.len(),
            v@ == hex_lower(bytes@.take(i as int)),
        decreases bytes.len() - i,
    {
        let b = bytes[i];
        v.push(hex_digit_exec(b / 16));
        v.push(hex_digit_exec(b % 16));
        assert(bytes@.take(i + 1).drop_last() =~= bytes@.take(i as int));
        assert(v@ =~= hex_lower(bytes@.take(i + 1)));
        i = i + 1;
    }
    assert(bytes@.take(bytes.len() as int) =~= bytes@);
    v
}

/// The digest in lower-case hexadecimal.
pub fn digest_hex(digest: &Vec<u8>) -> (s: String)
    ensures
        s@ == hex_lower(digest@),
{
    let v = hex_lower_chars(digest);
    crate::text::string_from_chars(&v)
}

pub open spec fn sha256_mismatch_message(digest: Seq<u8>, expected_hex: Seq<char>) -> Seq<char> {
    "SHA256 校验失败: "@ + hex_lower(digest) + " != "@ + expected_hex
}

/// A digest matches the expected hexadecimal value, ignoring case and
/// surrounding white space of the latter.
pub fn verify_digest(digest: &Vec<u8>, expected_hex: &str) -> (r: Result<(), String>)
    ensures
        r is Ok <==> eq_ignore_ascii_case(hex_lower(digest@), trimmed(expected_hex@)),
        r matches Err(msg) ==> msg@ == sha256_mismatch_message(digest@, expected_hex@),
{
    let hex = digest_hex(digest);
    let expected = trim(expected_hex);
    if str_eq_ignore_ascii_case(hex.as_str(), expected.as_str()) {
        Ok(())
    } else {
        let mut msg = String::from_str("SHA256 校验失败: ");
        msg.append(hex.as_str());
        msg.append(" != ");
        msg.append(expected_hex);
        Err(msg)
    }
}

/// Checks a file whose bytes were fed to `stream` against the expected digest.
pub fn verify_file_sha256(stream: Sha256Stream, expected_hex: &str) -> (r: Result<(), String>)
    ensures
        r is Ok <==> eq_ignore_ascii_case(
            hex_lower(sha256_digest(sha256_fed(stream))),
            trimmed(expected_hex@),
        ),
        r matches Err(msg) ==> msg@ == sha256_mismatch_message(
            sha256_digest(sha256_fed(stream)),
            expected_hex@,
        ),
{
    let d = stream.digest();
    verify_digest(&d, expected_hex)
}

} // verus!
