//! Path texts and the keys derived from them.
use vstd::prelude::*;
use vstd::utf8::encode_utf8;

use crate::text::opt_text;

verus! {

/// A path below a directory. An absolute path stands for itself; a separator is
/// set between the two unless the directory is empty or ends with one.
pub open spec fn joined(dir: Seq<char>, name: Seq<char>) -> Seq<char> {
    if name.len() > 0 && name[0] == '/' {
        name
    } else if dir.len() == 0 || dir.last() == '/' {
        dir + name
    } else {
        dir.push('/') + name
    }
}

/// A path below a directory.
pub fn join_path(dir: &str, name: &str) -> (r: String)
    ensures
        r@ == joined(dir@, name@),
{
    let absolute = name.unicode_len() > 0 && name.get_char(0) == '/';
    if absolute {
        return name.to_owned();
    }
    let n = dir.unicode_len();
    let mut out = dir.to_owned();
    if n > 0 && dir.get_char(n - 1) != '/' {
        out.push('/');
    }
    out.append(name);
    out
}

/// What `Path::strip_prefix` leaves of a path below a base; none where the path
/// is not below it.
pub uninterp spec fn path_below(path: Seq<char>, base: Seq<char>) -> Option<Seq<char>>;

/// `std::path::Path::strip_prefix`: the path without the base, compared by whole
/// components, or none where the base does not begin it. By the path rules of
/// the platform that the crate is built for, the result depends on the two paths
/// alone.
#[verifier::external_body]
pub(crate) fn strip_base(path: &str, base: &str) -> (r: Option<String>)
    ensures
        opt_text(r) == path_below(path@, base@),
{
    let below = std::path::Path::new(path).strip_prefix(base).ok();
    below.map(|below| below.to_string_lossy().to_string())
}

/// What `Path::file_name` gives of a path.
pub uninterp spec fn file_name_of(path: Seq<char>) -> Option<Seq<char>>;

/// `std::path::Path::file_name`: the last component of a path, or none where it
/// ends in no name. By the path rules of the platform that the crate is built
/// for, the result depends on the path alone.
#[verifier::external_body]
pub(crate) fn file_name(path: &str) -> (r: Option<String>)
    ensures
        opt_text(r) == file_name_of(path@),
{
    std::path::Path::new(path).file_name().map(|name| name.to_string_lossy().to_string())
}

/// What `Path::file_stem` gives of a path.
pub uninterp spec fn file_stem_of(path: Seq<char>) -> Option<Seq<char>>;

/// `std::path::Path::file_stem`: the last component of a path without its
/// extension, or none where it ends in no name. By the path rules of the platform
/// that the crate is built for, the result depends on the path alone.
#[verifier::external_body]
pub(crate) fn file_stem(path: &str) -> (r: Option<String>)
    ensures
        opt_text(r) == file_stem_of(path@),
{
    std::path::Path::new(path).file_stem().map(|stem| stem.to_string_lossy().to_string())
}

/// What `Path::parent` gives of a path.
pub uninterp spec fn parent_of(path: Seq<char>) -> Option<Seq<char>>;

/// `std::path::Path::parent`: the path without its last component, or none where
/// it has none. By the path rules of the platform that the crate is built for, the
/// result depends on the path alone.
#[verifier::external_body]
pub(crate) fn parent(path: &str) -> (r: Option<String>)
    ensures
        opt_text(r) == parent_of(path@),
{
    std::path::Path::new(path).parent().map(|parent| parent.to_string_lossy().to_string())
}

/// The SHA-256 digest of bytes.
pub uninterp spec fn sha256_of(bytes: Seq<u8>) -> Seq<u8>;

/// `sha2::Sha256::digest`: the digest of the bytes, which is 32 bytes long and
/// depends on the bytes alone.
#[verifier::external_body]
fn sha256(bytes: &[u8]) -> (r: Vec<u8>)
    ensures
        r@ == sha256_of(bytes@),
        r@.len() == 32,
{
    <sha2::Sha256 as sha2::Digest>::digest(bytes).to_vec()
}

/// The digest of a text's UTF-8 bytes.
pub open spec fn text_digest(text: Seq<char>) -> Seq<u8> {
    sha256_of(encode_utf8(text))
}

/// The digest of a text's UTF-8 bytes.
pub fn digest_text(text: &str) -> (r: Vec<u8>)
    ensures
        r@ == text_digest(text@),
        r@.len() == 32,
{
    sha256(text.as_bytes())
}

/// The hexadecimal digit of a number below sixteen.
pub open spec fn hex_digit(n: nat) -> char {
    if n < 10 {
        ((48 + n) as u32) as char
    } else {
        ((87 + n) as u32) as char
    }
}

/// Bytes in hexadecimal notation, two small digits each.
pub open spec fn hex_of(bytes: Seq<u8>) -> Seq<char>
    decreases bytes.len(),
{
    if bytes.len() == 0 {
        Seq::empty()
    } else {
        hex_of(bytes.drop_last()).push(hex_digit((bytes.last() / 16) as nat)).push(
            hex_digit((bytes.last() % 16) as nat),
        )
    }
}

fn hex_char(n: u8) -> (r: char)
    requires
        n < 16,
    ensures
        r == hex_digit(n as nat),
{
    if n < 10 {
        (48u8 + n) as char
    } else {
        (87u8 + n) as char
    }
}

/// Bytes in hexadecimal notation.
pub fn hex_text(bytes: &Vec<u8>) -> (r: String)
    ensures
        r@ == hex_of(bytes@),
        r@.len() == 2 * bytes@.len(),
{
    let mut out = String::new();
    let mut i: usize = 0;
    assert(bytes@.take(0) =~= Seq::empty());
    while i < bytes.len()
        invariant
            i <= bytes@.len(),
            out@ == hex_of(bytes@.take(i as int)),
            out@.len() == 2 * i,
        decreases bytes@.len() - i,
    {
        assert(bytes@.take(i + 1).drop_last() =~= bytes@.take(i as int));
        out.push(hex_char(bytes[i] / 16));
        out.push(hex_char(bytes[i] % 16));
        i = i + 1;
    }
    assert(bytes@.take(i as int) =~= bytes@);
    out
}

/// The first characters of a text, up to `len` of them.
pub open spec fn first_chars(text: Seq<char>, len: nat) -> Seq<char> {
    if text.len() > len {
        text.take(len as int)
    } else {
        text
    }
}

/// The first `len` hexadecimal characters of a digest.
pub fn hex_prefix(digest: &Vec<u8>, len: usize) -> (r: String)
    ensures
        r@ == first_chars(hex_of(digest@), len as nat),
{
    let whole = hex_text(digest);
    let chars = crate::text::chars_of(whole.as_str());
    if chars.len() > len {
        let r = crate::text::text_of(&chars, 0, len);
        assert(r@ =~= whole@.take(len as int));
        r
    } else {
        whole
    }
}

/// A short key for a text: the first `len` hexadecimal characters of its
/// digest.
pub fn hash_key(text: &str, len: usize) -> (r: String)
    ensures
        r@ == first_chars(hex_of(text_digest(text@)), len as nat),
{
    hex_prefix(&digest_text(text), len)
}

} // verus!
