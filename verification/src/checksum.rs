//! Checking a release archive against its published SHA-256 checksum.
//!
//! The checksum file that go.dev publishes beside each archive holds the
//! digest as lowercase hexadecimal, possibly followed by the file's name;
//! the digest is its first whitespace-separated word.
use vstd::prelude::*;
use sha2::Digest;

verus! {

/// The lowercase hexadecimal SHA-256 digest of some bytes.
pub uninterp spec fn sha256_hex_of(data: Seq<u8>) -> Seq<char>;

/// Whether a character separates words in a checksum file.
pub open spec fn is_space(c: char) -> bool {
    c == ' ' || c == '\t' || c == '\n' || c == '\r'
}

/// Whether a character is a lowercase hexadecimal digit.
pub open spec fn is_lower_hex(c: char) -> bool {
    ('0' <= c && c <= '9') || ('a' <= c && c <= 'f')
}

/// The text without its leading whitespace.
pub open spec fn skip_space(s: Seq<char>) -> Seq<char>
    decreases s.len(),
{
    if s.len() > 0 && is_space(s[0]) { skip_space(s.drop_first()) } else { s }
}

/// The longest prefix of the text that holds no whitespace.
pub open spec fn leading_word(s: Seq<char>) -> Seq<char>
    decreases s.len(),
{
    if s.len() == 0 || is_space(s[0]) { Seq::empty() } else { seq![s[0]] + leading_word(s.drop_first()) }
}

/// The digest that a checksum file gives: its first word.
pub open spec fn published_digest(text: Seq<char>) -> Seq<char> {
    leading_word(skip_space(text))
}

/// `sha2::Sha256::digest`, written with `{:x}`: the digest of the bytes as
/// 64 lowercase hexadecimal digits (`generic-array` writes two digits per
/// byte of the 32-byte digest). The digest itself is named, not computed.
#[verifier::external_body]
pub(crate) fn sha256_hex(data: &[u8]) -> (res: String)
    ensures
        res@ == sha256_hex_of(data@),
        res@.len() == 64,
        forall|i: int| 0 <= i < res@.len() ==> is_lower_hex(#[trigger] res@[i]),
{
    format!("{:x}", sha2::Sha256::digest(data))
}

/// The digest that a checksum file gives: its first whitespace-separated
/// word.
pub fn published_digest_of(text: &str) -> (res: String)
    ensures
        res@ == published_digest(text@),
{
    let n = text.unicode_len();
    let mut i: usize = 0;
    proof {
        assert(text@.subrange(0, n as int) =~= text@);
    }
    while i < n && is_space_char(text.get_char(i))
        invariant
            n == text@.len(),
            i <= n,
            skip_space(text@.subrange(i as int, n as int)) == skip_space(text@),
        decreases n - i,
    {
        proof {
            assert(text@.subrange(i as int, n as int).drop_first() =~= text@.subrange(i + 1, n as int));
        }
        i = i + 1;
    }
    let start = i;
    proof {
        assert(skip_space(text@.subrange(start as int, n as int)) == text@.subrange(start as int, n as int));
    }
    while i < n && !is_space_char(text.get_char(i))
        invariant
            n == text@.len(),
            start <= i <= n,
            text@.subrange(start as int, i as int) + leading_word(text@.subrange(i as int, n as int))
                == leading_word(text@.subrange(start as int, n as int)),
        decreases n - i,
    {
        let c = text.get_char(i);
        proof {
            let rest = text@.subrange(i as int, n as int);
            assert(rest.drop_first() =~= text@.subrange(i + 1, n as int));
            assert(leading_word(rest) == seq![c] + leading_word(rest.drop_first()));
            assert(text@.subrange(start as int, i + 1) + leading_word(rest.drop_first())
                =~= text@.subrange(start as int, i as int) + leading_word(rest));
        }
        i = i + 1;
    }
    proof {
        let rest = text@.subrange(i as int, n as int);
        assert(leading_word(rest) == Seq::<char>::empty());
        assert(text@.subrange(start as int, i as int) + Seq::<char>::empty() =~= text@.subrange(start as int, i as int));
    }
    crate::text::substring(text, start, i)
}

/// Whether a character separates words in a checksum file.
fn is_space_char(c: char) -> (res: bool)
    ensures
        res == is_space(c),
{
    c == ' ' || c == '\t' || c == '\n' || c == '\r'
}

/// The digest of the archive's bytes, as lowercase hexadecimal.
pub fn archive_digest(data: &[u8]) -> (res: String)
    ensures
        res@ == sha256_hex_of(data@),
{
    sha256_hex(data)
}

/// Whether the archive's bytes have the digest that the checksum file
/// publishes.
pub fn digest_matches(published: &str, data: &[u8]) -> (res: bool)
    ensures
        res == (published_digest(published@) == sha256_hex_of(data@)),
{
    let expected = published_digest_of(published);
    let actual = sha256_hex(data);
    crate::text::str_equal(expected.as_str(), actual.as_str())
}

} // verus!
