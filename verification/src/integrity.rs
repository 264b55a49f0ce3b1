//! The integrity check on a downloaded bundle: its MD5 digest against the digest that
//! the server declared in the `ETag` header.

use crate::text::{
    lemma_without_char_absent, lemma_without_char_concat, same_text, strip_char, without_char,
};
use vstd::prelude::*;
use vstd::string::StringExecFns;

verus! {

/// The MD5 digest of `content`, printed in lowercase hexadecimal, as the `md5` crate
/// computes and prints it.
pub uninterp spec fn content_hash(content: Seq<u8>) -> Seq<char>;

/// Whether `c` is a digit of lowercase hexadecimal.
pub open spec fn is_hex_digit(c: char) -> bool {
    c == '0' || c == '1' || c == '2' || c == '3' || c == '4' || c == '5' || c == '6' || c == '7'
        || c == '8' || c == '9' || c == 'a' || c == 'b' || c == 'c' || c == 'd' || c == 'e' || c
        == 'f'
}

/// Whether `text` has the shape of a digest: 32 digits of lowercase hexadecimal.
pub open spec fn is_digest(text: Seq<char>) -> bool {
    text.len() == 32 && forall|i: int| 0 <= i < text.len() ==> is_hex_digit(#[trigger] text[i])
}

/// A text between two double quotes.
pub open spec fn quoted(text: Seq<char>) -> Seq<char> {
    seq!['"'] + text + seq!['"']
}

/// Computes `md5::compute` of the bytes and prints the digest with `{:x}`: sixteen bytes,
/// two digits of lowercase hexadecimal each.
#[verifier::external_body]
fn md5_hex(content: &[u8]) -> (hex: String)
    ensures
        hex@ == content_hash(content@),
        is_digest(hex@),
{
    format!("{:x}", md5::compute(content))
}

/// What stands for the declared digest where the server sent no `ETag` header.
pub open spec fn missing_etag() -> Seq<char> {
    "REMOTE_ETAG_MISSING"@
}

/// The digest that the server declared: the `ETag` header without its quotes, and
/// `missing_etag()` where there was no header.
pub open spec fn remote_hash_text(etag: Option<Seq<char>>) -> Seq<char> {
    match etag {
        Some(tag) => without_char(tag, '"'),
        None => missing_etag(),
    }
}

/// A digest of 32 characters is never what stands for a missing header.
pub proof fn lemma_missing_etag_never_matches(computed: Seq<char>)
    requires
        computed.len() == 32,
    ensures
        computed != remote_hash_text(None),
{
    reveal_strlit("REMOTE_ETAG_MISSING");
}

/// A digest is what the server declares when it sends that digest as the `ETag`
/// header, bare or between double quotes.
pub proof fn lemma_declared_digest(digest: Seq<char>)
    requires
        is_digest(digest),
    ensures
        remote_hash_text(Some(digest)) == digest,
        remote_hash_text(Some(quoted(digest))) == digest,
{
    let quote = seq!['"'];
    assert forall|i: int| 0 <= i < digest.len() implies digest[i] != '"' by {
        assert(is_hex_digit(digest[i]));
    }
    lemma_without_char_absent(digest, '"');
    lemma_without_char_concat(quote + digest, quote, '"');
    lemma_without_char_concat(quote, digest, '"');
    assert(without_char(quote, '"') =~= Seq::<char>::empty()) by {
        reveal_with_fuel(Seq::filter, 2);
        assert(quote.drop_last() =~= Seq::<char>::empty());
    }
    assert(Seq::<char>::empty() + digest + Seq::<char>::empty() =~= digest);
}

/// The MD5 digest of `content` in 32 digits of lowercase hexadecimal.
pub fn compute_hash(content: &[u8]) -> (hex: String)
    ensures
        hex@ == content_hash(content@),
        is_digest(hex@),
{
    md5_hex(content)
}

/// The digest that the server declared in its `ETag` header.
pub fn get_remote_hash(etag: Option<&str>) -> (declared: String)
    ensures
        declared@ == remote_hash_text(
            match etag {
                Some(tag) => Some(tag@),
                None => None,
            },
        ),
{
    match etag {
        Some(tag) => strip_char(tag, '"'),
        None => String::from_str("REMOTE_ETAG_MISSING"),
    }
}

/// Whether the digest computed from the bundle is the one the server declared.
pub fn hash_matches(computed: &str, etag: Option<&str>) -> (same: bool)
    ensures
        same == (computed@ == remote_hash_text(
            match etag {
                Some(tag) => Some(tag@),
                None => None,
            },
        )),
{
    let declared = get_remote_hash(etag);
    same_text(computed, declared.as_str())
}

/// Whether the bundle is what the server declared. A bundle that came without an
/// `ETag` header never passes. One whose header is the bundle's own digest, bare or
/// between double quotes, always does.
pub fn content_verified(content: &[u8], etag: Option<&str>) -> (same: bool)
    ensures
        same == (content_hash(content@) == remote_hash_text(
            match etag {
                Some(tag) => Some(tag@),
                None => None,
            },
        )),
        etag is None ==> !same,
        etag is Some && (etag->0@ == content_hash(content@) || etag->0@ == quoted(
            content_hash(content@),
        )) ==> same,
{
    let computed = compute_hash(content);
    proof {
        lemma_missing_etag_never_matches(computed@);
        lemma_declared_digest(computed@);
    }
    hash_matches(computed.as_str(), etag)
}

} // verus!
