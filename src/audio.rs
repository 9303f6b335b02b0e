//! The content-addressed audio store: where the artifact of a text lives,
//! the request that synthesizes it, and the decoding of the answer.

use vstd::prelude::*;
use crate::error::EnrichError;
use crate::text::{decimal_of, digit_char, json_quoted, push_char, push_decimal, push_json_string};
use std::hash::{Hash, Hasher};

verus! {

/// What `DefaultHasher::new()` finishes with after hashing the text.
pub uninterp spec fn text_hash_of(s: Seq<char>) -> u64;

/// What `str::to_lowercase` returns.
pub uninterp spec fn lower_of(s: Seq<char>) -> Seq<char>;

/// The bytes that standard base64 decodes `s` to, or `None` where it is not
/// valid standard base64.
pub uninterp spec fn base64_decoded(s: Seq<char>) -> Option<Seq<u8>>;

/// Relies on `DefaultHasher::new` and `Hash for str`: a hasher built by `new`
/// has fixed keys, so the result depends on the text alone.
#[verifier::external_body]
fn hash_text(text: &str) -> (r: u64)
    ensures
        r == text_hash_of(text@),
{
    let mut hasher = std::hash::DefaultHasher::new();
    text.hash(&mut hasher);
    hasher.finish()
}

/// Relies on `str::to_lowercase`.
#[verifier::external_body]
fn lowercase(s: &str) -> (r: String)
    ensures
        r@ == lower_of(s@),
{
    s.to_lowercase()
}

/// Relies on `base64::Engine::decode` of the standard engine.
#[verifier::external_body]
fn decode_base64(s: &str) -> (r: Result<Vec<u8>, base64::DecodeError>)
    ensures
        match r {
            Ok(v) => base64_decoded(s@) == Some(v@),
            Err(_) => base64_decoded(s@) is None,
        },
{
    base64::Engine::decode(&base64::engine::general_purpose::STANDARD, s)
}

#[verifier::external_type_specification]
#[verifier::external_body]
pub struct ExDecodeError(base64::DecodeError);

/// The audio encoding that synthesis asks for.
pub open spec fn requested_encoding() -> Seq<char> {
    "MP3"@
}

/// The file name of an artifact: the key in decimal, a point, the extension.
pub open spec fn artifact_name(key: u64, ext: Seq<char>) -> Seq<char> {
    decimal_of(key as nat) + "."@ + ext
}

/// `name` placed inside `dir`, with a separator unless `dir` is empty or
/// already ends with one.
pub open spec fn join_path(dir: Seq<char>, name: Seq<char>) -> Seq<char> {
    if dir.len() == 0 || dir.last() == '/' {
        dir + name
    } else {
        dir.push('/') + name
    }
}

/// Where the artifact of `text` lives in `dir`: named by the hash of the text
/// alone and the lowercased requested encoding.
pub open spec fn artifact_path(dir: Seq<char>, text: Seq<char>) -> Seq<char> {
    join_path(dir, artifact_name(text_hash_of(text), lower_of(requested_encoding())))
}

/// The body of the synthesis request for `text`, with the fixed voice.
pub open spec fn synthesis_request(text: Seq<char>) -> Seq<char> {
    "{\"input\":{\"text\":"@ + json_quoted(text) + "},\"voice\":{\"languageCode\":\"en-GB\",\"name\":\"en-GB-Chirp-HD-O\"},\"audioConfig\":{\"audioEncoding\":\"MP3\"}}"@
}

/// The cache key of a text.
pub fn cache_key(text: &str) -> (r: u64)
    ensures
        r == text_hash_of(text@),
{
    hash_text(text)
}

/// The file name for a key and an extension.
pub fn file_name(key: u64, ext: &str) -> (r: String)
    ensures
        r@ == artifact_name(key, ext@),
{
    let mut s = String::new();
    push_decimal(&mut s, key);
    s.append(".");
    s.append(ext);
    s
}

/// Joins a directory and a file name.
pub fn join(dir: &str, name: &str) -> (r: String)
    ensures
        r@ == join_path(dir@, name@),
{
    let mut s = String::from_str(dir);
    let n = dir.unicode_len();
    if n > 0 && dir.get_char(n - 1) != '/' {
        push_char(&mut s, '/');
    }
    s.append(name);
    s
}

/// The path of the artifact of `text` in `dir`.
pub fn artifact_path_for(dir: &str, text: &str) -> (r: String)
    ensures
        r@ == artifact_path(dir@, text@),
{
    let ext = lowercase("MP3");
    let name = file_name(cache_key(text), ext.as_str());
    join(dir, name.as_str())
}

/// The synthesis request body for `text`.
pub fn synthesis_request_for(text: &str) -> (r: String)
    ensures
        r@ == synthesis_request(text@),
{
    let mut s = String::from_str("{\"input\":{\"text\":");
    push_json_string(&mut s, text);
    s.append(
        "},\"voice\":{\"languageCode\":\"en-GB\",\"name\":\"en-GB-Chirp-HD-O\"},\"audioConfig\":{\"audioEncoding\":\"MP3\"}}",
    );
    s
}

/// Decodes the base64 audio content of a synthesis answer into raw bytes.
pub fn decode_audio(content: &str) -> (r: Result<Vec<u8>, EnrichError>)
    ensures
        match (r, base64_decoded(content@)) {
            (Ok(v), Some(b)) => v@ == b,
            (Err(e), None) => e == EnrichError::Decode,
            _ => false,
        },
{
    match decode_base64(content) {
        Ok(v) => Ok(v),
        Err(_) => Err(EnrichError::Decode),
    }
}

/// Identical texts resolve to the same artifact path in the same directory:
/// the path depends on the text, not on the role it plays in a record.
pub proof fn lemma_same_text_same_artifact(dir: Seq<char>, t1: Seq<char>, t2: Seq<char>)
    requires
        t1 == t2,
    ensures
        artifact_path(dir, t1) == artifact_path(dir, t2),
{
}

proof fn lemma_decimal_nonempty(n: nat)
    ensures
        decimal_of(n).len() >= 1,
    decreases n,
{
    if n >= 10 {
        lemma_decimal_nonempty(n / 10);
    }
}

proof fn lemma_decimal_injective(n: nat, m: nat)
    requires
        decimal_of(n) == decimal_of(m),
    ensures
        n == m,
    decreases n + m,
{
    if n < 10 && m < 10 {
        assert(decimal_of(n)[0] == digit_char(n));
        assert(decimal_of(m)[0] == digit_char(m));
    } else if n < 10 {
        lemma_decimal_nonempty(m / 10);
        assert(decimal_of(m).len() == decimal_of(m / 10).len() + 1);
        assert(decimal_of(n).len() == 1);
    } else if m < 10 {
        lemma_decimal_nonempty(n / 10);
        assert(decimal_of(n).len() == decimal_of(n / 10).len() + 1);
        assert(decimal_of(m).len() == 1);
    } else {
        let dn = decimal_of(n);
        assert(dn.drop_last() =~= decimal_of(n / 10));
        assert(decimal_of(m).drop_last() =~= decimal_of(m / 10));
        lemma_decimal_injective(n / 10, m / 10);
        assert(dn.last() == digit_char(n % 10));
        assert(decimal_of(m).last() == digit_char(m % 10));
        assert(n % 10 == m % 10);
        assert(n == 10 * (n / 10) + n % 10);
        assert(m == 10 * (m / 10) + m % 10);
    }
}

/// Texts with distinct cache keys get distinct artifact paths in the same
/// directory: the file name carries the whole key.
pub proof fn lemma_distinct_keys_distinct_artifacts(dir: Seq<char>, t1: Seq<char>, t2: Seq<char>)
    requires
        text_hash_of(t1) != text_hash_of(t2),
    ensures
        artifact_path(dir, t1) != artifact_path(dir, t2),
{
    let ext = lower_of(requested_encoding());
    let n1 = artifact_name(text_hash_of(t1), ext);
    let n2 = artifact_name(text_hash_of(t2), ext);
    let d1 = decimal_of(text_hash_of(t1) as nat);
    let d2 = decimal_of(text_hash_of(t2) as nat);
    if artifact_path(dir, t1) == artifact_path(dir, t2) {
        let prefix = if dir.len() == 0 || dir.last() == '/' { dir } else { dir.push('/') };
        assert(artifact_path(dir, t1).skip(prefix.len() as int) =~= n1);
        assert(artifact_path(dir, t2).skip(prefix.len() as int) =~= n2);
        assert(n1 == n2);
        let k = d1.len() as int;
        assert(d1.len() == d2.len());
        assert(n1.take(k) =~= d1);
        assert(n2.take(k) =~= d2);
        lemma_decimal_injective(text_hash_of(t1) as nat, text_hash_of(t2) as nat);
    }
}

} // verus!
