//! Method-dispatch identifiers: the first eight bytes of the SHA-256 digest
//! of `namespace:name`, prepended to an instruction's payload so that the
//! receiving program can route the call to its handler.

use sha2::Digest;
use vstd::prelude::*;
use vstd::utf8::encode_scalar;
use vstd::utf8::encode_utf8;
use vstd::utf8::encode_utf8_decode_utf8;

verus! {

/// Number of bytes in a dispatch identifier.
pub const DISPATCH_LEN: usize = 8;

/// The SHA-256 digest of a byte string.
pub uninterp spec fn sha256(bytes: Seq<u8>) -> Seq<u8>;

/// Hashes `bytes` with `sha2::Sha256` (`new`, `update`, `finalize`).
/// Trusted: the 32 bytes that come back are the SHA-256 digest of the
/// input and depend on nothing else.
#[verifier::external_body]
fn sha256_digest(bytes: &[u8]) -> (digest: [u8; 32])
    ensures
        digest@ == sha256(bytes@),
{
    let mut hasher = sha2::Sha256::new();
    hasher.update(bytes);
    hasher.finalize().into()
}

/// The text that is hashed for a method: `namespace`, a colon, `name`.
pub open spec fn dispatch_text(namespace: Seq<char>, name: Seq<char>) -> Seq<char> {
    namespace + seq![':'] + name
}

/// The bytes that are hashed for a method: the UTF-8 encoding of
/// [`dispatch_text`].
pub open spec fn dispatch_preimage(namespace: Seq<char>, name: Seq<char>) -> Seq<u8> {
    encode_utf8(dispatch_text(namespace, name))
}

/// The leading [`DISPATCH_LEN`] bytes of a digest.
pub open spec fn digest_prefix(digest: Seq<u8>) -> Seq<u8> {
    digest.subrange(0, DISPATCH_LEN as int)
}

/// The dispatch identifier of `namespace:name`.
pub open spec fn dispatch_id(namespace: Seq<char>, name: Seq<char>) -> Seq<u8> {
    digest_prefix(sha256(dispatch_preimage(namespace, name)))
}

/// UTF-8 encoding distributes over concatenation.
pub proof fn lemma_encode_utf8_concat(a: Seq<char>, b: Seq<char>)
    ensures
        encode_utf8(a + b) == encode_utf8(a) + encode_utf8(b),
    decreases a.len(),
{
    if a.len() == 0 {
        assert(a + b =~= b);
        assert(encode_utf8(a) + encode_utf8(b) =~= encode_utf8(b));
    } else {
        lemma_encode_utf8_concat(a.drop_first(), b);
        assert((a + b).drop_first() =~= a.drop_first() + b);
        assert((a + b)[0] == a[0]);
        assert(encode_utf8(a + b) =~= encode_scalar(a[0] as u32) + (encode_utf8(a.drop_first())
            + encode_utf8(b)));
    }
}

/// A colon is encoded as the single byte `0x3a`.
pub proof fn lemma_colon_encoding()
    ensures
        encode_utf8(seq![':']) == seq![0x3au8],
{
    let colon = seq![':'];
    assert(':' as u32 == 0x3a);
    assert((0x3au32 & 0x7f) as u8 == 0x3au8) by (bit_vector);
    assert(encode_scalar(0x3au32) =~= seq![0x3au8]);
    assert(colon.drop_first() =~= Seq::<char>::empty());
    assert(encode_utf8(colon.drop_first()) =~= Seq::<u8>::empty());
    assert(encode_utf8(colon) =~= encode_scalar(colon[0] as u32) + encode_utf8(colon.drop_first()));
}

/// The preimage is the two encoded parts with the byte `0x3a` between them.
pub proof fn lemma_preimage_parts(namespace: Seq<char>, name: Seq<char>)
    ensures
        dispatch_preimage(namespace, name) == encode_utf8(namespace) + seq![0x3au8] + encode_utf8(
            name,
        ),
{
    lemma_colon_encoding();
    lemma_encode_utf8_concat(namespace, seq![':']);
    lemma_encode_utf8_concat(namespace + seq![':'], name);
}

/// Builds the bytes that [`dispatch_sig`] hashes.
pub fn dispatch_preimage_bytes(namespace: &str, name: &str) -> (preimage: Vec<u8>)
    ensures
        preimage@ == dispatch_preimage(namespace@, name@),
{
    let mut preimage: Vec<u8> = Vec::new();
    preimage.extend_from_slice(namespace.as_bytes());
    preimage.push(0x3au8);
    preimage.extend_from_slice(name.as_bytes());
    proof {
        lemma_preimage_parts(namespace@, name@);
        assert(preimage@ =~= encode_utf8(namespace@) + seq![0x3au8] + encode_utf8(name@));
    }
    preimage
}

/// Keeps the leading eight bytes of a digest.
pub fn truncate_digest(digest: &[u8; 32]) -> (sig: [u8; 8])
    ensures
        sig@ == digest_prefix(digest@),
{
    let sig = [
        digest[0],
        digest[1],
        digest[2],
        digest[3],
        digest[4],
        digest[5],
        digest[6],
        digest[7],
    ];
    assert(sig@ =~= digest_prefix(digest@));
    sig
}

/// The eight-byte identifier under which a program dispatches the method
/// `name` of `namespace`.
pub fn dispatch_sig(namespace: &str, name: &str) -> (sig: [u8; 8])
    ensures
        sig@ == dispatch_id(namespace@, name@),
{
    let preimage = dispatch_preimage_bytes(namespace, name);
    let digest = sha256_digest(preimage.as_slice());
    truncate_digest(&digest)
}

/// The encoder is a function: whatever two calls return for the same
/// namespace and name is the same eight bytes.
pub proof fn lemma_dispatch_deterministic(
    namespace: Seq<char>,
    name: Seq<char>,
    first: [u8; 8],
    second: [u8; 8],
)
    requires
        first@ == dispatch_id(namespace, name),
        second@ == dispatch_id(namespace, name),
    ensures
        first == second,
{
    assert(first =~= second);
}

/// Within one namespace, distinct names are hashed from distinct bytes.
/// (That their digests differ as well is a property of SHA-256 that is
/// not proved here.)
pub proof fn lemma_distinct_names_distinct_preimages(
    namespace: Seq<char>,
    first: Seq<char>,
    second: Seq<char>,
)
    requires
        first != second,
    ensures
        dispatch_preimage(namespace, first) != dispatch_preimage(namespace, second),
{
    let a = dispatch_text(namespace, first);
    let b = dispatch_text(namespace, second);
    if a == b {
        let skip = namespace.len() + 1;
        assert(a.subrange(skip as int, a.len() as int) =~= first);
        assert(b.subrange(skip as int, b.len() as int) =~= second);
    }
    encode_utf8_decode_utf8(a);
    encode_utf8_decode_utf8(b);
}

/// An instruction payload: the dispatch identifier followed by the
/// handler's own arguments.
pub open spec fn payload(namespace: Seq<char>, name: Seq<char>, args: Seq<u8>) -> Seq<u8> {
    dispatch_id(namespace, name) + args
}

/// Builds the payload that routes `args` to the method `name` of
/// `namespace`.
pub fn instruction_data(namespace: &str, name: &str, args: &[u8]) -> (data: Vec<u8>)
    ensures
        data@ == payload(namespace@, name@, args@),
{
    let sig = dispatch_sig(namespace, name);
    let mut data: Vec<u8> = Vec::new();
    data.extend_from_slice(sig.as_slice());
    data.extend_from_slice(args);
    assert(data@ =~= payload(namespace@, name@, args@));
    data
}

} // verus!
