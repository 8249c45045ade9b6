//! Typed views of raw account data: a record is decoded only if the data
//! starts with the eight-byte discriminator of the expected type.

use vstd::prelude::*;

verus! {

/// Number of bytes in an account discriminator.
pub const DISCRIMINATOR_LEN: usize = 8;

/// Why an account could not be read as a typed record.
#[derive(Clone, Copy, Debug, PartialEq, Eq, Structural)]
pub enum TestError {
    /// The ledger has no account at the address.
    AccountNotFound,
    /// The data does not start with the expected discriminator.
    BadDiscriminator,
    /// The data carries the discriminator but its payload is malformed.
    CannotDeserialize,
    /// The lookup itself failed.
    UnknownError,
}

/// `data` starts with the eight bytes of `tag`.
pub open spec fn has_discriminator(data: Seq<u8>, tag: Seq<u8>) -> bool {
    data.len() >= DISCRIMINATOR_LEN && data.subrange(0, DISCRIMINATOR_LEN as int) == tag
}

/// What becomes of a decoder's answer: a record is handed on, any
/// failure is reported as a malformed payload.
pub open spec fn decoded_record<T, E>(decoded: Result<T, E>) -> Result<T, TestError> {
    match decoded {
        Ok(record) => Ok(record),
        Err(_) => Err(TestError::CannotDeserialize),
    }
}

/// Only the first eight bytes of the data decide whether it carries a
/// discriminator: what follows them makes no difference.
pub proof fn lemma_discriminator_ignores_payload(
    head: Seq<u8>,
    first: Seq<u8>,
    second: Seq<u8>,
    tag: Seq<u8>,
)
    requires
        head.len() == DISCRIMINATOR_LEN,
    ensures
        has_discriminator(head + first, tag) == has_discriminator(head + second, tag),
        has_discriminator(head + first, tag) == (head == tag),
{
    assert((head + first).subrange(0, DISCRIMINATOR_LEN as int) =~= head);
    assert((head + second).subrange(0, DISCRIMINATOR_LEN as int) =~= head);
}

/// Whether `data` starts with the discriminator `tag`.
pub fn discriminator_matches(data: &[u8], tag: &[u8; 8]) -> (matches: bool)
    ensures
        matches == has_discriminator(data@, tag@),
{
    if data.len() < DISCRIMINATOR_LEN {
        return false;
    }
    let mut i: usize = 0;
    while i < DISCRIMINATOR_LEN
        invariant
            i <= DISCRIMINATOR_LEN,
            data.len() >= DISCRIMINATOR_LEN,
            forall|j: int| 0 <= j < i ==> data@[j] == tag@[j],
        decreases DISCRIMINATOR_LEN - i,
    {
        if data[i] != tag[i] {
            assert(data@.subrange(0, DISCRIMINATOR_LEN as int)[i as int] != tag@[i as int]);
            return false;
        }
        i += 1;
    }
    assert(data@.subrange(0, DISCRIMINATOR_LEN as int) =~= tag@);
    true
}

/// Turns a decoder's answer into the harness's result.
pub fn finish_decode<T, E>(decoded: Result<T, E>) -> (record: Result<T, TestError>)
    ensures
        record == decoded_record(decoded),
{
    match decoded {
        Ok(record) => Ok(record),
        Err(_) => Err(TestError::CannotDeserialize),
    }
}

/// Decodes account data as a record of the type whose discriminator is
/// `tag`. Data that does not start with `tag` is refused whatever
/// follows; otherwise `decode` is given the whole of the data and its
/// answer decides.
pub fn deserialize<T, E, F: FnOnce(&[u8]) -> Result<T, E>>(data: &[u8], tag: &[u8; 8], decode: F) -> (record:
    Result<T, TestError>)
    requires
        has_discriminator(data@, tag@) ==> decode.requires((data,)),
    ensures
        !has_discriminator(data@, tag@) ==> record == Err::<T, TestError>(
            TestError::BadDiscriminator,
        ),
        has_discriminator(data@, tag@) ==> exists|decoded: Result<T, E>|
            decode.ensures((data,), decoded) && record == decoded_record(decoded),
{
    if !discriminator_matches(data, tag) {
        return Err(TestError::BadDiscriminator);
    }
    let decoded = decode(data);
    finish_decode(decoded)
}

/// What a lookup of an account yields once the ledger has answered:
/// a failed lookup is an unknown error, a missing account is reported
/// as such, and found data is decoded as by [`deserialize`].
pub fn try_get<T, E, L, F: FnOnce(&[u8]) -> Result<T, E>>(
    lookup: Result<Option<&[u8]>, L>,
    tag: &[u8; 8],
    decode: F,
) -> (record: Result<T, TestError>)
    requires
        forall|data: &[u8]|
            lookup == Ok::<Option<&[u8]>, L>(Some(data)) && has_discriminator(data@, tag@)
                ==> decode.requires((data,)),
    ensures
        lookup is Err ==> record == Err::<T, TestError>(TestError::UnknownError),
        lookup == Ok::<Option<&[u8]>, L>(None) ==> record == Err::<T, TestError>(
            TestError::AccountNotFound,
        ),
        forall|data: &[u8]|
            lookup == Ok::<Option<&[u8]>, L>(Some(data)) ==> {
                &&& !has_discriminator(data@, tag@) ==> record == Err::<T, TestError>(
                    TestError::BadDiscriminator,
                )
                &&& has_discriminator(data@, tag@) ==> exists|decoded: Result<T, E>|
                    decode.ensures((data,), decoded) && record == decoded_record(decoded)
            },
{
    match lookup {
        Err(_) => Err(TestError::UnknownError),
        Ok(None) => Err(TestError::AccountNotFound),
        Ok(Some(data)) => deserialize(data, tag, decode),
    }
}

} // verus!
