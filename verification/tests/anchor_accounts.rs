use anchor_lang::error::ErrorCode;
use anchor_lang::AccountDeserialize;
use anchor_lang::Discriminator;
use clob_harness::dispatch::dispatch_sig;
use clob_harness::state::deserialize;
use clob_harness::state::try_get;
use clob_harness::state::TestError;

#[derive(Debug, PartialEq, Eq)]
struct Market {
    base_lots: u64,
}

impl Discriminator for Market {
    const DISCRIMINATOR: [u8; 8] = [219, 190, 213, 55, 0, 227, 198, 154];
}

impl AccountDeserialize for Market {
    fn try_deserialize(buf: &mut &[u8]) -> anchor_lang::Result<Self> {
        if buf.len() < 8 || buf[..8] != Self::DISCRIMINATOR {
            return Err(ErrorCode::AccountDiscriminatorMismatch.into());
        }
        Self::try_deserialize_unchecked(buf)
    }

    fn try_deserialize_unchecked(buf: &mut &[u8]) -> anchor_lang::Result<Self> {
        let body = &buf[8..];
        if body.len() != 8 {
            return Err(ErrorCode::AccountDidNotDeserialize.into());
        }
        let mut lots = [0u8; 8];
        lots.copy_from_slice(body);
        Ok(Market { base_lots: u64::from_le_bytes(lots) })
    }
}

fn read<T: AccountDeserialize + Discriminator>(data: &[u8]) -> Result<T, TestError> {
    deserialize(data, &T::discriminator(), |mut bytes: &[u8]| T::try_deserialize(&mut bytes))
}

fn look_up<T: AccountDeserialize + Discriminator>(
    found: &Result<Option<Vec<u8>>, String>,
) -> Result<T, TestError> {
    let lookup = found.as_ref().map(|account| account.as_ref().map(|data| data.as_slice()));
    try_get(lookup, &T::discriminator(), |mut bytes: &[u8]| T::try_deserialize(&mut bytes))
}

fn market_bytes(tag: [u8; 8], body: &[u8]) -> Vec<u8> {
    let mut data = tag.to_vec();
    data.extend_from_slice(body);
    data
}

#[test]
fn account_tag_is_the_dispatch_identifier_of_its_name() {
    assert_eq!(dispatch_sig("account", "Market"), Market::DISCRIMINATOR);
}

#[test]
fn anchor_account_is_read_behind_its_tag() {
    let data = market_bytes(Market::DISCRIMINATOR, &77u64.to_le_bytes());
    assert_eq!(read::<Market>(&data), Ok(Market { base_lots: 77 }));
}

#[test]
fn anchor_account_with_a_foreign_tag_is_refused() {
    for body in [&[][..], &77u64.to_le_bytes()[..], &[0xffu8; 40][..]] {
        let data = market_bytes(dispatch_sig("account", "Order"), body);
        assert_eq!(read::<Market>(&data), Err(TestError::BadDiscriminator));
    }
}

#[test]
fn anchor_account_with_a_malformed_payload_is_reported() {
    let data = market_bytes(Market::DISCRIMINATOR, &[1, 2, 3]);
    assert_eq!(read::<Market>(&data), Err(TestError::CannotDeserialize));
}

#[test]
fn anchor_account_lookup_covers_the_four_errors() {
    let failed: Result<Option<Vec<u8>>, String> = Err("timed out".to_string());
    assert_eq!(look_up::<Market>(&failed), Err(TestError::UnknownError));
    assert_eq!(look_up::<Market>(&Ok(None)), Err(TestError::AccountNotFound));
    let foreign = market_bytes([0; 8], &77u64.to_le_bytes());
    assert_eq!(look_up::<Market>(&Ok(Some(foreign))), Err(TestError::BadDiscriminator));
    let malformed = market_bytes(Market::DISCRIMINATOR, &[]);
    assert_eq!(look_up::<Market>(&Ok(Some(malformed))), Err(TestError::CannotDeserialize));
    let good = market_bytes(Market::DISCRIMINATOR, &5u64.to_le_bytes());
    assert_eq!(look_up::<Market>(&Ok(Some(good))), Ok(Market { base_lots: 5 }));
}
