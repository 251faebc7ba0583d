//! The record types that the external token and metadata programs keep, and
//! the errors with which they reject a request.
//!
//! Addresses are modelled as plain `u64` handles: the logic only ever compares
//! addresses for equality and uses them as map keys.

use vstd::prelude::*;

verus! {

/// The external token program's record of one fungible token type:
/// its total supply, its decimal precision, and the single address that is
/// allowed to mint new supply.
#[derive(Clone, Copy, PartialEq, Eq, Structural, Debug)]
pub struct MintRecord {
    pub supply: u64,
    pub decimals: u8,
    pub mint_authority: u64,
}

/// The external token program's record of one account's balance of one mint.
#[derive(Clone, Copy, PartialEq, Eq, Structural, Debug)]
pub struct HoldingRecord {
    pub mint: u64,
    pub owner: u64,
    pub balance: u64,
}

/// The external metadata program's record of a token's display data,
/// created once per mint and never updated afterwards.
#[derive(Clone, Debug)]
pub struct MetadataRecord {
    pub name: String,
    pub symbol: String,
    pub uri: String,
}

/// The ways in which the runtime, the token program or the metadata program
/// reject a request. A rejection aborts the whole request: no record changes.
#[derive(Clone, Copy, PartialEq, Eq, Structural, Debug)]
pub enum TokenError {
    /// A required authority did not sign the request.
    MissingSignature,
    /// The given mint account is not the program's derived mint address.
    WrongMintAddress,
    /// The given metadata account is not the derived metadata address.
    WrongMetadataAddress,
    /// A record already exists where a new one was to be created.
    MintAlreadyExists,
    /// A metadata record already exists for this mint.
    MetadataAlreadyExists,
    /// A holding record already exists where a new one was to be created.
    HoldingAlreadyExists,
    /// No mint record exists at the given address.
    MintNotFound,
    /// The mint's authority is not the account that signed for minting.
    WrongMintAuthority,
    /// The given destination is not the derived holding address.
    WrongDestinationAddress,
    /// The given source is not the derived holding address.
    WrongSourceAddress,
    /// No holding record exists at the given address.
    HoldingNotFound,
    /// A holding record belongs to a different mint than required.
    HoldingMintMismatch,
    /// A holding record belongs to a different owner than required.
    HoldingOwnerMismatch,
    /// The source holding's balance is smaller than the requested quantity.
    InsufficientBalance,
    /// Minting would push the total supply past the largest representable value.
    SupplyOverflow,
    /// Burning would take more out of the total supply than it holds.
    SupplyUnderflow,
    /// The change would push a holding's balance past the largest representable value.
    BalanceOverflow,
}

} // verus!
