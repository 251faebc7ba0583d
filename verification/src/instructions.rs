//! The four instructions the program exposes: initialize a mint with its
//! display metadata, mint new supply, transfer between holdings, and burn.
//!
//! Each handler is a function from the current ledger, the instruction's
//! account list and its arguments to either the next ledger or an error.
//! It first checks the account relationships that the program declares —
//! required signatures, the program's derived addresses, the holding
//! constraints — and then delegates the state change to the ledger
//! operations, exactly as the on-chain program validates its accounts and
//! then invokes the external programs. A rejected call, whichever check
//! rejects it, leaves every record unchanged.
//!
//! The runtime derives a handful of addresses from fixed seeds: the program's
//! single mint address, the metadata address for that mint, and the
//! associated holding address of an owner for a mint. Deriving them takes a
//! hash the runtime computes; here they are plain parameters (`mint_pda`,
//! `metadata_pda`, `payer_ata`, `owner_ata`) that the caller passes in.

use vstd::prelude::*;
use crate::ledger::balance_or_zero;
use crate::ledger::burn_err;
use crate::ledger::made_holding;
use crate::ledger::made_metadata;
use crate::ledger::mint_with_supply;
use crate::ledger::new_mint_record;
use crate::ledger::transfer_err;
use crate::ledger::transfer_post_holdings;
use crate::ledger::Ledger;
use crate::records::HoldingRecord;
use crate::records::MintRecord;
use crate::records::TokenError;

verus! {

/// The arguments of `init_token`: the display data and decimal precision of
/// the token to create.
#[derive(Clone, Debug)]
pub struct InitTokenParams {
    pub name: String,
    pub symbol: String,
    pub uri: String,
    pub decimals: u8,
}

/// The account list of `init_token`: the metadata account to create, the
/// mint account to create, and the payer, who must sign.
#[derive(Clone, Copy, PartialEq, Eq, Structural, Debug)]
pub struct InitToken {
    pub metadata: u64,
    pub mint: u64,
    pub payer: u64,
    pub payer_is_signer: bool,
}

/// The account list of `mint_tokens`: the program's mint, the destination
/// holding (the payer's associated holding, created on first use), and the
/// payer, who must sign.
#[derive(Clone, Copy, PartialEq, Eq, Structural, Debug)]
pub struct MintTokens {
    pub mint: u64,
    pub destination: u64,
    pub payer: u64,
    pub payer_is_signer: bool,
}

/// The account list of `burn_tokens`: the program's mint, the source holding
/// (the owner's associated holding of that mint), and the owner, who must
/// sign.
#[derive(Clone, Copy, PartialEq, Eq, Structural, Debug)]
pub struct BurnTokens {
    pub mint: u64,
    pub source: u64,
    pub owner: u64,
    pub owner_is_signer: bool,
}

/// The account list of `transfer_tokens`: the source and destination
/// holdings, the payer and the authority — the source's owner — both of whom
/// must sign, and the mint.
#[derive(Clone, Copy, PartialEq, Eq, Structural, Debug)]
pub struct TransferTokens {
    pub source: u64,
    pub destination: u64,
    pub payer: u64,
    pub payer_is_signer: bool,
    pub authority: u64,
    pub authority_is_signer: bool,
    pub mint: u64,
}

/// Why `init_token` rejects, or `None` if it succeeds.
pub open spec fn init_token_err(
    l: Ledger,
    ctx: InitToken,
    mint_pda: u64,
    metadata_pda: u64,
) -> Option<TokenError> {
    if !ctx.payer_is_signer {
        Some(TokenError::MissingSignature)
    } else if ctx.mint != mint_pda {
        Some(TokenError::WrongMintAddress)
    } else if l.mints@.contains_key(ctx.mint) {
        Some(TokenError::MintAlreadyExists)
    } else if ctx.metadata != metadata_pda {
        Some(TokenError::WrongMetadataAddress)
    } else if l.metadata@.contains_key(ctx.mint) {
        Some(TokenError::MetadataAlreadyExists)
    } else {
        None
    }
}

/// The ledger after a successful `init_token`: a fresh mint record with the
/// requested precision, whose authority is the mint itself, and a metadata
/// record with the requested display data. Holdings are untouched.
pub open spec fn init_token_ok_post(
    pre: Ledger,
    post: Ledger,
    ctx: InitToken,
    params: InitTokenParams,
) -> bool {
    &&& post.mints@ == pre.mints@.insert(ctx.mint, new_mint_record(params.decimals, ctx.mint))
    &&& post.holdings == pre.holdings
    &&& post.metadata@ == pre.metadata@.insert(
        ctx.mint,
        made_metadata(params.name, params.symbol, params.uri),
    )
}

/// Create the program's token: a mint record at the program's derived mint
/// address, with the mint itself as its authority, and a metadata record
/// with the given display data.
pub fn init_token(
    ledger: &mut Ledger,
    ctx: InitToken,
    params: InitTokenParams,
    mint_pda: u64,
    metadata_pda: u64,
) -> (r: Result<(), TokenError>)
    ensures
        match r {
            Ok(_) => init_token_err(*old(ledger), ctx, mint_pda, metadata_pda) is None
                && init_token_ok_post(*old(ledger), *final(ledger), ctx, params),
            Err(e) => init_token_err(*old(ledger), ctx, mint_pda, metadata_pda) == Some(e)
                && *final(ledger) == *old(ledger),
        },
{
    if !ctx.payer_is_signer {
        return Err(TokenError::MissingSignature);
    }
    if ctx.mint != mint_pda {
        return Err(TokenError::WrongMintAddress);
    }
    if ledger.mints.contains_key(&ctx.mint) {
        return Err(TokenError::MintAlreadyExists);
    }
    if ctx.metadata != metadata_pda {
        return Err(TokenError::WrongMetadataAddress);
    }
    if ledger.metadata.contains_key(&ctx.mint) {
        return Err(TokenError::MetadataAlreadyExists);
    }
    match ledger.create_mint(ctx.mint, params.decimals, ctx.mint) {
        Ok(_) => {},
        Err(e) => { return Err(e) },
    }
    match ledger.create_metadata(ctx.mint, ctx.mint, params.name, params.symbol, params.uri) {
        Ok(_) => {},
        Err(e) => { return Err(e) },
    }
    Ok(())
}

/// Why `mint_tokens` rejects, or `None` if it succeeds.
pub open spec fn mint_tokens_err(
    l: Ledger,
    ctx: MintTokens,
    quantity: u64,
    mint_pda: u64,
    payer_ata: u64,
) -> Option<TokenError> {
    if !ctx.payer_is_signer {
        Some(TokenError::MissingSignature)
    } else if ctx.mint != mint_pda {
        Some(TokenError::WrongMintAddress)
    } else if !l.mints@.contains_key(ctx.mint) {
        Some(TokenError::MintNotFound)
    } else if l.mints@[ctx.mint].mint_authority != ctx.mint {
        Some(TokenError::WrongMintAuthority)
    } else if ctx.destination != payer_ata {
        Some(TokenError::WrongDestinationAddress)
    } else if l.holdings@.contains_key(ctx.destination) && l.holdings@[ctx.destination].mint
        != ctx.mint {
        Some(TokenError::HoldingMintMismatch)
    } else if l.holdings@.contains_key(ctx.destination) && l.holdings@[ctx.destination].owner
        != ctx.payer {
        Some(TokenError::HoldingOwnerMismatch)
    } else if l.mints@[ctx.mint].supply + quantity > u64::MAX {
        Some(TokenError::SupplyOverflow)
    } else if balance_or_zero(l, ctx.destination) + quantity > u64::MAX {
        Some(TokenError::BalanceOverflow)
    } else {
        None
    }
}

/// The ledger after a successful `mint_tokens`: the destination holding —
/// created empty first if it did not exist — gains exactly `quantity`, and
/// the mint's supply grows by exactly `quantity`. Metadata is untouched.
pub open spec fn mint_tokens_ok_post(
    pre: Ledger,
    post: Ledger,
    ctx: MintTokens,
    quantity: u64,
) -> bool {
    &&& post.mints@ == pre.mints@.insert(
        ctx.mint,
        mint_with_supply(pre.mints@[ctx.mint], (pre.mints@[ctx.mint].supply + quantity) as u64),
    )
    &&& post.holdings@ == pre.holdings@.insert(
        ctx.destination,
        made_holding(ctx.mint, ctx.payer, (balance_or_zero(pre, ctx.destination) + quantity) as u64),
    )
    &&& post.metadata == pre.metadata
}

/// Mint `quantity` new tokens to the payer's associated holding, creating
/// that holding first if it does not exist yet. Only the program's mint —
/// which is its own authority — can be minted from.
pub fn mint_tokens(
    ledger: &mut Ledger,
    ctx: MintTokens,
    quantity: u64,
    mint_pda: u64,
    payer_ata: u64,
) -> (r: Result<(), TokenError>)
    ensures
        match r {
            Ok(_) => mint_tokens_err(*old(ledger), ctx, quantity, mint_pda, payer_ata) is None
                && mint_tokens_ok_post(*old(ledger), *final(ledger), ctx, quantity),
            Err(e) => mint_tokens_err(*old(ledger), ctx, quantity, mint_pda, payer_ata) == Some(e)
                && *final(ledger) == *old(ledger),
        },
{
    if !ctx.payer_is_signer {
        return Err(TokenError::MissingSignature);
    }
    if ctx.mint != mint_pda {
        return Err(TokenError::WrongMintAddress);
    }
    let mint_rec: MintRecord = match ledger.mints.get(&ctx.mint) {
        Some(m) => *m,
        None => { return Err(TokenError::MintNotFound) },
    };
    if mint_rec.mint_authority != ctx.mint {
        return Err(TokenError::WrongMintAuthority);
    }
    if ctx.destination != payer_ata {
        return Err(TokenError::WrongDestinationAddress);
    }
    let dest_rec: Option<HoldingRecord> = match ledger.holdings.get(&ctx.destination) {
        Some(h) => Some(*h),
        None => None,
    };
    let dest_balance: u64 = match dest_rec {
        Some(h) => {
            if h.mint != ctx.mint {
                return Err(TokenError::HoldingMintMismatch);
            }
            if h.owner != ctx.payer {
                return Err(TokenError::HoldingOwnerMismatch);
            }
            h.balance
        },
        None => 0,
    };
    // Both arithmetic conditions are checked before the holding is created,
    // so that a rejected request changes nothing at all.
    if quantity > u64::MAX - mint_rec.supply {
        return Err(TokenError::SupplyOverflow);
    }
    if quantity > u64::MAX - dest_balance {
        return Err(TokenError::BalanceOverflow);
    }
    if dest_rec.is_none() {
        match ledger.create_holding(ctx.destination, ctx.mint, ctx.payer) {
            Ok(_) => {},
            Err(e) => { return Err(e) },
        }
    }
    match ledger.mint_to(ctx.mint, ctx.destination, ctx.mint, quantity) {
        Ok(_) => {},
        Err(e) => { return Err(e) },
    }
    proof {
        assert(ledger.holdings@ =~= old(ledger).holdings@.insert(
            ctx.destination,
            made_holding(
                ctx.mint,
                ctx.payer,
                (balance_or_zero(*old(ledger), ctx.destination) + quantity) as u64,
            ),
        ));
    }
    Ok(())
}

/// Why `transfer_tokens` rejects, or `None` if it succeeds. The source must
/// be an existing holding, payer and authority must sign, the mint must
/// exist; the rest is the token program's own transfer check.
pub open spec fn transfer_tokens_err(
    l: Ledger,
    ctx: TransferTokens,
    quantity: u64,
) -> Option<TokenError> {
    if !l.holdings@.contains_key(ctx.source) {
        Some(TokenError::HoldingNotFound)
    } else if !ctx.payer_is_signer {
        Some(TokenError::MissingSignature)
    } else if !ctx.authority_is_signer {
        Some(TokenError::MissingSignature)
    } else if !l.mints@.contains_key(ctx.mint) {
        Some(TokenError::MintNotFound)
    } else {
        transfer_err(l, ctx.source, ctx.destination, ctx.authority, quantity)
    }
}

/// The ledger after a successful `transfer_tokens`: exactly `quantity` moved
/// from the source holding to the destination holding. Mints and metadata
/// are untouched.
pub open spec fn transfer_tokens_ok_post(
    pre: Ledger,
    post: Ledger,
    ctx: TransferTokens,
    quantity: u64,
) -> bool {
    &&& post.holdings@ == transfer_post_holdings(pre, ctx.source, ctx.destination, quantity)
    &&& post.mints == pre.mints
    &&& post.metadata == pre.metadata
}

/// Transfer `quantity` tokens from the source holding to the destination
/// holding, on the source owner's signature.
pub fn transfer_tokens(ledger: &mut Ledger, ctx: TransferTokens, quantity: u64) -> (r: Result<
    (),
    TokenError,
>)
    ensures
        match r {
            Ok(_) => transfer_tokens_err(*old(ledger), ctx, quantity) is None
                && transfer_tokens_ok_post(*old(ledger), *final(ledger), ctx, quantity),
            Err(e) => transfer_tokens_err(*old(ledger), ctx, quantity) == Some(e) && *final(ledger)
                == *old(ledger),
        },
{
    if !ledger.holdings.contains_key(&ctx.source) {
        return Err(TokenError::HoldingNotFound);
    }
    if !ctx.payer_is_signer {
        return Err(TokenError::MissingSignature);
    }
    if !ctx.authority_is_signer {
        return Err(TokenError::MissingSignature);
    }
    if !ledger.mints.contains_key(&ctx.mint) {
        return Err(TokenError::MintNotFound);
    }
    ledger.transfer(ctx.source, ctx.destination, ctx.authority, quantity)
}

/// Why `burn_tokens` rejects, or `None` if it succeeds. The owner must sign,
/// the mint must be the program's mint, and the source must be the owner's
/// associated holding of it; the rest is the token program's own burn check.
pub open spec fn burn_tokens_err(
    l: Ledger,
    ctx: BurnTokens,
    quantity: u64,
    mint_pda: u64,
    owner_ata: u64,
) -> Option<TokenError> {
    if !ctx.owner_is_signer {
        Some(TokenError::MissingSignature)
    } else if ctx.mint != mint_pda {
        Some(TokenError::WrongMintAddress)
    } else if !l.mints@.contains_key(ctx.mint) {
        Some(TokenError::MintNotFound)
    } else if ctx.source != owner_ata {
        Some(TokenError::WrongSourceAddress)
    } else if !l.holdings@.contains_key(ctx.source) {
        Some(TokenError::HoldingNotFound)
    } else if l.holdings@[ctx.source].mint != ctx.mint {
        Some(TokenError::HoldingMintMismatch)
    } else if l.holdings@[ctx.source].owner != ctx.owner {
        Some(TokenError::HoldingOwnerMismatch)
    } else {
        burn_err(l, ctx.mint, ctx.source, ctx.owner, quantity)
    }
}

/// The ledger after a successful `burn_tokens`: the source holding and the
/// mint's supply both shrink by exactly `quantity`. Metadata is untouched.
pub open spec fn burn_tokens_ok_post(
    pre: Ledger,
    post: Ledger,
    ctx: BurnTokens,
    quantity: u64,
) -> bool {
    &&& post.mints@ == pre.mints@.insert(
        ctx.mint,
        mint_with_supply(pre.mints@[ctx.mint], (pre.mints@[ctx.mint].supply - quantity) as u64),
    )
    &&& post.holdings@ == pre.holdings@.insert(
        ctx.source,
        made_holding(
            ctx.mint,
            ctx.owner,
            (pre.holdings@[ctx.source].balance - quantity) as u64,
        ),
    )
    &&& post.metadata == pre.metadata
}

/// Burn `quantity` tokens out of the owner's associated holding of the
/// program's mint, on the owner's signature.
pub fn burn_tokens(
    ledger: &mut Ledger,
    ctx: BurnTokens,
    quantity: u64,
    mint_pda: u64,
    owner_ata: u64,
) -> (r: Result<(), TokenError>)
    ensures
        match r {
            Ok(_) => burn_tokens_err(*old(ledger), ctx, quantity, mint_pda, owner_ata) is None
                && burn_tokens_ok_post(*old(ledger), *final(ledger), ctx, quantity),
            Err(e) => burn_tokens_err(*old(ledger), ctx, quantity, mint_pda, owner_ata) == Some(e)
                && *final(ledger) == *old(ledger),
        },
{
    if !ctx.owner_is_signer {
        return Err(TokenError::MissingSignature);
    }
    if ctx.mint != mint_pda {
        return Err(TokenError::WrongMintAddress);
    }
    if !ledger.mints.contains_key(&ctx.mint) {
        return Err(TokenError::MintNotFound);
    }
    if ctx.source != owner_ata {
        return Err(TokenError::WrongSourceAddress);
    }
    let src_rec: HoldingRecord = match ledger.holdings.get(&ctx.source) {
        Some(h) => *h,
        None => { return Err(TokenError::HoldingNotFound) },
    };
    if src_rec.mint != ctx.mint {
        return Err(TokenError::HoldingMintMismatch);
    }
    if src_rec.owner != ctx.owner {
        return Err(TokenError::HoldingOwnerMismatch);
    }
    ledger.burn(ctx.mint, ctx.source, ctx.owner, quantity)
}

} // verus!
