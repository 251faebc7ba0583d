//! The laws of the four instructions, stated over the handlers' own
//! specification functions and proved once and for all.
//!
//! Each lemma speaks of one call: `pre` is the ledger before it, `post` the
//! ledger after it. That `post` relates to `pre` as the handler's `Ok`
//! contract says is exactly what the handler ensures, so the lemmas apply to
//! every accepted call. For a rejected call no lemma is needed: every
//! handler's contract already says that an error leaves the ledger exactly
//! as it was.

use vstd::prelude::*;
use crate::instructions::burn_tokens_err;
use crate::instructions::burn_tokens_ok_post;
use crate::instructions::init_token_err;
use crate::instructions::init_token_ok_post;
use crate::instructions::mint_tokens_err;
use crate::instructions::mint_tokens_ok_post;
use crate::instructions::transfer_tokens_err;
use crate::instructions::transfer_tokens_ok_post;
use crate::instructions::BurnTokens;
use crate::instructions::InitToken;
use crate::instructions::InitTokenParams;
use crate::instructions::MintTokens;
use crate::instructions::TransferTokens;
use crate::ledger::balance_or_zero;
use crate::ledger::Ledger;
use crate::records::TokenError;

verus! {

/// After any accepted initialize call, a mint record exists at the mint's
/// address with no supply, the supplied decimals, and the mint itself as its
/// authority; a metadata record exists there with the supplied name, symbol
/// and uri; and no holding changed.
pub proof fn lemma_init_token_creates_records(
    pre: Ledger,
    post: Ledger,
    ctx: InitToken,
    params: InitTokenParams,
    mint_pda: u64,
    metadata_pda: u64,
)
    requires
        init_token_err(pre, ctx, mint_pda, metadata_pda) is None,
        init_token_ok_post(pre, post, ctx, params),
    ensures
        post.mints@.contains_key(ctx.mint),
        post.mints@[ctx.mint].supply == 0,
        post.mints@[ctx.mint].decimals == params.decimals,
        post.mints@[ctx.mint].mint_authority == ctx.mint,
        post.metadata@.contains_key(ctx.mint),
        post.metadata@[ctx.mint].name == params.name,
        post.metadata@[ctx.mint].symbol == params.symbol,
        post.metadata@[ctx.mint].uri == params.uri,
        post.holdings@ == pre.holdings@,
{
}

/// Any accepted mint call of quantity `quantity` raises the destination
/// holding's balance by exactly `quantity` — from zero if the holding was
/// only now created — and the mint's supply by exactly `quantity`; every
/// other record stays as it was.
pub proof fn lemma_mint_tokens_increases_balance_and_supply(
    pre: Ledger,
    post: Ledger,
    ctx: MintTokens,
    quantity: u64,
    mint_pda: u64,
    payer_ata: u64,
)
    requires
        mint_tokens_err(pre, ctx, quantity, mint_pda, payer_ata) is None,
        mint_tokens_ok_post(pre, post, ctx, quantity),
    ensures
        post.holdings@.contains_key(ctx.destination),
        post.holdings@[ctx.destination].balance == balance_or_zero(pre, ctx.destination)
            + quantity,
        post.mints@.contains_key(ctx.mint),
        post.mints@[ctx.mint].supply == pre.mints@[ctx.mint].supply + quantity,
        post.mints@[ctx.mint].decimals == pre.mints@[ctx.mint].decimals,
        forall|a: u64|
            a != ctx.destination ==> post.holdings@.contains_key(a) == pre.holdings@.contains_key(
                a,
            ),
        forall|a: u64|
            a != ctx.destination && pre.holdings@.contains_key(a) ==> post.holdings@[a]
                == pre.holdings@[a],
        forall|m: u64|
            m != ctx.mint && pre.mints@.contains_key(m) ==> post.mints@[m] == pre.mints@[m],
        post.metadata@ == pre.metadata@,
{
}

/// Any accepted transfer call of quantity `quantity` between two distinct
/// holdings lowers the source's balance by exactly `quantity` and raises the
/// destination's by exactly `quantity`; every other record stays as it was.
pub proof fn lemma_transfer_tokens_moves_quantity(
    pre: Ledger,
    post: Ledger,
    ctx: TransferTokens,
    quantity: u64,
)
    requires
        ctx.source != ctx.destination,
        transfer_tokens_err(pre, ctx, quantity) is None,
        transfer_tokens_ok_post(pre, post, ctx, quantity),
    ensures
        post.holdings@.contains_key(ctx.source),
        post.holdings@.contains_key(ctx.destination),
        post.holdings@[ctx.source].balance == pre.holdings@[ctx.source].balance - quantity,
        post.holdings@[ctx.destination].balance == pre.holdings@[ctx.destination].balance
            + quantity,
        forall|a: u64|
            a != ctx.source && a != ctx.destination ==> post.holdings@.contains_key(a)
                == pre.holdings@.contains_key(a),
        forall|a: u64|
            a != ctx.source && a != ctx.destination && pre.holdings@.contains_key(a)
                ==> post.holdings@[a] == pre.holdings@[a],
        post.mints@ == pre.mints@,
        post.metadata@ == pre.metadata@,
{
}

/// A transfer whose account relationships are all in order but whose source
/// holds less than the requested quantity is rejected for exactly that
/// reason. By the handler's contract a rejected call changes no balance.
pub proof fn lemma_transfer_tokens_insufficient_balance_fails(
    pre: Ledger,
    ctx: TransferTokens,
    quantity: u64,
)
    requires
        ctx.payer_is_signer,
        ctx.authority_is_signer,
        pre.mints@.contains_key(ctx.mint),
        pre.holdings@.contains_key(ctx.source),
        pre.holdings@.contains_key(ctx.destination),
        pre.holdings@[ctx.destination].mint == pre.holdings@[ctx.source].mint,
        ctx.authority == pre.holdings@[ctx.source].owner,
        pre.holdings@[ctx.source].balance < quantity,
    ensures
        transfer_tokens_err(pre, ctx, quantity) == Some(TokenError::InsufficientBalance),
{
}

/// Any accepted burn call of quantity `quantity` lowers the source holding's
/// balance and the mint's supply by exactly `quantity`; every other record
/// stays as it was.
pub proof fn lemma_burn_tokens_decreases_balance_and_supply(
    pre: Ledger,
    post: Ledger,
    ctx: BurnTokens,
    quantity: u64,
    mint_pda: u64,
    owner_ata: u64,
)
    requires
        burn_tokens_err(pre, ctx, quantity, mint_pda, owner_ata) is None,
        burn_tokens_ok_post(pre, post, ctx, quantity),
    ensures
        post.holdings@.contains_key(ctx.source),
        post.holdings@[ctx.source].balance == pre.holdings@[ctx.source].balance - quantity,
        post.mints@.contains_key(ctx.mint),
        post.mints@[ctx.mint].supply == pre.mints@[ctx.mint].supply - quantity,
        post.mints@[ctx.mint].decimals == pre.mints@[ctx.mint].decimals,
        forall|a: u64|
            a != ctx.source ==> post.holdings@.contains_key(a) == pre.holdings@.contains_key(a),
        forall|a: u64|
            a != ctx.source && pre.holdings@.contains_key(a) ==> post.holdings@[a]
                == pre.holdings@[a],
        forall|m: u64|
            m != ctx.mint && pre.mints@.contains_key(m) ==> post.mints@[m] == pre.mints@[m],
        post.metadata@ == pre.metadata@,
{
}

/// A burn whose account relationships are all in order but whose source
/// holds less than the requested quantity is rejected for exactly that
/// reason. By the handler's contract a rejected call changes no record.
pub proof fn lemma_burn_tokens_insufficient_balance_fails(
    pre: Ledger,
    ctx: BurnTokens,
    quantity: u64,
    mint_pda: u64,
    owner_ata: u64,
)
    requires
        ctx.owner_is_signer,
        ctx.mint == mint_pda,
        pre.mints@.contains_key(ctx.mint),
        ctx.source == owner_ata,
        pre.holdings@.contains_key(ctx.source),
        pre.holdings@[ctx.source].mint == ctx.mint,
        pre.holdings@[ctx.source].owner == ctx.owner,
        pre.holdings@[ctx.source].balance < quantity,
    ensures
        burn_tokens_err(pre, ctx, quantity, mint_pda, owner_ata) == Some(
            TokenError::InsufficientBalance,
        ),
{
}

/// An initialize call whose payer did not sign is rejected before anything
/// else is looked at. By the handler's contract a rejected call changes no
/// record.
pub proof fn lemma_init_token_requires_signature(
    pre: Ledger,
    ctx: InitToken,
    mint_pda: u64,
    metadata_pda: u64,
)
    requires
        !ctx.payer_is_signer,
    ensures
        init_token_err(pre, ctx, mint_pda, metadata_pda) == Some(TokenError::MissingSignature),
{
}

/// A mint call whose payer did not sign is rejected before anything else is
/// looked at; and whatever mint record the mint account holds, a mint call
/// is also rejected when that record's authority is not the mint itself.
/// By the handler's contract a rejected call changes no record.
pub proof fn lemma_mint_tokens_requires_authority(
    pre: Ledger,
    ctx: MintTokens,
    quantity: u64,
    mint_pda: u64,
    payer_ata: u64,
)
    requires
        !ctx.payer_is_signer || (pre.mints@.contains_key(ctx.mint) && pre.mints@[ctx.mint].mint_authority != ctx.mint),
    ensures
        mint_tokens_err(pre, ctx, quantity, mint_pda, payer_ata) is Some,
        !ctx.payer_is_signer ==> mint_tokens_err(pre, ctx, quantity, mint_pda, payer_ata) == Some(
            TokenError::MissingSignature,
        ),
{
}

/// A transfer call is rejected when the payer or the authority did not sign,
/// or when the authority that signed is not the source holding's owner. By
/// the handler's contract a rejected call changes no record.
pub proof fn lemma_transfer_tokens_requires_authority(
    pre: Ledger,
    ctx: TransferTokens,
    quantity: u64,
)
    requires
        !ctx.payer_is_signer || !ctx.authority_is_signer || (pre.holdings@.contains_key(ctx.source)
            && ctx.authority != pre.holdings@[ctx.source].owner),
    ensures
        transfer_tokens_err(pre, ctx, quantity) is Some,
{
}

/// A burn call is rejected when the owner did not sign, or when the source
/// holding does not belong to the owner who signed. By the handler's
/// contract a rejected call changes no record.
pub proof fn lemma_burn_tokens_requires_authority(
    pre: Ledger,
    ctx: BurnTokens,
    quantity: u64,
    mint_pda: u64,
    owner_ata: u64,
)
    requires
        !ctx.owner_is_signer || (pre.holdings@.contains_key(ctx.source) && pre.holdings@[ctx.source].owner != ctx.owner),
    ensures
        burn_tokens_err(pre, ctx, quantity, mint_pda, owner_ata) is Some,
        !ctx.owner_is_signer ==> burn_tokens_err(pre, ctx, quantity, mint_pda, owner_ata) == Some(
            TokenError::MissingSignature,
        ),
{
}

} // verus!
