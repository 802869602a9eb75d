use vstd::prelude::*;
use crate::error::PoolError;
use crate::schedule::first_match;
use crate::schedule::match_schedule;
use crate::types::Airdrop;
use crate::types::AirdropView;
use crate::types::InitNftData;
use crate::types::InitPool;
use crate::types::NftData;
use crate::types::Pool;
use crate::types::RedeemToken;
use crate::types::Schedule;
use crate::types::MAX_NUM;
use crate::types::MAX_SYMBOL_LENGTH;

verus! {

/// The reward account the pool is being bound to reports the pool's own
/// derived address as its owner and the declared reward mint as its mint.
pub open spec fn reward_binding_ok(ctx: InitPool) -> bool {
    &&& ctx.reward_account.owner == ctx.pool_key
    &&& ctx.reward_account.mint == ctx.reward_mint
}

/// The outcome of pool creation on the given snapshots: which check fails
/// first, or success. The schedule contents play no part in it.
pub open spec fn init_pool_spec(ctx: InitPool, period: u64) -> Result<(), PoolError> {
    if ctx.reward_account.owner != ctx.pool_key {
        Err(PoolError::InvalidTokenAccount)
    } else if ctx.reward_account.mint != ctx.reward_mint {
        Err(PoolError::InvalidTokenAccount)
    } else if period == 0 {
        Err(PoolError::InvalidPeriod)
    } else {
        Ok(())
    }
}

/// Creates the pool record: verifies that the configured reward account is
/// custodied by the pool's derived address and typed by the declared reward
/// mint, rejects a zero claim period, and initializes every field from the
/// supplied configuration.
pub fn init_pool(
    ctx: &InitPool,
    bump: u8,
    schedule: Vec<Schedule>,
    period: u64,
    stake_collection: String,
) -> (r: Result<Pool, PoolError>)
    requires
        schedule@.len() <= MAX_NUM,
        vstd::utf8::encode_utf8(stake_collection@).len() <= MAX_SYMBOL_LENGTH,
    ensures
        match r {
            Ok(pool) => {
                &&& init_pool_spec(*ctx, period) == Ok::<(), PoolError>(())
                &&& pool@.owner == ctx.owner
                &&& pool@.rand == ctx.rand
                &&& pool@.reward_mint == ctx.reward_mint
                &&& pool@.reward_account == ctx.reward_account_key
                &&& pool@.schedule == schedule@
                &&& pool@.period == period
                &&& pool@.stake_collection == stake_collection@
                &&& pool@.bump == bump
                &&& pool@.wf()
            },
            Err(e) => init_pool_spec(*ctx, period) == Err::<(), PoolError>(e),
        },
{
    if ctx.reward_account.owner != ctx.pool_key {
        return Err(PoolError::InvalidTokenAccount);
    }
    if ctx.reward_account.mint != ctx.reward_mint {
        return Err(PoolError::InvalidTokenAccount);
    }
    if period == 0 {
        return Err(PoolError::InvalidPeriod);
    }
    Ok(
        Pool {
            owner: ctx.owner,
            rand: ctx.rand,
            reward_mint: ctx.reward_mint,
            reward_account: ctx.reward_account_key,
            schedule,
            period,
            stake_collection,
            bump,
        },
    )
}

/// Registers an NFT for tracking under a pool. Registration is
/// unconditional: the fresh record has never claimed.
pub fn init_nft_data(ctx: &InitNftData, bump: u8) -> (r: NftData)
    ensures
        r.nft_mint == ctx.nft_mint,
        r.last_airdrop_time == 0,
        r.bump == bump,
{
    NftData { nft_mint: ctx.nft_mint, last_airdrop_time: 0, bump }
}

/// The NFT's mint is structurally a non-fungible token: no decimal places
/// and a total supply of exactly one.
pub open spec fn mint_ok(ctx: AirdropView) -> bool {
    &&& ctx.nft_mint.decimals == 0
    &&& ctx.nft_mint.supply == 1
}

/// The claimant's token account holds exactly one token of the NFT's mint
/// and is owned by the claimant.
pub open spec fn nft_account_ok(ctx: AirdropView) -> bool {
    &&& ctx.nft_account.mint == ctx.nft_mint_key
    &&& ctx.nft_account.owner == ctx.owner
    &&& ctx.nft_account.amount == 1
}

/// The metadata record describes the NFT's mint and carries the pool's
/// configured collection symbol.
pub open spec fn metadata_ok(ctx: AirdropView, pool: crate::types::PoolView) -> bool {
    &&& ctx.metadata_mint == ctx.nft_mint_key
    &&& ctx.metadata_symbol == pool.stake_collection
}

/// The transfer source the caller supplied is exactly the pool's recorded
/// reward account.
pub open spec fn source_ok(ctx: AirdropView, pool: crate::types::PoolView) -> bool {
    ctx.token_from == pool.reward_account
}

/// All four authorization checks of a claim.
pub open spec fn accounts_ok(ctx: AirdropView, pool: crate::types::PoolView) -> bool {
    &&& mint_ok(ctx)
    &&& nft_account_ok(ctx)
    &&& metadata_ok(ctx, pool)
    &&& source_ok(ctx, pool)
}

/// The outcome of a claim on the given snapshots: the first failing
/// authorization check decides the error; with all checks passed, the first
/// eligible schedule entry decides the amount, and `InvalidTime` is the
/// outcome when none is eligible.
pub open spec fn airdrop_spec(ctx: AirdropView, pool: crate::types::PoolView, last: u64) -> Result<
    u64,
    PoolError,
> {
    if !mint_ok(ctx) {
        Err(PoolError::InvalidTokenMint)
    } else if !nft_account_ok(ctx) {
        Err(PoolError::InvalidTokenAccount)
    } else if !metadata_ok(ctx, pool) {
        Err(PoolError::InvalidMetadata)
    } else if !source_ok(ctx, pool) {
        Err(PoolError::InvalidTokenAccount)
    } else {
        match first_match(pool.schedule, pool.period, last, ctx.now) {
            Some(k) => Ok(pool.schedule[k].airdrop_amount),
            None => Err(PoolError::InvalidTime),
        }
    }
}

/// Decides a claim: validates every supplied account snapshot, matches the
/// schedule at `ctx.now` against the record's last claim time, and returns
/// the amount the pool owes, or the exact reason the claim is rejected. Pure
/// decision: the caller transfers the amount and, only on a successful
/// transfer, settles the record with `settle_airdrop`.
pub fn airdrop(ctx: &Airdrop, pool: &Pool, nft_data: &NftData) -> (r: Result<u64, PoolError>)
    ensures
        r == airdrop_spec(ctx@, pool@, nft_data.last_airdrop_time),
{
    if ctx.nft_mint.decimals != 0 || ctx.nft_mint.supply != 1 {
        return Err(PoolError::InvalidTokenMint);
    }
    if ctx.nft_account.mint != ctx.nft_mint_key {
        return Err(PoolError::InvalidTokenAccount);
    }
    if ctx.nft_account.owner != ctx.owner || ctx.nft_account.amount != 1 {
        return Err(PoolError::InvalidTokenAccount);
    }
    if ctx.nft_metadata.mint != ctx.nft_mint_key {
        return Err(PoolError::InvalidMetadata);
    }
    if !(ctx.nft_metadata.symbol == pool.stake_collection) {
        return Err(PoolError::InvalidMetadata);
    }
    if ctx.token_from != pool.reward_account {
        return Err(PoolError::InvalidTokenAccount);
    }
    match match_schedule(&pool.schedule, pool.period, nft_data.last_airdrop_time, ctx.now) {
        Some(k) => {
            proof {
                crate::schedule::lemma_first_match(
                    pool@.schedule,
                    pool.period,
                    nft_data.last_airdrop_time,
                    ctx.now,
                );
            }
            Ok(pool.schedule[k].airdrop_amount)
        },
        None => Err(PoolError::InvalidTime),
    }
}

/// Applies the outcome of the custody transfer that a decided claim asked
/// for: a successful transfer stamps the record with the claim time; a
/// failed one leaves the record unchanged and reports `TokenTransferFailed`.
pub fn settle_airdrop(nft_data: &mut NftData, transfer_ok: bool, now: u64) -> (r: Result<
    (),
    PoolError,
>)
    ensures
        transfer_ok ==> {
            &&& r == Ok::<(), PoolError>(())
            &&& final(nft_data).last_airdrop_time == now
            &&& final(nft_data).nft_mint == old(nft_data).nft_mint
            &&& final(nft_data).bump == old(nft_data).bump
        },
        !transfer_ok ==> {
            &&& r == Err::<(), PoolError>(PoolError::TokenTransferFailed)
            &&& *final(nft_data) == *old(nft_data)
        },
{
    if transfer_ok {
        nft_data.last_airdrop_time = now;
        Ok(())
    } else {
        Err(PoolError::TokenTransferFailed)
    }
}

/// Decides an owner withdrawal: the caller must be the pool's authenticated
/// owner (the host verifies the signature and this binding before calling),
/// and the supplied source must be the pool's recorded reward account. No
/// schedule gating: this is the administrative escape valve. Returns the
/// amount the host is to transfer.
pub fn redeem_token(ctx: &RedeemToken, pool: &Pool, amount: u64) -> (r: Result<u64, PoolError>)
    requires
        ctx.owner == pool@.owner,
    ensures
        ctx.token_from != pool@.reward_account ==> r == Err::<u64, PoolError>(
            PoolError::InvalidTokenAccount,
        ),
        ctx.token_from == pool@.reward_account ==> r == Ok::<u64, PoolError>(amount),
{
    if ctx.token_from != pool.reward_account {
        return Err(PoolError::InvalidTokenAccount);
    }
    Ok(amount)
}

/// Maps the custody transfer's outcome for an operation that mutates no
/// record: success passes through, failure is `TokenTransferFailed`.
pub fn transfer_outcome(transfer_ok: bool) -> (r: Result<(), PoolError>)
    ensures
        r == if transfer_ok {
            Ok::<(), PoolError>(())
        } else {
            Err::<(), PoolError>(PoolError::TokenTransferFailed)
        },
{
    if transfer_ok {
        Ok(())
    } else {
        Err(PoolError::TokenTransferFailed)
    }
}

} // verus!
