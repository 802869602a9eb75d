use vstd::prelude::*;
use crate::error::PoolError;
use crate::ops::accounts_ok;
use crate::ops::airdrop_spec;
use crate::ops::init_pool_spec;
use crate::ops::metadata_ok;
use crate::ops::mint_ok;
use crate::ops::nft_account_ok;
use crate::ops::reward_binding_ok;
use crate::schedule::eligible;
use crate::schedule::first_match;
use crate::schedule::lemma_first_match;
use crate::types::AirdropView;
use crate::types::InitPool;
use crate::types::PoolView;

verus! {

/// With every account check passed and at most one schedule entry whose
/// window is open and unconsumed, a claim succeeds exactly when such an
/// entry exists, and is rejected with `InvalidTime` otherwise.
pub proof fn lemma_claim_succeeds_iff_entry_due(ctx: AirdropView, pool: PoolView, last: u64)
    requires
        accounts_ok(ctx, pool),
        forall|i: int, j: int|
            0 <= i < pool.schedule.len() && 0 <= j < pool.schedule.len() && eligible(
                pool.schedule[i],
                pool.period,
                last,
                ctx.now,
            ) && eligible(pool.schedule[j], pool.period, last, ctx.now) ==> i == j,
    ensures
        (airdrop_spec(ctx, pool, last) is Ok) <==> exists|i: int|
            0 <= i < pool.schedule.len() && eligible(pool.schedule[i], pool.period, last, ctx.now),
        !(exists|i: int|
            0 <= i < pool.schedule.len() && eligible(
                pool.schedule[i],
                pool.period,
                last,
                ctx.now,
            )) ==> airdrop_spec(ctx, pool, last) == Err::<u64, PoolError>(PoolError::InvalidTime),
{
    lemma_first_match(pool.schedule, pool.period, last, ctx.now);
}

/// First-match policy: with every account check passed, when two entries
/// are both claimable and nothing before the first of them is, the claim
/// pays the amount of the one that stands earlier in the stored sequence.
pub proof fn lemma_first_match_policy(
    ctx: AirdropView,
    pool: PoolView,
    last: u64,
    i: int,
    j: int,
)
    requires
        accounts_ok(ctx, pool),
        0 <= i < j < pool.schedule.len(),
        eligible(pool.schedule[i], pool.period, last, ctx.now),
        eligible(pool.schedule[j], pool.period, last, ctx.now),
        forall|k: int| 0 <= k < i ==> !eligible(pool.schedule[k], pool.period, last, ctx.now),
    ensures
        airdrop_spec(ctx, pool, last) == Ok::<u64, PoolError>(pool.schedule[i].airdrop_amount),
{
    lemma_first_match(pool.schedule, pool.period, last, ctx.now);
}

/// An entry a successful claim did not honour is not consumed, as long as
/// its window had not yet opened: once it is the first entry whose window
/// is open and unconsumed, a later claim on the stamped record pays it.
pub proof fn lemma_unclaimed_entry_survives(
    ctx: AirdropView,
    pool: PoolView,
    last: u64,
    now2: u64,
    j: int,
)
    requires
        accounts_ok(ctx, pool),
        airdrop_spec(ctx, pool, last) is Ok,
        0 <= j < pool.schedule.len(),
        eligible(pool.schedule[j], pool.period, ctx.now, now2),
        forall|k: int| 0 <= k < j ==> !eligible(pool.schedule[k], pool.period, ctx.now, now2),
    ensures
        airdrop_spec(AirdropView { now: now2, ..ctx }, pool, ctx.now) == Ok::<u64, PoolError>(
            pool.schedule[j].airdrop_amount,
        ),
{
    lemma_first_match(pool.schedule, pool.period, ctx.now, now2);
}

/// Idempotence of rejection: a claim that succeeds on some entry stamps the
/// record with the claim time, and a second claim in the same window — with
/// no other entry's window open at the later time — is rejected with
/// `InvalidTime`.
pub proof fn lemma_repeat_claim_rejected(
    ctx: AirdropView,
    pool: PoolView,
    last: u64,
    now2: u64,
    i: int,
)
    requires
        accounts_ok(ctx, pool),
        first_match(pool.schedule, pool.period, last, ctx.now) == Some(i),
        pool.schedule[i].airdrop_time < now2 < pool.schedule[i].airdrop_time + pool.period,
        forall|j: int|
            0 <= j < pool.schedule.len() && eligible(pool.schedule[j], pool.period, last, now2)
                ==> j == i,
    ensures
        airdrop_spec(ctx, pool, last) == Ok::<u64, PoolError>(pool.schedule[i].airdrop_amount),
        airdrop_spec(AirdropView { now: now2, ..ctx }, pool, ctx.now) == Err::<u64, PoolError>(
            PoolError::InvalidTime,
        ),
{
    lemma_first_match(pool.schedule, pool.period, last, ctx.now);
    let ctx2 = AirdropView { now: now2, ..ctx };
    assert(accounts_ok(ctx2, pool));
    assert forall|j: int| 0 <= j < pool.schedule.len() implies !eligible(
        pool.schedule[j],
        pool.period,
        ctx.now,
        now2,
    ) by {
        if eligible(pool.schedule[j], pool.period, ctx.now, now2) {
            assert(eligible(pool.schedule[j], pool.period, last, now2));
            assert(j == i);
            assert(pool.schedule[i].airdrop_time < ctx.now);
        }
    }
    lemma_first_match(pool.schedule, pool.period, ctx.now, now2);
}

/// Identity binding: a claim whose supplied transfer source differs from
/// the pool's recorded reward account never succeeds, and once every other
/// check passes it is rejected with `InvalidTokenAccount`.
pub proof fn lemma_source_identity_binding(ctx: AirdropView, pool: PoolView, last: u64)
    requires
        ctx.token_from != pool.reward_account,
    ensures
        airdrop_spec(ctx, pool, last) is Err,
        mint_ok(ctx) && nft_account_ok(ctx) && metadata_ok(ctx, pool) ==> airdrop_spec(
            ctx,
            pool,
            last,
        ) == Err::<u64, PoolError>(PoolError::InvalidTokenAccount),
{
}

/// Structural NFT check: a claim whose mint reports decimal places or a
/// supply other than one is always rejected with `InvalidTokenMint`,
/// whatever the other accounts hold.
pub proof fn lemma_nft_shape_check(ctx: AirdropView, pool: PoolView, last: u64)
    requires
        ctx.nft_mint.decimals != 0 || ctx.nft_mint.supply != 1,
    ensures
        airdrop_spec(ctx, pool, last) == Err::<u64, PoolError>(PoolError::InvalidTokenMint),
{
}

/// A zero claim period is always rejected — the schedule contents play no
/// part, since `init_pool_spec` never reads them — and with the reward
/// account correctly bound the error is precisely `InvalidPeriod`.
pub proof fn lemma_zero_period_rejected(ctx: InitPool)
    ensures
        init_pool_spec(ctx, 0) is Err,
        reward_binding_ok(ctx) ==> init_pool_spec(ctx, 0) == Err::<(), PoolError>(
            PoolError::InvalidPeriod,
        ),
{
}

} // verus!
