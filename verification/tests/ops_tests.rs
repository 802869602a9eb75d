use airdrop_pool::error::PoolError;
use airdrop_pool::ops::airdrop;
use airdrop_pool::ops::init_nft_data;
use airdrop_pool::ops::init_pool;
use airdrop_pool::ops::redeem_token;
use airdrop_pool::ops::settle_airdrop;
use airdrop_pool::ops::transfer_outcome;
use airdrop_pool::schedule::match_schedule;
use airdrop_pool::types::Airdrop;
use airdrop_pool::types::InitNftData;
use airdrop_pool::types::InitPool;
use airdrop_pool::types::MetadataInfo;
use airdrop_pool::types::MintInfo;
use airdrop_pool::types::Pool;
use airdrop_pool::types::Pubkey;
use airdrop_pool::types::RedeemToken;
use airdrop_pool::types::Schedule;
use airdrop_pool::types::TokenAccountInfo;

fn pk(n: u64) -> Pubkey {
    Pubkey { w0: n, w1: 0, w2: 0, w3: 0 }
}

fn entry(due: u64, amount: u64) -> Schedule {
    Schedule { airdrop_time: due, airdrop_amount: amount }
}

fn make_pool(schedule: Vec<Schedule>, period: u64) -> Pool {
    let ctx = InitPool {
        owner: pk(1),
        rand: pk(2),
        pool_key: pk(3),
        reward_mint: pk(4),
        reward_account_key: pk(5),
        reward_account: TokenAccountInfo { mint: pk(4), owner: pk(3), amount: 0 },
    };
    init_pool(&ctx, 255, schedule, period, String::from("AIR")).unwrap()
}

fn claim_ctx(pool: &Pool, now: u64) -> Airdrop {
    Airdrop {
        owner: pk(10),
        nft_mint_key: pk(11),
        nft_mint: MintInfo { supply: 1, decimals: 0 },
        nft_account: TokenAccountInfo { mint: pk(11), owner: pk(10), amount: 1 },
        nft_metadata: MetadataInfo { mint: pk(11), symbol: String::from("AIR") },
        token_from: pool.reward_account,
        now,
    }
}

#[test]
fn pool_creation_records_configuration() {
    let pool = make_pool(vec![entry(1000, 50)], 100);
    assert_eq!(pool.owner, pk(1));
    assert_eq!(pool.rand, pk(2));
    assert_eq!(pool.reward_mint, pk(4));
    assert_eq!(pool.reward_account, pk(5));
    assert_eq!(pool.schedule.len(), 1);
    assert_eq!(pool.period, 100);
    assert_eq!(pool.stake_collection, "AIR");
    assert_eq!(pool.bump, 255);
}

#[test]
fn pool_creation_rejects_zero_period() {
    let ctx = InitPool {
        owner: pk(1),
        rand: pk(2),
        pool_key: pk(3),
        reward_mint: pk(4),
        reward_account_key: pk(5),
        reward_account: TokenAccountInfo { mint: pk(4), owner: pk(3), amount: 0 },
    };
    let r = init_pool(&ctx, 255, vec![entry(1000, 50)], 0, String::from("AIR"));
    assert_eq!(r.unwrap_err(), PoolError::InvalidPeriod);
    let r = init_pool(&ctx, 255, Vec::new(), 0, String::from("AIR"));
    assert_eq!(r.unwrap_err(), PoolError::InvalidPeriod);
}

#[test]
fn pool_creation_rejects_unbound_reward_account() {
    let mut ctx = InitPool {
        owner: pk(1),
        rand: pk(2),
        pool_key: pk(3),
        reward_mint: pk(4),
        reward_account_key: pk(5),
        reward_account: TokenAccountInfo { mint: pk(4), owner: pk(9), amount: 0 },
    };
    let r = init_pool(&ctx, 255, vec![entry(1000, 50)], 100, String::from("AIR"));
    assert_eq!(r.unwrap_err(), PoolError::InvalidTokenAccount);
    // the ownership check comes before the period check
    let r = init_pool(&ctx, 255, vec![entry(1000, 50)], 0, String::from("AIR"));
    assert_eq!(r.unwrap_err(), PoolError::InvalidTokenAccount);
    // wrong mint on the reward account
    ctx.reward_account = TokenAccountInfo { mint: pk(8), owner: pk(3), amount: 0 };
    let r = init_pool(&ctx, 255, vec![entry(1000, 50)], 100, String::from("AIR"));
    assert_eq!(r.unwrap_err(), PoolError::InvalidTokenAccount);
}

#[test]
fn registration_starts_unclaimed() {
    let d = init_nft_data(&InitNftData { nft_mint: pk(11) }, 7);
    assert_eq!(d.nft_mint, pk(11));
    assert_eq!(d.last_airdrop_time, 0);
    assert_eq!(d.bump, 7);
}

#[test]
fn claim_scenario_single_entry() {
    let pool = make_pool(vec![entry(1000, 50)], 100);
    let mut d = init_nft_data(&InitNftData { nft_mint: pk(11) }, 7);
    // before the window opens
    assert_eq!(airdrop(&claim_ctx(&pool, 900), &pool, &d).unwrap_err(), PoolError::InvalidTime);
    // at the due time exactly: the window is strict
    assert_eq!(airdrop(&claim_ctx(&pool, 1000), &pool, &d).unwrap_err(), PoolError::InvalidTime);
    // inside the window
    let amount = airdrop(&claim_ctx(&pool, 1050), &pool, &d).unwrap();
    assert_eq!(amount, 50);
    assert_eq!(settle_airdrop(&mut d, true, 1050), Ok(()));
    assert_eq!(d.last_airdrop_time, 1050);
    // a second claim in the same window is rejected
    assert_eq!(airdrop(&claim_ctx(&pool, 1060), &pool, &d).unwrap_err(), PoolError::InvalidTime);
    // after the window closed, with a fresh record
    let fresh = init_nft_data(&InitNftData { nft_mint: pk(11) }, 7);
    assert_eq!(
        airdrop(&claim_ctx(&pool, 1101), &pool, &fresh).unwrap_err(),
        PoolError::InvalidTime
    );
}

#[test]
fn claim_honours_stored_order_on_overlap() {
    // both windows are open at 1050; the entry earlier in the stored
    // sequence wins even though it is later chronologically
    let pool = make_pool(vec![entry(1010, 70), entry(1000, 50)], 100);
    let d = init_nft_data(&InitNftData { nft_mint: pk(11) }, 7);
    assert_eq!(airdrop(&claim_ctx(&pool, 1050), &pool, &d).unwrap(), 70);
}

#[test]
fn claim_leaves_later_entry_claimable() {
    let pool = make_pool(vec![entry(1000, 50), entry(2000, 70)], 100);
    let mut d = init_nft_data(&InitNftData { nft_mint: pk(11) }, 7);
    assert_eq!(airdrop(&claim_ctx(&pool, 1050), &pool, &d).unwrap(), 50);
    assert_eq!(settle_airdrop(&mut d, true, 1050), Ok(()));
    // the second entry's window opens later and is still claimable
    assert_eq!(airdrop(&claim_ctx(&pool, 2050), &pool, &d).unwrap(), 70);
}

#[test]
fn claim_rejects_fungible_mint() {
    let pool = make_pool(vec![entry(1000, 50)], 100);
    let d = init_nft_data(&InitNftData { nft_mint: pk(11) }, 7);
    let mut ctx = claim_ctx(&pool, 1050);
    ctx.nft_mint = MintInfo { supply: 1, decimals: 1 };
    assert_eq!(airdrop(&ctx, &pool, &d).unwrap_err(), PoolError::InvalidTokenMint);
    let mut ctx = claim_ctx(&pool, 1050);
    ctx.nft_mint = MintInfo { supply: 2, decimals: 0 };
    assert_eq!(airdrop(&ctx, &pool, &d).unwrap_err(), PoolError::InvalidTokenMint);
}

#[test]
fn claim_rejects_foreign_holding_account() {
    let pool = make_pool(vec![entry(1000, 50)], 100);
    let d = init_nft_data(&InitNftData { nft_mint: pk(11) }, 7);
    // account for another mint
    let mut ctx = claim_ctx(&pool, 1050);
    ctx.nft_account.mint = pk(12);
    assert_eq!(airdrop(&ctx, &pool, &d).unwrap_err(), PoolError::InvalidTokenAccount);
    // account owned by someone else
    let mut ctx = claim_ctx(&pool, 1050);
    ctx.nft_account.owner = pk(12);
    assert_eq!(airdrop(&ctx, &pool, &d).unwrap_err(), PoolError::InvalidTokenAccount);
    // account that does not hold the token
    let mut ctx = claim_ctx(&pool, 1050);
    ctx.nft_account.amount = 0;
    assert_eq!(airdrop(&ctx, &pool, &d).unwrap_err(), PoolError::InvalidTokenAccount);
}

#[test]
fn claim_rejects_mismatched_metadata() {
    let pool = make_pool(vec![entry(1000, 50)], 100);
    let d = init_nft_data(&InitNftData { nft_mint: pk(11) }, 7);
    // metadata for another mint
    let mut ctx = claim_ctx(&pool, 1050);
    ctx.nft_metadata.mint = pk(12);
    assert_eq!(airdrop(&ctx, &pool, &d).unwrap_err(), PoolError::InvalidMetadata);
    // metadata with a symbol other than the pool's collection identifier
    let mut ctx = claim_ctx(&pool, 1050);
    ctx.nft_metadata.symbol = String::from("SEA");
    assert_eq!(airdrop(&ctx, &pool, &d).unwrap_err(), PoolError::InvalidMetadata);
}

#[test]
fn claim_rejects_substituted_source_account() {
    let pool = make_pool(vec![entry(1000, 50)], 100);
    let d = init_nft_data(&InitNftData { nft_mint: pk(11) }, 7);
    let mut ctx = claim_ctx(&pool, 1050);
    ctx.token_from = pk(99);
    assert_eq!(airdrop(&ctx, &pool, &d).unwrap_err(), PoolError::InvalidTokenAccount);
}

#[test]
fn failed_transfer_leaves_record_unchanged() {
    let mut d = init_nft_data(&InitNftData { nft_mint: pk(11) }, 7);
    assert_eq!(settle_airdrop(&mut d, false, 1050), Err(PoolError::TokenTransferFailed));
    assert_eq!(d.last_airdrop_time, 0);
    assert_eq!(transfer_outcome(false), Err(PoolError::TokenTransferFailed));
    assert_eq!(transfer_outcome(true), Ok(()));
}

#[test]
fn withdrawal_requires_the_recorded_source() {
    let pool = make_pool(vec![entry(1000, 50)], 100);
    let ctx = RedeemToken { owner: pool.owner, token_from: pool.reward_account };
    assert_eq!(redeem_token(&ctx, &pool, 123).unwrap(), 123);
    let ctx = RedeemToken { owner: pool.owner, token_from: pk(99) };
    assert_eq!(redeem_token(&ctx, &pool, 123).unwrap_err(), PoolError::InvalidTokenAccount);
}

#[test]
fn matcher_is_strict_at_both_window_edges() {
    let schedule = vec![entry(1000, 50)];
    assert_eq!(match_schedule(&schedule, 100, 0, 1000), None);
    assert_eq!(match_schedule(&schedule, 100, 0, 1001), Some(0));
    assert_eq!(match_schedule(&schedule, 100, 0, 1099), Some(0));
    assert_eq!(match_schedule(&schedule, 100, 0, 1100), None);
    // an entry is consumed once the last claim reached its due time
    assert_eq!(match_schedule(&schedule, 100, 999, 1050), Some(0));
    assert_eq!(match_schedule(&schedule, 100, 1000, 1050), None);
    // the window survives arithmetic at the top of the time range
    assert_eq!(match_schedule(&vec![entry(u64::MAX - 1, 9)], u64::MAX, 0, u64::MAX), Some(0));
}

#[test]
fn matcher_skips_ineligible_prefix() {
    let schedule = vec![entry(5000, 1), entry(1000, 2), entry(1010, 3)];
    assert_eq!(match_schedule(&schedule, 100, 0, 1050), Some(1));
    assert_eq!(match_schedule(&schedule, 100, 1005, 1050), Some(2));
    assert_eq!(match_schedule(&schedule, 100, 0, 400), None);
}
