use vstd::prelude::*;
use vstd::bytes::spec_u64_from_le_bytes;
use vstd::bytes::u64_from_le_bytes;
use vstd::slice::slice_subrange;
use vstd::utf8::encode_utf8;

verus! {

/// Largest number of schedule entries a pool may hold.
pub const MAX_NUM: usize = 10;

/// Longest collection symbol, in UTF-8 bytes, that a metadata record stores.
pub const MAX_SYMBOL_LENGTH: usize = 10;

/// A 32-byte account address, stored as four little-endian 64-bit words.
#[derive(Clone, Copy, PartialEq, Eq, Structural, Debug)]
pub struct Pubkey {
    pub w0: u64,
    pub w1: u64,
    pub w2: u64,
    pub w3: u64,
}

/// The address whose 32-byte little-endian encoding is `s`.
pub open spec fn pubkey_from_bytes(s: Seq<u8>) -> Pubkey
    recommends
        s.len() == 32,
{
    Pubkey {
        w0: spec_u64_from_le_bytes(s.subrange(0, 8)),
        w1: spec_u64_from_le_bytes(s.subrange(8, 16)),
        w2: spec_u64_from_le_bytes(s.subrange(16, 24)),
        w3: spec_u64_from_le_bytes(s.subrange(24, 32)),
    }
}

impl Pubkey {
    /// Reads an address from its 32-byte encoding.
    pub fn from_le_bytes(b: &[u8]) -> (r: Pubkey)
        requires
            b@.len() == 32,
        ensures
            r == pubkey_from_bytes(b@),
    {
        Pubkey {
            w0: u64_from_le_bytes(slice_subrange(b, 0, 8)),
            w1: u64_from_le_bytes(slice_subrange(b, 8, 16)),
            w2: u64_from_le_bytes(slice_subrange(b, 16, 24)),
            w3: u64_from_le_bytes(slice_subrange(b, 24, 32)),
        }
    }
}

/// One vesting entry: `airdrop_amount` becomes claimable at `airdrop_time`.
#[derive(Clone, Copy, PartialEq, Eq, Structural, Debug)]
pub struct Schedule {
    pub airdrop_time: u64,
    pub airdrop_amount: u64,
}

/// The pool's persistent state: who administers it, how its own signing
/// address is derived (`rand` and `bump`), which token it pays out and from
/// which custodied account, and the vesting schedule with its claim period
/// and eligible collection symbol.
#[derive(Debug)]
pub struct Pool {
    pub owner: Pubkey,
    pub rand: Pubkey,
    pub reward_mint: Pubkey,
    pub reward_account: Pubkey,
    pub schedule: Vec<Schedule>,
    pub period: u64,
    pub stake_collection: String,
    pub bump: u8,
}

/// The mathematical value of a `Pool`.
pub ghost struct PoolView {
    pub owner: Pubkey,
    pub rand: Pubkey,
    pub reward_mint: Pubkey,
    pub reward_account: Pubkey,
    pub schedule: Seq<Schedule>,
    pub period: u64,
    pub stake_collection: Seq<char>,
    pub bump: u8,
}

impl View for Pool {
    type V = PoolView;

    open spec fn view(&self) -> PoolView {
        PoolView {
            owner: self.owner,
            rand: self.rand,
            reward_mint: self.reward_mint,
            reward_account: self.reward_account,
            schedule: self.schedule@,
            period: self.period,
            stake_collection: self.stake_collection@,
            bump: self.bump,
        }
    }
}

impl PoolView {
    /// Every pool that `init_pool` hands out satisfies this.
    pub open spec fn wf(self) -> bool {
        &&& self.period > 0
        &&& self.schedule.len() <= MAX_NUM
        &&& encode_utf8(self.stake_collection).len() <= MAX_SYMBOL_LENGTH
    }
}

/// Per-NFT persistent state: the tracked mint, the time of the last
/// successful claim (0 when none has happened), and the byte that
/// reconstructs the record's own derived address.
#[derive(Clone, Copy, PartialEq, Eq, Structural, Debug)]
pub struct NftData {
    pub nft_mint: Pubkey,
    pub last_airdrop_time: u64,
    pub bump: u8,
}

/// What the claim logic reads of a token account: its mint, its recorded
/// owner, and the balance it holds.
#[derive(Clone, Copy, PartialEq, Eq, Structural, Debug)]
pub struct TokenAccountInfo {
    pub mint: Pubkey,
    pub owner: Pubkey,
    pub amount: u64,
}

/// What the claim logic reads of a token mint: its total supply and its
/// number of decimal places.
#[derive(Clone, Copy, PartialEq, Eq, Structural, Debug)]
pub struct MintInfo {
    pub supply: u64,
    pub decimals: u8,
}

/// What the claim logic reads of an NFT metadata record: the mint it
/// describes and its collection symbol.
#[derive(Debug)]
pub struct MetadataInfo {
    pub mint: Pubkey,
    pub symbol: String,
}

/// The account snapshots that `init_pool` inspects: the pool's own derived
/// address and the reward account bound to it.
pub struct InitPool {
    pub owner: Pubkey,
    pub rand: Pubkey,
    pub pool_key: Pubkey,
    pub reward_mint: Pubkey,
    pub reward_account_key: Pubkey,
    pub reward_account: TokenAccountInfo,
}

/// The account snapshot that `init_nft_data` records.
pub struct InitNftData {
    pub nft_mint: Pubkey,
}

/// The account snapshots that `airdrop` inspects: the claimant, the NFT under
/// claim (mint shape, holding account, metadata), the transfer source the
/// caller supplied, and the current time.
pub struct Airdrop {
    pub owner: Pubkey,
    pub nft_mint_key: Pubkey,
    pub nft_mint: MintInfo,
    pub nft_account: TokenAccountInfo,
    pub nft_metadata: MetadataInfo,
    pub token_from: Pubkey,
    pub now: u64,
}

/// The mathematical value of an `Airdrop` snapshot bundle.
pub ghost struct AirdropView {
    pub owner: Pubkey,
    pub nft_mint_key: Pubkey,
    pub nft_mint: MintInfo,
    pub nft_account: TokenAccountInfo,
    pub metadata_mint: Pubkey,
    pub metadata_symbol: Seq<char>,
    pub token_from: Pubkey,
    pub now: u64,
}

impl View for Airdrop {
    type V = AirdropView;

    open spec fn view(&self) -> AirdropView {
        AirdropView {
            owner: self.owner,
            nft_mint_key: self.nft_mint_key,
            nft_mint: self.nft_mint,
            nft_account: self.nft_account,
            metadata_mint: self.nft_metadata.mint,
            metadata_symbol: self.nft_metadata.symbol@,
            token_from: self.token_from,
            now: self.now,
        }
    }
}

/// The account snapshots that `redeem_token` inspects.
pub struct RedeemToken {
    pub owner: Pubkey,
    pub token_from: Pubkey,
}

} // verus!
