use vstd::prelude::*;
use vstd::bytes::spec_u64_from_le_bytes;
use crate::error::PoolError;
use crate::ops::airdrop;
use crate::ops::airdrop_spec;
use crate::ops::init_pool;
use crate::ops::init_pool_spec;
use crate::types::Airdrop;
use crate::types::AirdropView;
use crate::types::InitPool;
use crate::types::MetadataInfo;
use crate::types::MintInfo;
use crate::types::NftData;
use crate::types::Pool;
use crate::types::Pubkey;
use crate::types::Schedule;
use crate::types::TokenAccountInfo;
use crate::types::pubkey_from_bytes;
use crate::types::MAX_NUM;
use crate::types::MAX_SYMBOL_LENGTH;
use spl_token::solana_program::program_pack::Pack;

verus! {

/// Length, in bytes, of a packed token-account record.
pub const TOKEN_ACCOUNT_LEN: usize = 165;

/// Length, in bytes, of a packed mint record.
pub const MINT_LEN: usize = 82;

/// Length, in bytes, of a stored metadata record.
pub const METADATA_LEN: usize = 679;

/// The collection symbol a stored metadata record carries. The record
/// decodes from its bytes alone; what the decoding yields is stated only
/// through this name.
pub uninterp spec fn metadata_symbol_of(data: Seq<u8>) -> Seq<char>;

/// Whether the stored metadata record's body decodes: a function of the
/// bytes alone, stated only through this name.
pub uninterp spec fn metadata_accepts(data: Seq<u8>) -> bool;

/// A packed optional field's four-byte tag: little-endian 0 (absent) or 1
/// (present); anything else makes the record unreadable.
pub open spec fn coption_tag_ok(s: Seq<u8>, off: int) -> bool {
    &&& (s[off] == 0 || s[off] == 1)
    &&& s[off + 1] == 0
    &&& s[off + 2] == 0
    &&& s[off + 3] == 0
}

/// Exactly the token-account records the ledger's unpacking accepts: the
/// full packed length, readable optional fields (delegate at 72, native
/// marker at 109, close authority at 129), and a known state byte at 108.
pub open spec fn token_account_accepts(s: Seq<u8>) -> bool {
    &&& s.len() == TOKEN_ACCOUNT_LEN
    &&& coption_tag_ok(s, 72)
    &&& s[108] <= 2
    &&& coption_tag_ok(s, 109)
    &&& coption_tag_ok(s, 129)
}

/// Exactly the mint records the ledger's unpacking accepts: the full packed
/// length, readable optional fields (mint authority at 0, freeze authority
/// at 46), and a boolean initialization byte at 45.
pub open spec fn mint_accepts(s: Seq<u8>) -> bool {
    &&& s.len() == MINT_LEN
    &&& coption_tag_ok(s, 0)
    &&& s[45] <= 1
    &&& coption_tag_ok(s, 46)
}

/// The fields the claim logic reads of a packed token-account record: mint
/// at offset 0, owner at offset 32, amount as a little-endian word at
/// offset 64.
pub open spec fn token_account_of_bytes(s: Seq<u8>) -> TokenAccountInfo
    recommends
        s.len() == TOKEN_ACCOUNT_LEN,
{
    TokenAccountInfo {
        mint: pubkey_from_bytes(s.subrange(0, 32)),
        owner: pubkey_from_bytes(s.subrange(32, 64)),
        amount: spec_u64_from_le_bytes(s.subrange(64, 72)),
    }
}

/// The fields the claim logic reads of a packed mint record: supply as a
/// little-endian word at offset 36, decimals at offset 44.
pub open spec fn mint_of_bytes(s: Seq<u8>) -> MintInfo
    recommends
        s.len() == MINT_LEN,
{
    MintInfo { supply: spec_u64_from_le_bytes(s.subrange(36, 44)), decimals: s[44] }
}

/// Relies on `spl_token::state::Account::unpack_unchecked`: a packed record
/// is exactly 165 bytes, with the mint at offset 0, the owner at offset 32
/// and the amount as a little-endian word at offset 64; it is accepted
/// exactly when the length is right, the three optional-field tags are 0 or
/// 1, and the state byte names one of the three account states.
#[verifier::external_body]
fn unpack_token_account(data: &[u8]) -> (r: Option<TokenAccountInfo>)
    ensures
        r is Some <==> token_account_accepts(data@),
        r matches Some(t) ==> t == token_account_of_bytes(data@),
{
    match spl_token::state::Account::unpack_unchecked(data) {
        Ok(a) => Some(
            TokenAccountInfo {
                mint: Pubkey::from_le_bytes(&a.mint.to_bytes()),
                owner: Pubkey::from_le_bytes(&a.owner.to_bytes()),
                amount: a.amount,
            },
        ),
        Err(_) => None,
    }
}

/// Relies on `spl_token::state::Mint::unpack_unchecked`: a packed record is
/// exactly 82 bytes, with the supply as a little-endian word at offset 36
/// and the decimals at offset 44; it is accepted exactly when the length is
/// right, the two optional-field tags are 0 or 1, and the initialization
/// byte is boolean.
#[verifier::external_body]
fn unpack_mint(data: &[u8]) -> (r: Option<MintInfo>)
    ensures
        r is Some <==> mint_accepts(data@),
        r matches Some(m) ==> m == mint_of_bytes(data@),
{
    match spl_token::state::Mint::unpack_unchecked(data) {
        Ok(m) => Some(MintInfo { supply: m.supply, decimals: m.decimals }),
        Err(_) => None,
    }
}

/// Relies on `metaplex_token_metadata::utils::try_from_slice_checked` for
/// `state::Metadata`: a stored record is exactly 679 bytes whose first byte
/// is the metadata discriminant (or the uninitialized one) and whose body
/// decodes; its mint stands at offset 33, after the one-byte discriminant
/// and the 32-byte update authority; its collection symbol is decoded from
/// the record's bytes alone.
#[verifier::external_body]
fn unpack_metadata(data: &[u8]) -> (r: Option<MetadataInfo>)
    requires
        data@.len() >= 1,
    ensures
        r is Some <==> ({
            &&& data@.len() == METADATA_LEN
            &&& (data@[0] == 4 || data@[0] == 0)
            &&& metadata_accepts(data@)
        }),
        r matches Some(m) ==> {
            &&& m.mint == pubkey_from_bytes(data@.subrange(33, 65))
            &&& m.symbol@ == metadata_symbol_of(data@)
        },
{
    let md: metaplex_token_metadata::state::Metadata =
        match metaplex_token_metadata::utils::try_from_slice_checked(
        data,
        metaplex_token_metadata::state::Key::MetadataV1,
        metaplex_token_metadata::state::MAX_METADATA_LEN,
    ) {
        Ok(m) => m,
        Err(_) => return None,
    };
    Some(MetadataInfo { mint: Pubkey::from_le_bytes(&md.mint.to_bytes()), symbol: md.data.symbol })
}

/// Creates a pool directly from the packed bytes of the configured reward
/// account, as the host stores them. `None` exactly when the bytes are not
/// an acceptable token-account record; otherwise exactly the outcome of
/// `init_pool` on the parsed snapshot.
pub fn init_pool_from_accounts(
    owner: Pubkey,
    rand: Pubkey,
    pool_key: Pubkey,
    reward_mint: Pubkey,
    reward_account_key: Pubkey,
    reward_account_data: &[u8],
    bump: u8,
    schedule: Vec<Schedule>,
    period: u64,
    stake_collection: String,
) -> (r: Option<Result<Pool, PoolError>>)
    requires
        schedule@.len() <= MAX_NUM,
        vstd::utf8::encode_utf8(stake_collection@).len() <= MAX_SYMBOL_LENGTH,
    ensures
        r is Some <==> token_account_accepts(reward_account_data@),
        r matches Some(res) ==> {
            let ctx = InitPool {
                owner,
                rand,
                pool_key,
                reward_mint,
                reward_account_key,
                reward_account: token_account_of_bytes(reward_account_data@),
            };
            match res {
                Ok(pool) => {
                    &&& init_pool_spec(ctx, period) == Ok::<(), PoolError>(())
                    &&& pool@.owner == owner
                    &&& pool@.rand == rand
                    &&& pool@.reward_mint == reward_mint
                    &&& pool@.reward_account == reward_account_key
                    &&& pool@.schedule == schedule@
                    &&& pool@.period == period
                    &&& pool@.stake_collection == stake_collection@
                    &&& pool@.bump == bump
                    &&& pool@.wf()
                },
                Err(e) => init_pool_spec(ctx, period) == Err::<(), PoolError>(e),
            }
        },
{
    let reward_account = match unpack_token_account(reward_account_data) {
        Some(t) => t,
        None => {
            return None;
        },
    };
    let ctx = InitPool { owner, rand, pool_key, reward_mint, reward_account_key, reward_account };
    Some(init_pool(&ctx, bump, schedule, period, stake_collection))
}

/// Decides a claim directly from the stored bytes of the NFT's mint, of the
/// claimant's token account and of the metadata record, as the host hands
/// them over. `None` exactly when some byte string is not an acceptable
/// record; otherwise exactly the outcome of `airdrop` on the parsed
/// snapshots.
pub fn airdrop_from_accounts(
    pool: &Pool,
    nft_data: &NftData,
    owner: Pubkey,
    nft_mint_key: Pubkey,
    nft_mint_data: &[u8],
    nft_account_data: &[u8],
    nft_metadata_data: &[u8],
    token_from: Pubkey,
    now: u64,
) -> (r: Option<Result<u64, PoolError>>)
    ensures
        r is Some <==> ({
            &&& mint_accepts(nft_mint_data@)
            &&& token_account_accepts(nft_account_data@)
            &&& nft_metadata_data@.len() == METADATA_LEN
            &&& (nft_metadata_data@[0] == 4 || nft_metadata_data@[0] == 0)
            &&& metadata_accepts(nft_metadata_data@)
        }),
        r matches Some(res) ==> res == airdrop_spec(
            AirdropView {
                owner,
                nft_mint_key,
                nft_mint: mint_of_bytes(nft_mint_data@),
                nft_account: token_account_of_bytes(nft_account_data@),
                metadata_mint: pubkey_from_bytes(nft_metadata_data@.subrange(33, 65)),
                metadata_symbol: metadata_symbol_of(nft_metadata_data@),
                token_from,
                now,
            },
            pool@,
            nft_data.last_airdrop_time,
        ),
{
    let nft_mint = match unpack_mint(nft_mint_data) {
        Some(m) => m,
        None => {
            return None;
        },
    };
    let nft_account = match unpack_token_account(nft_account_data) {
        Some(t) => t,
        None => {
            return None;
        },
    };
    if nft_metadata_data.len() == 0 {
        return None;
    }
    let nft_metadata = match unpack_metadata(nft_metadata_data) {
        Some(m) => m,
        None => {
            return None;
        },
    };
    let ctx = Airdrop { owner, nft_mint_key, nft_mint, nft_account, nft_metadata, token_from, now };
    Some(airdrop(&ctx, pool, nft_data))
}

} // verus!
