use vstd::prelude::*;
use vstd::bytes::lemma_auto_spec_u64_to_from_le_bytes;
use vstd::bytes::spec_u64_from_le_bytes;
use vstd::bytes::spec_u64_to_le_bytes;
use vstd::bytes::u64_from_le_bytes;
use vstd::bytes::u64_to_le_bytes;
use vstd::bytes::lemma_auto_spec_u32_to_from_le_bytes;
use vstd::bytes::spec_u32_to_le_bytes;
use vstd::bytes::u32_from_le_bytes;
use vstd::bytes::u32_to_le_bytes;
use vstd::slice::slice_subrange;
use vstd::slice::slice_to_vec;
use vstd::utf8::decode_utf8;
use vstd::utf8::decode_utf8_encode_utf8;
use vstd::utf8::encode_utf8;
use vstd::utf8::valid_utf8;
use crate::types::NftData;
use crate::types::Pool;
use crate::types::PoolView;
use crate::types::Pubkey;
use crate::types::Schedule;
use crate::types::pubkey_from_bytes;
use crate::types::MAX_NUM;
use crate::types::MAX_SYMBOL_LENGTH;

verus! {

// The persisted record layouts: 32-byte identities, little-endian 8-byte
// words, length-prefixed sequences and strings, in field order. The host's
// storage layer frames each record with its small discriminator prefix;
// these functions read and write the record body.

/// Length, in bytes, of a serialized claim record.
pub const NFT_DATA_SIZE: usize = 32 + 8 + 1;

/// The 32-byte encoding of an address: its four words, little-endian.
pub open spec fn spec_key_bytes(k: Pubkey) -> Seq<u8> {
    spec_u64_to_le_bytes(k.w0) + spec_u64_to_le_bytes(k.w1) + spec_u64_to_le_bytes(k.w2)
        + spec_u64_to_le_bytes(k.w3)
}

/// Reading the 32-byte encoding of an address back yields the address.
pub proof fn lemma_key_bytes_round_trip(k: Pubkey)
    ensures
        spec_key_bytes(k).len() == 32,
        pubkey_from_bytes(spec_key_bytes(k)) == k,
{
    lemma_auto_spec_u64_to_from_le_bytes();
    let s = spec_key_bytes(k);
    assert(s.subrange(0, 8) =~= spec_u64_to_le_bytes(k.w0));
    assert(s.subrange(8, 16) =~= spec_u64_to_le_bytes(k.w1));
    assert(s.subrange(16, 24) =~= spec_u64_to_le_bytes(k.w2));
    assert(s.subrange(24, 32) =~= spec_u64_to_le_bytes(k.w3));
}

/// Writes the 32-byte encoding of an address.
pub fn key_to_bytes(k: &Pubkey) -> (r: Vec<u8>)
    ensures
        r@ == spec_key_bytes(*k),
        r@.len() == 32,
{
    proof {
        lemma_auto_spec_u64_to_from_le_bytes();
    }
    let mut r = u64_to_le_bytes(k.w0);
    let mut w1 = u64_to_le_bytes(k.w1);
    let mut w2 = u64_to_le_bytes(k.w2);
    let mut w3 = u64_to_le_bytes(k.w3);
    r.append(&mut w1);
    r.append(&mut w2);
    r.append(&mut w3);
    r
}

/// The serialized claim record: tracked mint, last claim time, derivation
/// byte.
pub open spec fn spec_nft_data_bytes(d: NftData) -> Seq<u8> {
    spec_key_bytes(d.nft_mint) + spec_u64_to_le_bytes(d.last_airdrop_time) + seq![d.bump]
}

/// The claim record a serialized body holds.
pub open spec fn spec_parse_nft_data(s: Seq<u8>) -> NftData
    recommends
        s.len() == NFT_DATA_SIZE,
{
    NftData {
        nft_mint: pubkey_from_bytes(s.subrange(0, 32)),
        last_airdrop_time: spec_u64_from_le_bytes(s.subrange(32, 40)),
        bump: s[40],
    }
}

/// A claim record survives serialization unchanged.
pub proof fn lemma_nft_data_round_trip(d: NftData)
    ensures
        spec_nft_data_bytes(d).len() == NFT_DATA_SIZE,
        spec_parse_nft_data(spec_nft_data_bytes(d)) == d,
{
    lemma_auto_spec_u64_to_from_le_bytes();
    lemma_key_bytes_round_trip(d.nft_mint);
    let s = spec_nft_data_bytes(d);
    assert(s.subrange(0, 32) =~= spec_key_bytes(d.nft_mint));
    assert(s.subrange(32, 40) =~= spec_u64_to_le_bytes(d.last_airdrop_time));
}

/// Serializes a claim record.
pub fn serialize_nft_data(d: &NftData) -> (r: Vec<u8>)
    ensures
        r@ == spec_nft_data_bytes(*d),
        r@.len() == NFT_DATA_SIZE,
{
    proof {
        lemma_nft_data_round_trip(*d);
    }
    let mut r = key_to_bytes(&d.nft_mint);
    let mut t = u64_to_le_bytes(d.last_airdrop_time);
    r.append(&mut t);
    r.push(d.bump);
    r
}

/// Reads a claim record back from a serialized body; `None` exactly when
/// the body has the wrong length.
pub fn deserialize_nft_data(b: &[u8]) -> (r: Option<NftData>)
    ensures
        b@.len() != NFT_DATA_SIZE ==> r is None,
        b@.len() == NFT_DATA_SIZE ==> r == Some(spec_parse_nft_data(b@)),
{
    if b.len() != NFT_DATA_SIZE {
        return None;
    }
    let nft_mint = Pubkey::from_le_bytes(slice_subrange(b, 0, 32));
    let last_airdrop_time = u64_from_le_bytes(slice_subrange(b, 32, 40));
    let bump = b[40];
    Some(NftData { nft_mint, last_airdrop_time, bump })
}

/// Largest serialized pool body: four identities, the length-prefixed
/// schedule at capacity, the period, the length-prefixed symbol at
/// capacity, and the derivation byte.
pub const POOL_SIZE: usize = 32 * 4 + 4 + MAX_NUM * 16 + 8 + 4 + MAX_SYMBOL_LENGTH + 1;

/// The 16-byte encoding of one schedule entry: due time, then amount.
pub open spec fn spec_entry_bytes(e: Schedule) -> Seq<u8> {
    spec_u64_to_le_bytes(e.airdrop_time) + spec_u64_to_le_bytes(e.airdrop_amount)
}

/// The encoding of a schedule: its entries in stored order, 16 bytes each.
pub open spec fn spec_schedule_bytes(s: Seq<Schedule>) -> Seq<u8>
    decreases s.len(),
{
    if s.len() == 0 {
        Seq::empty()
    } else {
        spec_entry_bytes(s[0]) + spec_schedule_bytes(s.drop_first())
    }
}

/// A schedule's encoding is 16 bytes per entry.
pub proof fn lemma_schedule_bytes_len(s: Seq<Schedule>)
    ensures
        spec_schedule_bytes(s).len() == 16 * s.len(),
    decreases s.len(),
{
    lemma_auto_spec_u64_to_from_le_bytes();
    if s.len() > 0 {
        lemma_schedule_bytes_len(s.drop_first());
    }
}

/// Appending an entry appends its 16-byte encoding.
pub proof fn lemma_schedule_bytes_push(s: Seq<Schedule>, e: Schedule)
    ensures
        spec_schedule_bytes(s.push(e)) =~= spec_schedule_bytes(s) + spec_entry_bytes(e),
    decreases s.len(),
{
    lemma_auto_spec_u64_to_from_le_bytes();
    let t = s.push(e);
    if s.len() == 0 {
        assert(t[0] == e);
        assert(t.drop_first() =~= Seq::<Schedule>::empty());
        assert(spec_schedule_bytes(t) == spec_entry_bytes(e) + spec_schedule_bytes(
            t.drop_first(),
        ));
        assert(spec_schedule_bytes(s) == Seq::<u8>::empty());
    } else {
        assert(t[0] == s[0]);
        assert(t.drop_first() =~= s.drop_first().push(e));
        lemma_schedule_bytes_push(s.drop_first(), e);
        assert(spec_schedule_bytes(t) == spec_entry_bytes(s[0]) + spec_schedule_bytes(
            t.drop_first(),
        ));
        assert(spec_schedule_bytes(t.drop_first()) =~= spec_schedule_bytes(s.drop_first())
            + spec_entry_bytes(e));
        assert(spec_schedule_bytes(s) == spec_entry_bytes(s[0]) + spec_schedule_bytes(
            s.drop_first(),
        ));
    }
}

/// Schedules of one length with one encoding are the same schedule.
pub proof fn lemma_schedule_bytes_injective(s1: Seq<Schedule>, s2: Seq<Schedule>)
    requires
        s1.len() == s2.len(),
        spec_schedule_bytes(s1) == spec_schedule_bytes(s2),
    ensures
        s1 =~= s2,
    decreases s1.len(),
{
    lemma_auto_spec_u64_to_from_le_bytes();
    if s1.len() > 0 {
        let b1 = spec_schedule_bytes(s1);
        let b2 = spec_schedule_bytes(s2);
        lemma_schedule_bytes_len(s1.drop_first());
        lemma_schedule_bytes_len(s2.drop_first());
        assert(b1.subrange(0, 8) =~= spec_u64_to_le_bytes(s1[0].airdrop_time));
        assert(b1.subrange(8, 16) =~= spec_u64_to_le_bytes(s1[0].airdrop_amount));
        assert(b2.subrange(0, 8) =~= spec_u64_to_le_bytes(s2[0].airdrop_time));
        assert(b2.subrange(8, 16) =~= spec_u64_to_le_bytes(s2[0].airdrop_amount));
        assert(s1[0].airdrop_time == s2[0].airdrop_time);
        assert(s1[0].airdrop_amount == s2[0].airdrop_amount);
        assert(b1.subrange(16, b1.len() as int) =~= spec_schedule_bytes(s1.drop_first()));
        assert(b2.subrange(16, b2.len() as int) =~= spec_schedule_bytes(s2.drop_first()));
        lemma_schedule_bytes_injective(s1.drop_first(), s2.drop_first());
        assert forall|k: int| 0 <= k < s1.len() implies s1[k] == s2[k] by {
            if k > 0 {
                assert(s1.drop_first()[k - 1] == s1[k]);
                assert(s2.drop_first()[k - 1] == s2[k]);
            }
        }
    }
}

/// The serialized pool body: the four identities, the length-prefixed
/// schedule, the claim period, the length-prefixed collection symbol in
/// UTF-8, and the derivation byte — in field order.
pub open spec fn spec_pool_bytes(p: PoolView) -> Seq<u8>
    recommends
        p.wf(),
{
    spec_key_bytes(p.owner) + spec_key_bytes(p.rand) + spec_key_bytes(p.reward_mint)
        + spec_key_bytes(p.reward_account) + spec_u32_to_le_bytes(p.schedule.len() as u32)
        + spec_schedule_bytes(p.schedule) + spec_u64_to_le_bytes(p.period) + spec_u32_to_le_bytes(
        encode_utf8(p.stake_collection).len() as u32,
    ) + encode_utf8(p.stake_collection) + seq![p.bump]
}

/// Serializes a pool record. The body never outgrows `POOL_SIZE`.
pub fn serialize_pool(p: &Pool) -> (r: Vec<u8>)
    requires
        p@.wf(),
    ensures
        r@ == spec_pool_bytes(p@),
        r@.len() <= POOL_SIZE,
{
    proof {
        lemma_auto_spec_u64_to_from_le_bytes();
        lemma_auto_spec_u32_to_from_le_bytes();
        lemma_schedule_bytes_len(p@.schedule);
    }
    let mut r = key_to_bytes(&p.owner);
    let mut part = key_to_bytes(&p.rand);
    r.append(&mut part);
    let mut part = key_to_bytes(&p.reward_mint);
    r.append(&mut part);
    let mut part = key_to_bytes(&p.reward_account);
    r.append(&mut part);
    let n = p.schedule.len();
    let mut part = u32_to_le_bytes(n as u32);
    r.append(&mut part);
    let ghost prefix = r@;
    let mut i: usize = 0;
    while i < n
        invariant
            0 <= i <= n,
            n == p@.schedule.len(),
            r@ =~= prefix + spec_schedule_bytes(p@.schedule.take(i as int)),
        decreases n - i,
    {
        let e = p.schedule[i];
        let mut part = u64_to_le_bytes(e.airdrop_time);
        r.append(&mut part);
        let mut part = u64_to_le_bytes(e.airdrop_amount);
        r.append(&mut part);
        proof {
            lemma_schedule_bytes_push(p@.schedule.take(i as int), p@.schedule[i as int]);
            assert(p@.schedule.take(i + 1 as int) =~= p@.schedule.take(i as int).push(
                p@.schedule[i as int],
            ));
        }
        i = i + 1;
    }
    proof {
        assert(p@.schedule.take(n as int) =~= p@.schedule);
    }
    let mut part = u64_to_le_bytes(p.period);
    r.append(&mut part);
    let sym: &[u8] = p.stake_collection.as_str().as_bytes();
    let mut part = u32_to_le_bytes(sym.len() as u32);
    r.append(&mut part);
    let mut part = slice_to_vec(sym);
    r.append(&mut part);
    r.push(p.bump);
    r
}

/// Relies on `String::from_utf8`: it succeeds exactly on valid UTF-8 and
/// decodes it.
#[verifier::external_body]
fn string_from_utf8(v: Vec<u8>) -> (r: Option<String>)
    ensures
        r matches Some(s) ==> valid_utf8(v@) && s@ == decode_utf8(v@),
        r is None ==> !valid_utf8(v@),
{
    String::from_utf8(v).ok()
}

/// Reading a 32-byte encoding back and encoding it again is the identity.
pub proof fn lemma_key_bytes_of_32(s: Seq<u8>)
    requires
        s.len() == 32,
    ensures
        spec_key_bytes(pubkey_from_bytes(s)) =~= s,
{
    lemma_auto_spec_u64_to_from_le_bytes();
    let k = pubkey_from_bytes(s);
    assert(spec_u64_to_le_bytes(k.w0) =~= s.subrange(0, 8));
    assert(spec_u64_to_le_bytes(k.w1) =~= s.subrange(8, 16));
    assert(spec_u64_to_le_bytes(k.w2) =~= s.subrange(16, 24));
    assert(spec_u64_to_le_bytes(k.w3) =~= s.subrange(24, 32));
}

/// Reads a pool record back from a serialized body. Whatever it returns is
/// well formed and re-serializes to exactly the input, and every serialized
/// well-formed pool is read back as itself: a parsed record is never
/// anything but the one that was stored, and a stored one is never missed.
pub fn deserialize_pool(b: &[u8]) -> (r: Option<Pool>)
    ensures
        r matches Some(p) ==> p@.wf() && b@ =~= spec_pool_bytes(p@),
        forall|p: PoolView|
            p.wf() && (#[trigger] spec_pool_bytes(p)) == b@ ==> (r matches Some(q) && q@ == p),
{
    proof {
        lemma_auto_spec_u64_to_from_le_bytes();
        lemma_auto_spec_u32_to_from_le_bytes();
    }
    if b.len() < 132 {
        proof {
            assert forall|p: PoolView| !(p.wf() && spec_pool_bytes(p) == b@) by {
                if p.wf() && spec_pool_bytes(p) == b@ {
                    lemma_pool_bytes_parts(p);
                }
            }
        }
        return None;
    }
    let owner = Pubkey::from_le_bytes(slice_subrange(b, 0, 32));
    let rand = Pubkey::from_le_bytes(slice_subrange(b, 32, 64));
    let reward_mint = Pubkey::from_le_bytes(slice_subrange(b, 64, 96));
    let reward_account = Pubkey::from_le_bytes(slice_subrange(b, 96, 128));
    let n = u32_from_le_bytes(slice_subrange(b, 128, 132)) as usize;
    if n > MAX_NUM {
        proof {
            assert forall|p: PoolView| !(p.wf() && spec_pool_bytes(p) == b@) by {
                if p.wf() && spec_pool_bytes(p) == b@ {
                    lemma_pool_bytes_parts(p);
                    assert(b@.subrange(128, 132) == spec_u32_to_le_bytes(
                        p.schedule.len() as u32,
                    ));
                    assert(n == p.schedule.len());
                }
            }
        }
        return None;
    }
    let entries_end = 132 + 16 * n;
    if b.len() < entries_end + 13 {
        proof {
            assert forall|p: PoolView| !(p.wf() && spec_pool_bytes(p) == b@) by {
                if p.wf() && spec_pool_bytes(p) == b@ {
                    lemma_pool_bytes_parts(p);
                    assert(b@.subrange(128, 132) == spec_u32_to_le_bytes(
                        p.schedule.len() as u32,
                    ));
                    assert(n == p.schedule.len());
                }
            }
        }
        return None;
    }
    let mut schedule: Vec<Schedule> = Vec::new();
    let mut i: usize = 0;
    while i < n
        invariant
            0 <= i <= n,
            n <= MAX_NUM,
            entries_end == 132 + 16 * n,
            b@.len() >= entries_end + 13,
            schedule@.len() == i,
            spec_schedule_bytes(schedule@) =~= b@.subrange(132, 132 + 16 * i),
        decreases n - i,
    {
        let off = 132 + 16 * i;
        let airdrop_time = u64_from_le_bytes(slice_subrange(b, off, off + 8));
        let airdrop_amount = u64_from_le_bytes(slice_subrange(b, off + 8, off + 16));
        let e = Schedule { airdrop_time, airdrop_amount };
        proof {
            lemma_auto_spec_u64_to_from_le_bytes();
            lemma_schedule_bytes_push(schedule@, e);
            assert(spec_u64_to_le_bytes(airdrop_time) =~= b@.subrange(off as int, off + 8));
            assert(spec_u64_to_le_bytes(airdrop_amount) =~= b@.subrange(off + 8, off + 16));
            assert(spec_entry_bytes(e) =~= b@.subrange(off as int, off + 16));
            assert(b@.subrange(132, off + 16) =~= b@.subrange(132, off as int) + b@.subrange(
                off as int,
                off + 16,
            ));
        }
        schedule.push(e);
        i = i + 1;
    }
    let period = u64_from_le_bytes(slice_subrange(b, entries_end, entries_end + 8));
    if period == 0 {
        proof {
            assert forall|p: PoolView| !(p.wf() && spec_pool_bytes(p) == b@) by {
                if p.wf() && spec_pool_bytes(p) == b@ {
                    lemma_pool_bytes_parts(p);
                    assert(b@.subrange(128, 132) == spec_u32_to_le_bytes(
                        p.schedule.len() as u32,
                    ));
                    assert(n == p.schedule.len());
                    assert(b@.subrange(entries_end as int, entries_end + 8)
                        == spec_u64_to_le_bytes(p.period));
                    assert(period == p.period);
                }
            }
        }
        return None;
    }
    let sym_len = u32_from_le_bytes(slice_subrange(b, entries_end + 8, entries_end + 12)) as usize;
    if sym_len > MAX_SYMBOL_LENGTH {
        proof {
            assert forall|p: PoolView| !(p.wf() && spec_pool_bytes(p) == b@) by {
                if p.wf() && spec_pool_bytes(p) == b@ {
                    lemma_pool_bytes_parts(p);
                    assert(b@.subrange(128, 132) == spec_u32_to_le_bytes(
                        p.schedule.len() as u32,
                    ));
                    assert(n == p.schedule.len());
                    assert(b@.subrange(entries_end + 8, entries_end + 12)
                        == spec_u32_to_le_bytes(encode_utf8(p.stake_collection).len() as u32));
                    assert(sym_len == encode_utf8(p.stake_collection).len());
                }
            }
        }
        return None;
    }
    let sym_end = entries_end + 12 + sym_len;
    if b.len() != sym_end + 1 {
        proof {
            assert forall|p: PoolView| !(p.wf() && spec_pool_bytes(p) == b@) by {
                if p.wf() && spec_pool_bytes(p) == b@ {
                    lemma_pool_bytes_parts(p);
                    assert(b@.subrange(128, 132) == spec_u32_to_le_bytes(
                        p.schedule.len() as u32,
                    ));
                    assert(n == p.schedule.len());
                    assert(b@.subrange(entries_end + 8, entries_end + 12)
                        == spec_u32_to_le_bytes(encode_utf8(p.stake_collection).len() as u32));
                    assert(sym_len == encode_utf8(p.stake_collection).len());
                }
            }
        }
        return None;
    }
    let sym_bytes = slice_to_vec(slice_subrange(b, entries_end + 12, sym_end));
    let ghost sym_seq = sym_bytes@;
    let stake_collection = match string_from_utf8(sym_bytes) {
        Some(s) => s,
        None => {
            proof {
                assert forall|p: PoolView| !(p.wf() && spec_pool_bytes(p) == b@) by {
                    if p.wf() && spec_pool_bytes(p) == b@ {
                        lemma_pool_bytes_parts(p);
                        assert(b@.subrange(128, 132) == spec_u32_to_le_bytes(
                            p.schedule.len() as u32,
                        ));
                        assert(n == p.schedule.len());
                        assert(b@.subrange(entries_end + 8, entries_end + 12)
                            == spec_u32_to_le_bytes(
                            encode_utf8(p.stake_collection).len() as u32,
                        ));
                        assert(sym_len == encode_utf8(p.stake_collection).len());
                        assert(sym_seq =~= b@.subrange(entries_end + 12, sym_end as int));
                        assert(sym_seq =~= encode_utf8(p.stake_collection));
                        vstd::utf8::encode_utf8_valid_utf8(p.stake_collection);
                    }
                }
            }
            return None;
        },
    };
    let bump = b[sym_end];
    let pool = Pool {
        owner,
        rand,
        reward_mint,
        reward_account,
        schedule,
        period,
        stake_collection,
        bump,
    };
    proof {
        let pv = pool@;
        decode_utf8_encode_utf8(sym_seq);
        assert(encode_utf8(pv.stake_collection) =~= sym_seq);
        lemma_key_bytes_of_32(b@.subrange(0, 32));
        lemma_key_bytes_of_32(b@.subrange(32, 64));
        lemma_key_bytes_of_32(b@.subrange(64, 96));
        lemma_key_bytes_of_32(b@.subrange(96, 128));
        assert(spec_key_bytes(pv.owner) =~= b@.subrange(0, 32));
        assert(spec_key_bytes(pv.rand) =~= b@.subrange(32, 64));
        assert(spec_key_bytes(pv.reward_mint) =~= b@.subrange(64, 96));
        assert(spec_key_bytes(pv.reward_account) =~= b@.subrange(96, 128));
        assert(spec_u32_to_le_bytes(pv.schedule.len() as u32) =~= b@.subrange(128, 132));
        assert(spec_schedule_bytes(pv.schedule) =~= b@.subrange(132, entries_end as int));
        assert(spec_u64_to_le_bytes(pv.period) =~= b@.subrange(
            entries_end as int,
            entries_end + 8,
        ));
        assert(spec_u32_to_le_bytes(encode_utf8(pv.stake_collection).len() as u32) =~= b@.subrange(
            entries_end + 8,
            entries_end + 12,
        ));
        assert(encode_utf8(pv.stake_collection) =~= b@.subrange(entries_end + 12, sym_end as int));
        assert(seq![pv.bump] =~= b@.subrange(sym_end as int, sym_end + 1));
        assert(b@ =~= spec_pool_bytes(pv));
        assert forall|p: PoolView| p.wf() && spec_pool_bytes(p) == b@ implies pv == p by {
            lemma_pool_bytes_injective(pv, p);
        }
    }
    Some(pool)
}

/// Where each field stands in a serialized pool body.
pub proof fn lemma_pool_bytes_parts(p: PoolView)
    ensures
        ({
            let b = spec_pool_bytes(p);
            let n = p.schedule.len() as int;
            let ee = 132 + 16 * n;
            let sl = encode_utf8(p.stake_collection).len() as int;
            &&& b.len() == ee + 13 + sl
            &&& b.subrange(0, 32) =~= spec_key_bytes(p.owner)
            &&& b.subrange(32, 64) =~= spec_key_bytes(p.rand)
            &&& b.subrange(64, 96) =~= spec_key_bytes(p.reward_mint)
            &&& b.subrange(96, 128) =~= spec_key_bytes(p.reward_account)
            &&& b.subrange(128, 132) =~= spec_u32_to_le_bytes(p.schedule.len() as u32)
            &&& b.subrange(132, ee) =~= spec_schedule_bytes(p.schedule)
            &&& b.subrange(ee, ee + 8) =~= spec_u64_to_le_bytes(p.period)
            &&& b.subrange(ee + 8, ee + 12) =~= spec_u32_to_le_bytes(sl as u32)
            &&& b.subrange(ee + 12, ee + 12 + sl) =~= encode_utf8(p.stake_collection)
            &&& b.subrange(ee + 12 + sl, ee + 13 + sl) =~= seq![p.bump]
        }),
{
    lemma_auto_spec_u64_to_from_le_bytes();
    lemma_auto_spec_u32_to_from_le_bytes();
    lemma_schedule_bytes_len(p.schedule);
    lemma_key_bytes_round_trip(p.owner);
    lemma_key_bytes_round_trip(p.rand);
    lemma_key_bytes_round_trip(p.reward_mint);
    lemma_key_bytes_round_trip(p.reward_account);
}

/// Two well-formed pools with one serialized body are the same pool: the
/// layout loses nothing. Together with `deserialize_pool`'s contract, what
/// is read back from a stored body is exactly the pool that wrote it.
pub proof fn lemma_pool_bytes_injective(p1: PoolView, p2: PoolView)
    requires
        p1.wf(),
        p2.wf(),
        spec_pool_bytes(p1) == spec_pool_bytes(p2),
    ensures
        p1 == p2,
{
    lemma_auto_spec_u64_to_from_le_bytes();
    lemma_auto_spec_u32_to_from_le_bytes();
    lemma_pool_bytes_parts(p1);
    lemma_pool_bytes_parts(p2);
    // the schedule length prefix pins both schedules' byte length
    assert(p1.schedule.len() == p2.schedule.len());
    lemma_key_bytes_round_trip(p1.owner);
    lemma_key_bytes_round_trip(p2.owner);
    lemma_key_bytes_round_trip(p1.rand);
    lemma_key_bytes_round_trip(p2.rand);
    lemma_key_bytes_round_trip(p1.reward_mint);
    lemma_key_bytes_round_trip(p2.reward_mint);
    lemma_key_bytes_round_trip(p1.reward_account);
    lemma_key_bytes_round_trip(p2.reward_account);
    lemma_schedule_bytes_injective(p1.schedule, p2.schedule);
    assert(p1.period == p2.period);
    // equal symbol bytes decode to equal symbols
    assert(encode_utf8(p1.stake_collection).len() == encode_utf8(p2.stake_collection).len());
    assert(encode_utf8(p1.stake_collection) =~= encode_utf8(p2.stake_collection));
    vstd::utf8::encode_utf8_decode_utf8(p1.stake_collection);
    vstd::utf8::encode_utf8_decode_utf8(p2.stake_collection);
    assert(p1.stake_collection == p2.stake_collection);
    assert(p1.bump == seq![p1.bump][0] && p2.bump == seq![p2.bump][0]);
}

} // verus!
