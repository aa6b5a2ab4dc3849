//! The wire codec: discriminator values, fixed payload layouts, and
//! bounds-checked field writers and readers (little-endian throughout).

use vstd::prelude::*;
use vstd::bytes::*;
use vstd::slice::slice_subrange;
use crate::call::Address;

verus! {

pub const INITIALIZE_ACCOUNT: u8 = 1;
pub const TRANSFER: u8 = 3;
pub const APPROVE: u8 = 4;
pub const REVOKE: u8 = 5;
pub const MINT_TO: u8 = 7;
pub const BURN: u8 = 8;
pub const CLOSE_ACCOUNT: u8 = 9;
pub const FREEZE_ACCOUNT: u8 = 10;
pub const THAW_ACCOUNT: u8 = 11;
pub const TRANSFER_CHECKED: u8 = 12;
pub const APPROVE_CHECKED: u8 = 13;
pub const MINT_TO_CHECKED: u8 = 14;
pub const BURN_CHECKED: u8 = 15;
pub const INITIALIZE_ACCOUNT_2: u8 = 16;
pub const SYNC_NATIVE: u8 = 17;
pub const INITIALIZE_ACCOUNT_3: u8 = 18;
/// The extension instruction family of the CPI guard.
pub const CPI_GUARD_EXTENSION: u8 = 34;
/// Second byte of a CPI guard instruction: turn the guard on.
pub const CPI_GUARD_ENABLE: u8 = 0;
/// Second byte of a CPI guard instruction: turn the guard off.
pub const CPI_GUARD_DISABLE: u8 = 1;

/// Length of a payload that is a bare discriminator.
pub const TAG_LEN: usize = 1;
/// Length of a payload `discriminator, amount`.
pub const AMOUNT_LEN: usize = 9;
/// Length of a payload `discriminator, amount, decimals`.
pub const AMOUNT_DECIMALS_LEN: usize = 10;
/// Length of a payload `discriminator, key`.
pub const TAG_KEY_LEN: usize = 33;
/// Length of a payload `4-byte discriminator, key`.
pub const WIDE_TAG_KEY_LEN: usize = 36;
/// Length of a payload `discriminator, sub-discriminator`.
pub const TAG_PAIR_LEN: usize = 2;

/// `s` with the bytes from `offset` on replaced by `b`.
pub open spec fn splice(s: Seq<u8>, offset: int, b: Seq<u8>) -> Seq<u8> {
    s.subrange(0, offset) + b + s.subrange(offset + b.len(), s.len() as int)
}

/// The eight little-endian bytes of `v`.
pub open spec fn le64(v: u64) -> Seq<u8> {
    spec_u64_to_le_bytes(v)
}

/// The four little-endian bytes of `v`.
pub open spec fn le32(v: u32) -> Seq<u8> {
    spec_u32_to_le_bytes(v)
}

/// The little-endian `u64` stored at `offset` of `s`.
pub open spec fn read_le64(s: Seq<u8>, offset: int) -> u64 {
    spec_u64_from_le_bytes(s.subrange(offset, offset + 8))
}

/// The little-endian `u32` stored at `offset` of `s`.
pub open spec fn read_le32(s: Seq<u8>, offset: int) -> u32 {
    spec_u32_from_le_bytes(s.subrange(offset, offset + 4))
}

pub open spec fn tag_payload(tag: u8) -> Seq<u8> {
    seq![tag]
}

pub open spec fn amount_payload(tag: u8, amount: u64) -> Seq<u8> {
    seq![tag] + le64(amount)
}

pub open spec fn amount_decimals_payload(tag: u8, amount: u64, decimals: u8) -> Seq<u8> {
    seq![tag] + le64(amount) + seq![decimals]
}

pub open spec fn tag_key_payload(tag: u8, key: Seq<u8>) -> Seq<u8> {
    seq![tag] + key
}

pub open spec fn wide_tag_key_payload(tag: u32, key: Seq<u8>) -> Seq<u8> {
    le32(tag) + key
}

pub open spec fn tag_pair_payload(tag: u8, sub: u8) -> Seq<u8> {
    seq![tag, sub]
}

/// A buffer of `len` zero bytes.
pub fn zeroed(len: usize) -> (r: Vec<u8>)
    ensures
        r@ == Seq::new(len as nat, |i: int| 0u8),
{
    let mut r: Vec<u8> = Vec::with_capacity(len);
    let mut i: usize = 0;
    while i < len
        invariant
            i <= len,
            r@ == Seq::new(i as nat, |j: int| 0u8),
        decreases len - i,
    {
        r.push(0u8);
        i = i + 1;
        assert(r@ =~= Seq::new(i as nat, |j: int| 0u8));
    }
    r
}

/// Writes one byte at `offset`.
pub fn write_u8(buf: &mut Vec<u8>, offset: usize, v: u8)
    requires
        offset < old(buf)@.len(),
    ensures
        final(buf)@ == splice(old(buf)@, offset as int, seq![v]),
{
    buf.set(offset, v);
    assert(buf@ =~= splice(old(buf)@, offset as int, seq![v]));
}

/// Writes `b` at `offset`.
pub fn write_bytes(buf: &mut Vec<u8>, offset: usize, b: &[u8])
    requires
        offset + b@.len() <= old(buf)@.len(),
    ensures
        final(buf)@ == splice(old(buf)@, offset as int, b@),
{
    let len = buf.len();
    let mut i: usize = 0;
    while i < b.len()
        invariant
            len == old(buf)@.len(),
            offset + b@.len() <= old(buf)@.len(),
            i <= b@.len(),
            buf@.len() == old(buf)@.len(),
            forall|j: int| 0 <= j < offset ==> buf@[j] == old(buf)@[j],
            forall|j: int| offset <= j < offset + i ==> buf@[j] == b@[j - offset],
            forall|j: int| offset + i <= j < buf@.len() ==> buf@[j] == old(buf)@[j],
        decreases b@.len() - i,
    {
        buf.set(offset + i, b[i]);
        i = i + 1;
    }
    assert(buf@ =~= splice(old(buf)@, offset as int, b@));
}

/// Writes `v` as eight little-endian bytes at `offset`.
pub fn write_u64_le(buf: &mut Vec<u8>, offset: usize, v: u64)
    requires
        offset + 8 <= old(buf)@.len(),
    ensures
        final(buf)@ == splice(old(buf)@, offset as int, le64(v)),
{
    let b = u64_to_le_bytes(v);
    write_bytes(buf, offset, b.as_slice());
}

/// Writes `v` as four little-endian bytes at `offset`.
pub fn write_u32_le(buf: &mut Vec<u8>, offset: usize, v: u32)
    requires
        offset + 4 <= old(buf)@.len(),
    ensures
        final(buf)@ == splice(old(buf)@, offset as int, le32(v)),
{
    proof {
        lemma_auto_spec_u32_to_from_le_bytes();
    }
    let b = u32_to_le_bytes(v);
    write_bytes(buf, offset, b.as_slice());
}

/// Reads the little-endian `u64` at `offset`.
pub fn read_u64_le(data: &[u8], offset: usize) -> (r: u64)
    requires
        offset + 8 <= data@.len(),
    ensures
        r == read_le64(data@, offset as int),
{
    let rest = slice_subrange(data, offset, data.len());
    let field = slice_subrange(rest, 0, 8);
    assert(field@ =~= data@.subrange(offset as int, offset + 8));
    u64_from_le_bytes(field)
}

/// Reads the little-endian `u16` at `offset`.
pub fn read_u16_le(data: &[u8], offset: usize) -> (r: u16)
    requires
        offset + 2 <= data@.len(),
    ensures
        r == spec_u16_from_le_bytes(data@.subrange(offset as int, offset + 2)),
{
    let rest = slice_subrange(data, offset, data.len());
    let field = slice_subrange(rest, 0, 2);
    assert(field@ =~= data@.subrange(offset as int, offset + 2));
    u16_from_le_bytes(field)
}

/// Reads the 32-byte key at `offset`.
pub fn read_key(data: &[u8], offset: usize) -> (r: Address)
    requires
        offset + 32 <= data@.len(),
    ensures
        r@ == data@.subrange(offset as int, offset + 32),
{
    let rest = slice_subrange(data, offset, data.len());
    let mut key: Address = [0u8; 32];
    let mut i: usize = 0;
    while i < 32
        invariant
            offset + 32 <= data@.len(),
            rest@ == data@.subrange(offset as int, data@.len() as int),
            i <= 32,
            forall|j: int| 0 <= j < i ==> key@[j] == data@[offset + j],
        decreases 32 - i,
    {
        key[i] = rest[i];
        i = i + 1;
    }
    assert(key@ =~= data@.subrange(offset as int, offset + 32));
    key
}

/// The payload that is the bare discriminator `tag`.
pub fn encode_tag(tag: u8) -> (r: Vec<u8>)
    ensures
        r@ == tag_payload(tag),
{
    let mut r = zeroed(TAG_LEN);
    write_u8(&mut r, 0, tag);
    assert(r@ =~= tag_payload(tag));
    r
}

/// The payload `tag` (offset 0), `amount` (offsets 1..9).
pub fn encode_amount(tag: u8, amount: u64) -> (r: Vec<u8>)
    ensures
        r@ == amount_payload(tag, amount),
{
    proof {
        lemma_auto_spec_u64_to_from_le_bytes();
    }
    let mut r = zeroed(AMOUNT_LEN);
    write_u8(&mut r, 0, tag);
    write_u64_le(&mut r, 1, amount);
    assert(r@ =~= amount_payload(tag, amount));
    r
}

/// The payload `tag` (offset 0), `amount` (offsets 1..9), `decimals`
/// (offset 9).
pub fn encode_amount_decimals(tag: u8, amount: u64, decimals: u8) -> (r: Vec<u8>)
    ensures
        r@ == amount_decimals_payload(tag, amount, decimals),
{
    proof {
        lemma_auto_spec_u64_to_from_le_bytes();
    }
    let mut r = zeroed(AMOUNT_DECIMALS_LEN);
    write_u8(&mut r, 0, tag);
    write_u64_le(&mut r, 1, amount);
    write_u8(&mut r, 9, decimals);
    assert(r@ =~= amount_decimals_payload(tag, amount, decimals));
    r
}

/// The payload `tag` (offset 0), `key` (offsets 1..33).
pub fn encode_tag_key(tag: u8, key: &Address) -> (r: Vec<u8>)
    ensures
        r@ == tag_key_payload(tag, key@),
{
    let mut r = zeroed(TAG_KEY_LEN);
    write_u8(&mut r, 0, tag);
    write_bytes(&mut r, 1, key.as_slice());
    assert(r@ =~= tag_key_payload(tag, key@));
    r
}

/// The payload `tag` as a 4-byte little-endian discriminator (offsets 0..4),
/// `key` (offsets 4..36).
pub fn encode_wide_tag_key(tag: u32, key: &Address) -> (r: Vec<u8>)
    ensures
        r@ == wide_tag_key_payload(tag, key@),
{
    proof {
        lemma_auto_spec_u32_to_from_le_bytes();
    }
    let mut r = zeroed(WIDE_TAG_KEY_LEN);
    write_u32_le(&mut r, 0, tag);
    write_bytes(&mut r, 4, key.as_slice());
    assert(r@ =~= wide_tag_key_payload(tag, key@));
    r
}

/// The payload `tag` (offset 0), `sub` (offset 1).
pub fn encode_tag_pair(tag: u8, sub: u8) -> (r: Vec<u8>)
    ensures
        r@ == tag_pair_payload(tag, sub),
{
    let mut r = zeroed(TAG_PAIR_LEN);
    write_u8(&mut r, 0, tag);
    write_u8(&mut r, 1, sub);
    assert(r@ =~= tag_pair_payload(tag, sub));
    r
}

/// Every payload layout starts with its discriminator, read back at the
/// layout's width, and has the layout's fixed length whatever the field
/// values are.
pub proof fn lemma_payload_discriminator_and_length(tag: u8, wide_tag: u32, sub: u8, amount: u64, decimals: u8, key: Seq<u8>)
    requires
        key.len() == 32,
    ensures
        tag_payload(tag)[0] == tag,
        tag_payload(tag).len() == TAG_LEN,
        amount_payload(tag, amount)[0] == tag,
        amount_payload(tag, amount).len() == AMOUNT_LEN,
        amount_decimals_payload(tag, amount, decimals)[0] == tag,
        amount_decimals_payload(tag, amount, decimals).len() == AMOUNT_DECIMALS_LEN,
        tag_key_payload(tag, key)[0] == tag,
        tag_key_payload(tag, key).len() == TAG_KEY_LEN,
        read_le32(wide_tag_key_payload(wide_tag, key), 0) == wide_tag,
        wide_tag_key_payload(wide_tag, key).len() == WIDE_TAG_KEY_LEN,
        tag_pair_payload(tag, sub)[0] == tag,
        tag_pair_payload(tag, sub).len() == TAG_PAIR_LEN,
{
    lemma_auto_spec_u64_to_from_le_bytes();
    lemma_auto_spec_u32_to_from_le_bytes();
    let w = wide_tag_key_payload(wide_tag, key);
    assert(w.subrange(0, 4) =~= le32(wide_tag));
}

/// Each field of a payload, read back at its offset with its width and
/// little-endian order, is the value that was encoded, for every value of
/// the field.
pub proof fn lemma_payload_fields_round_trip(tag: u8, wide_tag: u32, sub: u8, amount: u64, decimals: u8, key: Seq<u8>)
    requires
        key.len() == 32,
    ensures
        read_le64(amount_payload(tag, amount), 1) == amount,
        read_le64(amount_decimals_payload(tag, amount, decimals), 1) == amount,
        amount_decimals_payload(tag, amount, decimals)[9] == decimals,
        tag_key_payload(tag, key).subrange(1, 33) == key,
        wide_tag_key_payload(wide_tag, key).subrange(4, 36) == key,
        tag_pair_payload(tag, sub)[1] == sub,
{
    lemma_auto_spec_u64_to_from_le_bytes();
    lemma_auto_spec_u32_to_from_le_bytes();
    assert(amount_payload(tag, amount).subrange(1, 9) =~= le64(amount));
    assert(amount_decimals_payload(tag, amount, decimals).subrange(1, 9) =~= le64(amount));
    assert(tag_key_payload(tag, key).subrange(1, 33) =~= key);
    assert(wide_tag_key_payload(wide_tag, key).subrange(4, 36) =~= key);
}

} // verus!
