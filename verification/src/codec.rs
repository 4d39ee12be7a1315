//! Byte encodings used by the synchronizer.
//!
//! The library's own types are encoded by the model codec below: integers in
//! little-endian order, byte strings and lists prefixed by their 64-bit
//! length, an option by a one-byte tag.  Every encoder is specified exactly
//! by a spec function and verified against it.
//!
//! The outer layer of the parachain head's double-encoding, and the decoding
//! of an on-chain head blob, are the SCALE codec's: those two calls go to
//! `parity_scale_codec` through trusted wrappers, specified by
//! [`spec_scale_encode_bytes`].

use vstd::prelude::*;
use crate::blocks::{AuthoritySetChange, BlockHeaderWithChanges, Header, HeaderToSync};

verus! {

/// The four bytes of `n`, least significant first.
pub open spec fn u32_le_bytes(n: u32) -> Seq<u8> {
    seq![
        (n % 0x100) as u8,
        ((n / 0x100) % 0x100) as u8,
        ((n / 0x10000) % 0x100) as u8,
        ((n / 0x1000000) % 0x100) as u8,
    ]
}

/// The eight bytes of `n`, least significant first.
pub open spec fn u64_le_bytes(n: u64) -> Seq<u8> {
    seq![
        (n % 0x100) as u8,
        ((n / 0x100) % 0x100) as u8,
        ((n / 0x10000) % 0x100) as u8,
        ((n / 0x1000000) % 0x100) as u8,
        ((n / 0x100000000) % 0x100) as u8,
        ((n / 0x10000000000) % 0x100) as u8,
        ((n / 0x1000000000000) % 0x100) as u8,
        ((n / 0x100000000000000) % 0x100) as u8,
    ]
}

/// The SCALE compact encoding of a 32-bit length: the two low bits of the
/// first byte select the width, the remaining bits carry the value.
pub open spec fn spec_scale_compact_u32(n: u32) -> Seq<u8> {
    if n < 0x40 {
        seq![(n * 4) as u8]
    } else if n < 0x4000 {
        u32_le_bytes((n * 4 + 1) as u32).take(2)
    } else if n < 0x40000000 {
        u32_le_bytes((n * 4 + 2) as u32)
    } else {
        seq![3u8] + u32_le_bytes(n)
    }
}

/// The SCALE encoding of a byte string: its compact length, then its bytes.
pub open spec fn spec_scale_encode_bytes(b: Seq<u8>) -> Seq<u8> {
    spec_scale_compact_u32(b.len() as u32) + b
}

/// The model encoding of a byte string: its 64-bit length, then its bytes.
pub open spec fn spec_encode_bytes(b: Seq<u8>) -> Seq<u8> {
    u64_le_bytes(b.len() as u64) + b
}

/// The model encoding of a header: parent hash, number, state root.  The
/// header's own hash is derived metadata and is not part of the encoding.
pub open spec fn spec_encode_header(h: Header) -> Seq<u8> {
    u64_le_bytes(h.parent_hash) + u32_le_bytes(h.number) + u64_le_bytes(h.state_root)
}

/// The model encoding of a header with its optional justification.
pub open spec fn spec_encode_header_to_sync(h: HeaderToSync) -> Seq<u8> {
    spec_encode_header(h.header) + match h.justification {
        Option::None => seq![0u8],
        Option::Some(j) => seq![1u8] + spec_encode_bytes(j@),
    }
}

/// All the byte strings of `s`, joined in order.
pub open spec fn concat_bytes(s: Seq<Seq<u8>>) -> Seq<u8>
    decreases s.len(),
{
    if s.len() == 0 {
        Seq::empty()
    } else {
        concat_bytes(s.drop_last()) + s.last()
    }
}

pub proof fn lemma_concat_bytes_push(s: Seq<Seq<u8>>, x: Seq<u8>)
    ensures
        concat_bytes(s.push(x)) == concat_bytes(s) + x,
{
    assert(s.push(x).drop_last() =~= s);
    assert(s.push(x).last() == x);
}

/// The model encoding of one main-trie delta: the key, then a tagged
/// optional value (`None` is a deletion).
pub open spec fn spec_encode_kv(p: (Vec<u8>, Option<Vec<u8>>)) -> Seq<u8> {
    spec_encode_bytes(p.0@) + match p.1 {
        Option::None => seq![0u8],
        Option::Some(v) => seq![1u8] + spec_encode_bytes(v@),
    }
}

/// The model encoding of a delta list: its 64-bit count, then each delta.
pub open spec fn spec_encode_kv_list(s: Seq<(Vec<u8>, Option<Vec<u8>>)>) -> Seq<u8> {
    u64_le_bytes(s.len() as u64) + concat_bytes(s.map_values(|p: (Vec<u8>, Option<Vec<u8>>)| spec_encode_kv(p)))
}

/// The model encoding of one child-trie entry: the child key, then that
/// child's delta list.
pub open spec fn spec_encode_child_entry(p: (Vec<u8>, Vec<(Vec<u8>, Option<Vec<u8>>)>)) -> Seq<u8> {
    spec_encode_bytes(p.0@) + spec_encode_kv_list(p.1@)
}

/// The model encoding of the child-trie changes: count, then each entry.
pub open spec fn spec_encode_child_list(s: Seq<(Vec<u8>, Vec<(Vec<u8>, Option<Vec<u8>>)>)>) -> Seq<u8> {
    u64_le_bytes(s.len() as u64) + concat_bytes(
        s.map_values(|p: (Vec<u8>, Vec<(Vec<u8>, Option<Vec<u8>>)>)| spec_encode_child_entry(p)),
    )
}

/// The model encoding of a block's full change set.
pub open spec fn spec_encode_changes(
    main: Seq<(Vec<u8>, Option<Vec<u8>>)>,
    child: Seq<(Vec<u8>, Vec<(Vec<u8>, Option<Vec<u8>>)>)>,
) -> Seq<u8> {
    spec_encode_kv_list(main) + spec_encode_child_list(child)
}

/// The model encoding of one authority: its key, then its weight.
pub open spec fn spec_encode_authority(p: (Vec<u8>, u64)) -> Seq<u8> {
    spec_encode_bytes(p.0@) + u64_le_bytes(p.1)
}

/// The model encoding of an authority-set change: the list with its count,
/// the set id, then the proof nodes with their count.
pub open spec fn spec_encode_authority_set_change(c: AuthoritySetChange) -> Seq<u8> {
    u64_le_bytes(c.authority_set.list@.len() as u64)
        + concat_bytes(c.authority_set.list@.map_values(|p: (Vec<u8>, u64)| spec_encode_authority(p)))
        + u64_le_bytes(c.authority_set.id)
        + u64_le_bytes(c.authority_proof@.len() as u64)
        + concat_bytes(c.authority_proof@.map_values(|n: Vec<u8>| spec_encode_bytes(n@)))
}

fn push_u32_le(dst: &mut Vec<u8>, n: u32)
    ensures
        final(dst)@ == old(dst)@ + u32_le_bytes(n),
{
    dst.push((n % 0x100) as u8);
    dst.push(((n / 0x100) % 0x100) as u8);
    dst.push(((n / 0x10000) % 0x100) as u8);
    dst.push(((n / 0x1000000) % 0x100) as u8);
    assert(dst@ =~= old(dst)@ + u32_le_bytes(n));
}

fn push_u64_le(dst: &mut Vec<u8>, n: u64)
    ensures
        final(dst)@ == old(dst)@ + u64_le_bytes(n),
{
    dst.push((n % 0x100) as u8);
    dst.push(((n / 0x100) % 0x100) as u8);
    dst.push(((n / 0x10000) % 0x100) as u8);
    dst.push(((n / 0x1000000) % 0x100) as u8);
    dst.push(((n / 0x100000000) % 0x100) as u8);
    dst.push(((n / 0x10000000000) % 0x100) as u8);
    dst.push(((n / 0x1000000000000) % 0x100) as u8);
    dst.push(((n / 0x100000000000000) % 0x100) as u8);
    assert(dst@ =~= old(dst)@ + u64_le_bytes(n));
}

pub(crate) fn push_bytes(dst: &mut Vec<u8>, src: &[u8])
    ensures
        final(dst)@ == old(dst)@ + src@,
{
    let mut i: usize = 0;
    while i < src.len()
        invariant
            i <= src@.len(),
            dst@ == old(dst)@ + src@.take(i as int),
        decreases src@.len() - i,
    {
        dst.push(src[i]);
        assert(src@.take(i + 1 as int) =~= src@.take(i as int).push(src@[i as int]));
        i = i + 1;
    }
    assert(src@.take(src@.len() as int) =~= src@);
}

/// The model encoding of a byte string, executable form.
fn push_encoded_bytes(dst: &mut Vec<u8>, src: &Vec<u8>)
    ensures
        final(dst)@ == old(dst)@ + spec_encode_bytes(src@),
{
    push_u64_le(dst, src.len() as u64);
    push_bytes(dst, src.as_slice());
    assert(dst@ =~= old(dst)@ + spec_encode_bytes(src@));
}

/// Encodes a header with the model codec.
pub fn encode_header(h: &Header) -> (r: Vec<u8>)
    ensures
        r@ == spec_encode_header(*h),
{
    let mut r: Vec<u8> = Vec::new();
    push_u64_le(&mut r, h.parent_hash);
    push_u32_le(&mut r, h.number);
    push_u64_le(&mut r, h.state_root);
    assert(r@ =~= spec_encode_header(*h));
    r
}

/// Encodes a header and its optional justification with the model codec.
pub fn encode_header_to_sync(h: &HeaderToSync) -> (r: Vec<u8>)
    ensures
        r@ == spec_encode_header_to_sync(*h),
{
    let mut r = encode_header(&h.header);
    match &h.justification {
        Option::None => {
            r.push(0u8);
        },
        Option::Some(j) => {
            r.push(1u8);
            push_encoded_bytes(&mut r, j);
        },
    }
    assert(r@ =~= spec_encode_header_to_sync(*h));
    r
}

/// Encodes an authority-set change with the model codec.
pub fn encode_authority_set_change(c: &AuthoritySetChange) -> (r: Vec<u8>)
    ensures
        r@ == spec_encode_authority_set_change(*c),
{
    let list = &c.authority_set.list;
    let mut r: Vec<u8> = Vec::new();
    push_u64_le(&mut r, list.len() as u64);
    let ghost enc_auth = |p: (Vec<u8>, u64)| spec_encode_authority(p);
    let mut i: usize = 0;
    while i < list.len()
        invariant
            i <= list@.len(),
            r@ == u64_le_bytes(list@.len() as u64) + concat_bytes(list@.take(i as int).map_values(enc_auth)),
            enc_auth == (|p: (Vec<u8>, u64)| spec_encode_authority(p)),
        decreases list@.len() - i,
    {
        let ghost pre = list@.take(i as int).map_values(enc_auth);
        push_encoded_bytes(&mut r, &list[i].0);
        push_u64_le(&mut r, list[i].1);
        proof {
            lemma_concat_bytes_push(pre, enc_auth(list@[i as int]));
            assert(list@.take(i + 1 as int).map_values(enc_auth) =~= pre.push(enc_auth(list@[i as int])));
            assert(r@ =~= u64_le_bytes(list@.len() as u64)
                + concat_bytes(list@.take(i + 1 as int).map_values(enc_auth)));
        }
        i = i + 1;
    }
    assert(list@.take(list@.len() as int) =~= list@);
    push_u64_le(&mut r, c.authority_set.id);
    let proof_nodes = &c.authority_proof;
    push_u64_le(&mut r, proof_nodes.len() as u64);
    let ghost mid = r@;
    let ghost enc_node = |n: Vec<u8>| spec_encode_bytes(n@);
    let mut j: usize = 0;
    while j < proof_nodes.len()
        invariant
            j <= proof_nodes@.len(),
            r@ == mid + concat_bytes(proof_nodes@.take(j as int).map_values(enc_node)),
            enc_node == (|n: Vec<u8>| spec_encode_bytes(n@)),
        decreases proof_nodes@.len() - j,
    {
        let ghost pre = proof_nodes@.take(j as int).map_values(enc_node);
        push_encoded_bytes(&mut r, &proof_nodes[j]);
        proof {
            lemma_concat_bytes_push(pre, enc_node(proof_nodes@[j as int]));
            assert(proof_nodes@.take(j + 1 as int).map_values(enc_node)
                =~= pre.push(enc_node(proof_nodes@[j as int])));
            assert(r@ =~= mid + concat_bytes(proof_nodes@.take(j + 1 as int).map_values(enc_node)));
        }
        j = j + 1;
    }
    assert(proof_nodes@.take(proof_nodes@.len() as int) =~= proof_nodes@);
    assert(r@ =~= spec_encode_authority_set_change(*c));
    r
}

/// Encodes a main-trie delta list with the model codec.
pub fn encode_kv_list(s: &Vec<(Vec<u8>, Option<Vec<u8>>)>) -> (r: Vec<u8>)
    ensures
        r@ == spec_encode_kv_list(s@),
{
    let mut r: Vec<u8> = Vec::new();
    push_u64_le(&mut r, s.len() as u64);
    let ghost enc = |p: (Vec<u8>, Option<Vec<u8>>)| spec_encode_kv(p);
    let mut i: usize = 0;
    while i < s.len()
        invariant
            i <= s@.len(),
            r@ == u64_le_bytes(s@.len() as u64) + concat_bytes(s@.take(i as int).map_values(enc)),
            enc == (|p: (Vec<u8>, Option<Vec<u8>>)| spec_encode_kv(p)),
        decreases s@.len() - i,
    {
        let ghost pre = s@.take(i as int).map_values(enc);
        push_encoded_bytes(&mut r, &s[i].0);
        match &s[i].1 {
            Option::None => {
                r.push(0u8);
            },
            Option::Some(v) => {
                r.push(1u8);
                push_encoded_bytes(&mut r, v);
            },
        }
        proof {
            lemma_concat_bytes_push(pre, enc(s@[i as int]));
            assert(s@.take(i + 1 as int).map_values(enc) =~= pre.push(enc(s@[i as int])));
            assert(r@ =~= u64_le_bytes(s@.len() as u64)
                + concat_bytes(s@.take(i + 1 as int).map_values(enc)));
        }
        i = i + 1;
    }
    assert(s@.take(s@.len() as int) =~= s@);
    r
}

/// Encodes a block's full change set with the model codec.
pub fn encode_changes(
    main: &Vec<(Vec<u8>, Option<Vec<u8>>)>,
    child: &Vec<(Vec<u8>, Vec<(Vec<u8>, Option<Vec<u8>>)>)>,
) -> (r: Vec<u8>)
    ensures
        r@ == spec_encode_changes(main@, child@),
{
    let mut r = encode_kv_list(main);
    push_u64_le(&mut r, child.len() as u64);
    let ghost mid = r@;
    let ghost enc = |p: (Vec<u8>, Vec<(Vec<u8>, Option<Vec<u8>>)>)| spec_encode_child_entry(p);
    let mut i: usize = 0;
    while i < child.len()
        invariant
            i <= child@.len(),
            r@ == mid + concat_bytes(child@.take(i as int).map_values(enc)),
            enc == (|p: (Vec<u8>, Vec<(Vec<u8>, Option<Vec<u8>>)>)| spec_encode_child_entry(p)),
        decreases child@.len() - i,
    {
        let ghost pre = child@.take(i as int).map_values(enc);
        push_encoded_bytes(&mut r, &child[i].0);
        let inner = encode_kv_list(&child[i].1);
        push_bytes(&mut r, inner.as_slice());
        proof {
            lemma_concat_bytes_push(pre, enc(child@[i as int]));
            assert(child@.take(i + 1 as int).map_values(enc) =~= pre.push(enc(child@[i as int])));
            assert(r@ =~= mid + concat_bytes(child@.take(i + 1 as int).map_values(enc)));
        }
        i = i + 1;
    }
    assert(child@.take(child@.len() as int) =~= child@);
    assert(r@ =~= spec_encode_changes(main@, child@));
    r
}

/// The model encoding of a block header with its declared changes.
pub open spec fn spec_encode_block_header_with_changes(b: BlockHeaderWithChanges) -> Seq<u8> {
    spec_encode_header(b.block_header) + spec_encode_changes(
        b.storage_changes.main_storage_changes@,
        b.storage_changes.child_storage_changes@,
    )
}

/// Encodes a block header with its declared changes with the model codec.
pub fn encode_block_header_with_changes(b: &BlockHeaderWithChanges) -> (r: Vec<u8>)
    ensures
        r@ == spec_encode_block_header_with_changes(*b),
{
    let mut r = encode_header(&b.block_header);
    let changes = encode_changes(
        &b.storage_changes.main_storage_changes,
        &b.storage_changes.child_storage_changes,
    );
    push_bytes(&mut r, changes.as_slice());
    assert(r@ =~= spec_encode_block_header_with_changes(*b));
    r
}

/// Relies on `parity_scale_codec::Encode` for `Vec<u8>`: the compact length
/// of the byte string, then its bytes.
#[verifier::external_body]
pub fn scale_encode_bytes(b: &Vec<u8>) -> (r: Vec<u8>)
    requires
        b@.len() <= u32::MAX,
    ensures
        r@ == spec_scale_encode_bytes(b@),
{
    parity_scale_codec::Encode::encode(b)
}

/// Holds when `r` is what SCALE-decoding `d` as a byte string must give:
/// whenever `d` is the encoding of a byte string `b`, `r` is `Some(b)`.
pub open spec fn is_scale_decoding_of(d: Seq<u8>, r: Option<Vec<u8>>) -> bool {
    forall|b: Seq<u8>| d == spec_scale_encode_bytes(b) ==> (r matches Option::Some(v) && v@ == b)
}

/// Relies on `parity_scale_codec::Decode` for `Vec<u8>`: decoding the
/// encoding of a byte string gives that byte string back; decoding an empty
/// input fails.
#[verifier::external_body]
pub fn scale_decode_bytes(d: &Vec<u8>) -> (r: Option<Vec<u8>>)
    ensures
        is_scale_decoding_of(d@, r),
        d@.len() == 0 ==> r is None,
{
    let mut input: &[u8] = d.as_slice();
    <Vec<u8> as parity_scale_codec::Decode>::decode(&mut input).ok()
}

} // verus!
