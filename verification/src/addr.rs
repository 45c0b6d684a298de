//! Deterministic address derivation.
//!
//! Records are not linked by pointers but by reproducible storage
//! addresses: a namespace tag followed by the identifying keys in
//! little-endian bytes. The registry lives at the bare `"master"` tag, a
//! lottery under the `"lottery"` tag and its id, and a ticket under the
//! `"ticket"` tag, its lottery's address, and its sequence number. The
//! lemmas below show the derivation is collision-free: distinct keys, and
//! distinct kinds of record, never share an address — so at most one
//! lottery can ever exist per id, and one ticket per number.

use vstd::prelude::*;

verus! {

broadcast use vstd::seq::group_seq_axioms;

/// The namespace tag of the registry: the bytes of `"master"`.
pub open spec fn master_tag() -> Seq<u8> {
    seq![0x6du8, 0x61u8, 0x73u8, 0x74u8, 0x65u8, 0x72u8]
}

/// The namespace tag of a lottery: the bytes of `"lottery"`.
pub open spec fn lottery_tag() -> Seq<u8> {
    seq![0x6cu8, 0x6fu8, 0x74u8, 0x74u8, 0x65u8, 0x72u8, 0x79u8]
}

/// The namespace tag of a ticket: the bytes of `"ticket"`.
pub open spec fn ticket_tag() -> Seq<u8> {
    seq![0x74u8, 0x69u8, 0x63u8, 0x6bu8, 0x65u8, 0x74u8]
}

/// The little-endian byte encoding of a 32-bit key.
pub open spec fn le_bytes32(x: u32) -> Seq<u8> {
    seq![(x & 0xff) as u8, ((x >> 8) & 0xff) as u8, ((x >> 16) & 0xff) as u8, ((x >> 24)
        & 0xff) as u8]
}

/// The address of the singleton registry record.
pub open spec fn master_address() -> Seq<u8> {
    master_tag()
}

/// The address of the lottery with identifier `id`.
pub open spec fn lottery_address(id: u32) -> Seq<u8> {
    lottery_tag() + le_bytes32(id)
}

/// The address of ticket `ticket_id` of lottery `lottery_id`: derived from
/// the owning lottery's address, so the ticket space of each lottery is
/// disjoint from every other's.
pub open spec fn ticket_address(lottery_id: u32, ticket_id: u32) -> Seq<u8> {
    ticket_tag() + lottery_address(lottery_id) + le_bytes32(ticket_id)
}

/// Computes `master_address`.
pub fn derive_master_address() -> (v: Vec<u8>)
    ensures
        v@ == master_address(),
{
    let mut v: Vec<u8> = Vec::new();
    v.push(0x6d);
    v.push(0x61);
    v.push(0x73);
    v.push(0x74);
    v.push(0x65);
    v.push(0x72);
    assert(v@ =~= master_address());
    v
}

/// Computes `lottery_address`.
pub fn derive_lottery_address(id: u32) -> (v: Vec<u8>)
    ensures
        v@ == lottery_address(id),
{
    let mut v: Vec<u8> = Vec::new();
    v.push(0x6c);
    v.push(0x6f);
    v.push(0x74);
    v.push(0x74);
    v.push(0x65);
    v.push(0x72);
    v.push(0x79);
    v.push((id & 0xff) as u8);
    v.push(((id >> 8) & 0xff) as u8);
    v.push(((id >> 16) & 0xff) as u8);
    v.push(((id >> 24) & 0xff) as u8);
    assert(v@ =~= lottery_address(id));
    v
}

/// Computes `ticket_address`.
pub fn derive_ticket_address(lottery_id: u32, ticket_id: u32) -> (v: Vec<u8>)
    ensures
        v@ == ticket_address(lottery_id, ticket_id),
{
    let mut v: Vec<u8> = Vec::new();
    v.push(0x74);
    v.push(0x69);
    v.push(0x63);
    v.push(0x6b);
    v.push(0x65);
    v.push(0x74);
    let mut owner = derive_lottery_address(lottery_id);
    v.append(&mut owner);
    v.push((ticket_id & 0xff) as u8);
    v.push(((ticket_id >> 8) & 0xff) as u8);
    v.push(((ticket_id >> 16) & 0xff) as u8);
    v.push(((ticket_id >> 24) & 0xff) as u8);
    assert(v@ =~= ticket_address(lottery_id, ticket_id));
    v
}

/// The little-endian encoding is injective: equal bytes mean equal keys.
pub proof fn lemma_le_bytes32_injective(a: u32, b: u32)
    requires
        le_bytes32(a) == le_bytes32(b),
    ensures
        a == b,
{
    assert(le_bytes32(a)[0] == le_bytes32(b)[0]);
    assert(le_bytes32(a)[1] == le_bytes32(b)[1]);
    assert(le_bytes32(a)[2] == le_bytes32(b)[2]);
    assert(le_bytes32(a)[3] == le_bytes32(b)[3]);
    assert(a & 0xff < 256 && (a >> 8) & 0xff < 256 && (a >> 16) & 0xff < 256 && (a >> 24) & 0xff
        < 256) by (bit_vector);
    assert(b & 0xff < 256 && (b >> 8) & 0xff < 256 && (b >> 16) & 0xff < 256 && (b >> 24) & 0xff
        < 256) by (bit_vector);
    assert(a == b) by (bit_vector)
        requires
            a & 0xff == b & 0xff,
            (a >> 8) & 0xff == (b >> 8) & 0xff,
            (a >> 16) & 0xff == (b >> 16) & 0xff,
            (a >> 24) & 0xff == (b >> 24) & 0xff,
    ;
}

/// Law: lottery addresses are collision-free — two lotteries share an
/// address only if they share an id, so the atomic counter guarantees at
/// most one lottery per address.
pub proof fn lemma_lottery_address_injective(a: u32, b: u32)
    requires
        lottery_address(a) == lottery_address(b),
    ensures
        a == b,
{
    assert forall|k: int| 0 <= k < 4 implies le_bytes32(a)[k] == le_bytes32(b)[k] by {
        assert(lottery_address(a)[7 + k] == lottery_address(b)[7 + k]);
        assert((lottery_tag() + le_bytes32(a))[7 + k] == le_bytes32(a)[k]);
        assert((lottery_tag() + le_bytes32(b))[7 + k] == le_bytes32(b)[k]);
    }
    assert(le_bytes32(a) =~= le_bytes32(b));
    lemma_le_bytes32_injective(a, b);
}

/// Law: ticket addresses are collision-free — two tickets share an address
/// only if they belong to the same lottery and carry the same number.
pub proof fn lemma_ticket_address_injective(la: u32, ta: u32, lb: u32, tb: u32)
    requires
        ticket_address(la, ta) == ticket_address(lb, tb),
    ensures
        la == lb,
        ta == tb,
{
    assert forall|k: int| 0 <= k < 4 implies le_bytes32(la)[k] == le_bytes32(lb)[k] by {
        assert(ticket_address(la, ta)[13 + k] == ticket_address(lb, tb)[13 + k]);
        assert((ticket_tag() + lottery_address(la) + le_bytes32(ta))[13 + k] == (ticket_tag()
            + lottery_address(la))[13 + k]);
        assert((ticket_tag() + lottery_address(la))[13 + k] == lottery_address(la)[7 + k]);
        assert(lottery_address(la)[7 + k] == le_bytes32(la)[k]);
        assert((ticket_tag() + lottery_address(lb) + le_bytes32(tb))[13 + k] == (ticket_tag()
            + lottery_address(lb))[13 + k]);
        assert((ticket_tag() + lottery_address(lb))[13 + k] == lottery_address(lb)[7 + k]);
        assert(lottery_address(lb)[7 + k] == le_bytes32(lb)[k]);
    }
    assert(le_bytes32(la) =~= le_bytes32(lb));
    lemma_le_bytes32_injective(la, lb);
    assert forall|k: int| 0 <= k < 4 implies le_bytes32(ta)[k] == le_bytes32(tb)[k] by {
        assert(ticket_address(la, ta)[17 + k] == ticket_address(lb, tb)[17 + k]);
        assert((ticket_tag() + lottery_address(la) + le_bytes32(ta))[17 + k] == le_bytes32(ta)[k]);
        assert((ticket_tag() + lottery_address(lb) + le_bytes32(tb))[17 + k] == le_bytes32(tb)[k]);
    }
    assert(le_bytes32(ta) =~= le_bytes32(tb));
    lemma_le_bytes32_injective(ta, tb);
}

/// Law: the three kinds of record live in disjoint namespaces — no
/// registry, lottery, and ticket address ever coincide.
pub proof fn lemma_record_kinds_disjoint(id: u32, lottery_id: u32, ticket_id: u32)
    ensures
        master_address() != lottery_address(id),
        master_address() != ticket_address(lottery_id, ticket_id),
        lottery_address(id) != ticket_address(lottery_id, ticket_id),
{
    assert(master_address().len() == 6);
    assert(lottery_address(id).len() == 11);
    assert(ticket_address(lottery_id, ticket_id).len() == 21);
}

} // verus!
