//! Partition of the coinbase nonce space between sessions.

use vstd::prelude::*;

verus! {

/// Length in bytes of every extranonce1 this server hands out.
pub const EXTRANONCE1_SIZE: usize = 24;

/// Zero bytes in front of the session identifier in an extranonce1.
pub const EXTRANONCE1_PAD: usize = 16;

/// Extranonce2 length every session is told to use, whatever it asked for.
pub const EXTRANONCE2_SIZE: usize = 8;

/// The byte of `id` that starts `shift` bits up.
pub open spec fn byte_at(id: u64, shift: u64) -> u8 {
    ((id >> shift) & 0xffu64) as u8
}

/// The extranonce1 of a session: 16 zero bytes, then its identifier in
/// big-endian bytes.
pub open spec fn extranonce1_for(session_id: u64) -> Seq<u8> {
    Seq::new(EXTRANONCE1_PAD as nat, |i: int| 0u8) + id_bytes(session_id)
}

/// A session identifier in big-endian bytes.
pub open spec fn id_bytes(session_id: u64) -> Seq<u8> {
    seq![
        byte_at(session_id, 56),
        byte_at(session_id, 48),
        byte_at(session_id, 40),
        byte_at(session_id, 32),
        byte_at(session_id, 24),
        byte_at(session_id, 16),
        byte_at(session_id, 8),
        byte_at(session_id, 0),
    ]
}

/// Builds the extranonce1 of a session.
pub fn session_extranonce1(session_id: u64) -> (r: Vec<u8>)
    ensures
        r@ == extranonce1_for(session_id),
        r@.len() == EXTRANONCE1_SIZE,
{
    let mut r: Vec<u8> = Vec::new();
    let mut i: usize = 0;
    while i < EXTRANONCE1_PAD
        invariant
            i <= EXTRANONCE1_PAD,
            r@ == Seq::new(i as nat, |k: int| 0u8),
        decreases EXTRANONCE1_PAD - i,
    {
        r.push(0u8);
        i = i + 1;
        assert(r@ =~= Seq::new(i as nat, |k: int| 0u8));
    }
    r.push(((session_id >> 56u64) & 0xffu64) as u8);
    r.push(((session_id >> 48u64) & 0xffu64) as u8);
    r.push(((session_id >> 40u64) & 0xffu64) as u8);
    r.push(((session_id >> 32u64) & 0xffu64) as u8);
    r.push(((session_id >> 24u64) & 0xffu64) as u8);
    r.push(((session_id >> 16u64) & 0xffu64) as u8);
    r.push(((session_id >> 8u64) & 0xffu64) as u8);
    r.push((session_id & 0xffu64) as u8);
    assert(session_id >> 0u64 == session_id) by (bit_vector);
    assert(r@ =~= extranonce1_for(session_id));
    r
}

proof fn lemma_low_byte_bound(x: u64)
    ensures
        x & 0xffu64 <= 0xffu64,
{
    assert(x & 0xffu64 <= 0xffu64) by (bit_vector);
}

/// Sessions with different identifiers get different extranonce1 values of
/// the same length, so their coinbase nonce spaces never overlap.
pub proof fn lemma_extranonce1_disjoint(a: u64, b: u64)
    requires
        a != b,
    ensures
        extranonce1_for(a) != extranonce1_for(b),
        extranonce1_for(a).len() == extranonce1_for(b).len(),
{
    if extranonce1_for(a) == extranonce1_for(b) {
        let (ea, eb) = (id_bytes(a), id_bytes(b));
        assert(ea =~= extranonce1_for(a).subrange(16, 24));
        assert(eb =~= extranonce1_for(b).subrange(16, 24));
        assert forall|s: u64| #![auto] s == 56 || s == 48 || s == 40 || s == 32 || s == 24 || s
            == 16 || s == 8 || s == 0 implies (a >> s) & 0xffu64 == (b >> s) & 0xffu64 by {
            lemma_low_byte_bound(a >> s);
            lemma_low_byte_bound(b >> s);
            let k: int = if s == 56 {
                0
            } else if s == 48 {
                1
            } else if s == 40 {
                2
            } else if s == 32 {
                3
            } else if s == 24 {
                4
            } else if s == 16 {
                5
            } else if s == 8 {
                6
            } else {
                7
            };
            assert(ea[k] == eb[k]);
        }
        assert(a == b) by (bit_vector)
            requires
                (a >> 56u64) & 0xffu64 == (b >> 56u64) & 0xffu64,
                (a >> 48u64) & 0xffu64 == (b >> 48u64) & 0xffu64,
                (a >> 40u64) & 0xffu64 == (b >> 40u64) & 0xffu64,
                (a >> 32u64) & 0xffu64 == (b >> 32u64) & 0xffu64,
                (a >> 24u64) & 0xffu64 == (b >> 24u64) & 0xffu64,
                (a >> 16u64) & 0xffu64 == (b >> 16u64) & 0xffu64,
                (a >> 8u64) & 0xffu64 == (b >> 8u64) & 0xffu64,
                (a >> 0u64) & 0xffu64 == (b >> 0u64) & 0xffu64,
        ;
    }
}

} // verus!
