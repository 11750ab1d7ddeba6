//! Clock gate fields
//!
//! A clock gate register (CCGR) holds sixteen two-bit gate fields. Gate `n`
//! occupies bits `2n` and `2n + 1`.
use vstd::prelude::*;

verus! {

/// Number of gate fields in one clock gate register
pub const GATES_PER_REGISTER: usize = 16;

/// The bit position of gate `gate`.
pub open spec fn shift_of(gate: usize) -> u32 {
    (gate * 2) as u32
}

/// The two bits of gate `gate` in `word`.
pub open spec fn gate_bits(word: u32, gate: usize) -> u32 {
    (word >> shift_of(gate)) & 3
}

/// `word` with gate `gate` set to the low two bits of `value`.
pub open spec fn set_gate(word: u32, gate: usize, value: u8) -> u32 {
    (word & !(3u32 << shift_of(gate))) | ((3u32 & (value as u32)) << shift_of(gate))
}

/// `word` with every gate of `gates` set, in order, to the low two bits of `value`.
pub open spec fn set_gates(word: u32, gates: Seq<usize>, value: u8) -> u32
    decreases gates.len(),
{
    if gates.len() == 0 {
        word
    } else {
        set_gate(set_gates(word, gates.drop_last(), value), gates.last(), value)
    }
}

/// Every gate of `gates` is one of the sixteen of a register.
pub open spec fn gates_in_range(gates: Seq<usize>) -> bool {
    forall|i: int| 0 <= i < gates.len() ==> #[trigger] gates[i] < GATES_PER_REGISTER
}

/// Setting one gate changes its two bits and no others.
pub proof fn lemma_set_gate_bits(word: u32, gate: usize, value: u8, other: usize)
    requires
        gate < GATES_PER_REGISTER,
        other < GATES_PER_REGISTER,
    ensures
        gate_bits(set_gate(word, gate, value), other) == if other == gate {
            3u32 & (value as u32)
        } else {
            gate_bits(word, other)
        },
{
    let s = shift_of(gate);
    let t = shift_of(other);
    let v = value as u32;
    assert(s < 32 && t < 32 && s % 2 == 0 && t % 2 == 0);
    assert(s == t <==> gate == other);
    assert((((word & !(3u32 << s)) | ((3u32 & v) << s)) >> t) & 3 == if s == t {
        3u32 & v
    } else {
        (word >> t) & 3
    }) by (bit_vector)
        requires
            s < 32,
            t < 32,
            s % 2 == 0,
            t % 2 == 0,
    ;
}

/// What `set_gates` leaves in each gate: the value for the gates it names, the
/// old bits for the others.
pub proof fn lemma_set_gates_bits(word: u32, gates: Seq<usize>, value: u8, other: usize)
    requires
        gates_in_range(gates),
        other < GATES_PER_REGISTER,
    ensures
        gate_bits(set_gates(word, gates, value), other) == if gates.contains(other) {
            3u32 & (value as u32)
        } else {
            gate_bits(word, other)
        },
    decreases gates.len(),
{
    if gates.len() > 0 {
        let rest = gates.drop_last();
        assert(gates_in_range(rest)) by {
            assert forall|i: int| 0 <= i < rest.len() implies #[trigger] rest[i]
                < GATES_PER_REGISTER by {
                assert(rest[i] == gates[i]);
            }
        }
        lemma_set_gates_bits(word, rest, value, other);
        assert(gates.last() == gates[gates.len() - 1]);
        lemma_set_gate_bits(set_gates(word, rest, value), gates.last(), value, other);
        if gates.contains(other) && other != gates.last() {
            let k = choose|k: int| 0 <= k < gates.len() && gates[k] == other;
            assert(k != gates.len() - 1);
            assert(rest[k] == other);
        }
        if rest.contains(other) {
            let k = choose|k: int| 0 <= k < rest.len() && rest[k] == other;
            assert(gates[k] == other);
        }
    }
}

/// Two words whose sixteen gates agree are the same word.
pub proof fn lemma_gates_determine_word(a: u32, b: u32)
    requires
        forall|g: usize| g < GATES_PER_REGISTER ==> #[trigger] gate_bits(a, g) == gate_bits(b, g),
    ensures
        a == b,
{
    assert(gate_bits(a, 0) == gate_bits(b, 0));
    assert(gate_bits(a, 1) == gate_bits(b, 1));
    assert(gate_bits(a, 2) == gate_bits(b, 2));
    assert(gate_bits(a, 3) == gate_bits(b, 3));
    assert(gate_bits(a, 4) == gate_bits(b, 4));
    assert(gate_bits(a, 5) == gate_bits(b, 5));
    assert(gate_bits(a, 6) == gate_bits(b, 6));
    assert(gate_bits(a, 7) == gate_bits(b, 7));
    assert(gate_bits(a, 8) == gate_bits(b, 8));
    assert(gate_bits(a, 9) == gate_bits(b, 9));
    assert(gate_bits(a, 10) == gate_bits(b, 10));
    assert(gate_bits(a, 11) == gate_bits(b, 11));
    assert(gate_bits(a, 12) == gate_bits(b, 12));
    assert(gate_bits(a, 13) == gate_bits(b, 13));
    assert(gate_bits(a, 14) == gate_bits(b, 14));
    assert(gate_bits(a, 15) == gate_bits(b, 15));
    assert(a == b) by (bit_vector)
        requires
            (a >> 0u32) & 3 == (b >> 0u32) & 3,
            (a >> 2u32) & 3 == (b >> 2u32) & 3,
            (a >> 4u32) & 3 == (b >> 4u32) & 3,
            (a >> 6u32) & 3 == (b >> 6u32) & 3,
            (a >> 8u32) & 3 == (b >> 8u32) & 3,
            (a >> 10u32) & 3 == (b >> 10u32) & 3,
            (a >> 12u32) & 3 == (b >> 12u32) & 3,
            (a >> 14u32) & 3 == (b >> 14u32) & 3,
            (a >> 16u32) & 3 == (b >> 16u32) & 3,
            (a >> 18u32) & 3 == (b >> 18u32) & 3,
            (a >> 20u32) & 3 == (b >> 20u32) & 3,
            (a >> 22u32) & 3 == (b >> 22u32) & 3,
            (a >> 24u32) & 3 == (b >> 24u32) & 3,
            (a >> 26u32) & 3 == (b >> 26u32) & 3,
            (a >> 28u32) & 3 == (b >> 28u32) & 3,
            (a >> 30u32) & 3 == (b >> 30u32) & 3,
    ;
}

/// Setting the same gates to the same value a second time leaves the register
/// word as the first time left it.
pub proof fn lemma_set_gates_idempotent(word: u32, gates: Seq<usize>, value: u8)
    requires
        gates_in_range(gates),
    ensures
        set_gates(set_gates(word, gates, value), gates, value) == set_gates(word, gates, value),
{
    let once = set_gates(word, gates, value);
    let twice = set_gates(once, gates, value);
    assert forall|g: usize| g < GATES_PER_REGISTER implies #[trigger] gate_bits(twice, g)
        == gate_bits(once, g) by {
        lemma_set_gates_bits(once, gates, value, g);
        lemma_set_gates_bits(word, gates, value, g);
    }
    lemma_gates_determine_word(twice, once);
}

/// Set each gate of `gates` in `ccgr` to the low two bits of `value`
pub fn set_clock_gate(ccgr: &mut u32, gates: &[usize], value: u8)
    requires
        gates_in_range(gates@),
    ensures
        *final(ccgr) == set_gates(*old(ccgr), gates@, value),
        forall|g: usize|
            g < GATES_PER_REGISTER ==> #[trigger] gate_bits(*final(ccgr), g) == if gates@.contains(
                g,
            ) {
                3u32 & (value as u32)
            } else {
                gate_bits(*old(ccgr), g)
            },
{
    let mut register: u32 = *ccgr;
    let mut i: usize = 0;
    while i < gates.len()
        invariant
            i <= gates@.len(),
            gates_in_range(gates@),
            register == set_gates(*old(ccgr), gates@.take(i as int), value),
        decreases gates@.len() - i,
    {
        let gate = gates[i];
        assert(gate < GATES_PER_REGISTER);
        let shift: u32 = (gate * 2) as u32;
        let ghost before = register;
        register = register & !(0b11u32 << shift);
        register = register | ((0b11u32 & (value as u32)) << shift);
        assert(register == set_gate(before, gate, value));
        assert(gates@.take(i + 1).drop_last() =~= gates@.take(i as int));
        assert(gates@.take(i + 1).last() == gate);
        i = i + 1;
    }
    assert(gates@.take(i as int) =~= gates@);
    *ccgr = register;
    proof {
        assert forall|g: usize| g < GATES_PER_REGISTER implies #[trigger] gate_bits(*ccgr, g)
            == if gates@.contains(g) {
            3u32 & (value as u32)
        } else {
            gate_bits(*old(ccgr), g)
        } by {
            lemma_set_gates_bits(*old(ccgr), gates@, value, g);
        }
    }
}

/// Returns the two bits of gate `gate` in `ccgr`
pub fn get_clock_gate(ccgr: &u32, gate: usize) -> (r: u8)
    requires
        gate < GATES_PER_REGISTER,
    ensures
        r as u32 == gate_bits(*ccgr, gate),
        r <= 3,
{
    let shift: u32 = (gate * 2) as u32;
    let bits: u32 = (*ccgr >> shift) & 0b11;
    assert(bits <= 3) by (bit_vector)
        requires
            bits == (*ccgr >> shift) & 0b11,
    ;
    bits as u8
}

} // verus!
