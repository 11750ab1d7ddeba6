//! Bit fields of 32-bit clock control registers
//!
//! A register is modelled by the word it holds. Every operation here takes
//! that word by reference, reads it, and (for the mutators) stores the new
//! word back, exactly as a read-modify-write of the hardware register would.
use vstd::prelude::*;

verus! {

/// A field in a CCM register
///
/// `mask` holds the field's bits already shifted into place.
#[derive(Clone, Copy, PartialEq, Eq, Debug)]
pub struct Field {
    pub offset: u32,
    pub mask: u32,
}

impl Field {
    /// The field at bit `offset` whose unshifted mask is `mask`.
    pub open spec fn spec_new(offset: u32, mask: u32) -> Field {
        Field { offset, mask: mask << offset }
    }

    /// A field is usable when its offset is a valid shift of a 32-bit word.
    pub open spec fn wf(self) -> bool {
        self.offset < 32
    }

    /// The value of this field in `word`.
    pub open spec fn spec_read(self, word: u32) -> u32 {
        (word & self.mask) >> self.offset
    }

    /// `word` with this field cleared and `value` written in its place.
    pub open spec fn spec_modify(self, word: u32, value: u32) -> u32 {
        (word & !self.mask) | ((value << self.offset) & self.mask)
    }

    /// The word that holds `value` in this field and zero everywhere else.
    pub open spec fn spec_write_zero(self, value: u32) -> u32 {
        (value << self.offset) & self.mask
    }

    /// Create a register field
    ///
    /// Callers should not apply offset to the mask.
    pub fn new(offset: u32, mask: u32) -> (r: Field)
        requires
            offset < 32,
        ensures
            r == Field::spec_new(offset, mask),
            r.wf(),
    {
        Field { offset, mask: mask << offset }
    }

    /// Clear the field in `mem`, and write `value` in its place
    pub fn modify(&self, mem: &mut u32, value: u32)
        requires
            self.wf(),
        ensures
            *final(mem) == self.spec_modify(*old(mem), value),
    {
        let mut v = *mem;
        v = v & !self.mask;
        v = v | ((value << self.offset) & self.mask);
        *mem = v;
    }

    /// Write `value` into `mem`, setting all other fields to zero
    pub fn write_zero(&self, mem: &mut u32, value: u32)
        requires
            self.wf(),
        ensures
            *final(mem) == self.spec_write_zero(value),
    {
        *mem = (value << self.offset) & self.mask;
    }

    /// Read the field from `mem`
    pub fn read(&self, mem: &u32) -> (r: u32)
        requires
            self.wf(),
        ensures
            r == self.spec_read(*mem),
    {
        (*mem & self.mask) >> self.offset
    }
}

/// Writing a value that fits a field and reading the field back gives the value.
pub proof fn lemma_read_modify_same(word: u32, offset: u32, mask: u32, value: u32)
    requires
        offset < 32,
        (mask << offset) >> offset == mask,
        value & mask == value,
    ensures
        Field::spec_new(offset, mask).spec_read(
            Field::spec_new(offset, mask).spec_modify(word, value),
        ) == value,
        Field::spec_new(offset, mask).spec_read(Field::spec_new(offset, mask).spec_write_zero(value))
            == value,
{
    assert((((word & !(mask << offset)) | ((value << offset) & (mask << offset))) & (mask
        << offset)) >> offset == value) by (bit_vector)
        requires
            offset < 32,
            (mask << offset) >> offset == mask,
            value & mask == value,
    ;
    assert(((((value << offset) & (mask << offset))) & (mask << offset)) >> offset == value)
        by (bit_vector)
        requires
            offset < 32,
            (mask << offset) >> offset == mask,
            value & mask == value,
    ;
}

/// Writing one field leaves every field that shares no bit with it unchanged.
pub proof fn lemma_read_modify_other(word: u32, f: Field, g: Field, value: u32)
    requires
        f.mask & g.mask == 0,
    ensures
        g.spec_read(f.spec_modify(word, value)) == g.spec_read(word),
{
    let (fm, fo, gm) = (f.mask, f.offset, g.mask);
    assert(((word & !fm) | ((value << fo) & fm)) & gm == word & gm) by (bit_vector)
        requires
            fm & gm == 0,
    ;
}

/// `x` limited to the range `lo..=hi`.
pub open spec fn spec_clamp(x: u32, lo: u32, hi: u32) -> u32 {
    if x > hi {
        hi
    } else if x < lo {
        lo
    } else {
        x
    }
}

/// A CCM register with a clock divider field and a clock selection field
#[derive(Clone, Copy, PartialEq, Eq, Debug)]
pub struct Register {
    /// The clock divider field
    pub divider: Field,
    /// The clock selection field
    pub select: Field,
}

impl Register {
    pub open spec fn wf(self) -> bool {
        self.divider.wf() && self.select.wf()
    }

    /// The word that `set(divider, select)` leaves in a register that held `word`.
    pub open spec fn spec_set(self, word: u32, divider: u32, select: u32) -> u32 {
        (((word & !(self.divider.mask | self.select.mask)) | ((divider << self.divider.offset)
            & self.divider.mask)) | ((select << self.select.offset) & self.select.mask))
    }

    pub fn new(divider: Field, select: Field) -> (r: Register)
        ensures
            r.divider == divider,
            r.select == select,
    {
        Register { divider, select }
    }

    /// Clear both fields of `mem`, then write the divider and the selection
    pub fn set(&self, mem: &mut u32, divider: u32, select: u32)
        requires
            self.wf(),
        ensures
            *final(mem) == self.spec_set(*old(mem), divider, select),
    {
        let mut reg = *mem;
        reg = reg & !(self.divider.mask | self.select.mask);
        reg = reg | ((divider << self.divider.offset) & self.divider.mask);
        reg = reg | ((select << self.select.offset) & self.select.mask);
        *mem = reg;
    }

    /// Returns the clock divider field of `mem`
    pub fn divider(&self, mem: &u32) -> (r: u32)
        requires
            self.wf(),
        ensures
            r == self.divider.spec_read(*mem),
    {
        self.divider.read(mem)
    }

    /// Returns the clock selection field of `mem`
    pub fn selection(&self, mem: &u32) -> (r: u32)
        requires
            self.wf(),
        ensures
            r == self.select.spec_read(*mem),
    {
        self.select.read(mem)
    }
}

/// After `set`, the divider field reads back the divider and the selection field
/// reads back the selection, when each value fits its field and the fields are
/// apart.
pub proof fn lemma_set_read(reg: Register, word: u32, d_off: u32, d_mask: u32, s_off: u32, s_mask: u32, divider: u32, select: u32)
    requires
        reg.divider == Field::spec_new(d_off, d_mask),
        reg.select == Field::spec_new(s_off, s_mask),
        d_off < 32,
        s_off < 32,
        (d_mask << d_off) >> d_off == d_mask,
        (s_mask << s_off) >> s_off == s_mask,
        (d_mask << d_off) & (s_mask << s_off) == 0,
        divider & d_mask == divider,
        select & s_mask == select,
    ensures
        reg.divider.spec_read(reg.spec_set(word, divider, select)) == divider,
        reg.select.spec_read(reg.spec_set(word, divider, select)) == select,
{
    assert(((((word & !((d_mask << d_off) | (s_mask << s_off))) | ((divider << d_off) & (d_mask
        << d_off))) | ((select << s_off) & (s_mask << s_off))) & (d_mask << d_off)) >> d_off
        == divider) by (bit_vector)
        requires
            d_off < 32,
            s_off < 32,
            (d_mask << d_off) >> d_off == d_mask,
            (d_mask << d_off) & (s_mask << s_off) == 0,
            divider & d_mask == divider,
    ;
    assert(((((word & !((d_mask << d_off) | (s_mask << s_off))) | ((divider << d_off) & (d_mask
        << d_off))) | ((select << s_off) & (s_mask << s_off))) & (s_mask << s_off)) >> s_off
        == select) by (bit_vector)
        requires
            d_off < 32,
            s_off < 32,
            (s_mask << s_off) >> s_off == s_mask,
            (d_mask << d_off) & (s_mask << s_off) == 0,
            select & s_mask == select,
    ;
}

} // verus!
