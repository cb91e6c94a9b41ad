//! The four nibble-packed draw-color selectors. Each 4-bit slot chooses
//! which ambient palette color a drawing primitive uses; slot value 0 means
//! transparent. Every setter is a read-modify-write that touches exactly
//! its own 4 bits.

use vstd::prelude::*;

verus! {

/// A draw-color selector value: transparent, or one of the 4 palette colors.
#[derive(Clone, Copy, PartialEq, Eq, Structural, Debug)]
pub enum DrawColor {
    Transparent,
    A,
    B,
    C,
    D,
}

/// The 4-bit selector value a `DrawColor` stands for.
pub open spec fn spec_draw_color_value(c: DrawColor) -> u16 {
    match c {
        DrawColor::Transparent => 0,
        DrawColor::A => 1,
        DrawColor::B => 2,
        DrawColor::C => 3,
        DrawColor::D => 4,
    }
}

impl DrawColor {
    /// The selector value this variant stands for.
    pub fn value(self) -> (v: u16)
        ensures
            v == spec_draw_color_value(self),
    {
        match self {
            DrawColor::Transparent => 0,
            DrawColor::A => 1,
            DrawColor::B => 2,
            DrawColor::C => 3,
            DrawColor::D => 4,
        }
    }
}

/// The 4 draw-color selectors, nibble-packed into one 16-bit word:
/// slot k (1-based) occupies bits `4*(k-1) .. 4*k`.
#[derive(Clone, Copy, PartialEq, Eq, Structural, Debug)]
pub struct DrawColors(pub u16);

/// The 4-bit value of slot k (k in 1..=4) within a packed selector word.
pub open spec fn spec_slot(bits: u16, k: u16) -> u16
    recommends
        1 <= k <= 4,
{
    (bits >> (((k - 1) * 4) as u16)) & 0xF
}

/// The packed word after slot k is replaced by `v`, all other bits kept.
pub open spec fn spec_with_slot(bits: u16, k: u16, v: u16) -> u16
    recommends
        1 <= k <= 4,
        v <= 0xF,
{
    (bits & !((0xF as u16) << (((k - 1) * 4) as u16))) | (v << (((k - 1) * 4) as u16))
}

/// Law: replacing one selector slot sets exactly that slot and leaves the
/// other three slots' 4-bit values unchanged.
pub proof fn lemma_set_slot_confined(bits: u16, k: u16, v: u16, j: u16)
    by (bit_vector)
    requires
        1 <= k <= 4,
        1 <= j <= 4,
        v <= 0xF,
    ensures
        spec_slot(spec_with_slot(bits, k, v), k) == v,
        j != k ==> spec_slot(spec_with_slot(bits, k, v), j) == spec_slot(bits, j),
{
}

impl DrawColors {
    /// The packed 16-bit selector word.
    pub fn bits(&self) -> (b: u16)
        ensures
            b == self.0,
    {
        self.0
    }

    /// The 4-bit selector value of slot k.
    pub fn get(&self, k: u16) -> (v: u16)
        requires
            1 <= k <= 4,
        ensures
            v == spec_slot(self.0, k),
    {
        (self.0 >> ((k - 1) * 4)) & 0xF
    }

    /// Replace all 4 selectors at once.
    pub fn set_all(&mut self, c1: DrawColor, c2: DrawColor, c3: DrawColor, c4: DrawColor)
        ensures
            spec_slot(final(self).0, 1) == spec_draw_color_value(c1),
            spec_slot(final(self).0, 2) == spec_draw_color_value(c2),
            spec_slot(final(self).0, 3) == spec_draw_color_value(c3),
            spec_slot(final(self).0, 4) == spec_draw_color_value(c4),
    {
        let v1 = c1.value();
        let v2 = c2.value();
        let v3 = c3.value();
        let v4 = c4.value();
        self.0 = v1 | (v2 << 4) | (v3 << 8) | (v4 << 12);
        proof {
            lemma_draw_color_value_bound(c1);
            lemma_draw_color_value_bound(c2);
            lemma_draw_color_value_bound(c3);
            lemma_draw_color_value_bound(c4);
            assert(spec_slot(v1 | (v2 << 4) | (v3 << 8) | (v4 << 12), 1) == v1 && spec_slot(
                v1 | (v2 << 4) | (v3 << 8) | (v4 << 12),
                2,
            ) == v2 && spec_slot(v1 | (v2 << 4) | (v3 << 8) | (v4 << 12), 3) == v3 && spec_slot(
                v1 | (v2 << 4) | (v3 << 8) | (v4 << 12),
                4,
            ) == v4) by (bit_vector)
                requires
                    v1 <= 4 && v2 <= 4 && v3 <= 4 && v4 <= 4,
            ;
        }
    }

    /// Set selector slot 1, preserving the other three slots.
    pub fn set_1(&mut self, color: DrawColor)
        ensures
            final(self).0 == spec_with_slot(old(self).0, 1, spec_draw_color_value(color)),
            spec_slot(final(self).0, 1) == spec_draw_color_value(color),
            spec_slot(final(self).0, 2) == spec_slot(old(self).0, 2),
            spec_slot(final(self).0, 3) == spec_slot(old(self).0, 3),
            spec_slot(final(self).0, 4) == spec_slot(old(self).0, 4),
    {
        let v = color.value();
        self.0 = (self.0 & 0xFFF0) | v;
        proof {
            lemma_draw_color_value_bound(color);
            lemma_set_exec_matches_spec(old(self).0, 1, v);
            lemma_slots_after_set(old(self).0, 1, v);
        }
    }

    /// Set selector slot 2, preserving the other three slots.
    pub fn set_2(&mut self, color: DrawColor)
        ensures
            final(self).0 == spec_with_slot(old(self).0, 2, spec_draw_color_value(color)),
            spec_slot(final(self).0, 2) == spec_draw_color_value(color),
            spec_slot(final(self).0, 1) == spec_slot(old(self).0, 1),
            spec_slot(final(self).0, 3) == spec_slot(old(self).0, 3),
            spec_slot(final(self).0, 4) == spec_slot(old(self).0, 4),
    {
        let v = color.value();
        self.0 = (self.0 & 0xFF0F) | (v << 4);
        proof {
            lemma_draw_color_value_bound(color);
            lemma_set_exec_matches_spec(old(self).0, 2, v);
            lemma_slots_after_set(old(self).0, 2, v);
        }
    }

    /// Set selector slot 3, preserving the other three slots.
    pub fn set_3(&mut self, color: DrawColor)
        ensures
            final(self).0 == spec_with_slot(old(self).0, 3, spec_draw_color_value(color)),
            spec_slot(final(self).0, 3) == spec_draw_color_value(color),
            spec_slot(final(self).0, 1) == spec_slot(old(self).0, 1),
            spec_slot(final(self).0, 2) == spec_slot(old(self).0, 2),
            spec_slot(final(self).0, 4) == spec_slot(old(self).0, 4),
    {
        let v = color.value();
        self.0 = (self.0 & 0xF0FF) | (v << 8);
        proof {
            lemma_draw_color_value_bound(color);
            lemma_set_exec_matches_spec(old(self).0, 3, v);
            lemma_slots_after_set(old(self).0, 3, v);
        }
    }

    /// Set selector slot 4, preserving the other three slots.
    pub fn set_4(&mut self, color: DrawColor)
        ensures
            final(self).0 == spec_with_slot(old(self).0, 4, spec_draw_color_value(color)),
            spec_slot(final(self).0, 4) == spec_draw_color_value(color),
            spec_slot(final(self).0, 1) == spec_slot(old(self).0, 1),
            spec_slot(final(self).0, 2) == spec_slot(old(self).0, 2),
            spec_slot(final(self).0, 3) == spec_slot(old(self).0, 3),
    {
        let v = color.value();
        self.0 = (self.0 & 0x0FFF) | (v << 12);
        proof {
            lemma_draw_color_value_bound(color);
            lemma_set_exec_matches_spec(old(self).0, 4, v);
            lemma_slots_after_set(old(self).0, 4, v);
        }
    }
}

/// Every selector variant's value fits in 4 bits.
proof fn lemma_draw_color_value_bound(c: DrawColor)
    ensures
        spec_draw_color_value(c) <= 4,
{
}

/// The fixed-mask read-modify-write each setter performs equals the
/// generic slot replacement.
proof fn lemma_set_exec_matches_spec(bits: u16, k: u16, v: u16)
    by (bit_vector)
    requires
        1 <= k <= 4,
        v <= 0xF,
    ensures
        k == 1 ==> (bits & 0xFFF0) | v == spec_with_slot(bits, 1, v),
        k == 2 ==> (bits & 0xFF0F) | (v << 4) == spec_with_slot(bits, 2, v),
        k == 3 ==> (bits & 0xF0FF) | (v << 8) == spec_with_slot(bits, 3, v),
        k == 4 ==> (bits & 0x0FFF) | (v << 12) == spec_with_slot(bits, 4, v),
{
}

/// Slot values before and after a slot replacement, spelled out per slot.
proof fn lemma_slots_after_set(bits: u16, k: u16, v: u16)
    requires
        1 <= k <= 4,
        v <= 0xF,
    ensures
        spec_slot(spec_with_slot(bits, k, v), k) == v,
        forall|j: u16| 1 <= j <= 4 && j != k ==> spec_slot(spec_with_slot(bits, k, v), j)
            == spec_slot(bits, j),
{
    lemma_set_slot_confined(bits, k, v, 1);
    lemma_set_slot_confined(bits, k, v, 2);
    lemma_set_slot_confined(bits, k, v, 3);
    lemma_set_slot_confined(bits, k, v, 4);
}

} // verus!
