//! Decoders: exactly one output line is on, the one whose number the input
//! lines spell in binary.
use super::{ANDGate3, ANDGate4};
use crate::bits::bit;
use crate::gates::{lines_of, Wire, AND, NOT};
use vstd::prelude::*;

verus! {

/// The number two lines spell, `a` being the most significant.
pub open spec fn index2(a: bool, b: bool) -> int {
    (2 * bit(a) + bit(b)) as int
}

/// The number three lines spell, `a` being the most significant.
pub open spec fn index3(a: bool, b: bool, c: bool) -> int {
    (4 * bit(a) + 2 * bit(b) + bit(c)) as int
}

/// The number four lines spell, `a` being the most significant.
pub open spec fn index4(a: bool, b: bool, c: bool, d: bool) -> int {
    (8 * bit(a) + 4 * bit(b) + 2 * bit(c) + bit(d)) as int
}

/// Lines of which exactly the one numbered `k` is on.
pub open spec fn one_hot(n: nat, k: int) -> Seq<bool> {
    Seq::new(n, |i: int| i == k)
}

/// A 2-to-4 decoder.
#[derive(Clone, Copy, Debug)]
pub struct Decoder2x4 {
    input_a: Wire,
    input_b: Wire,
    not_gates: [NOT; 2],
    and_gates: [AND; 4],
    outputs: [Wire; 4],
}

impl Decoder2x4 {
    pub closed spec fn output_lines(&self) -> Seq<bool> {
        lines_of(self.outputs@)
    }

    pub fn new() -> (r: Self)
        ensures
            r.output_lines() == Seq::new(4, |i: int| false),
    {
        let w = Wire::with_value(false);
        let r = Self {
            input_a: w,
            input_b: w,
            not_gates: [NOT::new(); 2],
            and_gates: [AND::new(); 4],
            outputs: [w; 4],
        };
        assert(r.output_lines() =~= Seq::new(4, |i: int| false));
        r
    }

    pub fn get_output_wire(&self, index: i32) -> (r: bool)
        requires
            0 <= index < 4,
        ensures
            r == self.output_lines()[index as int],
    {
        self.outputs[index as usize].get()
    }

    pub fn update(&mut self, input_a: bool, input_b: bool)
        ensures
            final(self).output_lines() == one_hot(4, index2(input_a, input_b)),
    {
        self.input_a.update(input_a);
        self.input_b.update(input_b);
        let a = self.input_a.get();
        let b = self.input_b.get();
        self.not_gates[0].update(a);
        self.not_gates[1].update(b);
        let na = self.not_gates[0].get();
        let nb = self.not_gates[1].get();
        self.and_gates[0].update(na, nb);
        self.and_gates[1].update(na, b);
        self.and_gates[2].update(a, nb);
        self.and_gates[3].update(a, b);
        let mut i: usize = 0;
        while i < 4
            invariant
                i <= 4,
                self.and_gates[0]@ == (!input_a && !input_b),
                self.and_gates[1]@ == (!input_a && input_b),
                self.and_gates[2]@ == (input_a && !input_b),
                self.and_gates[3]@ == (input_a && input_b),
                forall|j: int| 0 <= j < i ==> (#[trigger] self.outputs[j])@ == self.and_gates[j]@,
            decreases 4 - i,
        {
            let g = self.and_gates[i].get();
            self.outputs[i].update(g);
            i += 1;
        }
        assert(self.output_lines() =~= one_hot(4, index2(input_a, input_b)));
    }
}

/// A 3-to-8 decoder.
#[derive(Clone, Copy, Debug)]
pub struct Decoder3x8 {
    pub input_a: Wire,
    pub input_b: Wire,
    pub input_c: Wire,
    pub not_gates: [NOT; 3],
    pub and_gates: [ANDGate3; 8],
    pub outputs: [Wire; 8],
}

impl Decoder3x8 {
    pub open spec fn output_lines(&self) -> Seq<bool> {
        lines_of(self.outputs@)
    }

    pub fn new() -> (r: Self)
        ensures
            r.output_lines() == Seq::new(8, |i: int| false),
    {
        let w = Wire::with_value(false);
        let r = Self {
            input_a: w,
            input_b: w,
            input_c: w,
            not_gates: [NOT::new(); 3],
            and_gates: [ANDGate3::new(); 8],
            outputs: [w; 8],
        };
        assert(r.output_lines() =~= Seq::new(8, |i: int| false));
        r
    }

    pub fn get_output_wire(&self, index: i32) -> (r: bool)
        requires
            0 <= index < 8,
        ensures
            r == self.output_lines()[index as int],
    {
        self.outputs[index as usize].get()
    }

    /// The number of the first output line that is on, or 0 when none is.
    pub fn index(&self) -> (r: i32)
        ensures
            0 <= r < 8,
            forall|j: int| 0 <= j < r ==> !self.output_lines()[j],
            r > 0 ==> self.output_lines()[r as int],
            r == 0 ==> self.output_lines()[0] || forall|j: int|
                0 <= j < 8 ==> !self.output_lines()[j],
    {
        let mut i: usize = 0;
        while i < 8
            invariant
                i <= 8,
                forall|j: int| 0 <= j < i ==> !(#[trigger] self.outputs[j])@,
            decreases 8 - i,
        {
            if self.outputs[i].get() {
                return i as i32;
            }
            i += 1;
        }
        0
    }

    pub fn update(&mut self, input_a: bool, input_b: bool, input_c: bool)
        ensures
            final(self).output_lines() == one_hot(8, index3(input_a, input_b, input_c)),
    {
        self.input_a.update(input_a);
        self.input_b.update(input_b);
        self.input_c.update(input_c);
        let a = self.input_a.get();
        let b = self.input_b.get();
        let c = self.input_c.get();
        self.not_gates[0].update(a);
        self.not_gates[1].update(b);
        self.not_gates[2].update(c);
        let n0 = self.not_gates[0].get();
        let n1 = self.not_gates[1].get();
        let n2 = self.not_gates[2].get();
        self.and_gates[0].update(n0, n1, n2);
        self.and_gates[1].update(n0, n1, c);
        self.and_gates[2].update(n0, b, n2);
        self.and_gates[3].update(n0, b, c);
        self.and_gates[4].update(a, n1, n2);
        self.and_gates[5].update(a, n1, c);
        self.and_gates[6].update(a, b, n2);
        self.and_gates[7].update(a, b, c);
        let ghost k = index3(input_a, input_b, input_c);
        let mut i: usize = 0;
        while i < 8
            invariant
                i <= 8,
                k == index3(input_a, input_b, input_c),
                self.and_gates[0]@ == (0 == k),
                self.and_gates[1]@ == (1 == k),
                self.and_gates[2]@ == (2 == k),
                self.and_gates[3]@ == (3 == k),
                self.and_gates[4]@ == (4 == k),
                self.and_gates[5]@ == (5 == k),
                self.and_gates[6]@ == (6 == k),
                self.and_gates[7]@ == (7 == k),
                forall|j: int| 0 <= j < i ==> (#[trigger] self.outputs[j])@ == (j == k),
            decreases 8 - i,
        {
            let g = self.and_gates[i].get();
            self.outputs[i].update(g);
            i += 1;
        }
        assert(self.output_lines() =~= one_hot(8, k));
    }
}

/// A 4-to-16 decoder that also keeps the number of its active line.
#[derive(Clone, Copy, Debug)]
pub struct Decoder4x16 {
    pub not_gates: [NOT; 4],
    pub and_gates: [ANDGate4; 16],
    pub outputs: [Wire; 16],
    pub index: i32,
}

impl Decoder4x16 {
    pub open spec fn output_lines(&self) -> Seq<bool> {
        lines_of(self.outputs@)
    }

    pub fn new() -> (r: Self)
        ensures
            r.output_lines() == Seq::new(16, |i: int| false),
            r.index == 0,
    {
        let w = Wire::with_value(false);
        let not_gates = [NOT::new(); 4];
        let and_gates = [ANDGate4::new(); 16];
        let outputs = [w, w, w, w, w, w, w, w, w, w, w, w, w, w, w, w];
        let r = Self { not_gates, and_gates, outputs, index: 0 };
        assert(r.output_lines() =~= Seq::new(16, |i: int| false));
        r
    }

    pub fn index(&self) -> (r: i32)
        ensures
            r == self.index,
    {
        self.index
    }

    pub fn get_output_wire(&self, i: i32) -> (r: bool)
        requires
            0 <= i < 16,
        ensures
            r == self.output_lines()[i as int],
    {
        self.outputs[i as usize].get()
    }

    pub fn update(&mut self, a: bool, b: bool, c: bool, d: bool)
        ensures
            final(self).output_lines() == one_hot(16, index4(a, b, c, d)),
            final(self).index == index4(a, b, c, d),
    {
        self.not_gates[0].update(a);
        self.not_gates[1].update(b);
        self.not_gates[2].update(c);
        self.not_gates[3].update(d);
        let n0 = self.not_gates[0].get();
        let n1 = self.not_gates[1].get();
        let n2 = self.not_gates[2].get();
        let n3 = self.not_gates[3].get();
        self.and_gates[0].update(n0, n1, n2, n3);
        self.and_gates[1].update(n0, n1, n2, d);
        self.and_gates[2].update(n0, n1, c, n3);
        self.and_gates[3].update(n0, n1, c, d);
        self.and_gates[4].update(n0, b, n2, n3);
        self.and_gates[5].update(n0, b, n2, d);
        self.and_gates[6].update(n0, b, c, n3);
        self.and_gates[7].update(n0, b, c, d);
        self.and_gates[8].update(a, n1, n2, n3);
        self.and_gates[9].update(a, n1, n2, d);
        self.and_gates[10].update(a, n1, c, n3);
        self.and_gates[11].update(a, n1, c, d);
        self.and_gates[12].update(a, b, n2, n3);
        self.and_gates[13].update(a, b, n2, d);
        self.and_gates[14].update(a, b, c, n3);
        self.and_gates[15].update(a, b, c, d);
        let ghost k = index4(a, b, c, d);
        self.index = 0;
        let mut i: usize = 0;
        while i < 16
            invariant
                i <= 16,
                k == index4(a, b, c, d),
                self.and_gates[0]@ == (0 == k),
                self.and_gates[1]@ == (1 == k),
                self.and_gates[2]@ == (2 == k),
                self.and_gates[3]@ == (3 == k),
                self.and_gates[4]@ == (4 == k),
                self.and_gates[5]@ == (5 == k),
                self.and_gates[6]@ == (6 == k),
                self.and_gates[7]@ == (7 == k),
                self.and_gates[8]@ == (8 == k),
                self.and_gates[9]@ == (9 == k),
                self.and_gates[10]@ == (10 == k),
                self.and_gates[11]@ == (11 == k),
                self.and_gates[12]@ == (12 == k),
                self.and_gates[13]@ == (13 == k),
                self.and_gates[14]@ == (14 == k),
                self.and_gates[15]@ == (15 == k),
                forall|j: int| 0 <= j < i ==> (#[trigger] self.outputs[j])@ == (j == k),
                self.index == (if k < i {
                    k
                } else {
                    0
                }),
            decreases 16 - i,
        {
            let g = self.and_gates[i].get();
            self.outputs[i].update(g);
            if self.outputs[i].get() {
                self.index += i as i32;
            }
            i += 1;
        }
        assert(self.output_lines() =~= one_hot(16, k));
    }
}

/// An 8-to-256 decoder made of a 4-to-16 decoder that selects one of
/// sixteen more 4-to-16 decoders.
#[derive(Clone, Copy, Debug)]
pub struct Decoder8x256 {
    decoder_selector: Decoder4x16,
    decoders_4x16: [Decoder4x16; 16],
    index: i32,
}

impl Decoder8x256 {
    pub closed spec fn selected(&self) -> int {
        self.index as int
    }

    pub fn new() -> (r: Self)
        ensures
            r.selected() == 0,
    {
        Self {
            decoder_selector: Decoder4x16::new(),
            decoders_4x16: [Decoder4x16::new(); 16],
            index: 0,
        }
    }

    /// The number of the output line that is on.
    pub fn index(&self) -> (r: i32)
        ensures
            r == self.selected(),
    {
        self.index
    }

    /// Lines `a` to `d` choose the line within a group of sixteen (`a` most
    /// significant), lines `e` to `h` choose the group (`e` most significant).
    pub fn update(&mut self, a: bool, b: bool, c: bool, d: bool, e: bool, f: bool, g: bool, h: bool)
        ensures
            final(self).selected() == 16 * index4(e, f, g, h) + index4(a, b, c, d),
    {
        self.index = 0;
        self.decoder_selector.update(e, f, g, h);
        let ghost sel = index4(e, f, g, h);
        let mut i: i32 = 0;
        while i < 16
            invariant
                0 <= i <= 16,
                sel == index4(e, f, g, h),
                self.decoder_selector.output_lines() == one_hot(16, sel),
                self.index == (if sel < i {
                    16 * sel + index4(a, b, c, d)
                } else {
                    0
                }),
            decreases 16 - i,
        {
            self.update_decoder(a, b, c, d, i, 16 * i);
            i += 1;
        }
    }

    fn update_decoder(
        &mut self,
        a: bool,
        b: bool,
        c: bool,
        d: bool,
        decoder_index: i32,
        output_wire_start: i32,
    )
        requires
            0 <= decoder_index < 16,
            output_wire_start == 16 * decoder_index,
        ensures
            final(self).decoder_selector == old(self).decoder_selector,
            old(self).decoder_selector.output_lines()[decoder_index as int] ==> final(self).index
                == output_wire_start + index4(a, b, c, d),
            !old(self).decoder_selector.output_lines()[decoder_index as int] ==> final(self).index
                == old(self).index,
    {
        if self.decoder_selector.get_output_wire(decoder_index) {
            self.decoders_4x16[decoder_index as usize].update(a, b, c, d);
            let ghost k = index4(a, b, c, d);
            let mut i: usize = 0;
            while i < 16
                invariant
                    0 <= decoder_index < 16,
                    i <= 16,
                    output_wire_start == 16 * decoder_index,
                    self.decoder_selector == old(self).decoder_selector,
                    self.decoders_4x16[decoder_index as int].output_lines() == one_hot(16, k),
                    k < i ==> self.index == output_wire_start + k,
                    0 <= k < 16,
                decreases 16 - i,
            {
                assert(self.decoders_4x16[decoder_index as int].output_lines()[i as int]
                    == self.decoders_4x16[decoder_index as int].outputs[i as int]@);
                if self.decoders_4x16[decoder_index as usize].outputs[i].get() {
                    self.index = output_wire_start + i as i32;
                }
                i += 1;
            }
        }
    }
}

} // verus!
