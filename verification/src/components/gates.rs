//! Gates with more than two inputs, each a chain of two-input gates.
use crate::gates::{Wire, AND, OR};
use vstd::prelude::*;

verus! {

/// A 3-input AND gate built from a chain of 2-input AND gates: the
/// output is on when all of the inputs are on.
#[derive(Clone, Copy, Debug)]
pub struct ANDGate3 {
    pub input_a: Wire,
    pub input_b: Wire,
    pub input_c: Wire,
    pub and_a: AND,
    pub and_b: AND,
    pub output: Wire,
}

impl View for ANDGate3 {
    type V = bool;

    closed spec fn view(&self) -> bool {
        self.output@
    }
}

impl ANDGate3 {
    pub fn new() -> (r: Self)
        ensures
            r@ == false,
    {
        Self {
            input_a: Wire::with_value(false),
            input_b: Wire::with_value(false),
            input_c: Wire::with_value(false),
            and_a: AND::new(),
            and_b: AND::new(),
            output: Wire::with_value(false),
        }
    }

    pub fn get(&self) -> (r: bool)
        ensures
            r == self@,
    {
        self.output.get()
    }

    pub fn update(&mut self, input_a: bool, input_b: bool, input_c: bool)
        ensures
            final(self)@ == (input_a && input_b && input_c),
    {
        self.and_a.update(input_a, input_b);
        let prev = self.and_a.get();
        self.and_b.update(prev, input_c);
        let last = self.and_b.get();
        self.output.update(last);
    }
}

/// A 4-input AND gate built from a chain of 2-input AND gates: the
/// output is on when all of the inputs are on.
#[derive(Clone, Copy, Debug)]
pub struct ANDGate4 {
    pub input_a: Wire,
    pub input_b: Wire,
    pub input_c: Wire,
    pub input_d: Wire,
    pub and_a: AND,
    pub and_b: AND,
    pub and_c: AND,
    pub output: Wire,
}

impl View for ANDGate4 {
    type V = bool;

    closed spec fn view(&self) -> bool {
        self.output@
    }
}

impl ANDGate4 {
    pub fn new() -> (r: Self)
        ensures
            r@ == false,
    {
        Self {
            input_a: Wire::with_value(false),
            input_b: Wire::with_value(false),
            input_c: Wire::with_value(false),
            input_d: Wire::with_value(false),
            and_a: AND::new(),
            and_b: AND::new(),
            and_c: AND::new(),
            output: Wire::with_value(false),
        }
    }

    pub fn get(&self) -> (r: bool)
        ensures
            r == self@,
    {
        self.output.get()
    }

    pub fn update(&mut self, input_a: bool, input_b: bool, input_c: bool, input_d: bool)
        ensures
            final(self)@ == (input_a && input_b && input_c && input_d),
    {
        self.and_a.update(input_a, input_b);
        let prev = self.and_a.get();
        self.and_b.update(prev, input_c);
        let prev = self.and_b.get();
        self.and_c.update(prev, input_d);
        let last = self.and_c.get();
        self.output.update(last);
    }
}

/// A 5-input AND gate built from a chain of 2-input AND gates: the
/// output is on when all of the inputs are on.
#[derive(Clone, Copy, Debug)]
pub struct ANDGate5 {
    and_a: AND,
    and_b: AND,
    and_c: AND,
    and_d: AND,
    output: Wire,
}

impl View for ANDGate5 {
    type V = bool;

    closed spec fn view(&self) -> bool {
        self.output@
    }
}

impl ANDGate5 {
    pub fn new() -> (r: Self)
        ensures
            r@ == false,
    {
        Self {
            and_a: AND::new(),
            and_b: AND::new(),
            and_c: AND::new(),
            and_d: AND::new(),
            output: Wire::with_value(false),
        }
    }

    pub fn get(&self) -> (r: bool)
        ensures
            r == self@,
    {
        self.output.get()
    }

    pub fn update(&mut self, input_a: bool, input_b: bool, input_c: bool, input_d: bool, input_e: bool)
        ensures
            final(self)@ == (input_a && input_b && input_c && input_d && input_e),
    {
        self.and_a.update(input_a, input_b);
        let prev = self.and_a.get();
        self.and_b.update(prev, input_c);
        let prev = self.and_b.get();
        self.and_c.update(prev, input_d);
        let prev = self.and_c.get();
        self.and_d.update(prev, input_e);
        let last = self.and_d.get();
        self.output.update(last);
    }
}

/// A 8-input AND gate built from a chain of 2-input AND gates: the
/// output is on when all of the inputs are on.
#[derive(Clone, Copy, Debug)]
pub struct ANDGate8 {
    and_a: AND,
    and_b: AND,
    and_c: AND,
    and_d: AND,
    and_e: AND,
    and_f: AND,
    and_g: AND,
    output: Wire,
}

impl View for ANDGate8 {
    type V = bool;

    closed spec fn view(&self) -> bool {
        self.output@
    }
}

impl ANDGate8 {
    pub fn new() -> (r: Self)
        ensures
            r@ == false,
    {
        Self {
            and_a: AND::new(),
            and_b: AND::new(),
            and_c: AND::new(),
            and_d: AND::new(),
            and_e: AND::new(),
            and_f: AND::new(),
            and_g: AND::new(),
            output: Wire::with_value(false),
        }
    }

    pub fn get(&self) -> (r: bool)
        ensures
            r == self@,
    {
        self.output.get()
    }

    pub fn update(&mut self, a: bool, b: bool, c: bool, d: bool, e: bool, f: bool, g: bool, h: bool)
        ensures
            final(self)@ == (a && b && c && d && e && f && g && h),
    {
        self.and_a.update(a, b);
        let prev = self.and_a.get();
        self.and_b.update(prev, c);
        let prev = self.and_b.get();
        self.and_c.update(prev, d);
        let prev = self.and_c.get();
        self.and_d.update(prev, e);
        let prev = self.and_d.get();
        self.and_e.update(prev, f);
        let prev = self.and_e.get();
        self.and_f.update(prev, g);
        let prev = self.and_f.get();
        self.and_g.update(prev, h);
        let last = self.and_g.get();
        self.output.update(last);
    }
}

/// A 3-input OR gate built from a chain of 2-input OR gates: the
/// output is on when any of the inputs is on.
#[derive(Clone, Copy, Debug)]
pub struct ORGate3 {
    input_a: Wire,
    input_b: Wire,
    input_c: Wire,
    or_a: OR,
    or_b: OR,
    output: Wire,
}

impl View for ORGate3 {
    type V = bool;

    closed spec fn view(&self) -> bool {
        self.output@
    }
}

impl ORGate3 {
    pub fn new() -> (r: Self)
        ensures
            r@ == false,
    {
        Self {
            input_a: Wire::with_value(false),
            input_b: Wire::with_value(false),
            input_c: Wire::with_value(false),
            or_a: OR::new(),
            or_b: OR::new(),
            output: Wire::with_value(false),
        }
    }

    pub fn get(&self) -> (r: bool)
        ensures
            r == self@,
    {
        self.output.get()
    }

    pub fn update(&mut self, input_a: bool, input_b: bool, input_c: bool)
        ensures
            final(self)@ == (input_a || input_b || input_c),
    {
        self.or_a.update(input_a, input_b);
        let prev = self.or_a.get();
        self.or_b.update(prev, input_c);
        let last = self.or_b.get();
        self.output.update(last);
    }
}

/// A 4-input OR gate built from a chain of 2-input OR gates: the
/// output is on when any of the inputs is on.
#[derive(Clone, Copy, Debug)]
pub struct ORGate4 {
    input_a: Wire,
    input_b: Wire,
    input_c: Wire,
    input_d: Wire,
    or_a: OR,
    or_b: OR,
    or_c: OR,
    output: Wire,
}

impl View for ORGate4 {
    type V = bool;

    closed spec fn view(&self) -> bool {
        self.output@
    }
}

impl ORGate4 {
    pub fn new() -> (r: Self)
        ensures
            r@ == false,
    {
        Self {
            input_a: Wire::with_value(false),
            input_b: Wire::with_value(false),
            input_c: Wire::with_value(false),
            input_d: Wire::with_value(false),
            or_a: OR::new(),
            or_b: OR::new(),
            or_c: OR::new(),
            output: Wire::with_value(false),
        }
    }

    pub fn get(&self) -> (r: bool)
        ensures
            r == self@,
    {
        self.output.get()
    }

    pub fn update(&mut self, input_a: bool, input_b: bool, input_c: bool, input_d: bool)
        ensures
            final(self)@ == (input_a || input_b || input_c || input_d),
    {
        self.or_a.update(input_a, input_b);
        let prev = self.or_a.get();
        self.or_b.update(prev, input_c);
        let prev = self.or_b.get();
        self.or_c.update(prev, input_d);
        let last = self.or_c.get();
        self.output.update(last);
    }
}

/// A 5-input OR gate built from a chain of 2-input OR gates: the
/// output is on when any of the inputs is on.
#[derive(Clone, Copy, Debug)]
pub struct ORGate5 {
    input_a: Wire,
    input_b: Wire,
    input_c: Wire,
    input_d: Wire,
    input_e: Wire,
    or_a: OR,
    or_b: OR,
    or_c: OR,
    or_d: OR,
    output: Wire,
}

impl View for ORGate5 {
    type V = bool;

    closed spec fn view(&self) -> bool {
        self.output@
    }
}

impl ORGate5 {
    pub fn new() -> (r: Self)
        ensures
            r@ == false,
    {
        Self {
            input_a: Wire::with_value(false),
            input_b: Wire::with_value(false),
            input_c: Wire::with_value(false),
            input_d: Wire::with_value(false),
            input_e: Wire::with_value(false),
            or_a: OR::new(),
            or_b: OR::new(),
            or_c: OR::new(),
            or_d: OR::new(),
            output: Wire::with_value(false),
        }
    }

    pub fn get(&self) -> (r: bool)
        ensures
            r == self@,
    {
        self.output.get()
    }

    pub fn update(&mut self, input_a: bool, input_b: bool, input_c: bool, input_d: bool, input_e: bool)
        ensures
            final(self)@ == (input_a || input_b || input_c || input_d || input_e),
    {
        self.or_a.update(input_a, input_b);
        let prev = self.or_a.get();
        self.or_b.update(prev, input_c);
        let prev = self.or_b.get();
        self.or_c.update(prev, input_d);
        let prev = self.or_c.get();
        self.or_d.update(prev, input_e);
        let last = self.or_d.get();
        self.output.update(last);
    }
}

/// A 6-input OR gate built from a chain of 2-input OR gates: the
/// output is on when any of the inputs is on.
#[derive(Clone, Copy, Debug)]
pub struct ORGate6 {
    input_a: Wire,
    input_b: Wire,
    input_c: Wire,
    input_d: Wire,
    input_e: Wire,
    input_f: Wire,
    or_a: OR,
    or_b: OR,
    or_c: OR,
    or_d: OR,
    or_e: OR,
    output: Wire,
}

impl View for ORGate6 {
    type V = bool;

    closed spec fn view(&self) -> bool {
        self.output@
    }
}

impl ORGate6 {
    pub fn new() -> (r: Self)
        ensures
            r@ == false,
    {
        Self {
            input_a: Wire::with_value(false),
            input_b: Wire::with_value(false),
            input_c: Wire::with_value(false),
            input_d: Wire::with_value(false),
            input_e: Wire::with_value(false),
            input_f: Wire::with_value(false),
            or_a: OR::new(),
            or_b: OR::new(),
            or_c: OR::new(),
            or_d: OR::new(),
            or_e: OR::new(),
            output: Wire::with_value(false),
        }
    }

    pub fn get(&self) -> (r: bool)
        ensures
            r == self@,
    {
        self.output.get()
    }

    pub fn update(&mut self, input_a: bool, input_b: bool, input_c: bool, input_d: bool, input_e: bool, input_f: bool)
        ensures
            final(self)@ == (input_a || input_b || input_c || input_d || input_e || input_f),
    {
        self.or_a.update(input_a, input_b);
        let prev = self.or_a.get();
        self.or_b.update(prev, input_c);
        let prev = self.or_b.get();
        self.or_c.update(prev, input_d);
        let prev = self.or_c.get();
        self.or_d.update(prev, input_e);
        let prev = self.or_d.get();
        self.or_e.update(prev, input_f);
        let last = self.or_e.get();
        self.output.update(last);
    }
}

} // verus!
