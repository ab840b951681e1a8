//! Logic gates and the wires that connect them.
use vstd::prelude::*;

verus! {

/// A single line carrying one signal.
///
/// The label given at construction names the line in diagrams only; it is not
/// kept, so that large circuits stay small in memory.
#[derive(Clone, Copy, Debug)]
pub struct Wire {
    value: bool,
}

impl View for Wire {
    type V = bool;

    closed spec fn view(&self) -> bool {
        self.value
    }
}

/// The signals carried by a row of wires.
pub open spec fn lines_of(ws: Seq<Wire>) -> Seq<bool> {
    ws.map_values(|w: Wire| w@)
}

impl Wire {
    pub fn new(name: String, value: bool) -> (r: Self)
        ensures
            r@ == value,
    {
        Wire { value }
    }

    /// A line that starts with the given signal.
    pub fn with_value(value: bool) -> (r: Self)
        ensures
            r@ == value,
    {
        Wire { value }
    }

    pub fn get(&self) -> (r: bool)
        ensures
            r == self@,
    {
        self.value
    }

    pub fn update(&mut self, value: bool)
        ensures
            final(self)@ == value,
    {
        self.value = value
    }
}

/// An AND gate: the output is on when both inputs are on.
#[derive(Clone, Copy, Debug)]
pub struct AND {
    output: Wire,
}

impl View for AND {
    type V = bool;

    closed spec fn view(&self) -> bool {
        self.output@
    }
}

impl AND {
    pub fn new() -> (r: Self)
        ensures
            r@ == false,
    {
        Self { output: Wire::with_value(false) }
    }

    pub fn get(&self) -> (r: bool)
        ensures
            r == self@,
    {
        self.output.get()
    }

    pub fn update(&mut self, a: bool, b: bool) -> (r: bool)
        ensures
            r == (a && b),
            final(self)@ == r,
    {
        self.output.update(a && b);
        self.output.get()
    }
}

/// A NAND gate: the output is off only when both inputs are on.
#[derive(Clone, Copy, Debug)]
pub struct NAND {
    output: Wire,
}

impl View for NAND {
    type V = bool;

    closed spec fn view(&self) -> bool {
        self.output@
    }
}

impl NAND {
    pub fn new() -> (r: Self)
        ensures
            r@ == false,
    {
        Self { output: Wire::with_value(false) }
    }

    pub fn get(&self) -> (r: bool)
        ensures
            r == self@,
    {
        self.output.get()
    }

    pub fn update(&mut self, a: bool, b: bool) -> (r: bool)
        ensures
            r == (!(a && b)),
            final(self)@ == r,
    {
        self.output.update(!(a && b));
        self.output.get()
    }
}

/// A NOR gate: the output is on only when both inputs are off.
#[derive(Clone, Copy, Debug)]
pub struct NOR {
    output: Wire,
}

impl View for NOR {
    type V = bool;

    closed spec fn view(&self) -> bool {
        self.output@
    }
}

impl NOR {
    pub fn new() -> (r: Self)
        ensures
            r@ == false,
    {
        Self { output: Wire::with_value(false) }
    }

    pub fn get(&self) -> (r: bool)
        ensures
            r == self@,
    {
        self.output.get()
    }

    pub fn update(&mut self, a: bool, b: bool) -> (r: bool)
        ensures
            r == (!(a || b)),
            final(self)@ == r,
    {
        self.output.update(!(a || b));
        self.output.get()
    }
}

/// An OR gate: the output is on when either input is on.
#[derive(Clone, Copy, Debug)]
pub struct OR {
    output: Wire,
}

impl View for OR {
    type V = bool;

    closed spec fn view(&self) -> bool {
        self.output@
    }
}

impl OR {
    pub fn new() -> (r: Self)
        ensures
            r@ == false,
    {
        Self { output: Wire::with_value(false) }
    }

    pub fn get(&self) -> (r: bool)
        ensures
            r == self@,
    {
        self.output.get()
    }

    pub fn update(&mut self, a: bool, b: bool) -> (r: bool)
        ensures
            r == (a || b),
            final(self)@ == r,
    {
        self.output.update(a || b);
        self.output.get()
    }
}

/// An XOR gate: the output is on when exactly one input is on.
#[derive(Clone, Copy, Debug)]
pub struct XOR {
    output: Wire,
}

impl View for XOR {
    type V = bool;

    closed spec fn view(&self) -> bool {
        self.output@
    }
}

impl XOR {
    pub fn new() -> (r: Self)
        ensures
            r@ == false,
    {
        Self { output: Wire::with_value(false) }
    }

    pub fn get(&self) -> (r: bool)
        ensures
            r == self@,
    {
        self.output.get()
    }

    pub fn update(&mut self, a: bool, b: bool) -> (r: bool)
        ensures
            r == (a != b),
            final(self)@ == r,
    {
        self.output.update(a != b);
        self.output.get()
    }
}

/// A NOT gate: the output is the opposite of the input.
#[derive(Clone, Copy, Debug)]
pub struct NOT {
    output: Wire,
}

impl View for NOT {
    type V = bool;

    closed spec fn view(&self) -> bool {
        self.output@
    }
}

impl NOT {
    pub fn new() -> (r: Self)
        ensures
            r@ == false,
    {
        Self { output: Wire::with_value(false) }
    }

    pub fn get(&self) -> (r: bool)
        ensures
            r == self@,
    {
        self.output.get()
    }

    pub fn update(&mut self, a: bool) -> (r: bool)
        ensures
            r == !a,
            final(self)@ == r,
    {
        self.output.update(!a);
        self.output.get()
    }
}

} // verus!
