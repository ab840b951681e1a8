//! Markers: what an instruction may refer to besides registers — a label
//! (an address in the program), a symbol (a named value) or a number.
use super::format::{hex4, push_hex4};
use vstd::prelude::*;
use vstd::string::StringExecFns;

verus! {

/// A place in the program, named.
#[derive(Debug, Clone)]
pub struct Label {
    pub name: String,
}

/// A named value.
#[derive(Debug, Clone)]
pub struct Symbol {
    pub name: String,
}

/// A literal value.
#[derive(Debug, Clone, Copy)]
pub struct Number {
    pub value: u16,
}

/// The three kinds of marker.
#[derive(Debug, Clone)]
pub enum MarkerKind {
    Label(Label),
    Symbol(Symbol),
    Number(Number),
}

/// How a marker is written: a label by its name, a symbol after `%`, a
/// number as `0x` and four hexadecimal digits.
pub open spec fn marker_text(k: MarkerKind) -> Seq<char> {
    match k {
        MarkerKind::Label(l) => l.name@,
        MarkerKind::Symbol(s) => "%"@ + s.name@,
        MarkerKind::Number(n) => "0x"@ + hex4(n.value),
    }
}

/// Something an instruction can refer to.
pub trait Marker: Sized {
    /// The marker as one of the three kinds.
    spec fn kind(&self) -> MarkerKind;

    fn string(&self) -> (r: String)
        ensures
            r@ == marker_text(self.kind()),
    ;

    fn as_kind(&self) -> (r: MarkerKind)
        ensures
            r == self.kind(),
    ;
}

impl Label {
    pub fn new(name: &str) -> (r: Self)
        ensures
            r.name@ == name@,
    {
        Self { name: String::from_str(name) }
    }

    /// A label with the same name.
    pub fn duplicate(&self) -> (r: Self)
        ensures
            r == *self,
    {
        Self { name: self.name.clone() }
    }
}

impl Symbol {
    pub fn new(name: &str) -> (r: Self)
        ensures
            r.name@ == name@,
    {
        Self { name: String::from_str(name) }
    }

    /// A symbol with the same name.
    pub fn duplicate(&self) -> (r: Self)
        ensures
            r == *self,
    {
        Self { name: self.name.clone() }
    }
}

impl Number {
    pub fn new(value: u16) -> (r: Self)
        ensures
            r.value == value,
    {
        Self { value }
    }
}

impl Marker for Label {
    open spec fn kind(&self) -> MarkerKind {
        MarkerKind::Label(*self)
    }

    fn string(&self) -> (r: String) {
        self.name.clone()
    }

    fn as_kind(&self) -> (r: MarkerKind) {
        MarkerKind::Label(self.duplicate())
    }
}

impl Marker for Symbol {
    open spec fn kind(&self) -> MarkerKind {
        MarkerKind::Symbol(*self)
    }

    fn string(&self) -> (r: String) {
        String::from_str("%").concat(self.name.as_str())
    }

    fn as_kind(&self) -> (r: MarkerKind) {
        MarkerKind::Symbol(self.duplicate())
    }
}

impl Marker for Number {
    open spec fn kind(&self) -> MarkerKind {
        MarkerKind::Number(*self)
    }

    fn string(&self) -> (r: String) {
        let mut s = String::from_str("0x");
        push_hex4(&mut s, self.value);
        s
    }

    fn as_kind(&self) -> (r: MarkerKind) {
        MarkerKind::Number(*self)
    }
}

} // verus!
