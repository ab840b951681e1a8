//! The instructions: how each is written and the words it assembles to.
use super::format::{hex_min, push_hex_min};
use super::markers::{marker_text, Label, Marker, MarkerKind, Number, Symbol};
use super::resolver::Resolver;
use super::{io_mode_text, reg_num, reg_text, Error, IOMode, Register, NEXTINSTRUCTION};
use vstd::prelude::*;
use vstd::string::{StrSliceExecFns, StringExecFns};

verus! {

/// A result of emitting, with the words as a sequence.
pub open spec fn emit_view(r: Result<Vec<u16>, Error>) -> Result<Seq<u16>, Error> {
    match r {
        Ok(v) => Ok(v@),
        Err(e) => Err(e),
    }
}

/// The labels a resolver knows, or none without one.
pub open spec fn labels_of<R: Resolver>(resolver: Option<&R>) -> Map<Seq<char>, u16> {
    match resolver {
        Some(r) => r.label_map(),
        None => Map::empty(),
    }
}

/// The symbols a resolver knows, or none without one.
pub open spec fn symbols_of<R: Resolver>(resolver: Option<&R>) -> Map<Seq<char>, u16> {
    match resolver {
        Some(r) => r.symbol_map(),
        None => Map::empty(),
    }
}

/// What a label reference assembles to: the label's address.
pub open spec fn label_word(labels: Map<Seq<char>, u16>, l: Label) -> Result<u16, Error> {
    if labels.contains_key(l.name@) {
        Ok(labels[l.name@])
    } else {
        Err(Error::UnknownLabel(l.name))
    }
}

/// An instruction of the machine, or a pseudo instruction of the assembler.
pub trait Instruction: Sized {
    /// How the instruction is written.
    spec fn spec_string(&self) -> Seq<char>;

    /// How many words it assembles to.
    spec fn spec_size(&self) -> u16;

    /// Whether it refers to labels or symbols, so that assembling it needs
    /// a resolver.
    spec fn needs_resolver(&self) -> bool;

    /// Whether `r` is what it assembles to, the labels and symbols standing
    /// for the given values.
    spec fn emits(
        &self,
        labels: Map<Seq<char>, u16>,
        symbols: Map<Seq<char>, u16>,
        r: Result<Seq<u16>, Error>,
    ) -> bool;

    fn string(&self) -> (r: String)
        ensures
            r@ == self.spec_string(),
    ;

    fn emit<R: Resolver>(&self, resolver: Option<&R>) -> (r: Result<Vec<u16>, Error>)
        requires
            self.needs_resolver() ==> resolver is Some,
        ensures
            self.emits(labels_of(resolver), symbols_of(resolver), emit_view(r)),
    ;

    fn size(&self) -> (r: u16)
        ensures
            r == self.spec_size(),
    ;
}

/// `OP Ra, Rb`.
pub open spec fn two_reg_text(op: Seq<char>, a: Register, b: Register) -> Seq<char> {
    op + " R"@ + reg_text(a) + ", R"@ + reg_text(b)
}

/// `OP R`.
pub open spec fn one_reg_text(op: Seq<char>, r: Register) -> Seq<char> {
    op + " R"@ + reg_text(r)
}

fn two_reg_string(op: &str, a: Register, b: Register) -> (r: String)
    ensures
        r@ == two_reg_text(op@, a, b),
{
    let mut s = String::from_str(op);
    s.append(" R");
    s.append(a.name());
    s.append(", R");
    s.append(b.name());
    s
}

fn one_reg_string(op: &str, r: Register) -> (s: String)
    ensures
        s@ == one_reg_text(op@, r),
{
    let mut s = String::from_str(op);
    s.append(" R");
    s.append(r.name());
    s
}

// LOAD: arg A holds the memory address, arg B the register to load.
pub struct LOAD {
    pub memory_address_reg: Register,
    pub to_register: Register,
}

impl LOAD {
    pub fn new(memory_address_reg: Register, to_register: Register) -> (r: Self)
        ensures
            r.memory_address_reg == memory_address_reg,
            r.to_register == to_register,
    {
        Self { memory_address_reg, to_register }
    }
}

impl Instruction for LOAD {
    open spec fn spec_string(&self) -> Seq<char> {
        two_reg_text("LD"@, self.memory_address_reg, self.to_register)
    }

    open spec fn spec_size(&self) -> u16 {
        1
    }

    open spec fn needs_resolver(&self) -> bool {
        false
    }

    open spec fn emits(
        &self,
        labels: Map<Seq<char>, u16>,
        symbols: Map<Seq<char>, u16>,
        r: Result<Seq<u16>, Error>,
    ) -> bool {
        r == Ok::<Seq<u16>, Error>(
            seq![(4 * reg_num(self.memory_address_reg) + reg_num(self.to_register)) as u16],
        )
    }

    fn string(&self) -> (r: String) {
        two_reg_string("LD", self.memory_address_reg, self.to_register)
    }

    fn emit<R: Resolver>(&self, resolver: Option<&R>) -> (r: Result<Vec<u16>, Error>) {
        let base: u16 = match self.memory_address_reg {
            Register::REG0 => 0x0000,
            Register::REG1 => 0x0004,
            Register::REG2 => 0x0008,
            Register::REG3 => 0x000C,
        };
        {
            let w: u16 = base + self.to_register.number();
            let v = vec![w];
            assert(v@ =~= seq![w]);
            Ok(v)
        }
    }

    fn size(&self) -> (r: u16) {
        1
    }
}

// STORE: arg A holds the memory address, arg B the value to store.
pub struct STORE {
    pub from_register: Register,
    pub to_register: Register,
}

impl STORE {
    pub fn new(from_register: Register, to_register: Register) -> (r: Self)
        ensures
            r.from_register == from_register,
            r.to_register == to_register,
    {
        Self { from_register, to_register }
    }
}

impl Instruction for STORE {
    open spec fn spec_string(&self) -> Seq<char> {
        two_reg_text("ST"@, self.from_register, self.to_register)
    }

    open spec fn spec_size(&self) -> u16 {
        1
    }

    open spec fn needs_resolver(&self) -> bool {
        false
    }

    open spec fn emits(
        &self,
        labels: Map<Seq<char>, u16>,
        symbols: Map<Seq<char>, u16>,
        r: Result<Seq<u16>, Error>,
    ) -> bool {
        r == Ok::<Seq<u16>, Error>(
            seq![(0x10 + 4 * reg_num(self.from_register) + reg_num(self.to_register)) as u16],
        )
    }

    fn string(&self) -> (r: String) {
        two_reg_string("ST", self.from_register, self.to_register)
    }

    fn emit<R: Resolver>(&self, resolver: Option<&R>) -> (r: Result<Vec<u16>, Error>) {
        let base: u16 = match self.from_register {
            Register::REG0 => 0x0010,
            Register::REG1 => 0x0014,
            Register::REG2 => 0x0018,
            Register::REG3 => 0x001C,
        };
        {
            let w: u16 = base + self.to_register.number();
            let v = vec![w];
            assert(v@ =~= seq![w]);
            Ok(v)
        }
    }

    fn size(&self) -> (r: u16) {
        1
    }
}

// DATA: puts the word that follows the instruction into a register.
pub struct DATA<T: Marker> {
    pub to_register: Register,
    pub data: T,
}

impl<T: Marker> DATA<T> {
    pub fn new(to_register: Register, data: T) -> (r: Self)
        ensures
            r.to_register == to_register,
            r.data == data,
    {
        Self { to_register, data }
    }
}

impl<T: Marker> Instruction for DATA<T> {
    open spec fn spec_string(&self) -> Seq<char> {
        one_reg_text("DATA"@, self.to_register) + ", "@ + marker_text(self.data.kind())
    }

    open spec fn spec_size(&self) -> u16 {
        2
    }

    open spec fn needs_resolver(&self) -> bool {
        self.data.kind() is Symbol
    }

    open spec fn emits(
        &self,
        labels: Map<Seq<char>, u16>,
        symbols: Map<Seq<char>, u16>,
        r: Result<Seq<u16>, Error>,
    ) -> bool {
        let op = (0x20 + reg_num(self.to_register)) as u16;
        match self.data.kind() {
            MarkerKind::Number(n) => r == Ok::<Seq<u16>, Error>(seq![op, n.value]),
            MarkerKind::Symbol(s) => if symbols.contains_key(s.name@) {
                r == Ok::<Seq<u16>, Error>(seq![op, symbols[s.name@]])
            } else {
                r == Err::<Seq<u16>, Error>(Error::UnknownSymbol(s.name))
            },
            MarkerKind::Label(l) => r matches Err(Error::UnknownMarker(m)) && m@ == l.name@,
        }
    }

    fn string(&self) -> (r: String) {
        let mut s = one_reg_string("DATA", self.to_register);
        s.append(", ");
        let m = self.data.string();
        s.append(m.as_str());
        s
    }

    fn emit<R: Resolver>(&self, resolver: Option<&R>) -> (r: Result<Vec<u16>, Error>) {
        let instruction: u16 = match self.to_register {
            Register::REG0 => 0x0020,
            Register::REG1 => 0x0021,
            Register::REG2 => 0x0022,
            Register::REG3 => 0x0023,
        };
        match self.data.as_kind() {
            MarkerKind::Symbol(s) => {
                let res = match resolver {
                    Some(res) => res,
                    None => {
                        return Err(Error::UnknownSymbol(s.name));
                    },
                };
                match res.symbol_resolver(&s) {
                    Ok(v) => {
            let w = vec![instruction, v];
            assert(w@ =~= seq![instruction, v]);
            Ok(w)
        },
                    Err(e) => Err(e),
                }
            },
            MarkerKind::Number(n) => {
            let w = vec![instruction, n.value];
            assert(w@ =~= seq![instruction, n.value]);
            Ok(w)
        },
            MarkerKind::Label(_) => Err(Error::UnknownMarker(self.data.string())),
        }
    }

    fn size(&self) -> (r: u16) {
        2
    }
}

// JR: jumps to the address held in a register.
pub struct JR {
    pub register: Register,
}

impl JR {
    pub fn new(register: Register) -> (r: Self)
        ensures
            r.register == register,
    {
        Self { register }
    }
}

impl Instruction for JR {
    open spec fn spec_string(&self) -> Seq<char> {
        one_reg_text("JR"@, self.register)
    }

    open spec fn spec_size(&self) -> u16 {
        1
    }

    open spec fn needs_resolver(&self) -> bool {
        false
    }

    open spec fn emits(
        &self,
        labels: Map<Seq<char>, u16>,
        symbols: Map<Seq<char>, u16>,
        r: Result<Seq<u16>, Error>,
    ) -> bool {
        r == Ok::<Seq<u16>, Error>(seq![(0x30 + reg_num(self.register)) as u16])
    }

    fn string(&self) -> (r: String) {
        one_reg_string("JR", self.register)
    }

    fn emit<R: Resolver>(&self, resolver: Option<&R>) -> (r: Result<Vec<u16>, Error>) {
        let op: u16 = match self.register {
            Register::REG0 => 0x0030,
            Register::REG1 => 0x0031,
            Register::REG2 => 0x0032,
            Register::REG3 => 0x0033,
        };
        {
            let w: u16 = op;
            let v = vec![w];
            assert(v@ =~= seq![w]);
            Ok(v)
        }
    }

    fn size(&self) -> (r: u16) {
        1
    }
}

// JMP: jumps to the address in the word that follows.
pub struct JMP {
    pub jump_location: Label,
}

impl JMP {
    pub fn new(jump_location: Label) -> (r: Self)
        ensures
            r.jump_location == jump_location,
    {
        Self { jump_location }
    }
}

impl Instruction for JMP {
    open spec fn spec_string(&self) -> Seq<char> {
        "JMP "@ + self.jump_location.name@
    }

    open spec fn spec_size(&self) -> u16 {
        2
    }

    open spec fn needs_resolver(&self) -> bool {
        true
    }

    open spec fn emits(
        &self,
        labels: Map<Seq<char>, u16>,
        symbols: Map<Seq<char>, u16>,
        r: Result<Seq<u16>, Error>,
    ) -> bool {
        match label_word(labels, self.jump_location) {
            Ok(a) => r == Ok::<Seq<u16>, Error>(seq![0x0040u16, a]),
            Err(e) => r == Err::<Seq<u16>, Error>(e),
        }
    }

    fn string(&self) -> (r: String) {
        let mut s = String::from_str("JMP ");
        s.append(self.jump_location.name.as_str());
        s
    }

    fn emit<R: Resolver>(&self, resolver: Option<&R>) -> (r: Result<Vec<u16>, Error>) {
        let res = resolver.unwrap();
        match res.label_resolver(&self.jump_location) {
            Ok(a) => {
            let w = vec![0x0040, a];
            assert(w@ =~= seq![0x0040, a]);
            Ok(w)
        },
            Err(e) => Err(e),
        }
    }

    fn size(&self) -> (r: u16) {
        2
    }
}

/// The flags of a conditional jump, written one after the other.
pub open spec fn join(flags: Seq<String>) -> Seq<char>
    decreases flags.len(),
{
    if flags.len() == 0 {
        Seq::empty()
    } else {
        join(flags.drop_last()) + flags.last()@
    }
}

/// The opcode of a conditional jump on the flags spelled by `s`: some of
/// `C`, `A`, `E`, `Z` in that order, at least one.
pub open spec fn flag_code(s: Seq<char>) -> Option<u16> {
    let c = s.len() > 0 && s[0] == 'C';
    let s1 = if c {
        s.drop_first()
    } else {
        s
    };
    let a = s1.len() > 0 && s1[0] == 'A';
    let s2 = if a {
        s1.drop_first()
    } else {
        s1
    };
    let e = s2.len() > 0 && s2[0] == 'E';
    let s3 = if e {
        s2.drop_first()
    } else {
        s2
    };
    let z = s3.len() > 0 && s3[0] == 'Z';
    let s4 = if z {
        s3.drop_first()
    } else {
        s3
    };
    if s4.len() == 0 && (c || a || e || z) {
        Some(
            (0x50 + (if c {
                8int
            } else {
                0
            }) + (if a {
                4int
            } else {
                0
            }) + (if e {
                2int
            } else {
                0
            }) + (if z {
                1int
            } else {
                0
            })) as u16,
        )
    } else {
        None
    }
}

/// Writes the flags one after the other.
pub fn join_flags(flags: &Vec<String>) -> (r: String)
    ensures
        r@ == join(flags@),
{
    let mut s = String::new();
    let mut i: usize = 0;
    while i < flags.len()
        invariant
            i <= flags.len(),
            s@ == join(flags@.take(i as int)),
        decreases flags.len() - i,
    {
        s.append(flags[i].as_str());
        i += 1;
        assert(flags@.take(i as int).drop_last() =~= flags@.take(i - 1));
    }
    assert(flags@.take(flags.len() as int) =~= flags@);
    s
}

/// Reads an optional flag letter at position `i`.
fn take_flag(s: &str, i: usize, letter: char) -> (r: (bool, usize))
    requires
        i <= s@.len(),
    ensures
        r.0 == (i < s@.len() && s@[i as int] == letter),
        r.1 == (if r.0 {
            i + 1
        } else {
            i as int
        }),
{
    if i < s.unicode_len() && s.get_char(i) == letter {
        (true, i + 1)
    } else {
        (false, i)
    }
}

/// The opcode of a conditional jump on the flags spelled by `s`.
pub fn parse_flags(s: &String) -> (r: Option<u16>)
    ensures
        r == flag_code(s@),
{
    let t = s.as_str();
    let (c, i1) = take_flag(t, 0, 'C');
    let (a, i2) = take_flag(t, i1, 'A');
    let (e, i3) = take_flag(t, i2, 'E');
    let (z, i4) = take_flag(t, i3, 'Z');
    proof {
        let q = s@;
        assert(q.subrange(0, q.len() as int) =~= q);
        assert(q.subrange(i1 as int, q.len() as int) == (if c {
            q.drop_first()
        } else {
            q
        })) by {
            if c {
                assert(q.subrange(1, q.len() as int) =~= q.drop_first());
            }
        }
        assert(q.subrange(i2 as int, q.len() as int) =~= (if a {
            q.subrange(i1 as int, q.len() as int).drop_first()
        } else {
            q.subrange(i1 as int, q.len() as int)
        }));
        assert(q.subrange(i3 as int, q.len() as int) =~= (if e {
            q.subrange(i2 as int, q.len() as int).drop_first()
        } else {
            q.subrange(i2 as int, q.len() as int)
        }));
        assert(q.subrange(i4 as int, q.len() as int) =~= (if z {
            q.subrange(i3 as int, q.len() as int).drop_first()
        } else {
            q.subrange(i3 as int, q.len() as int)
        }));
    }
    if i4 == t.unicode_len() && (c || a || e || z) {
        let mut code: u16 = 0x50;
        if c {
            code = code + 8;
        }
        if a {
            code = code + 4;
        }
        if e {
            code = code + 2;
        }
        if z {
            code = code + 1;
        }
        Some(code)
    } else {
        None
    }
}

// JMP(CAEZ): jumps when one of the named flags is on.
pub struct JMPF {
    pub flags: Vec<String>,
    pub jump_location: Label,
}

impl JMPF {
    pub fn new(flags: Vec<String>, jump_location: Label) -> (r: Self)
        ensures
            r.flags == flags,
            r.jump_location == jump_location,
    {
        Self { flags, jump_location }
    }
}

impl Instruction for JMPF {
    open spec fn spec_string(&self) -> Seq<char> {
        "JMP"@ + join(self.flags@) + " "@ + self.jump_location.name@
    }

    open spec fn spec_size(&self) -> u16 {
        2
    }

    open spec fn needs_resolver(&self) -> bool {
        true
    }

    open spec fn emits(
        &self,
        labels: Map<Seq<char>, u16>,
        symbols: Map<Seq<char>, u16>,
        r: Result<Seq<u16>, Error>,
    ) -> bool {
        match flag_code(join(self.flags@)) {
            None => r matches Err(Error::UnknownFlag(f)) && f@ == join(self.flags@),
            Some(op) => match label_word(labels, self.jump_location) {
                Ok(a) => r == Ok::<Seq<u16>, Error>(seq![op, a]),
                Err(e) => r == Err::<Seq<u16>, Error>(e),
            },
        }
    }

    fn string(&self) -> (r: String) {
        let mut s = String::from_str("JMP");
        let f = join_flags(&self.flags);
        s.append(f.as_str());
        s.append(" ");
        s.append(self.jump_location.name.as_str());
        s
    }

    fn emit<R: Resolver>(&self, resolver: Option<&R>) -> (r: Result<Vec<u16>, Error>) {
        let f = join_flags(&self.flags);
        let op = match parse_flags(&f) {
            Some(op) => op,
            None => {
                return Err(Error::UnknownFlag(f));
            },
        };
        let res = resolver.unwrap();
        match res.label_resolver(&self.jump_location) {
            Ok(a) => {
            let w = vec![op, a];
            assert(w@ =~= seq![op, a]);
            Ok(w)
        },
            Err(e) => Err(e),
        }
    }

    fn size(&self) -> (r: u16) {
        2
    }
}

// CLF: clears the flags.
pub struct CLF {}

impl CLF {
    pub fn new() -> (r: Self) {
        Self {  }
    }
}

impl Instruction for CLF {
    open spec fn spec_string(&self) -> Seq<char> {
        "CLF"@
    }

    open spec fn spec_size(&self) -> u16 {
        1
    }

    open spec fn needs_resolver(&self) -> bool {
        false
    }

    open spec fn emits(
        &self,
        labels: Map<Seq<char>, u16>,
        symbols: Map<Seq<char>, u16>,
        r: Result<Seq<u16>, Error>,
    ) -> bool {
        r == Ok::<Seq<u16>, Error>(seq![0x0060u16])
    }

    fn string(&self) -> (r: String) {
        String::from_str("CLF")
    }

    fn emit<R: Resolver>(&self, resolver: Option<&R>) -> (r: Result<Vec<u16>, Error>) {
        {
            let w: u16 = 0x0060;
            let v = vec![w];
            assert(v@ =~= seq![w]);
            Ok(v)
        }
    }

    fn size(&self) -> (r: u16) {
        1
    }
}

/// `OP Mode, R`.
pub open spec fn io_text(op: Seq<char>, m: IOMode, r: Register) -> Seq<char> {
    op + " "@ + io_mode_text(m) + ", R"@ + reg_text(r)
}

/// 4 for an address transfer, 0 for data.
pub open spec fn io_offset(m: IOMode) -> u16 {
    match m {
        IOMode::AddressMode => 4,
        IOMode::DataMode => 0,
    }
}

fn io_string(op: &str, m: IOMode, r: Register) -> (s: String)
    ensures
        s@ == io_text(op@, m, r),
{
    let mut s = String::from_str(op);
    s.append(" ");
    s.append(m.name());
    s.append(", R");
    s.append(r.name());
    s
}

// IN: reads a word from the selected device into a register.
pub struct IN {
    pub io_mode: IOMode,
    pub to_register: Register,
}

impl IN {
    pub fn new(io_mode: IOMode, to_register: Register) -> (r: Self)
        ensures
            r.io_mode == io_mode,
            r.to_register == to_register,
    {
        Self { io_mode, to_register }
    }
}

impl Instruction for IN {
    open spec fn spec_string(&self) -> Seq<char> {
        io_text("IN"@, self.io_mode, self.to_register)
    }

    open spec fn spec_size(&self) -> u16 {
        1
    }

    open spec fn needs_resolver(&self) -> bool {
        false
    }

    open spec fn emits(
        &self,
        labels: Map<Seq<char>, u16>,
        symbols: Map<Seq<char>, u16>,
        r: Result<Seq<u16>, Error>,
    ) -> bool {
        r == Ok::<Seq<u16>, Error>(
            seq![(0x70 + io_offset(self.io_mode) + reg_num(self.to_register)) as u16],
        )
    }

    fn string(&self) -> (r: String) {
        io_string("IN", self.io_mode, self.to_register)
    }

    fn emit<R: Resolver>(&self, resolver: Option<&R>) -> (r: Result<Vec<u16>, Error>) {
        let base: u16 = match self.io_mode {
            IOMode::DataMode => 0x0070,
            IOMode::AddressMode => 0x0074,
        };
        {
            let w: u16 = base + self.to_register.number();
            let v = vec![w];
            assert(v@ =~= seq![w]);
            Ok(v)
        }
    }

    fn size(&self) -> (r: u16) {
        1
    }
}

// OUT: writes a register to the selected device.
pub struct OUT {
    pub io_mode: IOMode,
    pub to_register: Register,
}

impl OUT {
    pub fn new(io_mode: IOMode, to_register: Register) -> (r: Self)
        ensures
            r.io_mode == io_mode,
            r.to_register == to_register,
    {
        Self { io_mode, to_register }
    }
}

impl Instruction for OUT {
    open spec fn spec_string(&self) -> Seq<char> {
        io_text("OUT"@, self.io_mode, self.to_register)
    }

    open spec fn spec_size(&self) -> u16 {
        1
    }

    open spec fn needs_resolver(&self) -> bool {
        false
    }

    open spec fn emits(
        &self,
        labels: Map<Seq<char>, u16>,
        symbols: Map<Seq<char>, u16>,
        r: Result<Seq<u16>, Error>,
    ) -> bool {
        r == Ok::<Seq<u16>, Error>(
            seq![(0x78 + io_offset(self.io_mode) + reg_num(self.to_register)) as u16],
        )
    }

    fn string(&self) -> (r: String) {
        io_string("OUT", self.io_mode, self.to_register)
    }

    fn emit<R: Resolver>(&self, resolver: Option<&R>) -> (r: Result<Vec<u16>, Error>) {
        let base: u16 = match self.io_mode {
            IOMode::DataMode => 0x0078,
            IOMode::AddressMode => 0x007C,
        };
        {
            let w: u16 = base + self.to_register.number();
            let v = vec![w];
            assert(v@ =~= seq![w]);
            Ok(v)
        }
    }

    fn size(&self) -> (r: u16) {
        1
    }
}

// ADD: register B becomes A + B (with the carry flag in).
pub struct ADD {
    pub register_a: Register,
    pub register_b: Register,
}

impl ADD {
    pub fn new(register_a: Register, register_b: Register) -> (r: Self)
        ensures
            r.register_a == register_a,
            r.register_b == register_b,
    {
        Self { register_a, register_b }
    }
}

impl Instruction for ADD {
    open spec fn spec_string(&self) -> Seq<char> {
        two_reg_text("ADD"@, self.register_a, self.register_b)
    }

    open spec fn spec_size(&self) -> u16 {
        1
    }

    open spec fn needs_resolver(&self) -> bool {
        false
    }

    open spec fn emits(
        &self,
        labels: Map<Seq<char>, u16>,
        symbols: Map<Seq<char>, u16>,
        r: Result<Seq<u16>, Error>,
    ) -> bool {
        r == Ok::<Seq<u16>, Error>(
            seq![(0x80 + 4 * reg_num(self.register_a) + reg_num(self.register_b)) as u16],
        )
    }

    fn string(&self) -> (r: String) {
        two_reg_string("ADD", self.register_a, self.register_b)
    }

    fn emit<R: Resolver>(&self, resolver: Option<&R>) -> (r: Result<Vec<u16>, Error>) {
        let base: u16 = match self.register_a {
            Register::REG0 => 0x0080,
            Register::REG1 => 0x0084,
            Register::REG2 => 0x0088,
            Register::REG3 => 0x008C,
        };
        let w: u16 = base + self.register_b.number();
        let v = vec![w];
        assert(v@ =~= seq![w]);
        Ok(v)
    }

    fn size(&self) -> (r: u16) {
        1
    }
}

// SHL: shifts a register left (the carry flag fills the freed bit).
pub struct SHL {
    pub register: Register,
}

impl SHL {
    pub fn new(register: Register) -> (r: Self)
        ensures
            r.register == register,
    {
        Self { register }
    }
}

impl Instruction for SHL {
    open spec fn spec_string(&self) -> Seq<char> {
        one_reg_text("SHL"@, self.register)
    }

    open spec fn spec_size(&self) -> u16 {
        1
    }

    open spec fn needs_resolver(&self) -> bool {
        false
    }

    open spec fn emits(
        &self,
        labels: Map<Seq<char>, u16>,
        symbols: Map<Seq<char>, u16>,
        r: Result<Seq<u16>, Error>,
    ) -> bool {
        r == Ok::<Seq<u16>, Error>(seq![(0x90 + 5 * reg_num(self.register)) as u16])
    }

    fn string(&self) -> (r: String) {
        one_reg_string("SHL", self.register)
    }

    fn emit<R: Resolver>(&self, resolver: Option<&R>) -> (r: Result<Vec<u16>, Error>) {
        let w: u16 = match self.register {
            Register::REG0 => 0x0090,
            Register::REG1 => 0x0095,
            Register::REG2 => 0x009A,
            Register::REG3 => 0x009F,
        };
        let v = vec![w];
        assert(v@ =~= seq![w]);
        Ok(v)
    }

    fn size(&self) -> (r: u16) {
        1
    }
}

// SHR: shifts a register right (the carry flag fills the freed bit).
pub struct SHR {
    pub register: Register,
}

impl SHR {
    pub fn new(register: Register) -> (r: Self)
        ensures
            r.register == register,
    {
        Self { register }
    }
}

impl Instruction for SHR {
    open spec fn spec_string(&self) -> Seq<char> {
        one_reg_text("SHR"@, self.register)
    }

    open spec fn spec_size(&self) -> u16 {
        1
    }

    open spec fn needs_resolver(&self) -> bool {
        false
    }

    open spec fn emits(
        &self,
        labels: Map<Seq<char>, u16>,
        symbols: Map<Seq<char>, u16>,
        r: Result<Seq<u16>, Error>,
    ) -> bool {
        r == Ok::<Seq<u16>, Error>(seq![(0xa0 + 5 * reg_num(self.register)) as u16])
    }

    fn string(&self) -> (r: String) {
        one_reg_string("SHR", self.register)
    }

    fn emit<R: Resolver>(&self, resolver: Option<&R>) -> (r: Result<Vec<u16>, Error>) {
        let w: u16 = match self.register {
            Register::REG0 => 0x00A0,
            Register::REG1 => 0x00A5,
            Register::REG2 => 0x00AA,
            Register::REG3 => 0x00AF,
        };
        let v = vec![w];
        assert(v@ =~= seq![w]);
        Ok(v)
    }

    fn size(&self) -> (r: u16) {
        1
    }
}

// NOT: inverts every bit of a register.
pub struct NOT {
    pub register: Register,
}

impl NOT {
    pub fn new(register: Register) -> (r: Self)
        ensures
            r.register == register,
    {
        Self { register }
    }
}

impl Instruction for NOT {
    open spec fn spec_string(&self) -> Seq<char> {
        one_reg_text("NOT"@, self.register)
    }

    open spec fn spec_size(&self) -> u16 {
        1
    }

    open spec fn needs_resolver(&self) -> bool {
        false
    }

    open spec fn emits(
        &self,
        labels: Map<Seq<char>, u16>,
        symbols: Map<Seq<char>, u16>,
        r: Result<Seq<u16>, Error>,
    ) -> bool {
        r == Ok::<Seq<u16>, Error>(seq![(0xb0 + 5 * reg_num(self.register)) as u16])
    }

    fn string(&self) -> (r: String) {
        one_reg_string("NOT", self.register)
    }

    fn emit<R: Resolver>(&self, resolver: Option<&R>) -> (r: Result<Vec<u16>, Error>) {
        let w: u16 = match self.register {
            Register::REG0 => 0x00B0,
            Register::REG1 => 0x00B5,
            Register::REG2 => 0x00BA,
            Register::REG3 => 0x00BF,
        };
        let v = vec![w];
        assert(v@ =~= seq![w]);
        Ok(v)
    }

    fn size(&self) -> (r: u16) {
        1
    }
}

// AND: register B becomes A AND B.
pub struct AND {
    pub register_a: Register,
    pub register_b: Register,
}

impl AND {
    pub fn new(register_a: Register, register_b: Register) -> (r: Self)
        ensures
            r.register_a == register_a,
            r.register_b == register_b,
    {
        Self { register_a, register_b }
    }
}

impl Instruction for AND {
    open spec fn spec_string(&self) -> Seq<char> {
        two_reg_text("AND"@, self.register_a, self.register_b)
    }

    open spec fn spec_size(&self) -> u16 {
        1
    }

    open spec fn needs_resolver(&self) -> bool {
        false
    }

    open spec fn emits(
        &self,
        labels: Map<Seq<char>, u16>,
        symbols: Map<Seq<char>, u16>,
        r: Result<Seq<u16>, Error>,
    ) -> bool {
        r == Ok::<Seq<u16>, Error>(
            seq![(0xc0 + 4 * reg_num(self.register_a) + reg_num(self.register_b)) as u16],
        )
    }

    fn string(&self) -> (r: String) {
        two_reg_string("AND", self.register_a, self.register_b)
    }

    fn emit<R: Resolver>(&self, resolver: Option<&R>) -> (r: Result<Vec<u16>, Error>) {
        let base: u16 = match self.register_a {
            Register::REG0 => 0x00C0,
            Register::REG1 => 0x00C4,
            Register::REG2 => 0x00C8,
            Register::REG3 => 0x00CC,
        };
        let w: u16 = base + self.register_b.number();
        let v = vec![w];
        assert(v@ =~= seq![w]);
        Ok(v)
    }

    fn size(&self) -> (r: u16) {
        1
    }
}

// OR: register B becomes A OR B.
pub struct OR {
    pub register_a: Register,
    pub register_b: Register,
}

impl OR {
    pub fn new(register_a: Register, register_b: Register) -> (r: Self)
        ensures
            r.register_a == register_a,
            r.register_b == register_b,
    {
        Self { register_a, register_b }
    }
}

impl Instruction for OR {
    open spec fn spec_string(&self) -> Seq<char> {
        two_reg_text("OR"@, self.register_a, self.register_b)
    }

    open spec fn spec_size(&self) -> u16 {
        1
    }

    open spec fn needs_resolver(&self) -> bool {
        false
    }

    open spec fn emits(
        &self,
        labels: Map<Seq<char>, u16>,
        symbols: Map<Seq<char>, u16>,
        r: Result<Seq<u16>, Error>,
    ) -> bool {
        r == Ok::<Seq<u16>, Error>(
            seq![(0xd0 + 4 * reg_num(self.register_a) + reg_num(self.register_b)) as u16],
        )
    }

    fn string(&self) -> (r: String) {
        two_reg_string("OR", self.register_a, self.register_b)
    }

    fn emit<R: Resolver>(&self, resolver: Option<&R>) -> (r: Result<Vec<u16>, Error>) {
        let base: u16 = match self.register_a {
            Register::REG0 => 0x00D0,
            Register::REG1 => 0x00D4,
            Register::REG2 => 0x00D8,
            Register::REG3 => 0x00DC,
        };
        let w: u16 = base + self.register_b.number();
        let v = vec![w];
        assert(v@ =~= seq![w]);
        Ok(v)
    }

    fn size(&self) -> (r: u16) {
        1
    }
}

// XOR: register B becomes A XOR B.
pub struct XOR {
    pub register_a: Register,
    pub register_b: Register,
}

impl XOR {
    pub fn new(register_a: Register, register_b: Register) -> (r: Self)
        ensures
            r.register_a == register_a,
            r.register_b == register_b,
    {
        Self { register_a, register_b }
    }
}

impl Instruction for XOR {
    open spec fn spec_string(&self) -> Seq<char> {
        two_reg_text("XOR"@, self.register_a, self.register_b)
    }

    open spec fn spec_size(&self) -> u16 {
        1
    }

    open spec fn needs_resolver(&self) -> bool {
        false
    }

    open spec fn emits(
        &self,
        labels: Map<Seq<char>, u16>,
        symbols: Map<Seq<char>, u16>,
        r: Result<Seq<u16>, Error>,
    ) -> bool {
        r == Ok::<Seq<u16>, Error>(
            seq![(0xe0 + 4 * reg_num(self.register_a) + reg_num(self.register_b)) as u16],
        )
    }

    fn string(&self) -> (r: String) {
        two_reg_string("XOR", self.register_a, self.register_b)
    }

    fn emit<R: Resolver>(&self, resolver: Option<&R>) -> (r: Result<Vec<u16>, Error>) {
        let base: u16 = match self.register_a {
            Register::REG0 => 0x00E0,
            Register::REG1 => 0x00E4,
            Register::REG2 => 0x00E8,
            Register::REG3 => 0x00EC,
        };
        let w: u16 = base + self.register_b.number();
        let v = vec![w];
        assert(v@ =~= seq![w]);
        Ok(v)
    }

    fn size(&self) -> (r: u16) {
        1
    }
}

// CMP: compares A with B and sets the flags only.
pub struct CMP {
    pub register_a: Register,
    pub register_b: Register,
}

impl CMP {
    pub fn new(register_a: Register, register_b: Register) -> (r: Self)
        ensures
            r.register_a == register_a,
            r.register_b == register_b,
    {
        Self { register_a, register_b }
    }
}

impl Instruction for CMP {
    open spec fn spec_string(&self) -> Seq<char> {
        two_reg_text("CMP"@, self.register_a, self.register_b)
    }

    open spec fn spec_size(&self) -> u16 {
        1
    }

    open spec fn needs_resolver(&self) -> bool {
        false
    }

    open spec fn emits(
        &self,
        labels: Map<Seq<char>, u16>,
        symbols: Map<Seq<char>, u16>,
        r: Result<Seq<u16>, Error>,
    ) -> bool {
        r == Ok::<Seq<u16>, Error>(
            seq![(0xf0 + 4 * reg_num(self.register_a) + reg_num(self.register_b)) as u16],
        )
    }

    fn string(&self) -> (r: String) {
        two_reg_string("CMP", self.register_a, self.register_b)
    }

    fn emit<R: Resolver>(&self, resolver: Option<&R>) -> (r: Result<Vec<u16>, Error>) {
        let base: u16 = match self.register_a {
            Register::REG0 => 0x00F0,
            Register::REG1 => 0x00F4,
            Register::REG2 => 0x00F8,
            Register::REG3 => 0x00FC,
        };
        let w: u16 = base + self.register_b.number();
        let v = vec![w];
        assert(v@ =~= seq![w]);
        Ok(v)
    }

    fn size(&self) -> (r: u16) {
        1
    }
}

/// Marks the place of a label; assembles to nothing.
pub struct DEFLABEL {
    pub name: String,
}

impl DEFLABEL {
    pub fn new(name: &str) -> (r: Self)
        ensures
            r.name@ == name@,
    {
        Self { name: String::from_str(name) }
    }
}

impl Instruction for DEFLABEL {
    open spec fn spec_string(&self) -> Seq<char> {
        self.name@
    }

    open spec fn spec_size(&self) -> u16 {
        0
    }

    open spec fn needs_resolver(&self) -> bool {
        false
    }

    open spec fn emits(
        &self,
        labels: Map<Seq<char>, u16>,
        symbols: Map<Seq<char>, u16>,
        r: Result<Seq<u16>, Error>,
    ) -> bool {
        r == Ok::<Seq<u16>, Error>(Seq::empty())
    }

    fn string(&self) -> (r: String) {
        self.name.clone()
    }

    fn emit<R: Resolver>(&self, resolver: Option<&R>) -> (r: Result<Vec<u16>, Error>) {
        let v: Vec<u16> = Vec::new();
        assert(v@ =~= Seq::<u16>::empty());
        Ok(v)
    }

    fn size(&self) -> (r: u16) {
        0
    }
}

/// Gives a symbol its value; assembles to nothing.
pub struct DEFSYMBOL {
    pub name: String,
    pub value: u16,
}

impl DEFSYMBOL {
    pub fn new(name: &str, value: u16) -> (r: Self)
        ensures
            r.name@ == name@,
            r.value == value,
    {
        Self { name: String::from_str(name), value }
    }
}

impl Instruction for DEFSYMBOL {
    open spec fn spec_string(&self) -> Seq<char> {
        "%"@ + self.name@ + " = 0x"@ + hex_min(self.value as nat)
    }

    open spec fn spec_size(&self) -> u16 {
        0
    }

    open spec fn needs_resolver(&self) -> bool {
        false
    }

    open spec fn emits(
        &self,
        labels: Map<Seq<char>, u16>,
        symbols: Map<Seq<char>, u16>,
        r: Result<Seq<u16>, Error>,
    ) -> bool {
        r == Ok::<Seq<u16>, Error>(Seq::empty())
    }

    fn string(&self) -> (r: String) {
        let mut s = String::from_str("%");
        s.append(self.name.as_str());
        s.append(" = 0x");
        push_hex_min(&mut s, self.value);
        s
    }

    fn emit<R: Resolver>(&self, resolver: Option<&R>) -> (r: Result<Vec<u16>, Error>) {
        let v: Vec<u16> = Vec::new();
        assert(v@ =~= Seq::<u16>::empty());
        Ok(v)
    }

    fn size(&self) -> (r: u16) {
        0
    }
}

/// Calls a routine: puts the address of the next instruction in register 3
/// and jumps.  Assembles to `DATA R3, next` and `JMP routine`.
pub struct CALL {
    pub routine: Label,
}

impl CALL {
    pub fn new(routine: Label) -> (r: Self)
        ensures
            r.routine == routine,
    {
        Self { routine }
    }
}

impl Instruction for CALL {
    open spec fn spec_string(&self) -> Seq<char> {
        "CALL "@ + self.routine.name@
    }

    open spec fn spec_size(&self) -> u16 {
        4
    }

    open spec fn needs_resolver(&self) -> bool {
        true
    }

    open spec fn emits(
        &self,
        labels: Map<Seq<char>, u16>,
        symbols: Map<Seq<char>, u16>,
        r: Result<Seq<u16>, Error>,
    ) -> bool {
        if !symbols.contains_key(NEXTINSTRUCTION@) {
            r matches Err(Error::UnknownSymbol(s)) && s@ == NEXTINSTRUCTION@
        } else {
            match label_word(labels, self.routine) {
                Ok(a) => r == Ok::<Seq<u16>, Error>(
                    seq![0x0023u16, symbols[NEXTINSTRUCTION@], 0x0040u16, a],
                ),
                Err(e) => r == Err::<Seq<u16>, Error>(e),
            }
        }
    }

    fn string(&self) -> (r: String) {
        let mut s = String::from_str("CALL ");
        s.append(self.routine.name.as_str());
        s
    }

    fn emit<R: Resolver>(&self, resolver: Option<&R>) -> (r: Result<Vec<u16>, Error>) {
        let res = resolver.unwrap();
        let next = match res.symbol_resolver(&Symbol::new(NEXTINSTRUCTION)) {
            Ok(v) => v,
            Err(e) => {
                return Err(e);
            },
        };
        let data = DATA::new(Register::REG3, Number::new(next));
        let jump = JMP::new(self.routine.duplicate());
        let r1 = data.emit(resolver);
        assert(data.emits(labels_of(resolver), symbols_of(resolver), emit_view(r1)));
        let mut emitted = match r1 {
            Ok(v) => v,
            Err(e) => {
                return Err(e);
            },
        };
        assert(emitted@ == seq![0x0023u16, next]);
        let r2 = jump.emit(resolver);
        let mut more = match r2 {
            Ok(v) => v,
            Err(e) => {
                return Err(e);
            },
        };
        let ghost jumped = more@;
        assert(jumped.len() == 2 && jumped[0] == 0x0040u16);
        emitted.append(&mut more);
        assert(emitted@ =~= seq![0x0023u16, next, 0x0040u16, jumped[1]]);
        Ok(emitted)
    }

    fn size(&self) -> (r: u16) {
        4
    }
}

} // verus!
