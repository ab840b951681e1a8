//! Programs: lists of instructions, and the assembler's two passes over
//! them.
use super::instruction::{
    emit_view, labels_of, symbols_of, Instruction, ADD, AND, CALL, CLF, CMP, DATA, DEFLABEL,
    DEFSYMBOL, IN, JMP, JMPF, JR, LOAD, NOT, OR, OUT, SHL, SHR, STORE, XOR,
};
use super::markers::{Label, Number, Symbol};
use super::resolver::{assoc, insert, lookup, table_view, AssemblerResolver, Resolver};
use super::{Error, IOMode, Register, CURRENTINSTRUCTION, NEXTINSTRUCTION};
use vstd::prelude::*;
use vstd::string::StringExecFns;

verus! {

/// Any instruction of a program.
pub enum Instr {
    Load(LOAD),
    Store(STORE),
    DataNumber(DATA<Number>),
    DataSymbol(DATA<Symbol>),
    DataLabel(DATA<Label>),
    Jr(JR),
    Jmp(JMP),
    Jmpf(JMPF),
    Clf(CLF),
    In(IN),
    Out(OUT),
    Add(ADD),
    Shl(SHL),
    Shr(SHR),
    Not(NOT),
    And(AND),
    Or(OR),
    Xor(XOR),
    Cmp(CMP),
    DefLabel(DEFLABEL),
    DefSymbol(DEFSYMBOL),
    Call(CALL),
}

impl Instruction for Instr {
    open spec fn spec_string(&self) -> Seq<char> {
        match self {
            Instr::Load(i) => i.spec_string(),
            Instr::Store(i) => i.spec_string(),
            Instr::DataNumber(i) => i.spec_string(),
            Instr::DataSymbol(i) => i.spec_string(),
            Instr::DataLabel(i) => i.spec_string(),
            Instr::Jr(i) => i.spec_string(),
            Instr::Jmp(i) => i.spec_string(),
            Instr::Jmpf(i) => i.spec_string(),
            Instr::Clf(i) => i.spec_string(),
            Instr::In(i) => i.spec_string(),
            Instr::Out(i) => i.spec_string(),
            Instr::Add(i) => i.spec_string(),
            Instr::Shl(i) => i.spec_string(),
            Instr::Shr(i) => i.spec_string(),
            Instr::Not(i) => i.spec_string(),
            Instr::And(i) => i.spec_string(),
            Instr::Or(i) => i.spec_string(),
            Instr::Xor(i) => i.spec_string(),
            Instr::Cmp(i) => i.spec_string(),
            Instr::DefLabel(i) => i.spec_string(),
            Instr::DefSymbol(i) => i.spec_string(),
            Instr::Call(i) => i.spec_string(),
        }
    }

    open spec fn spec_size(&self) -> u16 {
        match self {
            Instr::Load(i) => i.spec_size(),
            Instr::Store(i) => i.spec_size(),
            Instr::DataNumber(i) => i.spec_size(),
            Instr::DataSymbol(i) => i.spec_size(),
            Instr::DataLabel(i) => i.spec_size(),
            Instr::Jr(i) => i.spec_size(),
            Instr::Jmp(i) => i.spec_size(),
            Instr::Jmpf(i) => i.spec_size(),
            Instr::Clf(i) => i.spec_size(),
            Instr::In(i) => i.spec_size(),
            Instr::Out(i) => i.spec_size(),
            Instr::Add(i) => i.spec_size(),
            Instr::Shl(i) => i.spec_size(),
            Instr::Shr(i) => i.spec_size(),
            Instr::Not(i) => i.spec_size(),
            Instr::And(i) => i.spec_size(),
            Instr::Or(i) => i.spec_size(),
            Instr::Xor(i) => i.spec_size(),
            Instr::Cmp(i) => i.spec_size(),
            Instr::DefLabel(i) => i.spec_size(),
            Instr::DefSymbol(i) => i.spec_size(),
            Instr::Call(i) => i.spec_size(),
        }
    }

    open spec fn needs_resolver(&self) -> bool {
        match self {
            Instr::Load(i) => i.needs_resolver(),
            Instr::Store(i) => i.needs_resolver(),
            Instr::DataNumber(i) => i.needs_resolver(),
            Instr::DataSymbol(i) => i.needs_resolver(),
            Instr::DataLabel(i) => i.needs_resolver(),
            Instr::Jr(i) => i.needs_resolver(),
            Instr::Jmp(i) => i.needs_resolver(),
            Instr::Jmpf(i) => i.needs_resolver(),
            Instr::Clf(i) => i.needs_resolver(),
            Instr::In(i) => i.needs_resolver(),
            Instr::Out(i) => i.needs_resolver(),
            Instr::Add(i) => i.needs_resolver(),
            Instr::Shl(i) => i.needs_resolver(),
            Instr::Shr(i) => i.needs_resolver(),
            Instr::Not(i) => i.needs_resolver(),
            Instr::And(i) => i.needs_resolver(),
            Instr::Or(i) => i.needs_resolver(),
            Instr::Xor(i) => i.needs_resolver(),
            Instr::Cmp(i) => i.needs_resolver(),
            Instr::DefLabel(i) => i.needs_resolver(),
            Instr::DefSymbol(i) => i.needs_resolver(),
            Instr::Call(i) => i.needs_resolver(),
        }
    }

    open spec fn emits(
        &self,
        labels: Map<Seq<char>, u16>,
        symbols: Map<Seq<char>, u16>,
        r: Result<Seq<u16>, Error>,
    ) -> bool {
        match self {
            Instr::Load(i) => i.emits(labels, symbols, r),
            Instr::Store(i) => i.emits(labels, symbols, r),
            Instr::DataNumber(i) => i.emits(labels, symbols, r),
            Instr::DataSymbol(i) => i.emits(labels, symbols, r),
            Instr::DataLabel(i) => i.emits(labels, symbols, r),
            Instr::Jr(i) => i.emits(labels, symbols, r),
            Instr::Jmp(i) => i.emits(labels, symbols, r),
            Instr::Jmpf(i) => i.emits(labels, symbols, r),
            Instr::Clf(i) => i.emits(labels, symbols, r),
            Instr::In(i) => i.emits(labels, symbols, r),
            Instr::Out(i) => i.emits(labels, symbols, r),
            Instr::Add(i) => i.emits(labels, symbols, r),
            Instr::Shl(i) => i.emits(labels, symbols, r),
            Instr::Shr(i) => i.emits(labels, symbols, r),
            Instr::Not(i) => i.emits(labels, symbols, r),
            Instr::And(i) => i.emits(labels, symbols, r),
            Instr::Or(i) => i.emits(labels, symbols, r),
            Instr::Xor(i) => i.emits(labels, symbols, r),
            Instr::Cmp(i) => i.emits(labels, symbols, r),
            Instr::DefLabel(i) => i.emits(labels, symbols, r),
            Instr::DefSymbol(i) => i.emits(labels, symbols, r),
            Instr::Call(i) => i.emits(labels, symbols, r),
        }
    }

    fn string(&self) -> (r: String) {
        match self {
            Instr::Load(i) => i.string(),
            Instr::Store(i) => i.string(),
            Instr::DataNumber(i) => i.string(),
            Instr::DataSymbol(i) => i.string(),
            Instr::DataLabel(i) => i.string(),
            Instr::Jr(i) => i.string(),
            Instr::Jmp(i) => i.string(),
            Instr::Jmpf(i) => i.string(),
            Instr::Clf(i) => i.string(),
            Instr::In(i) => i.string(),
            Instr::Out(i) => i.string(),
            Instr::Add(i) => i.string(),
            Instr::Shl(i) => i.string(),
            Instr::Shr(i) => i.string(),
            Instr::Not(i) => i.string(),
            Instr::And(i) => i.string(),
            Instr::Or(i) => i.string(),
            Instr::Xor(i) => i.string(),
            Instr::Cmp(i) => i.string(),
            Instr::DefLabel(i) => i.string(),
            Instr::DefSymbol(i) => i.string(),
            Instr::Call(i) => i.string(),
        }
    }

    #[verifier::spinoff_prover]
    #[verifier::rlimit(60)]
    fn emit<R: Resolver>(&self, resolver: Option<&R>) -> (r: Result<Vec<u16>, Error>) {
        match self {
            Instr::Load(i) => i.emit(resolver),
            Instr::Store(i) => i.emit(resolver),
            Instr::DataNumber(i) => i.emit(resolver),
            Instr::DataSymbol(i) => i.emit(resolver),
            Instr::DataLabel(i) => i.emit(resolver),
            Instr::Jr(i) => i.emit(resolver),
            Instr::Jmp(i) => i.emit(resolver),
            Instr::Jmpf(i) => i.emit(resolver),
            Instr::Clf(i) => i.emit(resolver),
            Instr::In(i) => i.emit(resolver),
            Instr::Out(i) => i.emit(resolver),
            Instr::Add(i) => i.emit(resolver),
            Instr::Shl(i) => i.emit(resolver),
            Instr::Shr(i) => i.emit(resolver),
            Instr::Not(i) => i.emit(resolver),
            Instr::And(i) => i.emit(resolver),
            Instr::Or(i) => i.emit(resolver),
            Instr::Xor(i) => i.emit(resolver),
            Instr::Cmp(i) => i.emit(resolver),
            Instr::DefLabel(i) => i.emit(resolver),
            Instr::DefSymbol(i) => i.emit(resolver),
            Instr::Call(i) => i.emit(resolver),
        }
    }

    fn size(&self) -> (r: u16) {
        match self {
            Instr::Load(i) => i.size(),
            Instr::Store(i) => i.size(),
            Instr::DataNumber(i) => i.size(),
            Instr::DataSymbol(i) => i.size(),
            Instr::DataLabel(i) => i.size(),
            Instr::Jr(i) => i.size(),
            Instr::Jmp(i) => i.size(),
            Instr::Jmpf(i) => i.size(),
            Instr::Clf(i) => i.size(),
            Instr::In(i) => i.size(),
            Instr::Out(i) => i.size(),
            Instr::Add(i) => i.size(),
            Instr::Shl(i) => i.size(),
            Instr::Shr(i) => i.size(),
            Instr::Not(i) => i.size(),
            Instr::And(i) => i.size(),
            Instr::Or(i) => i.size(),
            Instr::Xor(i) => i.size(),
            Instr::Cmp(i) => i.size(),
            Instr::DefLabel(i) => i.size(),
            Instr::DefSymbol(i) => i.size(),
            Instr::Call(i) => i.size(),
        }
    }
}

/// An instruction as plain values: its kind, its registers, and the names
/// and numbers it refers to.
pub enum Op {
    Load(Register, Register),
    Store(Register, Register),
    DataNumber(Register, u16),
    DataSymbol(Register, Seq<char>),
    DataLabel(Register, Seq<char>),
    Jr(Register),
    Jmp(Seq<char>),
    Jmpf(Seq<Seq<char>>, Seq<char>),
    Clf,
    In(IOMode, Register),
    Out(IOMode, Register),
    Add(Register, Register),
    Shl(Register),
    Shr(Register),
    Not(Register),
    And(Register, Register),
    Or(Register, Register),
    Xor(Register, Register),
    Cmp(Register, Register),
    DefLabel(Seq<char>),
    DefSymbol(Seq<char>, u16),
    Call(Seq<char>),
}

/// The views of a list of strings.
pub open spec fn string_views(v: Seq<String>) -> Seq<Seq<char>> {
    v.map_values(|s: String| s@)
}

impl View for Instr {
    type V = Op;

    open spec fn view(&self) -> Op {
        match self {
            Instr::Load(i) => Op::Load(i.memory_address_reg, i.to_register),
            Instr::Store(i) => Op::Store(i.from_register, i.to_register),
            Instr::DataNumber(i) => Op::DataNumber(i.to_register, i.data.value),
            Instr::DataSymbol(i) => Op::DataSymbol(i.to_register, i.data.name@),
            Instr::DataLabel(i) => Op::DataLabel(i.to_register, i.data.name@),
            Instr::Jr(i) => Op::Jr(i.register),
            Instr::Jmp(i) => Op::Jmp(i.jump_location.name@),
            Instr::Jmpf(i) => Op::Jmpf(string_views(i.flags@), i.jump_location.name@),
            Instr::Clf(_) => Op::Clf,
            Instr::In(i) => Op::In(i.io_mode, i.to_register),
            Instr::Out(i) => Op::Out(i.io_mode, i.to_register),
            Instr::Add(i) => Op::Add(i.register_a, i.register_b),
            Instr::Shl(i) => Op::Shl(i.register),
            Instr::Shr(i) => Op::Shr(i.register),
            Instr::Not(i) => Op::Not(i.register),
            Instr::And(i) => Op::And(i.register_a, i.register_b),
            Instr::Or(i) => Op::Or(i.register_a, i.register_b),
            Instr::Xor(i) => Op::Xor(i.register_a, i.register_b),
            Instr::Cmp(i) => Op::Cmp(i.register_a, i.register_b),
            Instr::DefLabel(i) => Op::DefLabel(i.name@),
            Instr::DefSymbol(i) => Op::DefSymbol(i.name@, i.value),
            Instr::Call(i) => Op::Call(i.routine.name@),
        }
    }
}

/// The views of a list of instructions.
pub open spec fn ops(s: Seq<Instr>) -> Seq<Op> {
    s.map_values(|i: Instr| i@)
}

/// The views of two lists joined are the two lists of views joined.
pub proof fn lemma_ops_append(a: Seq<Instr>, b: Seq<Instr>)
    ensures
        ops(a + b) == ops(a) + ops(b),
{
    assert(ops(a + b) =~= ops(a) + ops(b));
}

impl Instr {
    /// Whether the instruction only marks a label or a symbol.
    pub open spec fn is_definition(&self) -> bool {
        self is DefLabel || self is DefSymbol
    }
}

/// Where instruction `i` starts: the sum of the sizes of those before it.
pub open spec fn code_position(instrs: Seq<Instr>, i: int) -> nat
    decreases i,
{
    if i <= 0 {
        0
    } else {
        code_position(instrs, i - 1) + instrs[i - 1].spec_size() as nat
    }
}

/// The tables of the first pass over the first `n` instructions: each
/// label stands for the address of what follows it, each symbol for its
/// value; a name defined twice, or a reserved symbol, is an error.
pub open spec fn tables(instrs: Seq<Instr>, offset: u16, reserved: Set<Seq<char>>, n: int) -> Result<
    (Map<Seq<char>, u16>, Map<Seq<char>, u16>),
    Error,
>
    decreases n,
{
    if n <= 0 {
        Ok((Map::empty(), Map::empty()))
    } else {
        match tables(instrs, offset, reserved, n - 1) {
            Err(e) => Err(e),
            Ok((labels, symbols)) => match instrs[n - 1] {
                Instr::DefLabel(l) => if labels.contains_key(l.name@) {
                    Err(Error::LabelExist(l.name))
                } else {
                    Ok((labels.insert(l.name@, (code_position(instrs, n) + offset) as u16), symbols))
                },
                Instr::DefSymbol(d) => if symbols.contains_key(d.name@) {
                    Err(Error::SymbolExist(d.name))
                } else if reserved.contains(d.name@) {
                    Err(Error::SymbolReserved(d.name))
                } else {
                    Ok((labels, symbols.insert(d.name@, d.value)))
                },
                _ => Ok((labels, symbols)),
            },
        }
    }
}

/// The symbols while instruction `i` is assembled: those of the program,
/// with the addresses of this instruction and the next.
pub open spec fn symbols_at(base: Map<Seq<char>, u16>, instrs: Seq<Instr>, offset: u16, i: int) -> Map<
    Seq<char>,
    u16,
> {
    base.insert(CURRENTINSTRUCTION@, (offset + code_position(instrs, i)) as u16).insert(
        NEXTINSTRUCTION@,
        (offset + code_position(instrs, i) + instrs[i].spec_size()) as u16,
    )
}

/// Whether instruction `i` assembles to `r`.
pub open spec fn emitted_at(
    instrs: Seq<Instr>,
    labels: Map<Seq<char>, u16>,
    base: Map<Seq<char>, u16>,
    offset: u16,
    i: int,
    r: Result<Seq<u16>, Error>,
) -> bool {
    instrs[i].emits(labels, symbols_at(base, instrs, offset, i), r)
}

/// Whether instruction `i` assembles without error.
pub open spec fn ok_at(
    instrs: Seq<Instr>,
    labels: Map<Seq<char>, u16>,
    base: Map<Seq<char>, u16>,
    offset: u16,
    i: int,
) -> bool {
    exists|w: Seq<u16>| emitted_at(instrs, labels, base, offset, i, Ok(w))
}

/// The words instruction `i` assembles to.
pub open spec fn words_at(
    instrs: Seq<Instr>,
    labels: Map<Seq<char>, u16>,
    base: Map<Seq<char>, u16>,
    offset: u16,
    i: int,
) -> Seq<u16> {
    choose|w: Seq<u16>| emitted_at(instrs, labels, base, offset, i, Ok(w))
}

/// The words of the first `n` instructions, one after the other.
pub open spec fn all_words(
    instrs: Seq<Instr>,
    labels: Map<Seq<char>, u16>,
    base: Map<Seq<char>, u16>,
    offset: u16,
    n: int,
) -> Seq<u16>
    decreases n,
{
    if n <= 0 {
        Seq::empty()
    } else {
        all_words(instrs, labels, base, offset, n - 1) + words_at(instrs, labels, base, offset, n - 1)
    }
}

/// An instruction assembles either to words or to an error, and to one
/// list of words at most.
pub proof fn lemma_emits_determined(
    instr: Instr,
    labels: Map<Seq<char>, u16>,
    symbols: Map<Seq<char>, u16>,
    r: Result<Seq<u16>, Error>,
    w: Seq<u16>,
)
    requires
        instr.emits(labels, symbols, r),
        instr.emits(labels, symbols, Ok(w)),
    ensures
        r == Ok::<Seq<u16>, Error>(w),
{
}

/// The first instruction from `i` on that cannot be assembled, or `n` when
/// there is none.
pub open spec fn first_failure(
    instrs: Seq<Instr>,
    labels: Map<Seq<char>, u16>,
    base: Map<Seq<char>, u16>,
    offset: u16,
    i: int,
    n: int,
) -> int
    decreases n - i,
{
    if i >= n {
        n
    } else if !ok_at(instrs, labels, base, offset, i) {
        i
    } else {
        first_failure(instrs, labels, base, offset, i + 1, n)
    }
}

/// Whether `r` is what the program assembles to: the error of the first
/// pass, or else the words of every instruction one after the other, or the
/// error of the first instruction that cannot be assembled.
pub open spec fn assembled(
    instrs: Seq<Instr>,
    offset: u16,
    reserved: Set<Seq<char>>,
    r: Result<Seq<u16>, Error>,
) -> bool {
    let n = instrs.len() as int;
    match tables(instrs, offset, reserved, n) {
        Err(e) => r == Err::<Seq<u16>, Error>(e),
        Ok((labels, base)) => {
            let k = first_failure(instrs, labels, base, offset, 0, n);
            match r {
                Ok(words) => k == n && words == all_words(instrs, labels, base, offset, n),
                Err(e) => k < n && emitted_at(instrs, labels, base, offset, k, Err(e)),
            }
        },
    }
}

/// Instructions that assemble do not move the first failure.
pub proof fn lemma_first_failure_skip(
    instrs: Seq<Instr>,
    labels: Map<Seq<char>, u16>,
    base: Map<Seq<char>, u16>,
    offset: u16,
    i: int,
    n: int,
)
    requires
        0 <= i <= n,
        forall|j: int| 0 <= j < i ==> #[trigger] ok_at(instrs, labels, base, offset, j),
    ensures
        first_failure(instrs, labels, base, offset, 0, n) == first_failure(
            instrs,
            labels,
            base,
            offset,
            i,
            n,
        ),
    decreases i,
{
    if i > 0 {
        lemma_first_failure_skip(instrs, labels, base, offset, i - 1, n);
        assert(ok_at(instrs, labels, base, offset, i - 1));
    }
}

/// Names of the symbols reserved for the assembler's own use.
pub struct ReservedSymbols(pub Vec<String>);

impl ReservedSymbols {
    pub open spec fn names(&self) -> Set<Seq<char>> {
        Set::new(|n: Seq<char>| exists|i: int| 0 <= i < self.0@.len() && #[trigger] self.0@[i]@ == n)
    }

    pub fn new() -> (r: Self)
        ensures
            r.names() == Set::<Seq<char>>::empty(),
            r.0@.len() == 0,
    {
        let r = ReservedSymbols(Vec::new());
        assert(r.names() =~= Set::<Seq<char>>::empty());
        r
    }

    pub fn is_reserved_symbol(&self, name: &str) -> (r: bool)
        ensures
            r == self.names().contains(name@),
    {
        let n = String::from_str(name);
        let mut i: usize = 0;
        while i < self.0.len()
            invariant
                i <= self.0@.len(),
                n@ == name@,
                forall|j: int| 0 <= j < i ==> #[trigger] self.0@[j]@ != name@,
            decreases self.0.len() - i,
        {
            if self.0[i] == n {
                return true;
            }
            i += 1;
        }
        false
    }
}

/// The address after instruction `current_instr_index`, which starts at
/// `current_offset`: definitions take no room.
pub fn get_next_executable_instruction_loc(
    current_offset: u16,
    current_instr_index: usize,
    instructions: &Vec<Instr>,
) -> (r: u16)
    requires
        current_instr_index < instructions@.len(),
        current_offset + instructions@[current_instr_index as int].spec_size() <= 0xFFFF,
    ensures
        r == current_offset + (if instructions@[current_instr_index as int].is_definition() {
            0
        } else {
            instructions@[current_instr_index as int].spec_size()
        }),
{
    let mut next_instruction_pos: u16 = 0;
    let mut i: usize = current_instr_index;
    while i < instructions.len()
        invariant_except_break
            current_instr_index < instructions@.len(),
            current_instr_index <= i <= instructions@.len(),
            next_instruction_pos == (if i > current_instr_index
                && !instructions@[current_instr_index as int].is_definition() {
                instructions@[current_instr_index as int].spec_size()
            } else {
                0
            }),
        ensures
            next_instruction_pos == (if instructions@[current_instr_index as int].is_definition() {
                0
            } else {
                instructions@[current_instr_index as int].spec_size()
            }),
        decreases instructions.len() - i,
    {
        let is_definition = match &instructions[i] {
            Instr::DefLabel(_) => true,
            Instr::DefSymbol(_) => true,
            _ => false,
        };
        if is_definition {
        } else {
            if current_instr_index == i {
                next_instruction_pos = next_instruction_pos + instructions[i].size();
            } else {
                break ;
            }
        }
        i += 1;
    }
    current_offset + next_instruction_pos
}

/// The assembler: its tables of labels and symbols, and the symbols it
/// keeps for itself.
pub struct Assembler {
    pub assembler_resolver: AssemblerResolver,
    pub reserved_symbols: ReservedSymbols,
}

impl Assembler {
    pub fn new() -> (r: Self)
        ensures
            r.reserved_symbols.names() == Set::<Seq<char>>::empty(),
    {
        Self { assembler_resolver: AssemblerResolver::new(), reserved_symbols: ReservedSymbols::new() }
    }

    /// The first pass: records where each label is and what each symbol
    /// stands for.
    fn collect_tables(&mut self, code_start_offset: u16, instructions: &Vec<Instr>) -> (r: Result<
        (),
        Error,
    >)
        requires
            code_start_offset + code_position(instructions@, instructions@.len() as int) <= 0xFFFF,
        ensures
            final(self).reserved_symbols == old(self).reserved_symbols,
            match tables(
                instructions@,
                code_start_offset,
                old(self).reserved_symbols.names(),
                instructions@.len() as int,
            ) {
                Err(e) => r == Err::<(), Error>(e),
                Ok((labels, symbols)) => r is Ok && final(self).assembler_resolver.label_map()
                    == labels && final(self).assembler_resolver.symbol_map() == symbols,
            },
    {
        let ghost reserved = self.reserved_symbols.names();
        let ghost instrs = instructions@;
        self.assembler_resolver.labels = Vec::new();
        self.assembler_resolver.symbols = Vec::new();
        assert(self.assembler_resolver.label_map() =~= Map::<Seq<char>, u16>::empty());
        assert(self.assembler_resolver.symbol_map() =~= Map::<Seq<char>, u16>::empty());
        let mut position: u16 = 0;
        let mut idx: usize = 0;
        while idx < instructions.len()
            invariant
                idx <= instrs.len(),
                instrs == instructions@,
                reserved == self.reserved_symbols.names(),
                self.reserved_symbols == old(self).reserved_symbols,
                code_start_offset + code_position(instrs, instrs.len() as int) <= 0xFFFF,
                position == code_position(instrs, idx as int),
                tables(instrs, code_start_offset, reserved, idx as int) == Ok::<
                    (Map<Seq<char>, u16>, Map<Seq<char>, u16>),
                    Error,
                >((self.assembler_resolver.label_map(), self.assembler_resolver.symbol_map())),
            decreases instrs.len() - idx,
        {
            proof {
                lemma_position_mono(instrs, idx + 1, instrs.len() as int);
            }
            position = position + instructions[idx].size();
            match &instructions[idx] {
                Instr::DefLabel(label) => {
                    if lookup(&self.assembler_resolver.labels, &label.name).is_some() {
                        let e = Error::LabelExist(label.name.clone());
                        proof {
                            lemma_tables_error_stays(
                                instrs,
                                code_start_offset,
                                reserved,
                                idx + 1,
                                instrs.len() as int,
                                e,
                            );
                        }
                        return Err(e);
                    }
                    let ghost before = self.assembler_resolver.label_map();
                    insert(
                        &mut self.assembler_resolver.labels,
                        label.name.clone(),
                        position + code_start_offset,
                    );
                    assert(self.assembler_resolver.label_map() =~= before.insert(
                        label.name@,
                        (position + code_start_offset) as u16,
                    ));
                },
                Instr::DefSymbol(symbol) => {
                    if lookup(&self.assembler_resolver.symbols, &symbol.name).is_some() {
                        let e = Error::SymbolExist(symbol.name.clone());
                        proof {
                            lemma_tables_error_stays(
                                instrs,
                                code_start_offset,
                                reserved,
                                idx + 1,
                                instrs.len() as int,
                                e,
                            );
                        }
                        return Err(e);
                    }
                    if self.reserved_symbols.is_reserved_symbol(symbol.name.as_str()) {
                        let e = Error::SymbolReserved(symbol.name.clone());
                        proof {
                            lemma_tables_error_stays(
                                instrs,
                                code_start_offset,
                                reserved,
                                idx + 1,
                                instrs.len() as int,
                                e,
                            );
                        }
                        return Err(e);
                    }
                    let ghost before = self.assembler_resolver.symbol_map();
                    insert(&mut self.assembler_resolver.symbols, symbol.name.clone(), symbol.value);
                    assert(self.assembler_resolver.symbol_map() =~= before.insert(
                        symbol.name@,
                        symbol.value,
                    ));
                },
                _ => {},
            }
            idx += 1;
        }
        Ok(())
    }

    /// Assembles a program placed at `code_start_offset`: the first pass
    /// records the labels and symbols, the second emits each instruction
    /// with `CURRENTINSTRUCTION` and `NEXTINSTRUCTION` standing for its own
    /// address and the next.
    pub fn process(&mut self, code_start_offset: u16, instructions: Option<Vec<Instr>>) -> (r: Result<
        Vec<u16>,
        Error,
    >)
        requires
            instructions is Some,
            code_start_offset + code_position(
                instructions->0@,
                instructions->0@.len() as int,
            ) <= 0xFFFF,
        ensures
            assembled(
                instructions->0@,
                code_start_offset,
                old(self).reserved_symbols.names(),
                emit_view(r),
            ),
    {
        let program = instructions.unwrap();
        let ghost instrs = program@;
        assert(instrs == instructions->0@);
        let ghost n = instrs.len() as int;
        match self.collect_tables(code_start_offset, &program) {
            Ok(()) => {},
            Err(e) => {
                return Err(e);
            },
        }
        let ghost labels = self.assembler_resolver.label_map();
        let ghost base = self.assembler_resolver.symbol_map();
        assert(tables(instrs, code_start_offset, old(self).reserved_symbols.names(), n) == Ok::<
            (Map<Seq<char>, u16>, Map<Seq<char>, u16>),
            Error,
        >((labels, base)));
        proof {
            reveal_strlit("CURRENTINSTRUCTION");
            reveal_strlit("NEXTINSTRUCTION");
            assert(CURRENTINSTRUCTION@.len() == 18);
            assert(NEXTINSTRUCTION@.len() == 15);
        }
        let mut emitted: Vec<u16> = Vec::new();
        let mut i: usize = 0;
        let mut position: u16 = 0;
        while i < program.len()
            invariant
                i <= n,
                n == program@.len(),
                instrs == program@,
                CURRENTINSTRUCTION@ != NEXTINSTRUCTION@,
                code_start_offset + code_position(instrs, n) <= 0xFFFF,
                position == code_position(instrs, i as int),
                self.assembler_resolver.label_map() == labels,
                instrs == instructions->0@,
                tables(instrs, code_start_offset, old(self).reserved_symbols.names(), n) == Ok::<
                    (Map<Seq<char>, u16>, Map<Seq<char>, u16>),
                    Error,
                >((labels, base)),
                forall|k: Seq<char>|
                    k != CURRENTINSTRUCTION@ && k != NEXTINSTRUCTION@ ==> (
                    #[trigger] self.assembler_resolver.symbol_map().contains_key(k)
                        == base.contains_key(k) && self.assembler_resolver.symbol_map()[k]
                        == base[k]),
                forall|j: int| 0 <= j < i ==> #[trigger] ok_at(instrs, labels, base, code_start_offset, j),
                emitted@ == all_words(instrs, labels, base, code_start_offset, i as int),
            decreases n - i,
        {
            proof {
                lemma_position_mono(instrs, i + 1, n);
            }
            let ghost l0 = table_view(self.assembler_resolver.symbols@);
            let ghost m0 = self.assembler_resolver.symbol_map();
            insert(
                &mut self.assembler_resolver.symbols,
                String::from_str(CURRENTINSTRUCTION),
                position + code_start_offset,
            );
            let ghost l1 = table_view(self.assembler_resolver.symbols@);
            let current = match lookup(
                &self.assembler_resolver.symbols,
                &String::from_str(CURRENTINSTRUCTION),
            ) {
                Some(v) => v,
                None => position + code_start_offset,
            };
            assert(current == position + code_start_offset);
            let next = get_next_executable_instruction_loc(current, i, &program);
            insert(&mut self.assembler_resolver.symbols, String::from_str(NEXTINSTRUCTION), next);
            let ghost l2 = table_view(self.assembler_resolver.symbols@);
            let ghost syms = symbols_at(base, instrs, code_start_offset, i as int);
            assert(next == code_start_offset + position + instrs[i as int].spec_size());
            let ghost m2 = self.assembler_resolver.symbol_map();
            assert forall|k: Seq<char>|
                #![trigger m2.contains_key(k)]
                #![trigger syms.contains_key(k)]
                m2.contains_key(k) == syms.contains_key(k) && (syms.contains_key(k) ==> m2[k]
                    == syms[k]) by {
                assert(assoc(l2, k) == (if k == NEXTINSTRUCTION@ {
                    Some(next)
                } else {
                    assoc(l1, k)
                }));
                assert(assoc(l1, k) == (if k == CURRENTINSTRUCTION@ {
                    Some((position + code_start_offset) as u16)
                } else {
                    assoc(l0, k)
                }));
                assert(m2.contains_key(k) == (assoc(l2, k) is Some));
                assert(m0.contains_key(k) == (assoc(l0, k) is Some));
                if k != CURRENTINSTRUCTION@ && k != NEXTINSTRUCTION@ {
                    assert(m0.contains_key(k) == base.contains_key(k));
                    if base.contains_key(k) {
                        assert(m0[k] == base[k]);
                        assert(m0[k] == assoc(l0, k)->0);
                    }
                }
            }
            assert(m2.dom() =~= syms.dom()) by {
                assert forall|k: Seq<char>| #[trigger] m2.dom().contains(k) == syms.dom().contains(k) by {
                    assert(m2.contains_key(k) == syms.contains_key(k));
                }
            }
            assert forall|k: Seq<char>| #[trigger] m2.dom().contains(k) implies m2[k] == syms[k] by {
                assert(syms.contains_key(k));
            }
            assert(m2 =~= syms);
            let result = program[i].emit(Some(&self.assembler_resolver));
            match result {
                Ok(mut v) => {
                    let ghost w = v@;
                    assert(emitted_at(instrs, labels, base, code_start_offset, i as int, Ok(w)));
                    assert(ok_at(instrs, labels, base, code_start_offset, i as int));
                    proof {
                        let c = words_at(instrs, labels, base, code_start_offset, i as int);
                        lemma_emits_determined(instrs[i as int], labels, syms, Ok(w), c);
                    }
                    emitted.append(&mut v);
                },
                Err(e) => {
                    proof {
                        assert(emitted_at(instrs, labels, base, code_start_offset, i as int, Err(e)));
                        if ok_at(instrs, labels, base, code_start_offset, i as int) {
                            let c = words_at(instrs, labels, base, code_start_offset, i as int);
                            lemma_emits_determined(instrs[i as int], labels, syms, Err(e), c);
                        }
                        lemma_first_failure_skip(instrs, labels, base, code_start_offset, i as int, n);
                    }
                    return Err(e);
                },
            }
            position = position + program[i].size();
            i += 1;
        }
        proof {
            lemma_first_failure_skip(instrs, labels, base, code_start_offset, n, n);
        }
        Ok(emitted)
    }
}

/// Once the first pass has failed, it stays failed with the same error.
pub proof fn lemma_tables_error_stays(
    instrs: Seq<Instr>,
    offset: u16,
    reserved: Set<Seq<char>>,
    k: int,
    m: int,
    e: Error,
)
    requires
        0 <= k <= m,
        tables(instrs, offset, reserved, k) == Err::<(Map<Seq<char>, u16>, Map<Seq<char>, u16>), Error>(e),
    ensures
        tables(instrs, offset, reserved, m) == Err::<(Map<Seq<char>, u16>, Map<Seq<char>, u16>), Error>(e),
    decreases m - k,
{
    if k < m {
        lemma_tables_error_stays(instrs, offset, reserved, k, m - 1, e);
    }
}

/// Positions only grow along a program.
pub proof fn lemma_position_mono(instrs: Seq<Instr>, i: int, j: int)
    requires
        i <= j,
    ensures
        code_position(instrs, i) <= code_position(instrs, j),
    decreases j - i,
{
    if i < j {
        lemma_position_mono(instrs, i, j - 1);
    }
}

/// Every instruction assembles to as many words as its size says.
pub proof fn law_emit_size(
    instr: Instr,
    labels: Map<Seq<char>, u16>,
    symbols: Map<Seq<char>, u16>,
    w: Seq<u16>,
)
    requires
        instr.emits(labels, symbols, Ok(w)),
    ensures
        w.len() == instr.spec_size(),
{
}

/// A program that assembles takes as many words as the sizes of its
/// instructions add up to.
pub proof fn law_program_size(
    instrs: Seq<Instr>,
    labels: Map<Seq<char>, u16>,
    base: Map<Seq<char>, u16>,
    offset: u16,
    n: int,
)
    requires
        0 <= n <= instrs.len(),
        forall|i: int| 0 <= i < n ==> #[trigger] ok_at(instrs, labels, base, offset, i),
    ensures
        all_words(instrs, labels, base, offset, n).len() == code_position(instrs, n),
    decreases n,
{
    if n > 0 {
        law_program_size(instrs, labels, base, offset, n - 1);
        assert(ok_at(instrs, labels, base, offset, n - 1));
        let w = words_at(instrs, labels, base, offset, n - 1);
        law_emit_size(instrs[n - 1], labels, symbols_at(base, instrs, offset, n - 1), w);
    }
}

/// Two instructions that are written and assembled alike.
pub open spec fn same_instr(a: Instr, b: Instr) -> bool {
    &&& a.spec_string() == b.spec_string()
    &&& a.spec_size() == b.spec_size()
    &&& a.needs_resolver() == b.needs_resolver()
    &&& a.is_definition() == b.is_definition()
    &&& forall|l: Map<Seq<char>, u16>, s: Map<Seq<char>, u16>, r: Result<Seq<u16>, Error>|
        #[trigger] a.emits(l, s, r) == b.emits(l, s, r)
}

fn duplicate_strings(v: &Vec<String>) -> (r: Vec<String>)
    ensures
        r@ == v@,
{
    let mut r: Vec<String> = Vec::new();
    let mut i: usize = 0;
    while i < v.len()
        invariant
            i <= v.len(),
            r@ == v@.take(i as int),
        decreases v.len() - i,
    {
        r.push(v[i].clone());
        i += 1;
        assert(r@ =~= v@.take(i as int));
    }
    assert(v@.take(v.len() as int) =~= v@);
    r
}

impl Instr {
    /// An instruction written and assembled like this one.
    #[verifier::spinoff_prover]
    #[verifier::rlimit(60)]
    pub fn duplicate(&self) -> (r: Instr)
        ensures
            same_instr(r, *self),
            r.is_definition() == self.is_definition(),
            r@ == self@,
    {
        match self {
            Instr::Load(i) => Instr::Load(LOAD::new(i.memory_address_reg, i.to_register)),
            Instr::Store(i) => Instr::Store(STORE::new(i.from_register, i.to_register)),
            Instr::DataNumber(i) => Instr::DataNumber(DATA::new(i.to_register, i.data)),
            Instr::DataSymbol(i) => Instr::DataSymbol(DATA::new(i.to_register, i.data.duplicate())),
            Instr::DataLabel(i) => Instr::DataLabel(DATA::new(i.to_register, i.data.duplicate())),
            Instr::Jr(i) => Instr::Jr(JR::new(i.register)),
            Instr::Jmp(i) => Instr::Jmp(JMP::new(i.jump_location.duplicate())),
            Instr::Jmpf(i) => Instr::Jmpf(
                JMPF::new(duplicate_strings(&i.flags), i.jump_location.duplicate()),
            ),
            Instr::Clf(_) => Instr::Clf(CLF::new()),
            Instr::In(i) => Instr::In(IN::new(i.io_mode, i.to_register)),
            Instr::Out(i) => Instr::Out(OUT::new(i.io_mode, i.to_register)),
            Instr::Add(i) => Instr::Add(ADD::new(i.register_a, i.register_b)),
            Instr::Shl(i) => Instr::Shl(SHL::new(i.register)),
            Instr::Shr(i) => Instr::Shr(SHR::new(i.register)),
            Instr::Not(i) => Instr::Not(NOT::new(i.register)),
            Instr::And(i) => Instr::And(AND::new(i.register_a, i.register_b)),
            Instr::Or(i) => Instr::Or(OR::new(i.register_a, i.register_b)),
            Instr::Xor(i) => Instr::Xor(XOR::new(i.register_a, i.register_b)),
            Instr::Cmp(i) => Instr::Cmp(CMP::new(i.register_a, i.register_b)),
            Instr::DefLabel(i) => Instr::DefLabel(DEFLABEL { name: i.name.clone() }),
            Instr::DefSymbol(i) => Instr::DefSymbol(DEFSYMBOL { name: i.name.clone(), value: i.value }),
            Instr::Call(i) => Instr::Call(CALL::new(i.routine.duplicate())),
        }
    }
}

/// A list of instructions, built up block by block.
pub struct Instructions {
    pub instructions: Vec<Instr>,
}

impl Instructions {
    pub fn new() -> (r: Self)
        ensures
            r.instructions@ == Seq::<Instr>::empty(),
    {
        Self { instructions: Vec::new() }
    }

    /// Appends the instructions of `ins`, in order.
    pub fn add(&mut self, ins: Vec<Instr>)
        ensures
            final(self).instructions@ == old(self).instructions@ + ins@,
            ops(final(self).instructions@) == ops(old(self).instructions@) + ops(ins@),
    {
        proof {
            lemma_ops_append(self.instructions@, ins@);
        }
        let mut ins = ins;
        self.instructions.append(&mut ins);
    }

    /// Appends each block in turn.
    pub fn add_blocks(&mut self, blocks: Vec<Vec<Instr>>)
        ensures
            final(self).instructions@.len() >= old(self).instructions@.len(),
            final(self).instructions@ == old(self).instructions@ + flatten_blocks(blocks@),
    {
        let mut blocks = blocks;
        let ghost all = blocks@;
        let mut done: Vec<Vec<Instr>> = Vec::new();
        let mut i: usize = 0;
        let n = blocks.len();
        while blocks.len() > 0
            invariant
                blocks@.len() + i == n,
                n == all.len(),
                blocks@ == all.subrange(i as int, n as int),
                self.instructions@ == old(self).instructions@ + flatten_blocks(all.take(i as int)),
            decreases blocks@.len(),
        {
            let block = blocks.remove(0);
            proof {
                assert(all.take(i + 1).drop_last() =~= all.take(i as int));
                assert(all.take(i + 1).last() == block);
            }
            self.add(block);
            i += 1;
            assert(blocks@ =~= all.subrange(i as int, n as int));
        }
        assert(all.take(n as int) =~= all);
    }

    /// The instructions so far.
    pub fn get(&self) -> (r: Vec<Instr>)
        ensures
            r@.len() == self.instructions@.len(),
            forall|i: int| 0 <= i < r@.len() ==> #[trigger] same_instr(r@[i], self.instructions@[i]),
            ops(r@) == ops(self.instructions@),
    {
        let mut r: Vec<Instr> = Vec::new();
        let mut i: usize = 0;
        while i < self.instructions.len()
            invariant
                i <= self.instructions@.len(),
                r@.len() == i,
                forall|j: int| 0 <= j < i ==> #[trigger] same_instr(r@[j], self.instructions@[j]),
                forall|j: int| 0 <= j < i ==> #[trigger] r@[j]@ == self.instructions@[j]@,
            decreases self.instructions.len() - i,
        {
            r.push(self.instructions[i].duplicate());
            i += 1;
        }
        assert(ops(r@) =~= ops(self.instructions@));
        r
    }

    /// The program as text: each label on a line of its own after an empty
    /// line, each symbol definition likewise, each instruction indented by a
    /// tab.
    pub fn to_text(&self) -> (r: String)
        ensures
            r@ == program_text(self.instructions@),
    {
        let mut result = String::new();
        let mut i: usize = 0;
        while i < self.instructions.len()
            invariant
                i <= self.instructions@.len(),
                result@ == program_text(self.instructions@.take(i as int)),
            decreases self.instructions.len() - i,
        {
            let ins = &self.instructions[i];
            let s = ins.string();
            if ins.is_label_or_symbol() {
                result.append("\n");
                result.append(s.as_str());
                result.append("\n");
            } else {
                result.append("\t");
                result.append(s.as_str());
                result.append("\n");
            }
            i += 1;
            assert(self.instructions@.take(i as int).drop_last() =~= self.instructions@.take(
                i - 1,
            ));
        }
        assert(self.instructions@.take(self.instructions@.len() as int) =~= self.instructions@);
        result
    }
}

impl Instr {
    fn is_label_or_symbol(&self) -> (r: bool)
        ensures
            r == self.is_definition(),
    {
        match self {
            Instr::DefLabel(_) => true,
            Instr::DefSymbol(_) => true,
            _ => false,
        }
    }
}

/// The text of one line of a program listing.
pub open spec fn line_text(i: Instr) -> Seq<char> {
    if i.is_definition() {
        "\n"@ + i.spec_string() + "\n"@
    } else {
        "\t"@ + i.spec_string() + "\n"@
    }
}

/// A program listing.
pub open spec fn program_text(instrs: Seq<Instr>) -> Seq<char>
    decreases instrs.len(),
{
    if instrs.len() == 0 {
        Seq::empty()
    } else {
        program_text(instrs.drop_last()) + line_text(instrs.last())
    }
}

/// The instructions of a list of blocks, one block after the other.
pub open spec fn flatten_blocks(blocks: Seq<Vec<Instr>>) -> Seq<Instr>
    decreases blocks.len(),
{
    if blocks.len() == 0 {
        Seq::empty()
    } else {
        flatten_blocks(blocks.drop_last()) + blocks.last()@
    }
}

} // verus!
