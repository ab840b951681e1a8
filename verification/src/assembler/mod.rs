//! The assembler: the instruction set with its text and its machine code,
//! and the two passes that turn a program into words.
pub mod program;
pub mod format;
pub mod instruction;
pub mod markers;
pub mod resolver;

pub use instruction::{
    Instruction, ADD, AND, CALL, CLF, CMP, DATA, DEFLABEL, DEFSYMBOL, IN, JMP, JMPF, JR, LOAD, NOT,
    OR, OUT, SHL, SHR, STORE, XOR,
};
pub use program::{
    get_next_executable_instruction_loc, Assembler, Instr, Instructions, ReservedSymbols,
};
pub use markers::{Label, Marker, MarkerKind, Number, Symbol};
pub use resolver::{AssemblerResolver, Resolver};

use vstd::prelude::*;
use vstd::string::StringExecFns;

verus! {

/// The symbol that names the address of the instruction being assembled.
pub const CURRENTINSTRUCTION: &'static str = "CURRENTINSTRUCTION";

/// The symbol that names the address of the instruction after it.
pub const NEXTINSTRUCTION: &'static str = "NEXTINSTRUCTION";

/// The four general purpose registers.
#[derive(Debug, PartialEq, Eq, Hash, Clone, Copy, Structural)]
pub enum Register {
    REG0,
    REG1,
    REG2,
    REG3,
}

/// The number of a register.
pub open spec fn reg_num(r: Register) -> u16 {
    match r {
        Register::REG0 => 0,
        Register::REG1 => 1,
        Register::REG2 => 2,
        Register::REG3 => 3,
    }
}

/// The text of a register's number.
pub open spec fn reg_text(r: Register) -> Seq<char> {
    match r {
        Register::REG0 => "0"@,
        Register::REG1 => "1"@,
        Register::REG2 => "2"@,
        Register::REG3 => "3"@,
    }
}

impl From<Register> for u16 {
    fn from(r: Register) -> (v: u16) {
        match r {
            Register::REG0 => 0,
            Register::REG1 => 1,
            Register::REG2 => 2,
            Register::REG3 => 3,
        }
    }
}

impl vstd::std_specs::convert::FromSpecImpl<Register> for u16 {
    open spec fn obeys_from_spec() -> bool {
        true
    }

    open spec fn from_spec(r: Register) -> u16 {
        reg_num(r)
    }
}

impl Register {
    /// The register's number as text.
    pub fn name(&self) -> (r: &'static str)
        ensures
            r@ == reg_text(*self),
    {
        match self {
            Register::REG0 => "0",
            Register::REG1 => "1",
            Register::REG2 => "2",
            Register::REG3 => "3",
        }
    }

    /// The register's number.
    pub fn number(&self) -> (r: u16)
        ensures
            r == reg_num(*self),
    {
        match self {
            Register::REG0 => 0,
            Register::REG1 => 1,
            Register::REG2 => 2,
            Register::REG3 => 3,
        }
    }
}

/// Whether an I/O instruction moves an address or data.
#[derive(Debug, PartialEq, Eq, Hash, Clone, Copy, Structural)]
pub enum IOMode {
    AddressMode,
    DataMode,
}

/// The text of an I/O mode.
pub open spec fn io_mode_text(m: IOMode) -> Seq<char> {
    match m {
        IOMode::AddressMode => "Addr"@,
        IOMode::DataMode => "Data"@,
    }
}

impl IOMode {
    pub fn name(&self) -> (r: &'static str)
        ensures
            r@ == io_mode_text(*self),
    {
        match self {
            IOMode::AddressMode => "Addr",
            IOMode::DataMode => "Data",
        }
    }
}

/// What can go wrong when assembling.
#[derive(Debug, Clone)]
pub enum Error {
    UnknownRegister(String),
    UnknownFlag(String),
    UnknownIoMode(String),
    UnknownMarker(String),
    UnknownSymbol(String),
    UnknownLabel(String),
    DowncastError,
    LabelExist(String),
    SymbolExist(String),
    SymbolReserved(String),
}

/// The text that describes an error.
pub open spec fn error_text(e: Error) -> Seq<char> {
    match e {
        Error::UnknownRegister(s) => "Unknown register: R"@ + s@,
        Error::UnknownFlag(s) => "Unknown flag: "@ + s@,
        Error::UnknownIoMode(s) => "Unknown io mode: "@ + s@,
        Error::UnknownMarker(s) => "Unknown marker: "@ + s@,
        Error::UnknownSymbol(s) => "Unknown symbol: "@ + s@,
        Error::UnknownLabel(s) => "Unknown label: "@ + s@,
        Error::DowncastError => "Downcast Error"@,
        Error::LabelExist(s) => "Label '"@ + s@ + "' already exists, all labels should be unique"@,
        Error::SymbolExist(s) => "Symbol '"@ + s@ + "' already exists, all symbols should be unique"@,
        Error::SymbolReserved(s) => "symbol '"@ + s@
            + "' is reserved for internal use, please use another symbol name"@,
    }
}

impl Error {
    /// The text that describes the error.
    pub fn message(&self) -> (r: String)
        ensures
            r@ == error_text(*self),
    {
        match self {
            Error::UnknownRegister(s) => String::from_str("Unknown register: R").concat(s.as_str()),
            Error::UnknownFlag(s) => String::from_str("Unknown flag: ").concat(s.as_str()),
            Error::UnknownIoMode(s) => String::from_str("Unknown io mode: ").concat(s.as_str()),
            Error::UnknownMarker(s) => String::from_str("Unknown marker: ").concat(s.as_str()),
            Error::UnknownSymbol(s) => String::from_str("Unknown symbol: ").concat(s.as_str()),
            Error::UnknownLabel(s) => String::from_str("Unknown label: ").concat(s.as_str()),
            Error::DowncastError => String::from_str("Downcast Error"),
            Error::LabelExist(s) => String::from_str("Label '").concat(s.as_str()).concat(
                "' already exists, all labels should be unique",
            ),
            Error::SymbolExist(s) => String::from_str("Symbol '").concat(s.as_str()).concat(
                "' already exists, all symbols should be unique",
            ),
            Error::SymbolReserved(s) => String::from_str("symbol '").concat(s.as_str()).concat(
                "' is reserved for internal use, please use another symbol name",
            ),
        }
    }
}

} // verus!
