//! Locking-script classification, push-data extraction and opcode decoding.
use vstd::prelude::*;

verus! {

/// The spending condition that a locking script is taken to encode.
#[derive(Debug, Clone, Copy, PartialEq, Eq, Structural)]
pub enum ScriptType {
    P2PKH,
    P2WPKH,
    Unknown,
}

/// The classification of a script: a three-byte script is P2WPKH when it starts
/// with `0x00` and P2PKH otherwise; a script of any other length is unknown.
pub open spec fn script_type_of(script: Seq<u8>) -> ScriptType {
    if script.len() == 3 {
        if script[0] == 0x00 {
            ScriptType::P2WPKH
        } else {
            ScriptType::P2PKH
        }
    } else {
        ScriptType::Unknown
    }
}

/// Classifies a locking script by its length and first byte.
pub fn classify_script(script: &[u8]) -> (r: ScriptType)
    ensures
        r == script_type_of(script@),
{
    match script.len() {
        3 => match script[0] {
            0x00 => ScriptType::P2WPKH,
            _ => ScriptType::P2PKH,
        },
        _ => ScriptType::Unknown,
    }
}

/// Why a script cannot be read.
#[derive(Debug, Clone, Copy, PartialEq, Eq, Structural)]
pub enum ScriptError {
    /// The script is shorter than its two header bytes.
    InvalidScript,
}

/// The offset at which push-data starts.
pub const PUSHDATA_OFFSET: usize = 2;

/// Returns the push-data of a script: everything after its two header bytes.
pub fn read_pushdata(script: &[u8]) -> (r: Result<&[u8], ScriptError>)
    ensures
        script@.len() < 2 ==> r == Err::<&[u8], ScriptError>(ScriptError::InvalidScript),
        script@.len() >= 2 ==> (r matches Ok(d) && d@ == script@.subrange(2, script@.len() as int)),
{
    if script.len() < PUSHDATA_OFFSET {
        Err(ScriptError::InvalidScript)
    } else {
        Ok(vstd::slice::slice_subrange(script, PUSHDATA_OFFSET, script.len()))
    }
}

/// A script instruction decoded from one byte.
#[derive(Clone, Copy, Debug, PartialEq, Eq, Hash, Structural)]
pub enum Opcode {
    /// Checks a signature against a public key, authorising a spend.
    OpChecksig,
    /// Duplicates the top item of the stack, as in a P2PKH script.
    OpDup,
    /// A byte that names no instruction this library knows.
    OpInvalid,
}

impl Opcode {
    /// Decodes one opcode byte: `0xac` and `0x76` are the two known instructions,
    /// `0x00` is rejected, and every other byte is an unrecognised instruction.
    pub fn from_byte(byte: u8) -> (r: Result<Self, String>)
        ensures
            byte == 0xac ==> r == Ok::<Opcode, String>(Opcode::OpChecksig),
            byte == 0x76 ==> r == Ok::<Opcode, String>(Opcode::OpDup),
            byte == 0x00 ==> (r matches Err(m) && m@ == "Invalid opcode: 0x00"@),
            byte != 0xac && byte != 0x76 && byte != 0x00 ==> r == Ok::<Opcode, String>(
                Opcode::OpInvalid,
            ),
    {
        match byte {
            0xac => Ok(Opcode::OpChecksig),
            0x76 => Ok(Opcode::OpDup),
            0x00 => Err(String::from_str("Invalid opcode: 0x00")),
            _ => Ok(Opcode::OpInvalid),
        }
    }
}

} // verus!
