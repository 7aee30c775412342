//! The disassembler engine, as far as the decode dispatcher relies on it.
//!
//! Nothing in this file is proved: each item states what the `capstone`
//! crate is taken to do.

use crate::architecture::{BackendConfig, InstructionSet, Mode};
use crate::decode::DecodedInstruction;
use vstd::prelude::*;

verus! {

/// `capstone::Capstone`, an open engine. Its inside is not visible here.
#[verifier::external_type_specification]
#[verifier::external_body]
pub struct ExCapstone(capstone::Capstone);

/// `capstone::Error`, the engine's own error.
#[verifier::external_type_specification]
#[verifier::external_body]
pub struct ExCapstoneError(capstone::Error);

/// Calls `capstone::Capstone::new_raw` with the family and mode of `config`,
/// no extra mode and no endianness override. Whether the engine opens is up
/// to the engine, so nothing is claimed of the result.
#[verifier::external_body]
pub(crate) fn open_decoder(config: BackendConfig) -> (opened: Result<
    capstone::Capstone,
    capstone::Error,
>) {
    let arch = match config.instruction_set {
        InstructionSet::X86 => capstone::Arch::X86,
        InstructionSet::Arm => capstone::Arch::ARM,
        InstructionSet::Arm64 => capstone::Arch::ARM64,
    };
    let mode = match config.mode {
        Mode::Bits32 => capstone::Mode::Mode32,
        Mode::Bits64 => capstone::Mode::Mode64,
        Mode::Arm => capstone::Mode::Arm,
        Mode::LittleEndian => capstone::Mode::Default,
    };
    capstone::Capstone::new_raw(arch, mode, capstone::NO_EXTRA_MODE, None)
}

/// Calls `capstone::Capstone::disasm_all` and copies out, for each
/// instruction, its length in bytes, its mnemonic and its operand string.
///
/// The engine decodes from the first byte on and stops without an error at
/// the first place where it finds no instruction, so what comes back may
/// cover less than `code`. Which texts it writes is not fixed by the bytes
/// and the address: it prints a floating-point immediate through the C
/// library, in the numeric locale of the process. The one thing claimed is
/// that from no bytes it decodes no instruction.
#[verifier::external_body]
pub(crate) fn decode_all(engine: &capstone::Capstone, code: &[u8], address: u64) -> (decoded:
    Result<Vec<DecodedInstruction>, capstone::Error>)
    ensures
        decoded matches Ok(list) ==> (code@.len() == 0 ==> list@.len() == 0),
{
    let instructions = engine.disasm_all(code, address)?;
    Ok(
        instructions.iter().map(
            |i| DecodedInstruction {
                size: i.len(),
                mnemonic: i.mnemonic().map(String::from),
                operands: i.op_str().map(String::from),
            },
        ).collect(),
    )
}

/// Formats a `capstone::Error` with its `Debug` impl.
#[verifier::external_body]
pub(crate) fn decoder_error_text(error: &capstone::Error) -> (text: String) {
    format!("{:?}", error)
}

} // verus!
