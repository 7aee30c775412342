//! Dispatch between a logical architecture selector and the external
//! assembler and disassembler engines.
//!
//! The crate owns the decisions around the engines: which backend
//! configuration an architecture resolves to, which failures are reported
//! under which kind, and how decoded instructions are rendered. The engines
//! themselves are black boxes.

pub mod architecture;
pub mod decode;
pub mod decoder_engine;
pub mod encode;
pub mod failure;
pub mod greeting;
pub mod text;

pub use architecture::{
    is_supported, resolve, Architecture, BackendConfig, EndianType, InstructionSet, Mode,
};
pub use decode::{
    decode_result, disassemble, render_all, render_instruction, DecodedInstruction, DecoderReport,
};
pub use encode::{encode_result, encoder_config, EncoderReport};
pub use failure::{DispatchError, FailureView};
pub use greeting::greet;
