//! The architecture selector and the backend configuration it resolves to.

use vstd::prelude::*;

verus! {

/// Logical instruction-set selector, chosen per request.
#[allow(non_camel_case_types)]
#[derive(Debug, Clone, Copy, PartialEq, Eq, Structural)]
pub enum Architecture {
    X86,
    X86_64,
    ARM,
    ARM64,
    MIPS,
    PPC,
    SPARC,
}

/// Byte order of a target. Resolution does not read it yet: every
/// implemented architecture is resolved to its little-endian configuration.
#[derive(Debug, Clone, Copy, PartialEq, Eq, Structural)]
pub enum EndianType {
    Little,
    Big,
}

/// Instruction-set family an engine is opened for.
#[derive(Debug, Clone, Copy, PartialEq, Eq, Structural)]
pub enum InstructionSet {
    /// x86, covering both the 32-bit and the 64-bit mode.
    X86,
    /// 32-bit ARM.
    Arm,
    /// 64-bit ARM, a family of its own rather than a mode of `Arm`.
    Arm64,
}

/// Mode an engine is opened in.
#[derive(Debug, Clone, Copy, PartialEq, Eq, Structural)]
pub enum Mode {
    /// 32-bit x86.
    Bits32,
    /// 64-bit x86.
    Bits64,
    /// 32-bit ARM encoding.
    Arm,
    /// The engines' default little-endian mode, the only one the 64-bit ARM
    /// family is opened in.
    LittleEndian,
}

/// What an engine needs to be opened: the family and the mode.
#[derive(Debug, Clone, Copy, PartialEq, Eq, Structural)]
pub struct BackendConfig {
    pub instruction_set: InstructionSet,
    pub mode: Mode,
}

impl Architecture {
    /// Whether encode and decode are implemented for this architecture.
    pub open spec fn is_implemented(self) -> bool {
        self == Architecture::X86 || self == Architecture::X86_64 || self == Architecture::ARM
            || self == Architecture::ARM64
    }

    /// The mapping table: the configuration of each implemented architecture.
    /// The value on an architecture that is not implemented is left open.
    ///
    /// 64-bit ARM does not share the mode of 32-bit ARM: an engine opened for
    /// the 64-bit family takes the default little-endian mode and no other.
    pub open spec fn backend_config(self) -> BackendConfig
        recommends
            self.is_implemented(),
    {
        match self {
            Architecture::X86 => BackendConfig {
                instruction_set: InstructionSet::X86,
                mode: Mode::Bits32,
            },
            Architecture::X86_64 => BackendConfig {
                instruction_set: InstructionSet::X86,
                mode: Mode::Bits64,
            },
            Architecture::ARM => BackendConfig {
                instruction_set: InstructionSet::Arm,
                mode: Mode::Arm,
            },
            Architecture::ARM64 => BackendConfig {
                instruction_set: InstructionSet::Arm64,
                mode: Mode::LittleEndian,
            },
            _ => arbitrary(),
        }
    }
}

/// Capability query: `true` exactly for the architectures that `resolve`,
/// and with it encode and decode, accept.
pub fn is_supported(arch: Architecture) -> (supported: bool)
    ensures
        supported == arch.is_implemented(),
{
    match arch {
        Architecture::X86 | Architecture::X86_64 | Architecture::ARM | Architecture::ARM64 => true,
        Architecture::MIPS | Architecture::PPC | Architecture::SPARC => false,
    }
}

/// Resolves an implemented architecture to its backend configuration. The
/// result depends on `arch` alone.
pub fn resolve(arch: Architecture) -> (config: BackendConfig)
    requires
        arch.is_implemented(),
    ensures
        config == arch.backend_config(),
{
    match arch {
        Architecture::X86 => BackendConfig {
            instruction_set: InstructionSet::X86,
            mode: Mode::Bits32,
        },
        Architecture::X86_64 => BackendConfig {
            instruction_set: InstructionSet::X86,
            mode: Mode::Bits64,
        },
        Architecture::ARM => BackendConfig { instruction_set: InstructionSet::Arm, mode: Mode::Arm },
        _ => BackendConfig { instruction_set: InstructionSet::Arm64, mode: Mode::LittleEndian },
    }
}

/// MIPS, PowerPC and SPARC, and no others, are not implemented. `resolve` and
/// the dispatchers require an implemented architecture, so no call of them
/// can be made for these three: such a request ends in the caller, before any
/// engine is opened, and never comes back as a failure value.
pub proof fn lemma_unimplemented_architectures(arch: Architecture)
    ensures
        !arch.is_implemented() <==> (arch == Architecture::MIPS || arch == Architecture::PPC
            || arch == Architecture::SPARC),
{
}

/// Two implemented architectures that resolve to one configuration are the
/// same architecture: each has a configuration of its own.
pub proof fn lemma_configuration_identifies_architecture(first: Architecture, second: Architecture)
    requires
        first.is_implemented(),
        second.is_implemented(),
        first.backend_config() == second.backend_config(),
    ensures
        first == second,
{
}

/// The two x86 architectures share the family and differ in the mode alone,
/// while 64-bit ARM is a family of its own beside 32-bit ARM.
pub proof fn lemma_families()
    ensures
        Architecture::X86.backend_config().instruction_set
            == Architecture::X86_64.backend_config().instruction_set,
        Architecture::X86.backend_config().mode != Architecture::X86_64.backend_config().mode,
        Architecture::ARM.backend_config().instruction_set
            != Architecture::ARM64.backend_config().instruction_set,
        Architecture::ARM.backend_config().mode != Architecture::ARM64.backend_config().mode,
{
}

} // verus!
