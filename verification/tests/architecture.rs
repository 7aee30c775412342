use asm_dispatch::{
    greet, is_supported, resolve, Architecture, BackendConfig, EndianType, InstructionSet, Mode,
};

#[test]
fn x86_resolves_to_the_32_bit_mode() {
    assert_eq!(
        resolve(Architecture::X86),
        BackendConfig { instruction_set: InstructionSet::X86, mode: Mode::Bits32 }
    );
}

#[test]
fn x86_64_resolves_to_the_64_bit_mode() {
    assert_eq!(
        resolve(Architecture::X86_64),
        BackendConfig { instruction_set: InstructionSet::X86, mode: Mode::Bits64 }
    );
}

#[test]
fn arm_resolves_to_the_arm_mode() {
    assert_eq!(
        resolve(Architecture::ARM),
        BackendConfig { instruction_set: InstructionSet::Arm, mode: Mode::Arm }
    );
}

#[test]
fn arm64_resolves_to_a_family_and_mode_of_its_own() {
    assert_eq!(
        resolve(Architecture::ARM64),
        BackendConfig { instruction_set: InstructionSet::Arm64, mode: Mode::LittleEndian }
    );
}

#[test]
fn resolving_twice_gives_the_same_configuration() {
    for arch in [Architecture::X86, Architecture::X86_64, Architecture::ARM, Architecture::ARM64] {
        assert_eq!(resolve(arch), resolve(arch));
    }
}

#[test]
fn implemented_architectures_resolve_to_distinct_configurations() {
    let all = [Architecture::X86, Architecture::X86_64, Architecture::ARM, Architecture::ARM64];
    for (i, first) in all.iter().enumerate() {
        for (j, second) in all.iter().enumerate() {
            assert_eq!(resolve(*first) == resolve(*second), i == j);
        }
    }
}

#[test]
fn the_two_x86_architectures_differ_in_mode_only() {
    let narrow = resolve(Architecture::X86);
    let wide = resolve(Architecture::X86_64);
    assert_eq!(narrow.instruction_set, wide.instruction_set);
    assert_ne!(narrow.mode, wide.mode);
}

#[test]
fn four_architectures_are_supported() {
    assert!(is_supported(Architecture::X86));
    assert!(is_supported(Architecture::X86_64));
    assert!(is_supported(Architecture::ARM));
    assert!(is_supported(Architecture::ARM64));
}

#[test]
fn three_architectures_are_not_supported() {
    assert!(!is_supported(Architecture::MIPS));
    assert!(!is_supported(Architecture::PPC));
    assert!(!is_supported(Architecture::SPARC));
}

#[test]
fn endian_type_has_two_distinct_values() {
    assert_ne!(EndianType::Little, EndianType::Big);
    assert_eq!(format!("{:?}", EndianType::Little), "Little");
    assert_eq!(format!("{:?}", EndianType::Big), "Big");
}

#[test]
fn architecture_tags_print_as_declared() {
    assert_eq!(format!("{:?}", Architecture::X86_64), "X86_64");
    assert_eq!(format!("{:?}", Architecture::ARM64), "ARM64");
    assert_eq!(format!("{:?}", Architecture::SPARC), "SPARC");
}

#[test]
fn greet_wraps_the_name() {
    assert_eq!(greet("Ada"), "Hello, Ada! You've been greeted from Rust!");
}

#[test]
fn greet_takes_an_empty_name() {
    assert_eq!(greet(""), "Hello, ! You've been greeted from Rust!");
}

#[test]
fn the_two_arm_architectures_differ_in_family_and_mode() {
    let narrow = resolve(Architecture::ARM);
    let wide = resolve(Architecture::ARM64);
    assert_ne!(narrow.instruction_set, wide.instruction_set);
    assert_ne!(narrow.mode, wide.mode);
}
