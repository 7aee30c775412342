use asm_dispatch::decode::covers_input;
use asm_dispatch::text::with_prefix;
use asm_dispatch::{
    decode_result, disassemble, render_all, render_instruction, Architecture, DecodedInstruction,
    DecoderReport, DispatchError,
};

const IMPLEMENTED: [Architecture; 4] =
    [Architecture::X86, Architecture::X86_64, Architecture::ARM, Architecture::ARM64];

fn instruction(size: usize, mnemonic: Option<&str>, operands: Option<&str>) -> DecodedInstruction {
    DecodedInstruction {
        size,
        mnemonic: mnemonic.map(String::from),
        operands: operands.map(String::from),
    }
}

fn incomplete() -> DispatchError {
    DispatchError::OperationFailure(
        "Disassembly error: the bytes do not decode to whole instructions".to_string(),
    )
}

#[test]
fn an_instruction_without_operands_ends_in_one_space() {
    assert_eq!(render_instruction(&instruction(1, Some("nop"), None)), "nop ");
    assert_eq!(render_instruction(&instruction(1, Some("ret"), Some(""))), "ret ");
}

#[test]
fn mnemonic_and_operands_are_joined_by_one_space() {
    assert_eq!(render_instruction(&instruction(5, Some("mov"), Some("eax, 1"))), "mov eax, 1");
}

#[test]
fn a_missing_mnemonic_is_rendered_as_empty() {
    assert_eq!(render_instruction(&instruction(2, None, Some("r0, r1"))), " r0, r1");
    assert_eq!(render_instruction(&instruction(2, None, None)), " ");
}

#[test]
fn nothing_decoded_from_nothing_is_an_empty_success() {
    assert_eq!(decode_result(DecoderReport::Decoded(vec![]), 0), Ok(vec![]));
}

#[test]
fn covering_instructions_give_one_string_each_in_order() {
    let decoded = vec![
        instruction(1, Some("push"), Some("ebp")),
        instruction(2, Some("mov"), Some("ebp, esp")),
        instruction(1, Some("ret"), None),
    ];
    assert_eq!(
        decode_result(DecoderReport::Decoded(decoded), 4),
        Ok(vec!["push ebp".to_string(), "mov ebp, esp".to_string(), "ret ".to_string()])
    );
}

#[test]
fn instructions_that_stop_short_fail_the_whole_request() {
    let decoded = vec![instruction(1, Some("nop"), None)];
    assert_eq!(decode_result(DecoderReport::Decoded(decoded), 3), Err(incomplete()));
    assert_eq!(decode_result(DecoderReport::Decoded(vec![]), 1), Err(incomplete()));
}

#[test]
fn instructions_that_reach_beyond_the_input_fail_the_whole_request() {
    let decoded = vec![instruction(4, Some("bx"), Some("lr")), instruction(4, Some("nop"), None)];
    assert_eq!(decode_result(DecoderReport::Decoded(decoded.clone()), 7), Err(incomplete()));
    assert_eq!(decode_result(DecoderReport::Decoded(decoded.clone()), 0), Err(incomplete()));
    assert_eq!(
        decode_result(DecoderReport::Decoded(decoded), 8),
        Ok(vec!["bx lr".to_string(), "nop ".to_string()])
    );
}

#[test]
fn sizes_that_would_overflow_are_not_a_cover() {
    let decoded = vec![
        instruction(usize::MAX, Some("a"), None),
        instruction(usize::MAX, Some("b"), None),
        instruction(2, Some("c"), None),
    ];
    assert!(!covers_input(&decoded, 0));
    assert!(!covers_input(&decoded, usize::MAX));
    assert_eq!(decode_result(DecoderReport::Decoded(decoded), usize::MAX), Err(incomplete()));
}

#[test]
fn covers_input_compares_the_sum_of_the_sizes() {
    let decoded = vec![instruction(3, None, None), instruction(0, None, None), instruction(2, None, None)];
    assert!(covers_input(&decoded, 5));
    assert!(!covers_input(&decoded, 4));
    assert!(!covers_input(&decoded, 6));
    assert!(covers_input(&[], 0));
    assert!(!covers_input(&[], 1));
}

#[test]
fn render_all_keeps_count_and_order() {
    let decoded = vec![
        instruction(4, Some("mov"), Some("r0, #1")),
        instruction(4, Some("bx"), Some("lr")),
        instruction(4, Some("nop"), None),
    ];
    assert_eq!(render_all(&decoded), vec!["mov r0, #1", "bx lr", "nop "]);
    assert_eq!(render_all(&[]), Vec::<String>::new());
}

#[test]
fn an_engine_that_did_not_open_is_a_construction_failure() {
    let report = DecoderReport::ConstructionFailed("UnsupportedArch".to_string());
    let failure = decode_result(report, 4).unwrap_err();
    assert!(failure.is_construction_failure());
    assert_eq!(
        failure,
        DispatchError::CapabilityConstructionFailure(
            "Failed to create Capstone object: UnsupportedArch".to_string()
        )
    );
}

#[test]
fn an_engine_error_is_an_operation_failure() {
    let report = DecoderReport::OperationFailed("OutOfMemory".to_string());
    assert_eq!(
        decode_result(report, 0),
        Err(DispatchError::OperationFailure("Disassembly error: OutOfMemory".to_string()))
    );
}

#[test]
fn with_prefix_puts_the_prefix_first() {
    assert_eq!(with_prefix("Disassembly error: ", "OutOfMemory"), "Disassembly error: OutOfMemory");
    assert_eq!(with_prefix("", ""), "");
}

#[test]
fn no_bytes_decode_to_no_strings_for_every_implemented_architecture() {
    for arch in IMPLEMENTED {
        assert_eq!(disassemble(vec![], arch, 0), Ok(vec![]));
        assert_eq!(disassemble(vec![], arch, 0x4000_0000), Ok(vec![]));
    }
}

#[test]
fn x86_bytes_decode_in_address_order() {
    let bytes = vec![0x55, 0xb8, 0x01, 0x00, 0x00, 0x00, 0x90, 0xc3];
    assert_eq!(
        disassemble(bytes, Architecture::X86, 0x1000),
        Ok(vec![
            "push ebp".to_string(),
            "mov eax, 1".to_string(),
            "nop ".to_string(),
            "ret ".to_string()
        ])
    );
}

#[test]
fn x86_64_bytes_decode_in_the_64_bit_mode() {
    let bytes = vec![0x55, 0x48, 0x89, 0xd8, 0xc3];
    assert_eq!(
        disassemble(bytes, Architecture::X86_64, 0),
        Ok(vec!["push rbp".to_string(), "mov rax, rbx".to_string(), "ret ".to_string()])
    );
}

#[test]
fn the_mode_changes_what_the_same_bytes_mean() {
    let bytes = vec![0x48, 0x89, 0xd8];
    assert_eq!(
        disassemble(bytes.clone(), Architecture::X86, 0),
        Ok(vec!["dec eax".to_string(), "mov eax, ebx".to_string()])
    );
    assert_eq!(
        disassemble(bytes, Architecture::X86_64, 0),
        Ok(vec!["mov rax, rbx".to_string()])
    );
}

#[test]
fn arm_bytes_decode() {
    let bytes = vec![0x01, 0x00, 0xa0, 0xe3, 0x1e, 0xff, 0x2f, 0xe1];
    assert_eq!(
        disassemble(bytes, Architecture::ARM, 0x8000),
        Ok(vec!["mov r0, #1".to_string(), "bx lr".to_string()])
    );
}

#[test]
fn arm64_bytes_decode() {
    let bytes = vec![0x1f, 0x20, 0x03, 0xd5, 0xc0, 0x03, 0x5f, 0xd6];
    assert_eq!(
        disassemble(bytes, Architecture::ARM64, 0),
        Ok(vec!["nop ".to_string(), "ret ".to_string()])
    );
}

#[test]
fn the_load_address_reaches_relative_operands() {
    let jump = vec![0xeb, 0x00];
    assert_eq!(
        disassemble(jump.clone(), Architecture::X86, 0x1000),
        Ok(vec!["jmp 0x1002".to_string()])
    );
    assert_eq!(
        disassemble(jump, Architecture::X86, 0x2000),
        Ok(vec!["jmp 0x2002".to_string()])
    );
}

#[test]
fn decoding_the_same_request_twice_gives_the_same_strings() {
    let bytes = vec![0x55, 0x48, 0x89, 0xd8, 0xc3];
    assert_eq!(
        disassemble(bytes.clone(), Architecture::X86_64, 0x10),
        disassemble(bytes, Architecture::X86_64, 0x10)
    );
}

#[test]
fn a_truncated_trailing_instruction_fails_the_whole_request() {
    let bytes = vec![0x90, 0xb8, 0x01, 0x00];
    assert_eq!(disassemble(bytes, Architecture::X86, 0), Err(incomplete()));
}

#[test]
fn a_byte_that_starts_no_instruction_fails_the_whole_request() {
    let bytes = vec![0x90, 0x06, 0x90];
    assert_eq!(disassemble(bytes, Architecture::X86_64, 0), Err(incomplete()));
}

#[test]
fn bytes_shorter_than_an_instruction_fail() {
    assert_eq!(disassemble(vec![0x01, 0x00, 0xa0], Architecture::ARM, 0), Err(incomplete()));
    assert_eq!(disassemble(vec![0xc0, 0x03, 0x5f], Architecture::ARM64, 0), Err(incomplete()));
    assert_eq!(disassemble(vec![0xb8], Architecture::X86_64, 0), Err(incomplete()));
}

#[test]
fn a_failed_decoding_is_an_operation_failure_with_a_message() {
    let failure = disassemble(vec![0xb8, 0x01], Architecture::X86, 0).unwrap_err();
    assert!(!failure.is_construction_failure());
    assert!(failure.message().starts_with("Disassembly error: "));
}

#[test]
fn every_string_starts_with_its_mnemonic_and_a_space() {
    let decoded = vec![
        instruction(1, Some("push"), Some("rbp")),
        instruction(3, Some("mov"), Some("rax, rbx")),
        instruction(1, Some("ret"), None),
    ];
    let lines = decode_result(DecoderReport::Decoded(decoded.clone()), 5).unwrap();
    assert_eq!(lines.len(), decoded.len());
    for (line, instruction) in lines.iter().zip(decoded.iter()) {
        let head = format!("{} ", instruction.mnemonic.as_deref().unwrap_or(""));
        assert!(line.starts_with(&head));
    }
    assert_eq!(lines, vec!["push rbp", "mov rax, rbx", "ret "]);
}
