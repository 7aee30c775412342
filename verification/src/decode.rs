//! The decode dispatcher: bytes in, one display string per instruction out.

use crate::architecture::{resolve, Architecture};
use crate::decoder_engine::{decode_all, decoder_error_text, open_decoder};
use crate::failure::{DispatchError, FailureView};
use crate::text::{lemma_concat_starts_with, starts_with, with_prefix};
use vstd::prelude::*;
use vstd::string::StringExecFns;

verus! {

/// One instruction as the engine hands it out.
#[derive(Debug, Clone, PartialEq, Eq)]
pub struct DecodedInstruction {
    /// Length of the instruction in bytes.
    pub size: usize,
    /// The mnemonic, where the engine has one.
    pub mnemonic: Option<String>,
    /// The operand string, where the engine has one.
    pub operands: Option<String>,
}

/// A `DecodedInstruction` with its texts as sequences of characters.
pub struct InstructionText {
    pub size: nat,
    pub mnemonic: Option<Seq<char>>,
    pub operands: Option<Seq<char>>,
}

impl View for DecodedInstruction {
    type V = InstructionText;

    open spec fn view(&self) -> InstructionText {
        InstructionText {
            size: self.size as nat,
            mnemonic: match self.mnemonic {
                Some(text) => Some(text@),
                None => None,
            },
            operands: match self.operands {
                Some(text) => Some(text@),
                None => None,
            },
        }
    }
}

/// What the disassembler engine did with one request.
#[derive(Debug, Clone, PartialEq, Eq)]
pub enum DecoderReport {
    /// No engine could be opened; the text is the engine's account of why.
    ConstructionFailed(String),
    /// The engine opened and reported an error; the text is its account.
    OperationFailed(String),
    /// The engine handed out these instructions, in its order.
    Decoded(Vec<DecodedInstruction>),
}

/// A `DecoderReport` with its contents as sequences.
pub enum DecoderReportView {
    ConstructionFailed(Seq<char>),
    OperationFailed(Seq<char>),
    Decoded(Seq<InstructionText>),
}

impl View for DecoderReport {
    type V = DecoderReportView;

    open spec fn view(&self) -> DecoderReportView {
        match self {
            DecoderReport::ConstructionFailed(detail) => DecoderReportView::ConstructionFailed(
                detail@,
            ),
            DecoderReport::OperationFailed(detail) => DecoderReportView::OperationFailed(detail@),
            DecoderReport::Decoded(list) => DecoderReportView::Decoded(instruction_texts(list@)),
        }
    }
}

/// A piece of text, or the empty text where there is none.
pub open spec fn text_or_empty(piece: Option<Seq<char>>) -> Seq<char> {
    match piece {
        Some(text) => text,
        None => Seq::empty(),
    }
}

impl InstructionText {
    /// The display string: mnemonic, one space, operand string.
    pub open spec fn display_text(self) -> Seq<char> {
        text_or_empty(self.mnemonic) + seq![' '] + text_or_empty(self.operands)
    }
}

/// The views of a list of instructions, in order.
pub open spec fn instruction_texts(list: Seq<DecodedInstruction>) -> Seq<InstructionText> {
    Seq::new(list.len(), |i: int| list[i]@)
}

/// The views of a list of strings, in order.
pub open spec fn line_texts(lines: Seq<String>) -> Seq<Seq<char>> {
    Seq::new(lines.len(), |i: int| lines[i]@)
}

/// The display strings of a list of instructions, one for one and in order.
pub open spec fn display_texts(instructions: Seq<InstructionText>) -> Seq<Seq<char>> {
    Seq::new(instructions.len(), |i: int| instructions[i].display_text())
}

/// How many bytes a list of instructions covers.
pub open spec fn covered_len(instructions: Seq<InstructionText>) -> nat
    decreases instructions.len(),
{
    if instructions.len() == 0 {
        0
    } else {
        covered_len(instructions.drop_last()) + instructions.last().size
    }
}

/// Start of the message when the disassembler engine did not open.
pub open spec fn decoder_construction_prefix() -> Seq<char> {
    "Failed to create Capstone object: "@
}

/// Start of the message of every failed decoding.
pub open spec fn disassembly_error_prefix() -> Seq<char> {
    "Disassembly error: "@
}

/// Message of the failure that stands for bytes left undecoded.
pub open spec fn incomplete_decoding_message() -> Seq<char> {
    "Disassembly error: the bytes do not decode to whole instructions"@
}

/// What a request for `input_len` bytes comes to, given the engine's report.
/// Instructions that cover the input to the last byte give their display
/// strings; instructions that do not, and every report of failure, fail the
/// whole request with a failure of the kind that matches the step.
pub open spec fn decode_outcome(report: DecoderReportView, input_len: nat) -> Result<
    Seq<Seq<char>>,
    FailureView,
> {
    match report {
        DecoderReportView::ConstructionFailed(detail) => Err(
            FailureView::CapabilityConstructionFailure(decoder_construction_prefix() + detail),
        ),
        DecoderReportView::OperationFailed(detail) => Err(
            FailureView::OperationFailure(disassembly_error_prefix() + detail),
        ),
        DecoderReportView::Decoded(instructions) => if covered_len(instructions) == input_len {
            Ok(display_texts(instructions))
        } else {
            Err(FailureView::OperationFailure(incomplete_decoding_message()))
        },
    }
}

/// A result of the dispatcher with its strings as sequences of characters.
pub open spec fn lines_view(result: Result<Vec<String>, DispatchError>) -> Result<
    Seq<Seq<char>>,
    FailureView,
> {
    match result {
        Ok(lines) => Ok(line_texts(lines@)),
        Err(failure) => Err(failure@),
    }
}

/// Whether the message of a failed decoding starts with the words that go
/// with its kind.
pub open spec fn names_its_step(failure: FailureView) -> bool {
    match failure {
        FailureView::CapabilityConstructionFailure(message) => starts_with(
            message,
            decoder_construction_prefix(),
        ),
        FailureView::OperationFailure(message) => starts_with(message, disassembly_error_prefix()),
    }
}

/// The bytes covered by the first `shorter` instructions are covered by the
/// first `longer` ones too.
proof fn lemma_covered_len_grows(instructions: Seq<InstructionText>, shorter: int, longer: int)
    requires
        0 <= shorter <= longer <= instructions.len(),
    ensures
        covered_len(instructions.take(shorter)) <= covered_len(instructions.take(longer)),
    decreases longer - shorter,
{
    if shorter < longer {
        lemma_covered_len_grows(instructions, shorter, longer - 1);
        assert(instructions.take(longer).drop_last() =~= instructions.take(longer - 1));
    }
}

/// Renders one instruction as mnemonic, one space, operand string; a piece
/// that the engine did not give is rendered as the empty text.
pub fn render_instruction(instruction: &DecodedInstruction) -> (line: String)
    ensures
        line@ == instruction@.display_text(),
{
    proof {
        reveal_strlit("");
        reveal_strlit(" ");
    }
    let mnemonic: &str = match &instruction.mnemonic {
        Some(text) => text.as_str(),
        None => "",
    };
    let operands: &str = match &instruction.operands {
        Some(text) => text.as_str(),
        None => "",
    };
    let mut line = String::from_str(mnemonic);
    line.append(" ");
    line.append(operands);
    assert(line@ =~= instruction@.display_text());
    line
}

/// Whether `decoded` covers exactly `input_len` bytes.
pub fn covers_input(decoded: &[DecodedInstruction], input_len: usize) -> (complete: bool)
    ensures
        complete == (covered_len(instruction_texts(decoded@)) == input_len),
{
    let ghost all = instruction_texts(decoded@);
    let mut remaining: usize = input_len;
    let mut i: usize = 0;
    assert(all.take(0) =~= Seq::<InstructionText>::empty());
    while i < decoded.len()
        invariant
            i <= decoded.len(),
            all == instruction_texts(decoded@),
            covered_len(all.take(i as int)) + remaining == input_len,
        decreases decoded.len() - i,
    {
        let size: usize = decoded[i].size;
        proof {
            assert(all.take(i + 1).drop_last() =~= all.take(i as int));
            assert(all.take(i + 1).last() == decoded@[i as int]@);
        }
        if size > remaining {
            proof {
                lemma_covered_len_grows(all, i + 1, all.len() as int);
                assert(all.take(all.len() as int) =~= all);
            }
            return false;
        }
        remaining = remaining - size;
        i = i + 1;
    }
    assert(all.take(i as int) =~= all);
    remaining == 0
}

/// Renders every instruction of `decoded`, one string each and in order.
pub fn render_all(decoded: &[DecodedInstruction]) -> (lines: Vec<String>)
    ensures
        line_texts(lines@) == display_texts(instruction_texts(decoded@)),
{
    let mut lines: Vec<String> = Vec::new();
    let mut i: usize = 0;
    while i < decoded.len()
        invariant
            i <= decoded.len(),
            lines@.len() == i,
            forall|k: int| 0 <= k < i ==> (#[trigger] lines@[k])@ == decoded@[k]@.display_text(),
        decreases decoded.len() - i,
    {
        lines.push(render_instruction(&decoded[i]));
        i = i + 1;
    }
    assert(line_texts(lines@) =~= display_texts(instruction_texts(decoded@)));
    lines
}

/// Normalizes the engine's report for a request of `input_len` bytes.
///
/// Instructions that stop short of the last byte, or reach beyond it, fail
/// the whole request: no partial result is returned. Otherwise each
/// instruction gives one display string, in the engine's order. A report of
/// failure becomes the failure of the matching kind, with the engine's
/// account behind a fixed prefix.
pub fn decode_result(report: DecoderReport, input_len: usize) -> (result: Result<
    Vec<String>,
    DispatchError,
>)
    ensures
        lines_view(result) == decode_outcome(report@, input_len as nat),
{
    match report {
        DecoderReport::ConstructionFailed(detail) => Err(
            DispatchError::CapabilityConstructionFailure(
                with_prefix("Failed to create Capstone object: ", detail.as_str()),
            ),
        ),
        DecoderReport::OperationFailed(detail) => Err(
            DispatchError::OperationFailure(with_prefix("Disassembly error: ", detail.as_str())),
        ),
        DecoderReport::Decoded(decoded) => {
            if covers_input(decoded.as_slice(), input_len) {
                Ok(render_all(decoded.as_slice()))
            } else {
                Err(
                    DispatchError::OperationFailure(
                        String::from_str(
                            "Disassembly error: the bytes do not decode to whole instructions",
                        ),
                    ),
                )
            }
        },
    }
}

/// Decodes `bytes`, loaded at `addr`, for an implemented architecture: one
/// display string per instruction, in the order in which the engine decoded
/// them, which is the order of their addresses.
///
/// Opens a disassembler engine for this call alone and asks it once. The
/// request fails as a whole when the engine does not open, when it reports an
/// error, and when it stops before the last byte.
///
/// Whether the engine opens, and which instructions and texts it hands out,
/// is the engine's to decide. What is decided here is what becomes of its
/// report: the result is the outcome of some report, by `decode_outcome`, for
/// as many bytes as came in.
pub fn disassemble(bytes: Vec<u8>, arch: Architecture, addr: u64) -> (result: Result<
    Vec<String>,
    DispatchError,
>)
    requires
        arch.is_implemented(),
    ensures
        exists|report: DecoderReportView|
            lines_view(result) == decode_outcome(report, bytes@.len()),
        result is Ok && bytes@.len() == 0 ==> result->Ok_0@.len() == 0,
        result matches Err(failure) ==> names_its_step(failure@),
{
    let config = resolve(arch);
    let report = match open_decoder(config) {
        Err(error) => DecoderReport::ConstructionFailed(decoder_error_text(&error)),
        Ok(engine) => match decode_all(&engine, bytes.as_slice(), addr) {
            Err(error) => DecoderReport::OperationFailed(decoder_error_text(&error)),
            Ok(decoded) => DecoderReport::Decoded(decoded),
        },
    };
    proof {
        lemma_failures_name_their_step(report@, bytes@.len());
        if let DecoderReportView::Decoded(instructions) = report@ {
            assert(display_texts(instructions).len() == instructions.len());
        }
    }
    decode_result(report, bytes.len())
}

/// Every failure of a decode request says in its first words which step
/// failed, whatever the engine's account was.
pub proof fn lemma_failures_name_their_step(report: DecoderReportView, input_len: nat)
    ensures
        decode_outcome(report, input_len) matches Err(failure) ==> names_its_step(failure),
{
    match report {
        DecoderReportView::ConstructionFailed(detail) => {
            lemma_concat_starts_with(decoder_construction_prefix(), detail);
        },
        DecoderReportView::OperationFailed(detail) => {
            lemma_concat_starts_with(disassembly_error_prefix(), detail);
        },
        DecoderReportView::Decoded(_) => {
            reveal_strlit("Disassembly error: the bytes do not decode to whole instructions");
            reveal_strlit("Disassembly error: ");
            assert(incomplete_decoding_message().subrange(
                0,
                disassembly_error_prefix().len() as int,
            ) =~= disassembly_error_prefix());
        },
    }
}

/// No failure of a decode request has an empty message.
pub proof fn lemma_failures_have_a_message(report: DecoderReportView, input_len: nat)
    ensures
        decode_outcome(report, input_len) matches Err(failure) ==> failure.message().len() > 0,
{
    reveal_strlit("Failed to create Capstone object: ");
    reveal_strlit("Disassembly error: ");
    reveal_strlit("Disassembly error: the bytes do not decode to whole instructions");
}

/// From no bytes and no instructions comes the empty sequence of display
/// strings, and no failure.
pub proof fn lemma_empty_input_decodes_to_nothing()
    ensures
        decode_outcome(DecoderReportView::Decoded(Seq::empty()), 0) == Ok::<
            Seq<Seq<char>>,
            FailureView,
        >(Seq::empty()),
{
    assert(display_texts(Seq::empty()) =~= Seq::<Seq<char>>::empty());
}

/// A successful request has one display string per instruction, in the
/// engine's order: nothing is merged, dropped or moved.
pub proof fn lemma_one_string_per_instruction(
    instructions: Seq<InstructionText>,
    input_len: nat,
    lines: Seq<Seq<char>>,
)
    requires
        decode_outcome(DecoderReportView::Decoded(instructions), input_len) == Ok::<
            Seq<Seq<char>>,
            FailureView,
        >(lines),
    ensures
        lines.len() == instructions.len(),
        forall|i: int|
            0 <= i < lines.len() ==> lines[i] == #[trigger] instructions[i].display_text(),
{
}

/// In a successful request every display string starts with the mnemonic of
/// the instruction at the same place, followed by one space: the strings
/// name the decoded instructions, as many as there are and in their order.
pub proof fn lemma_each_string_starts_with_its_mnemonic(
    instructions: Seq<InstructionText>,
    input_len: nat,
    lines: Seq<Seq<char>>,
)
    requires
        decode_outcome(DecoderReportView::Decoded(instructions), input_len) == Ok::<
            Seq<Seq<char>>,
            FailureView,
        >(lines),
    ensures
        lines.len() == instructions.len(),
        forall|i: int|
            0 <= i < lines.len() ==> starts_with(
                #[trigger] lines[i],
                text_or_empty(instructions[i].mnemonic) + seq![' '],
            ),
{
    assert forall|i: int| 0 <= i < lines.len() implies starts_with(
        #[trigger] lines[i],
        text_or_empty(instructions[i].mnemonic) + seq![' '],
    ) by {
        let head = text_or_empty(instructions[i].mnemonic) + seq![' '];
        assert(lines[i] == instructions[i].display_text());
        lemma_concat_starts_with(head, text_or_empty(instructions[i].operands));
    }
}

/// No partial result: instructions that do not cover the input to the last
/// byte fail the request as an operation failure.
pub proof fn lemma_uncovered_input_fails(instructions: Seq<InstructionText>, input_len: nat)
    requires
        covered_len(instructions) != input_len,
    ensures
        decode_outcome(DecoderReportView::Decoded(instructions), input_len) == Err::<
            Seq<Seq<char>>,
            FailureView,
        >(FailureView::OperationFailure(incomplete_decoding_message())),
{
}

/// An instruction without an operand string is displayed as its mnemonic and
/// one space, and nothing after it.
pub proof fn lemma_display_without_operands(instruction: InstructionText)
    requires
        instruction.mnemonic is Some,
        instruction.operands is None,
    ensures
        instruction.display_text() == instruction.mnemonic->Some_0 + seq![' '],
        instruction.display_text().len() == instruction.mnemonic->Some_0.len() + 1,
        instruction.display_text().last() == ' ',
{
    assert(instruction.display_text() =~= instruction.mnemonic->Some_0 + seq![' ']);
}

/// In every display string the mnemonic comes first, then exactly one space,
/// then the operand string.
pub proof fn lemma_display_layout(instruction: InstructionText)
    ensures
        instruction.display_text().len() == text_or_empty(instruction.mnemonic).len() + 1
            + text_or_empty(instruction.operands).len(),
        instruction.display_text().subrange(0, text_or_empty(instruction.mnemonic).len() as int)
            == text_or_empty(instruction.mnemonic),
        instruction.display_text()[text_or_empty(instruction.mnemonic).len() as int] == ' ',
        instruction.display_text().skip(text_or_empty(instruction.mnemonic).len() as int + 1)
            == text_or_empty(instruction.operands),
{
    let mnemonic = text_or_empty(instruction.mnemonic);
    let operands = text_or_empty(instruction.operands);
    assert(instruction.display_text().subrange(0, mnemonic.len() as int) =~= mnemonic);
    assert(instruction.display_text().skip(mnemonic.len() as int + 1) =~= operands);
}

} // verus!
