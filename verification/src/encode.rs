//! The encode dispatcher: what is decided before the assembler engine is
//! asked, and what is made of its answer.
//!
//! The engine itself is called by the program around this crate, which hands
//! over the configuration resolved here and reports back in an
//! `EncoderReport`.

use crate::architecture::{resolve, Architecture, BackendConfig};
use crate::failure::{DispatchError, FailureView};
use crate::text::{contains_nul, has_nul, with_prefix};
use vstd::prelude::*;
use vstd::string::StringExecFns;

verus! {

/// What the assembler engine did with one request.
#[derive(Debug, Clone, PartialEq, Eq)]
pub enum EncoderReport {
    /// No engine could be opened; the text is the engine's account of why.
    ConstructionFailed(String),
    /// The engine opened and rejected the source; the text is its account.
    OperationFailed(String),
    /// The engine emitted these bytes, in encounter order.
    Encoded(Vec<u8>),
}

/// An `EncoderReport` with its contents as sequences.
pub enum EncoderReportView {
    ConstructionFailed(Seq<char>),
    OperationFailed(Seq<char>),
    Encoded(Seq<u8>),
}

impl View for EncoderReport {
    type V = EncoderReportView;

    open spec fn view(&self) -> EncoderReportView {
        match self {
            EncoderReport::ConstructionFailed(detail) => EncoderReportView::ConstructionFailed(
                detail@,
            ),
            EncoderReport::OperationFailed(detail) => EncoderReportView::OperationFailed(detail@),
            EncoderReport::Encoded(bytes) => EncoderReportView::Encoded(bytes@),
        }
    }
}

/// Start of the message when the assembler engine did not open.
pub open spec fn encoder_construction_prefix() -> Seq<char> {
    "Failed to create Keystone instance: "@
}

/// Start of the message of every failed encoding.
pub open spec fn assembly_error_prefix() -> Seq<char> {
    "Assembly error: "@
}

/// Message of the failure that stands for a source the engine cannot be
/// handed.
pub open spec fn nul_in_source_message() -> Seq<char> {
    "Assembly error: the source text holds a NUL character"@
}

/// What the engine is opened with for `source` and `arch`, or the failure
/// that ends the request before any engine is opened.
pub open spec fn encode_request(source: Seq<char>, arch: Architecture) -> Result<
    BackendConfig,
    FailureView,
> {
    if has_nul(source) {
        Err(FailureView::OperationFailure(nul_in_source_message()))
    } else {
        Ok(arch.backend_config())
    }
}

/// What a request comes to, given the engine's report: the emitted bytes as
/// they are, or a failure of the kind that matches the step that failed,
/// with the engine's account behind a fixed prefix.
pub open spec fn encode_outcome(report: EncoderReportView) -> Result<Seq<u8>, FailureView> {
    match report {
        EncoderReportView::ConstructionFailed(detail) => Err(
            FailureView::CapabilityConstructionFailure(encoder_construction_prefix() + detail),
        ),
        EncoderReportView::OperationFailed(detail) => Err(
            FailureView::OperationFailure(assembly_error_prefix() + detail),
        ),
        EncoderReportView::Encoded(bytes) => Ok(bytes),
    }
}

/// A configuration or the failure in its place, the failure by its view.
pub open spec fn request_view(request: Result<BackendConfig, DispatchError>) -> Result<
    BackendConfig,
    FailureView,
> {
    match request {
        Ok(config) => Ok(config),
        Err(failure) => Err(failure@),
    }
}

/// A result of the dispatcher with its bytes as a sequence.
pub open spec fn bytes_view(result: Result<Vec<u8>, DispatchError>) -> Result<
    Seq<u8>,
    FailureView,
> {
    match result {
        Ok(bytes) => Ok(bytes@),
        Err(failure) => Err(failure@),
    }
}

/// First half of an encode request for an implemented architecture: the
/// configuration to open the assembler engine with. A source that holds a
/// NUL character cannot be passed to the engine and fails the request here.
pub fn encoder_config(source: &str, arch: Architecture) -> (request: Result<
    BackendConfig,
    DispatchError,
>)
    requires
        arch.is_implemented(),
    ensures
        request_view(request) == encode_request(source@, arch),
{
    if contains_nul(source) {
        return Err(
            DispatchError::OperationFailure(
                String::from_str("Assembly error: the source text holds a NUL character"),
            ),
        );
    }
    Ok(resolve(arch))
}

/// Second half of an encode request: normalizes the engine's report. Emitted
/// bytes are returned untouched; a report of failure becomes the failure of
/// the matching kind.
pub fn encode_result(report: EncoderReport) -> (result: Result<Vec<u8>, DispatchError>)
    ensures
        bytes_view(result) == encode_outcome(report@),
{
    match report {
        EncoderReport::ConstructionFailed(detail) => Err(
            DispatchError::CapabilityConstructionFailure(
                with_prefix("Failed to create Keystone instance: ", detail.as_str()),
            ),
        ),
        EncoderReport::OperationFailed(detail) => Err(
            DispatchError::OperationFailure(with_prefix("Assembly error: ", detail.as_str())),
        ),
        EncoderReport::Encoded(bytes) => Ok(bytes),
    }
}

/// An engine that emits no bytes has encoded an empty program: the request
/// succeeds with the empty byte sequence.
pub proof fn lemma_empty_encoding_is_success()
    ensures
        encode_outcome(EncoderReportView::Encoded(Seq::empty())) == Ok::<Seq<u8>, FailureView>(
            Seq::empty(),
        ),
{
}

/// A source that the engine rejects gives an operation failure, never bytes
/// and never a construction failure, and its message is not empty whatever
/// the engine's account was.
pub proof fn lemma_rejected_source_fails_with_message(detail: Seq<char>)
    ensures
        encode_outcome(EncoderReportView::OperationFailed(detail)) matches Err(
            FailureView::OperationFailure(message),
        ) && message.len() > 0,
{
    reveal_strlit("Assembly error: ");
}

/// An engine that did not open gives a construction failure with a message
/// that is not empty.
pub proof fn lemma_unopened_engine_fails_with_message(detail: Seq<char>)
    ensures
        encode_outcome(EncoderReportView::ConstructionFailed(detail)) matches Err(
            FailureView::CapabilityConstructionFailure(message),
        ) && message.len() > 0,
{
    reveal_strlit("Failed to create Keystone instance: ");
}

/// The configuration handed to the engine depends on the architecture alone:
/// neither the source nor the load address changes it.
pub proof fn lemma_configuration_ignores_source(
    first: Seq<char>,
    second: Seq<char>,
    arch: Architecture,
)
    requires
        !has_nul(first),
        !has_nul(second),
    ensures
        encode_request(first, arch) == encode_request(second, arch),
{
}

} // verus!
