//! Classifying and normalising WebAssembly input.
use crate::error::CompileError;
use vstd::prelude::*;

verus! {

/// The magic number that opens every WebAssembly binary: `\0asm`.
pub open spec fn binary_magic() -> Seq<u8> {
    seq![0u8, 97u8, 115u8, 109u8]
}

/// The eight bytes that open a component binary: the magic number, the
/// component encoding version 0x0d and the component layer 1, little-endian.
pub open spec fn component_header() -> Seq<u8> {
    binary_magic() + seq![13u8, 0u8, 1u8, 0u8]
}

/// Whether `b` starts with `prefix`.
pub open spec fn starts_with(b: Seq<u8>, prefix: Seq<u8>) -> bool {
    prefix.len() <= b.len() && b.subrange(0, prefix.len() as int) == prefix
}

/// The two shapes of a WebAssembly binary, each precompiled by its own
/// engine entry point.
#[derive(Debug, Clone, Copy, PartialEq, Eq, Structural)]
pub enum ArtifactKind {
    Module,
    Component,
}

/// The kind of a binary, decided by its header alone.
pub open spec fn kind_of(binary: Seq<u8>) -> ArtifactKind {
    if starts_with(binary, component_header()) {
        ArtifactKind::Component
    } else {
        ArtifactKind::Module
    }
}

/// The binary that the text-format parser makes of `input`, or `None`
/// where it rejects it.
pub uninterp spec fn wat_output(input: Seq<u8>) -> Option<Seq<u8>>;

/// Relies on `wasmparser::Parser::is_component`, which tests whether the
/// bytes start with the component header.
#[verifier::external_body]
fn sniff_component(bytes: &[u8]) -> (r: bool)
    ensures
        r == starts_with(bytes@, component_header()),
{
    wasmparser::Parser::is_component(bytes)
}

/// The error type of the `wat` crate, carried through opaquely.
#[verifier::external_type_specification]
#[verifier::external_body]
pub struct ExWatError(wat::Error);

/// Relies on `wat::parse_bytes`: input that starts with the binary magic
/// number is handed back as it is; other input is converted from the text
/// format, which depends on the bytes alone.
#[verifier::external_body]
fn parse_wat(bytes: &[u8]) -> (r: Result<Vec<u8>, wat::Error>)
    ensures
        r is Ok <==> wat_output(bytes@) is Some,
        r is Ok ==> wat_output(bytes@) == Some(r->Ok_0@),
        starts_with(bytes@, binary_magic()) ==> r is Ok && r->Ok_0@ == bytes@,
{
    wat::parse_bytes(bytes).map(|b| b.into_owned())
}

/// Relies on the `Display` impl of `wat::Error` for its diagnostic text.
#[verifier::external_body]
fn wat_error_text(e: &wat::Error) -> String {
    e.to_string()
}

/// The kind of the WebAssembly binary `binary`.
pub fn artifact_kind(binary: &[u8]) -> (r: ArtifactKind)
    ensures
        r == kind_of(binary@),
{
    if sniff_component(binary) {
        ArtifactKind::Component
    } else {
        ArtifactKind::Module
    }
}

/// Turns input bytes into a WebAssembly binary: a binary passes unchanged,
/// text format is converted to binary, and anything else is an input error.
pub fn to_binary(input: &[u8]) -> (r: Result<Vec<u8>, CompileError>)
    ensures
        match wat_output(input@) {
            Some(b) => r is Ok && r->Ok_0@ == b,
            None => r is Err && r->Err_0 is Input,
        },
        starts_with(input@, binary_magic()) ==> r is Ok && r->Ok_0@ == input@,
{
    match parse_wat(input) {
        Ok(b) => Ok(b),
        Err(e) => Err(CompileError::Input { message: wat_error_text(&e) }),
    }
}

} // verus!
