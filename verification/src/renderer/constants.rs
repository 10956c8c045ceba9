//! The driver's enumerants that the renderer hands over.
//!
//! The values live in the `gl` crate, which generates them from the OpenGL
//! registry. Each function here returns one of them and states the number that
//! the registry gives it; Verus takes these statements as given.

use vstd::prelude::*;

verus! {

/// `gl::ARRAY_BUFFER`: 0x8892 in the registry.
#[verifier::external_body]
pub(crate) fn array_buffer() -> (r: u32)
    ensures
        r == 0x8892u32,
{
    gl::ARRAY_BUFFER
}

/// `gl::ELEMENT_ARRAY_BUFFER`: 0x8893 in the registry.
#[verifier::external_body]
pub(crate) fn element_array_buffer() -> (r: u32)
    ensures
        r == 0x8893u32,
{
    gl::ELEMENT_ARRAY_BUFFER
}

/// `gl::VERTEX_SHADER`: 0x8B31 in the registry.
#[verifier::external_body]
pub(crate) fn vertex_shader() -> (r: u32)
    ensures
        r == 0x8B31u32,
{
    gl::VERTEX_SHADER
}

/// `gl::FRAGMENT_SHADER`: 0x8B30 in the registry.
#[verifier::external_body]
pub(crate) fn fragment_shader() -> (r: u32)
    ensures
        r == 0x8B30u32,
{
    gl::FRAGMENT_SHADER
}

/// `gl::GEOMETRY_SHADER`: 0x8DD9 in the registry.
#[verifier::external_body]
pub(crate) fn geometry_shader() -> (r: u32)
    ensures
        r == 0x8DD9u32,
{
    gl::GEOMETRY_SHADER
}

/// `gl::TESS_EVALUATION_SHADER`: 0x8E87 in the registry.
#[verifier::external_body]
pub(crate) fn tess_evaluation_shader() -> (r: u32)
    ensures
        r == 0x8E87u32,
{
    gl::TESS_EVALUATION_SHADER
}

/// `gl::TESS_CONTROL_SHADER`: 0x8E88 in the registry.
#[verifier::external_body]
pub(crate) fn tess_control_shader() -> (r: u32)
    ensures
        r == 0x8E88u32,
{
    gl::TESS_CONTROL_SHADER
}

/// `gl::RED`: 0x1903 in the registry.
#[verifier::external_body]
pub(crate) fn red() -> (r: u32)
    ensures
        r == 0x1903u32,
{
    gl::RED
}

/// `gl::RG`: 0x8227 in the registry.
#[verifier::external_body]
pub(crate) fn rg() -> (r: u32)
    ensures
        r == 0x8227u32,
{
    gl::RG
}

/// `gl::RGB`: 0x1907 in the registry.
#[verifier::external_body]
pub(crate) fn rgb() -> (r: u32)
    ensures
        r == 0x1907u32,
{
    gl::RGB
}

/// `gl::RGBA`: 0x1908 in the registry.
#[verifier::external_body]
pub(crate) fn rgba() -> (r: u32)
    ensures
        r == 0x1908u32,
{
    gl::RGBA
}

/// `gl::UNSIGNED_BYTE`: 0x1401 in the registry.
#[verifier::external_body]
pub(crate) fn unsigned_byte() -> (r: u32)
    ensures
        r == 0x1401u32,
{
    gl::UNSIGNED_BYTE
}

/// `gl::NONE`: 0 in the registry.
#[verifier::external_body]
pub(crate) fn none() -> (r: u32)
    ensures
        r == 0u32,
{
    gl::NONE
}

} // verus!
