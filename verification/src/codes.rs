//! Numeric codes of the graphics API that the renderer passes to the driver or
//! reads back from it, and the names of the driver's error flags.

use vstd::prelude::*;

verus! {

pub const NO_ERROR: u32 = 0;
pub const INVALID_ENUM: u32 = 0x0500;
pub const INVALID_VALUE: u32 = 0x0501;
pub const INVALID_OPERATION: u32 = 0x0502;
pub const STACK_OVERFLOW: u32 = 0x0503;
pub const STACK_UNDERFLOW: u32 = 0x0504;
pub const OUT_OF_MEMORY: u32 = 0x0505;
pub const INVALID_FRAMEBUFFER_OPERATION: u32 = 0x0506;

pub const FALSE: u8 = 0;
pub const TRUE: u8 = 1;

pub const FRAGMENT_SHADER: u32 = 0x8B30;
pub const VERTEX_SHADER: u32 = 0x8B31;

pub const TEXTURE_2D: u32 = 0x0DE1;
pub const TEXTURE_MAG_FILTER: u32 = 0x2800;
pub const TEXTURE_MIN_FILTER: u32 = 0x2801;
pub const TEXTURE_WRAP_S: u32 = 0x2802;
pub const TEXTURE_WRAP_T: u32 = 0x2803;
pub const CLAMP_TO_EDGE: u32 = 0x812F;
pub const LINEAR: u32 = 0x2601;
pub const RED: u32 = 0x1903;
pub const UNSIGNED_BYTE: u32 = 0x1401;
pub const UNPACK_ALIGNMENT: u32 = 0x0CF5;
pub const MAX_TEXTURE_SIZE: u32 = 0x0D33;

pub const FLOAT: u32 = 0x1406;
pub const ARRAY_BUFFER: u32 = 0x8892;
pub const DYNAMIC_DRAW: u32 = 0x88E8;
pub const TRIANGLE_STRIP: u32 = 0x0005;

pub const BLEND: u32 = 0x0BE2;
pub const SRC_ALPHA: u32 = 0x0302;
pub const ONE: u32 = 1;
pub const FRAMEBUFFER_SRGB: u32 = 0x8DB9;
pub const COLOR_BUFFER_BIT: u32 = 0x4000;

/// The name of a driver error flag; every code that is not one of the seven
/// error flags is `UNKNOWN`.
pub open spec fn error_name(err: u32) -> Seq<char> {
    if err == INVALID_ENUM {
        "INVALID_ENUM"@
    } else if err == INVALID_VALUE {
        "INVALID_VALUE"@
    } else if err == INVALID_OPERATION {
        "INVALID_OPERATION"@
    } else if err == INVALID_FRAMEBUFFER_OPERATION {
        "INVALID_FRAMEBUFFER_OPERATION"@
    } else if err == OUT_OF_MEMORY {
        "OUT_OF_MEMORY"@
    } else if err == STACK_UNDERFLOW {
        "STACK_UNDERFLOW"@
    } else if err == STACK_OVERFLOW {
        "STACK_OVERFLOW"@
    } else {
        "UNKNOWN"@
    }
}

/// Names the error flag `err` as the driver's documentation spells it.
pub fn gl_err_to_str(err: u32) -> (name: &'static str)
    ensures
        name@ == error_name(err),
{
    if err == INVALID_ENUM {
        "INVALID_ENUM"
    } else if err == INVALID_VALUE {
        "INVALID_VALUE"
    } else if err == INVALID_OPERATION {
        "INVALID_OPERATION"
    } else if err == INVALID_FRAMEBUFFER_OPERATION {
        "INVALID_FRAMEBUFFER_OPERATION"
    } else if err == OUT_OF_MEMORY {
        "OUT_OF_MEMORY"
    } else if err == STACK_UNDERFLOW {
        "STACK_UNDERFLOW"
    } else if err == STACK_OVERFLOW {
        "STACK_OVERFLOW"
    } else {
        "UNKNOWN"
    }
}

/// A driver call left the error state clean exactly when the flag read back
/// afterwards is `NO_ERROR`. Any other flag is a programming error: the host
/// aborts with the flag's name.
pub fn check_driver_state(err: u32) -> (outcome: Result<(), &'static str>)
    ensures
        outcome is Ok <==> err == NO_ERROR,
        outcome matches Err(name) ==> name@ == error_name(err),
{
    if err == NO_ERROR {
        Ok(())
    } else {
        Err(gl_err_to_str(err))
    }
}

} // verus!
