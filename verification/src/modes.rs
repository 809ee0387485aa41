//! The draw-primitive selector of the line demo: callers name a WebGL
//! drawing mode and get the numeric mode value the graphics context takes.

use vstd::prelude::*;

verus! {

/// WebGL primitive mode values, as the WebGL specification fixes them.
pub const GL_LINES: u32 = 1;

pub const GL_LINE_LOOP: u32 = 2;

pub const GL_LINE_STRIP: u32 = 3;

pub const GL_TRIANGLES: u32 = 4;

pub const GL_TRIANGLE_STRIP: u32 = 5;

pub const GL_TRIANGLE_FAN: u32 = 6;

/// Relies on str's PartialEq: two slices are equal exactly when their
/// character sequences are.
#[verifier::external_body]
fn str_eq(a: &str, b: &str) -> (r: bool)
    ensures
        r == (a@ == b@),
{
    a == b
}

/// The primitive mode drawn for each accepted name; an unrecognized name
/// falls back to `GL_LINES`, so the demo always draws something.
pub open spec fn spec_draw_mode(name: Seq<char>) -> u32 {
    if name == "LINES"@ {
        GL_LINES
    } else if name == "LINE_STRIP"@ {
        GL_LINE_STRIP
    } else if name == "LINE_LOOP"@ {
        GL_LINE_LOOP
    } else if name == "TRIANGLE_STRIP"@ {
        GL_TRIANGLE_STRIP
    } else if name == "TRIANGLE_FAN"@ {
        GL_TRIANGLE_FAN
    } else if name == "TRIANGLES"@ {
        GL_TRIANGLES
    } else {
        GL_LINES
    }
}

/// Map a drawing-mode name to the numeric WebGL mode value.
pub fn draw_mode(name: &str) -> (m: u32)
    ensures
        m == spec_draw_mode(name@),
{
    if str_eq(name, "LINES") {
        GL_LINES
    } else if str_eq(name, "LINE_STRIP") {
        GL_LINE_STRIP
    } else if str_eq(name, "LINE_LOOP") {
        GL_LINE_LOOP
    } else if str_eq(name, "TRIANGLE_STRIP") {
        GL_TRIANGLE_STRIP
    } else if str_eq(name, "TRIANGLE_FAN") {
        GL_TRIANGLE_FAN
    } else if str_eq(name, "TRIANGLES") {
        GL_TRIANGLES
    } else {
        GL_LINES
    }
}

} // verus!
