//! Backend diagnostics: a line-numbered error of the GLSL compiler is
//! anchored in the shader source through the source map.

use vstd::prelude::*;
use vstd::string::*;
use crate::glsl::{GlslLine, SourceMap, lines_view};
use crate::span::Span;
use crate::number::{parse_number, read_number};
use crate::text::{find_char, find_in, split_range, to_chars};

verus! {

/// The number of lines that the output holds before the first generated
/// line.
pub const PREAMBLE_LINE_COUNT: usize = 1;

/// A failure of the backend compiler, as the specifications see it.
pub enum Diagnostic {
    /// The failure is anchored at a region of the shader source; `message`
    /// is the line of the backend's output that named it.
    Located { span: Span, message: Seq<char> },
    /// No line of the backend's output could be anchored: `message` is all
    /// of it.
    Raw { message: Seq<char> },
}

/// A failure of the backend compiler.
#[derive(Debug)]
pub enum BackendCompileError {
    /// The failure is anchored at a region of the shader source; `message`
    /// is the line of the backend's output that named it.
    Located { span: Span, message: String },
    /// No line of the backend's output could be anchored: `message` is all
    /// of it.
    Raw { message: String },
}

impl BackendCompileError {
    pub open spec fn view(&self) -> Diagnostic {
        match self {
            BackendCompileError::Located { span, message } => Diagnostic::Located {
                span: *span,
                message: message@,
            },
            BackendCompileError::Raw { message } => Diagnostic::Raw { message: message@ },
        }
    }
}

/// The line number that a line of backend output refers to: its second
/// field, the fields parted by colons, read as a decimal numeral.
pub open spec fn line_reference(msg: Seq<char>, from: int, to: int) -> Option<usize> {
    let fields = split_range(msg, from, to, ':');
    if fields.len() >= 2 {
        parse_number(fields[1])
    } else {
        None
    }
}

/// The source region at which a line of backend output is anchored: that of
/// the generated line it refers to, counted from one and after the
/// preamble.
pub open spec fn anchor(msg: Seq<char>, from: int, to: int, map: SourceMap) -> Option<Span> {
    match line_reference(msg, from, to) {
        Some(n) => if PREAMBLE_LINE_COUNT + 1 <= n && n - PREAMBLE_LINE_COUNT - 1 < map.len() {
            map[n - PREAMBLE_LINE_COUNT - 1].span
        } else {
            None
        },
        None => None,
    }
}

/// The first line of `msg` at or after `from` that is anchored, with its
/// anchor: the region and the bounds of the line.
pub open spec fn first_anchored(msg: Seq<char>, from: int, map: SourceMap) -> Option<
    (Span, int, int),
>
    decreases msg.len() - from,
{
    let end = find_in(msg, from, msg.len() as int, '\n');
    match anchor(msg, from, end, map) {
        Some(span) => Some((span, from, end)),
        None => if from <= end < msg.len() {
            first_anchored(msg, end + 1, map)
        } else {
            None
        },
    }
}

/// What the backend's output `msg` becomes: located at the anchor of its
/// first anchored line, with that line as the message, or raw.
pub open spec fn translation(msg: Seq<char>, map: SourceMap) -> Diagnostic {
    match first_anchored(msg, 0, map) {
        Some((span, from, to)) => Diagnostic::Located { span, message: msg.subrange(from, to) },
        None => Diagnostic::Raw { message: msg },
    }
}

/// The source region at which the line of `v` from `from` up to `to` is
/// anchored.
pub fn anchor_of(v: &Vec<char>, from: usize, to: usize, sourcemap: &Vec<GlslLine>) -> (r: Option<
    Span,
>)
    requires
        from <= to <= v.len(),
    ensures
        r == anchor(v@, from as int, to as int, lines_view(sourcemap@)),
{
    let c1 = find_char(v, from, to, ':');
    if c1 >= to {
        return None;
    }
    let c2 = find_char(v, c1 + 1, to, ':');
    proof {
        let rest = split_range(v@, c1 + 1, to as int, ':');
        assert(rest[0] == v@.subrange(c1 + 1, c2 as int));
        assert(split_range(v@, from as int, to as int, ':') == seq![
            v@.subrange(from as int, c1 as int),
        ] + rest);
    }
    match read_number(v, c1 + 1, c2) {
        None => None,
        Some(n) => {
            if n >= PREAMBLE_LINE_COUNT + 1 && n - PREAMBLE_LINE_COUNT - 1 < sourcemap.len() {
                sourcemap[n - PREAMBLE_LINE_COUNT - 1].span
            } else {
                None
            }
        },
    }
}

/// Re-anchors a failure of the backend compiler in the shader source.
///
/// The lines of `message` are taken in order. A line refers to a generated
/// line where its second colon-parted field is a decimal line number; it
/// is anchored where that generated line exists in the source map and has
/// a source region. The first anchored line wins: the result is located at
/// its region and carries that line. Where no line is anchored, the whole
/// message is passed through.
pub fn translate_backend_error(message: &str, sourcemap: &Vec<GlslLine>) -> (r:
    BackendCompileError)
    ensures
        r@ == translation(message@, lines_view(sourcemap@)),
{
    let v = to_chars(message);
    let n = v.len();
    let mut from: usize = 0;
    loop
        invariant
            0 <= from <= n,
            n == v.len(),
            v@ == message@,
            first_anchored(v@, 0, lines_view(sourcemap@)) == first_anchored(
                v@,
                from as int,
                lines_view(sourcemap@),
            ),
        decreases n - from,
    {
        let end = find_char(&v, from, n, '\n');
        match anchor_of(&v, from, end, sourcemap) {
            Some(span) => {
                let line = message.substring_char(from, end);
                return BackendCompileError::Located { span, message: String::from_str(line) };
            },
            None => {
                if end < n {
                    from = end + 1;
                } else {
                    return BackendCompileError::Raw { message: String::from_str(message) };
                }
            },
        }
    }
}

} // verus!
