//! The calls into vt100, each with what this library takes on trust about it.
//!
//! A `vt100::Parser` is opaque here. Two names stand for its record: the size
//! it was made with and the bytes it has been given since. The parser handles
//! its input one byte after another, so feeding it two chunks leaves it as
//! feeding their concatenation does; the record below says no more than that
//! of `process`. What the screen then shows is vt100's to decide: reads are
//! equated with `cursor_of` and `cell_of` and not spelled out.
//!
//! A parser is never resized here. vt100's own resize clamps the cursor but
//! leaves a saved cursor where it was, and restoring one that lies outside a
//! smaller grid makes later input fail.

use vstd::prelude::*;
use crate::terminal::{cell_of, cursor_of, supported_size, CellModel, CellView, Color};

verus! {

/// `vt100::Parser`: a terminal emulator and the screen it keeps. Opaque.
#[verifier::external_type_specification]
#[verifier::external_body]
pub struct ExParser(vt100::Parser);

/// The size, as (rows, columns), that a parser was made with.
pub uninterp spec fn parser_origin(p: vt100::Parser) -> (u16, u16);

/// The bytes that a parser has been given since it was made, oldest first.
pub uninterp spec fn parser_inputs(p: vt100::Parser) -> Seq<u8>;

/// A parser reports a blank cell at every position of the grid it was made
/// with and no cell elsewhere.
pub open spec fn shows_blank_grid(p: vt100::Parser) -> bool {
    forall|row: u16, col: u16| #[trigger]
        cell_of(parser_origin(p).0, parser_origin(p).1, parser_inputs(p), row, col) == if row
            < parser_origin(p).0 && col < parser_origin(p).1 {
            Some(CellModel::blank())
        } else {
            None
        }
}

/// The model of a cell that may be absent.
pub open spec fn cell_model(c: Option<CellView>) -> Option<CellModel> {
    match c {
        Some(v) => Some(v@),
        None => None,
    }
}

/// `vt100::Parser::new`, with no scrollback. Trusted: the parser starts with
/// the given size and has been given nothing; its cursor is at the top left;
/// it reports a blank cell at every position of its grid and none elsewhere.
/// Sizes outside `supported_size` are kept away because vt100 subtracts from
/// the row and column counts.
#[verifier::external_body]
pub(crate) fn parser_new(rows: u16, cols: u16) -> (p: vt100::Parser)
    requires
        supported_size(rows, cols),
    ensures
        parser_origin(p) == (rows, cols),
        parser_inputs(p) == Seq::<u8>::empty(),
        cursor_of(rows, cols, parser_inputs(p)) == (0u16, 0u16),
        shows_blank_grid(p),
{
    vt100::Parser::new(rows, cols, 0)
}

/// `vt100::Parser::process`. Trusted: it consumes `bytes` in order, one at a
/// time, so the parser has then been given exactly these bytes more; the
/// size it was made with stays.
#[verifier::external_body]
pub(crate) fn parser_process(p: &mut vt100::Parser, bytes: &[u8])
    requires
        supported_size(parser_origin(*old(p)).0, parser_origin(*old(p)).1),
    ensures
        parser_origin(*final(p)) == parser_origin(*old(p)),
        parser_inputs(*final(p)) == parser_inputs(*old(p)) + bytes@,
{
    p.process(bytes)
}

/// `vt100::Screen::cursor_position` of the parser's screen. Trusted: the
/// position is a function of the size the parser was made with and the bytes
/// it has been given.
#[verifier::external_body]
pub(crate) fn parser_cursor(p: &vt100::Parser) -> (at: (u16, u16))
    ensures
        at == cursor_of(parser_origin(*p).0, parser_origin(*p).1, parser_inputs(*p)),
{
    p.screen().cursor_position()
}

/// `vt100::Screen::cell` of the parser's screen, with the cell's text and
/// attributes copied out through `vt100::Cell`'s getters. Trusted: what is
/// reported, and whether a cell is reported at all, is a function of the size
/// the parser was made with, the bytes it has been given and the position
/// asked for.
#[verifier::external_body]
pub(crate) fn parser_cell(p: &vt100::Parser, row: u16, col: u16) -> (cell: Option<CellView>)
    ensures
        cell_model(cell) == cell_of(
            parser_origin(*p).0,
            parser_origin(*p).1,
            parser_inputs(*p),
            row,
            col,
        ),
{
    let tone = |c: vt100::Color| match c {
        vt100::Color::Default => Color::Default,
        vt100::Color::Idx(i) => Color::Idx(i),
        vt100::Color::Rgb(r, g, b) => Color::Rgb(r, g, b),
    };
    p.screen().cell(row, col).map(|c| CellView {
        text: c.contents(),
        bold: c.bold(),
        italic: c.italic(),
        underline: c.underline(),
        inverse: c.inverse(),
        fg: tone(c.fgcolor()),
        bg: tone(c.bgcolor()),
    })
}

} // verus!
