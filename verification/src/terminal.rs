//! The terminal of one session: a `vt100::Parser` behind a model of its size
//! and of everything the peer has sent.
//!
//! The emulation itself is vt100's. This module never looks inside the
//! parser; it states each read of the screen as a function of the terminal's
//! size and of the bytes fed to it so far. What the emulator shows for given
//! bytes is left to vt100 and is named, not defined, here.
//!
//! A terminal keeps the bytes it was fed. A change of size lays them out
//! again on a grid of the new size, so the terminal then shows what it would
//! show had it had that size from the start.

use vstd::prelude::*;
use crate::emulator::{
    parser_cell, parser_cursor, parser_inputs, parser_new, parser_origin, parser_process,
};

verus! {

/// Fewest rows a terminal may have. On a single row vt100 fails when a line
/// wraps: it takes the line scrolled out from the cursor's row, which is 0.
pub const MIN_ROWS: u16 = 2;

/// Fewest columns a terminal may have. vt100 takes a character's width,
/// which can be two, from the number of columns.
pub const MIN_COLS: u16 = 2;

/// Most columns a terminal may have. At a tab vt100 moves the cursor to the
/// next multiple of eight before it clamps it, and that must fit a `u16`.
pub const MAX_COLS: u16 = 65527;

/// A display colour of a cell.
#[derive(Clone, Copy, Debug, PartialEq, Eq, Structural)]
pub enum Color {
    /// The terminal's default colour.
    Default,
    /// A colour of the indexed palette.
    Idx(u8),
    /// Red, green, blue.
    Rgb(u8, u8, u8),
}

/// What one cell of the grid shows, as a mathematical value.
pub struct CellModel {
    pub text: Seq<char>,
    pub bold: bool,
    pub italic: bool,
    pub underline: bool,
    pub inverse: bool,
    pub fg: Color,
    pub bg: Color,
}

impl CellModel {
    /// The cell that shows nothing.
    pub open spec fn blank() -> CellModel {
        CellModel {
            text: Seq::empty(),
            bold: false,
            italic: false,
            underline: false,
            inverse: false,
            fg: Color::Default,
            bg: Color::Default,
        }
    }
}

/// What one cell of the grid shows: its text (a character and any combining
/// characters that follow it; empty for a cell never written) and its display
/// attributes.
#[derive(Clone, Debug, PartialEq, Eq)]
pub struct CellView {
    pub text: String,
    pub bold: bool,
    pub italic: bool,
    pub underline: bool,
    pub inverse: bool,
    pub fg: Color,
    pub bg: Color,
}

impl View for CellView {
    type V = CellModel;

    open spec fn view(&self) -> CellModel {
        CellModel {
            text: self.text@,
            bold: self.bold,
            italic: self.italic,
            underline: self.underline,
            inverse: self.inverse,
            fg: self.fg,
            bg: self.bg,
        }
    }
}

impl CellView {
    /// The cell that shows nothing.
    pub fn blank() -> (c: CellView)
        ensures
            c@ == CellModel::blank(),
    {
        CellView {
            text: String::new(),
            bold: false,
            italic: false,
            underline: false,
            inverse: false,
            fg: Color::Default,
            bg: Color::Default,
        }
    }
}

/// What is shown for a cell that the emulator may not have reported: the
/// cell itself, or a blank one in its place.
pub fn cell_or_blank(found: Option<CellView>) -> (cell: CellView)
    ensures
        cell@ == (match found {
            Some(c) => c@,
            None => CellModel::blank(),
        }),
{
    match found {
        Some(c) => c,
        None => CellView::blank(),
    }
}

/// The sizes a terminal can have.
pub open spec fn supported_size(rows: u16, cols: u16) -> bool {
    MIN_ROWS <= rows && MIN_COLS <= cols <= MAX_COLS
}

/// Whether a size is one a terminal can have.
pub fn is_supported_size(rows: u16, cols: u16) -> (supported: bool)
    ensures
        supported == supported_size(rows, cols),
{
    MIN_ROWS <= rows && MIN_COLS <= cols && cols <= MAX_COLS
}

/// A terminal as a mathematical value: its size and all the bytes it has
/// been fed, oldest first.
pub struct TerminalModel {
    pub rows: u16,
    pub cols: u16,
    pub input: Seq<u8>,
}

/// Where vt100 reports the cursor, as (row, column), on a grid of `rows` by
/// `cols` that has been given `input`.
pub uninterp spec fn cursor_of(rows: u16, cols: u16, input: Seq<u8>) -> (u16, u16);

/// What vt100 reports for the cell at `row`, `col` on a grid of `rows` by
/// `cols` that has been given `input`; `None` where it reports no such cell.
pub uninterp spec fn cell_of(rows: u16, cols: u16, input: Seq<u8>, row: u16, col: u16) -> Option<
    CellModel,
>;

/// What a snapshot of the screen holds, as a mathematical value.
pub struct ScreenModel {
    pub rows: u16,
    pub cols: u16,
    pub cursor: (u16, u16),
    pub cells: Seq<Seq<CellModel>>,
}

/// A coordinate brought below `count`: one at or beyond `count` becomes the
/// last one below it, and 0 where there is none.
pub open spec fn below(at: u16, count: u16) -> u16 {
    if at < count {
        at
    } else if count > 0 {
        (count - 1) as u16
    } else {
        0
    }
}

/// A position brought inside a grid of `rows` by `cols`: a coordinate beyond
/// the last row or column becomes the last one. The emulator leaves the
/// cursor one past the last column after it has written there.
pub open spec fn clamped(at: (u16, u16), rows: u16, cols: u16) -> (u16, u16) {
    (below(at.0, rows), below(at.1, cols))
}

impl TerminalModel {
    /// A terminal just made, which has been fed nothing.
    pub open spec fn fresh(rows: u16, cols: u16) -> TerminalModel {
        TerminalModel { rows, cols, input: Seq::empty() }
    }

    /// The terminal after one more chunk of the peer's output.
    pub open spec fn feed(self, bytes: Seq<u8>) -> TerminalModel {
        TerminalModel { input: self.input + bytes, ..self }
    }

    /// The terminal after each chunk of `chunks` in turn.
    pub open spec fn feed_all(self, chunks: Seq<Seq<u8>>) -> TerminalModel
        decreases chunks.len(),
    {
        if chunks.len() == 0 {
            self
        } else {
            self.feed_all(chunks.drop_last()).feed(chunks.last())
        }
    }

    /// The terminal after a change of size: the same bytes on another grid.
    pub open spec fn resize(self, rows: u16, cols: u16) -> TerminalModel {
        TerminalModel { rows, cols, ..self }
    }

    /// The grid's size, as (rows, columns).
    pub open spec fn size(self) -> (u16, u16) {
        (self.rows, self.cols)
    }

    /// The cursor's position, as (row, column), inside the grid.
    pub open spec fn cursor(self) -> (u16, u16) {
        clamped(cursor_of(self.rows, self.cols, self.input), self.rows, self.cols)
    }

    /// What the cell at `row`, `col` shows; blank where the emulator reports
    /// no cell.
    pub open spec fn cell(self, row: u16, col: u16) -> CellModel {
        match cell_of(self.rows, self.cols, self.input, row, col) {
            Some(c) => c,
            None => CellModel::blank(),
        }
    }

    /// One row of the grid, left to right.
    pub open spec fn row(self, row: u16) -> Seq<CellModel> {
        Seq::new(self.cols as nat, |c: int| self.cell(row, c as u16))
    }

    /// The whole screen: size, cursor and every cell, top row first.
    pub open spec fn screen(self) -> ScreenModel {
        ScreenModel {
            rows: self.rows,
            cols: self.cols,
            cursor: self.cursor(),
            cells: Seq::new(self.rows as nat, |r: int| self.row(r as u16)),
        }
    }
}

/// A copy of the screen at one moment: its size, the cursor and every cell,
/// top row first. It shares nothing with the terminal it was taken from.
#[derive(Clone, Debug, PartialEq, Eq)]
pub struct ScreenView {
    pub rows: u16,
    pub cols: u16,
    pub cursor_row: u16,
    pub cursor_col: u16,
    pub cells: Vec<Vec<CellView>>,
}

/// The models of a row of cells.
pub open spec fn row_model(row: Seq<CellView>) -> Seq<CellModel> {
    row.map_values(|c: CellView| c@)
}

impl View for ScreenView {
    type V = ScreenModel;

    open spec fn view(&self) -> ScreenModel {
        ScreenModel {
            rows: self.rows,
            cols: self.cols,
            cursor: (self.cursor_row, self.cursor_col),
            cells: self.cells@.map_values(|r: Vec<CellView>| row_model(r@)),
        }
    }
}

/// A position brought inside a grid: a coordinate beyond the last row or
/// column becomes the last one.
pub fn clamp(at: (u16, u16), rows: u16, cols: u16) -> (inside: (u16, u16))
    ensures
        inside == clamped(at, rows, cols),
        rows >= 1 ==> inside.0 < rows,
        cols >= 1 ==> inside.1 < cols,
{
    (
        if at.0 < rows {
            at.0
        } else if rows > 0 {
            rows - 1
        } else {
            0
        },
        if at.1 < cols {
            at.1
        } else if cols > 0 {
            cols - 1
        } else {
            0
        },
    )
}

/// Feeding two chunks one after the other leaves a terminal as feeding their
/// concatenation does.
pub proof fn lemma_feed_concat(m: TerminalModel, a: Seq<u8>, b: Seq<u8>)
    ensures
        m.feed(a).feed(b) == m.feed(a + b),
{
    assert(m.feed(a).feed(b).input =~= m.feed(a + b).input);
}

/// Chunking invariance: however a byte sequence is cut into chunks, feeding
/// the chunks in order leaves a terminal, and so its screen, as feeding the
/// whole sequence at once does.
pub proof fn lemma_chunking_invariance(m: TerminalModel, chunks: Seq<Seq<u8>>)
    ensures
        m.feed_all(chunks) == m.feed(chunks.flatten()),
        m.feed_all(chunks).screen() == m.feed(chunks.flatten()).screen(),
    decreases chunks.len(),
{
    if chunks.len() == 0 {
        assert(chunks.flatten() =~= Seq::<u8>::empty());
        assert(m.feed(chunks.flatten()).input =~= m.input);
    } else {
        let front = chunks.drop_last();
        lemma_chunking_invariance(m, front);
        front.lemma_flatten_push(chunks.last());
        assert(front.push(chunks.last()) =~= chunks);
        lemma_feed_concat(m, front.flatten(), chunks.last());
    }
}

/// A change of size and a chunk of input can come in either order: the
/// terminal ends up the same. Of two changes of size in a row, the second
/// decides.
pub proof fn lemma_resize_commutes(m: TerminalModel, rows: u16, cols: u16, bytes: Seq<u8>)
    ensures
        m.resize(rows, cols).feed(bytes) == m.feed(bytes).resize(rows, cols),
        forall|r: u16, c: u16| #[trigger] m.resize(r, c).resize(rows, cols) == m.resize(rows, cols),
{
}

/// The cursor of a terminal lies inside its grid, whatever the terminal was
/// fed and whatever its size was before.
pub proof fn lemma_cursor_inside(m: TerminalModel)
    requires
        supported_size(m.rows, m.cols),
    ensures
        m.cursor().0 < m.rows,
        m.cursor().1 < m.cols,
{
}

/// A parser together with what it was made with and what it was given. It
/// is what a terminal holds; a terminal never lets go of a sound one.
struct Core {
    parser: vt100::Parser,
    rows: u16,
    cols: u16,
    fed: Vec<u8>,
}

impl Core {
    /// The core as a mathematical value.
    spec fn model(&self) -> TerminalModel {
        TerminalModel { rows: self.rows, cols: self.cols, input: self.fed@ }
    }

    /// The parser is of a supported size and has been given what was fed.
    spec fn sound(&self) -> bool {
        &&& supported_size(self.rows, self.cols)
        &&& parser_origin(self.parser) == (self.rows, self.cols)
        &&& parser_inputs(self.parser) == self.fed@
    }

    /// A core of `rows` by `cols` that has been given nothing.
    fn new(rows: u16, cols: u16) -> (core: Core)
        requires
            supported_size(rows, cols),
        ensures
            core.sound(),
            core.model() == TerminalModel::fresh(rows, cols),
            core.model().cursor() == (0u16, 0u16),
            forall|row: u16, col: u16| #[trigger] core.model().cell(row, col) == CellModel::blank(),
    {
        Core { parser: parser_new(rows, cols), rows, cols, fed: Vec::new() }
    }

    /// Hands a chunk to the parser and notes it down.
    fn feed(&mut self, bytes: &[u8])
        requires
            old(self).sound(),
        ensures
            final(self).sound(),
            final(self).model() == old(self).model().feed(bytes@),
    {
        parser_process(&mut self.parser, bytes);
        self.fed.extend_from_slice(bytes);
        assert(self.fed@ =~= old(self).fed@ + bytes@);
    }

    /// A core of another size that has been given the same bytes.
    fn laid_out(&self, rows: u16, cols: u16) -> (core: Core)
        requires
            self.sound(),
            supported_size(rows, cols),
        ensures
            core.sound(),
            core.model() == self.model().resize(rows, cols),
    {
        let mut core = Core::new(rows, cols);
        core.feed(self.fed.as_slice());
        assert(core.fed@ =~= self.fed@);
        core
    }
}

/// The terminal of one session. It follows the peer's output chunk by chunk
/// and can be asked at any time what the screen shows. Its size is always a
/// supported one.
pub struct Terminal {
    core: Core,
}

impl View for Terminal {
    type V = TerminalModel;

    closed spec fn view(&self) -> TerminalModel {
        self.core.model()
    }
}

impl Terminal {
    #[verifier::type_invariant]
    spec fn sound(&self) -> bool {
        self.core.sound()
    }

    /// A terminal of `rows` by `cols` that has been fed nothing: every cell
    /// is blank and the cursor is at the top left. `None` where the size is
    /// not a supported one.
    pub fn new(rows: u16, cols: u16) -> (made: Option<Terminal>)
        ensures
            made is Some <==> supported_size(rows, cols),
            made matches Some(t) ==> {
                &&& t@ == TerminalModel::fresh(rows, cols)
                &&& t@.cursor() == (0u16, 0u16)
                &&& forall|row: u16, col: u16| #[trigger] t@.cell(row, col) == CellModel::blank()
            },
    {
        if is_supported_size(rows, cols) {
            Some(Terminal { core: Core::new(rows, cols) })
        } else {
            None
        }
    }

    /// Consumes one chunk of the peer's output. A chunk may end anywhere,
    /// also inside a control sequence: what was begun is carried over to the
    /// next call.
    pub fn feed(&mut self, bytes: &[u8])
        ensures
            final(self)@ == old(self)@.feed(bytes@),
    {
        proof {
            use_type_invariant(&*self);
        }
        // The parser and the record of what it was given change one after
        // the other, so they change outside the terminal, which holds a
        // blank stand-in meanwhile.
        let mut core = Core::new(MIN_ROWS, MIN_COLS);
        core::mem::swap(&mut self.core, &mut core);
        core.feed(bytes);
        core::mem::swap(&mut self.core, &mut core);
    }

    /// Changes the grid's size. Returns whether it did: a size that is not
    /// supported leaves the terminal as it was. The output so far is laid
    /// out again on the new grid, which takes time in proportion to its
    /// length.
    pub fn resize(&mut self, rows: u16, cols: u16) -> (changed: bool)
        ensures
            changed == supported_size(rows, cols),
            changed ==> final(self)@ == old(self)@.resize(rows, cols),
            changed ==> final(self)@.cursor().0 < rows && final(self)@.cursor().1 < cols,
            !changed ==> final(self)@ == old(self)@,
    {
        proof {
            use_type_invariant(&*self);
        }
        if is_supported_size(rows, cols) {
            self.core = self.core.laid_out(rows, cols);
            true
        } else {
            false
        }
    }

    /// The grid's size, as (rows, columns).
    pub fn size(&self) -> (size: (u16, u16))
        ensures
            size == self@.size(),
            supported_size(size.0, size.1),
    {
        proof {
            use_type_invariant(self);
        }
        (self.core.rows, self.core.cols)
    }

    /// The cursor's position, as (row, column). It lies inside the grid: a
    /// cursor that waits past the last column is reported on it.
    pub fn cursor(&self) -> (at: (u16, u16))
        ensures
            at == self@.cursor(),
            at.0 < self@.rows,
            at.1 < self@.cols,
    {
        proof {
            use_type_invariant(self);
        }
        clamp(parser_cursor(&self.core.parser), self.core.rows, self.core.cols)
    }

    /// What the cell at `row`, `col` shows; a blank cell where the grid has
    /// none there.
    pub fn cell(&self, row: u16, col: u16) -> (cell: CellView)
        ensures
            cell@ == self@.cell(row, col),
    {
        proof {
            use_type_invariant(self);
        }
        cell_or_blank(parser_cell(&self.core.parser, row, col))
    }

    /// The cells of one row, left to right.
    pub fn row(&self, row: u16) -> (line: Vec<CellView>)
        ensures
            row_model(line@) == self@.row(row),
    {
        let cols = self.size().1;
        let mut line: Vec<CellView> = Vec::new();
        let mut c: u16 = 0;
        while c < cols
            invariant
                c <= cols,
                cols == self@.cols,
                line@.len() == c as nat,
                forall|j: int| 0 <= j < c ==> (#[trigger] line@[j])@ == self@.cell(row, j as u16),
            decreases cols - c,
        {
            let cell = self.cell(row, c);
            line.push(cell);
            c += 1;
        }
        assert(row_model(line@) =~= self@.row(row));
        line
    }

    /// A copy of the whole screen as it is now. The terminal cannot change
    /// while the copy is taken, so the copy shows one state of it, never
    /// parts of two.
    pub fn snapshot(&self) -> (view: ScreenView)
        ensures
            view@ == self@.screen(),
    {
        let (rows, cols) = self.size();
        let at = self.cursor();
        let mut cells: Vec<Vec<CellView>> = Vec::new();
        let mut r: u16 = 0;
        while r < rows
            invariant
                r <= rows,
                rows == self@.rows,
                cells@.len() == r as nat,
                forall|i: int|
                    0 <= i < r ==> row_model((#[trigger] cells@[i])@) == self@.row(i as u16),
            decreases rows - r,
        {
            let line = self.row(r);
            cells.push(line);
            r += 1;
        }
        let view = ScreenView { rows, cols, cursor_row: at.0, cursor_col: at.1, cells };
        assert(view@.cells =~= self@.screen().cells);
        view
    }

    /// The parser itself, for a front end that draws from it.
    pub fn parser(&self) -> (p: &vt100::Parser)
        ensures
            parser_origin(*p) == self@.size(),
            parser_inputs(*p) == self@.input,
    {
        proof {
            use_type_invariant(self);
        }
        &self.core.parser
    }
}

} // verus!
