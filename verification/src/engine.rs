//! The VT/ANSI interpretation engine.
//!
//! The engine itself is `alacritty_terminal`: it owns the character grid,
//! interprets escape sequences, and maintains cursor and mode state. This
//! module wraps one engine instance together with its byte parser in an
//! opaque type and states, over uninterpreted views of the engine's state,
//! what each call the rest of the crate makes is shown to do by the engine's
//! source: the grid always holds `rows * cols` cells in row-major order, a
//! fresh engine's cells are blank, interpretation never changes the grid's
//! dimensions, and a resize sets them to exactly the requested size.

use vstd::prelude::*;

use crate::colors::{AnsiColor, Color, NamedColor, named_from_code};
use crate::content::RenderCursor;
use alacritty_terminal::event::VoidListener;
use alacritty_terminal::grid::Dimensions;
use alacritty_terminal::index::{Column, Line, Point};
use alacritty_terminal::term::cell::Flags;
use alacritty_terminal::term::test::TermSize;
use alacritty_terminal::term::{Config, Term, TermMode};
use alacritty_terminal::vte::ansi;

verus! {

/// Grid dimensions, as the engine is constructed and resized with them.
#[derive(Debug, Clone, Copy, PartialEq, Eq, Structural)]
pub struct TermGridSize {
    pub columns: usize,
    pub screen_lines: usize,
}

impl TermGridSize {
    pub fn new(cols: u16, rows: u16) -> (s: Self)
        ensures
            s.columns == cols as usize,
            s.screen_lines == rows as usize,
    {
        TermGridSize { columns: cols as usize, screen_lines: rows as usize }
    }

    pub fn total_lines(&self) -> (n: usize)
        ensures
            n == self.screen_lines,
    {
        self.screen_lines
    }

    pub fn screen_lines(&self) -> (n: usize)
        ensures
            n == self.screen_lines,
    {
        self.screen_lines
    }

    pub fn columns(&self) -> (n: usize)
        ensures
            n == self.columns,
    {
        self.columns
    }
}

/// What a grid cell holds, as the rest of the crate reads it: the displayed
/// character, both colour references, and the two width markers. `spacer`
/// marks the second cell of a double-width character; it carries no glyph of
/// its own. `wide` marks the first.
#[derive(Debug, Clone, Copy, PartialEq, Eq, Structural)]
pub struct TermCell {
    pub ch: char,
    pub fg: AnsiColor,
    pub bg: AnsiColor,
    pub wide: bool,
    pub spacer: bool,
}

/// The cell a fresh engine fills its grid with: a space over the default
/// foreground and background, with no width markers.
pub open spec fn blank_cell() -> TermCell {
    TermCell {
        ch: ' ',
        fg: AnsiColor::Named(NamedColor::Foreground),
        bg: AnsiColor::Named(NamedColor::Background),
        wide: false,
        spacer: false,
    }
}

/// One VT engine instance: an `alacritty_terminal` terminal plus the parser
/// that feeds bytes into it. Opaque to verification; its state is spoken of
/// only through the uninterpreted functions below.
#[verifier::external_body]
pub struct VtEngine {
    term: Term<VoidListener>,
    parser: ansi::Processor,
}

/// The number of grid columns the engine currently holds.
pub uninterp spec fn grid_cols(e: VtEngine) -> nat;

/// The number of grid rows (screen lines) the engine currently holds.
pub uninterp spec fn grid_rows(e: VtEngine) -> nat;

/// The engine's visible grid cells in row-major order: the cell at grid
/// position (row, col) is element `row * grid_cols + col`.
pub uninterp spec fn grid_cells(e: VtEngine) -> Seq<TermCell>;

/// The cursor's grid column.
pub uninterp spec fn cursor_col(e: VtEngine) -> nat;

/// The cursor's grid row.
pub uninterp spec fn cursor_row(e: VtEngine) -> nat;

/// Whether the engine's mode state currently shows the cursor.
pub uninterp spec fn cursor_visible(e: VtEngine) -> bool;

impl VtEngine {
    /// Construct an engine sized to `size`.
    ///
    /// Relies on `alacritty_terminal::Term::new` and `vte::ansi::Processor::new`:
    /// the new terminal's grid is `screen_lines` rows of `columns` default
    /// cells (a space over the default foreground and background), its cursor
    /// starts at the origin, and its default mode set includes `SHOW_CURSOR`.
    #[verifier::external_body]
    pub fn new(size: &TermGridSize) -> (e: VtEngine)
        requires
            size.columns >= 1,
            size.screen_lines >= 1,
        ensures
            grid_cols(e) == size.columns as nat,
            grid_rows(e) == size.screen_lines as nat,
            grid_cells(e).len() == grid_rows(e) * grid_cols(e),
            forall|i: int| 0 <= i < grid_cells(e).len() ==> grid_cells(e)[i] == blank_cell(),
            cursor_col(e) == 0,
            cursor_row(e) == 0,
            cursor_visible(e),
    {
        let dims = TermSize::new(size.columns, size.screen_lines);
        let term = Term::new(Config::default(), &dims, VoidListener);
        VtEngine { term, parser: ansi::Processor::new() }
    }

    /// The engine's current grid dimensions, `(columns, rows)`.
    ///
    /// Relies on `alacritty_terminal::grid::Dimensions` on `Grid`: the grid
    /// always holds exactly `rows * cols` visible cells.
    #[verifier::external_body]
    pub fn dims(&self) -> (d: (usize, usize))
        ensures
            d.0 as nat == grid_cols(*self),
            d.1 as nat == grid_rows(*self),
            grid_cells(*self).len() == d.1 * d.0,
    {
        (self.term.grid().columns(), self.term.grid().screen_lines())
    }

    /// Feed a chunk of output bytes through the engine's interpreter.
    ///
    /// Relies on `vte::ansi::Processor::advance` driving the `Handler` impl of
    /// `alacritty_terminal::Term`: interpretation moves the cursor and
    /// rewrites cells but never changes the grid's dimensions.
    #[verifier::external_body]
    pub fn advance(&mut self, bytes: &[u8])
        ensures
            grid_cols(*final(self)) == grid_cols(*old(self)),
            grid_rows(*final(self)) == grid_rows(*old(self)),
            grid_cells(*final(self)).len() == grid_rows(*final(self)) * grid_cols(*final(self)),
    {
        self.parser.advance(&mut self.term, bytes);
    }

    /// Resize the grid to `size`, letting the engine reflow or truncate its
    /// content by its own policy.
    ///
    /// Relies on `alacritty_terminal::Term::resize`: afterwards the grid has
    /// exactly the requested dimensions.
    #[verifier::external_body]
    pub fn resize(&mut self, size: &TermGridSize)
        requires
            size.columns >= 1,
            size.screen_lines >= 1,
        ensures
            grid_cols(*final(self)) == size.columns as nat,
            grid_rows(*final(self)) == size.screen_lines as nat,
            grid_cells(*final(self)).len() == grid_rows(*final(self)) * grid_cols(*final(self)),
    {
        self.term.resize(TermSize::new(size.columns, size.screen_lines));
    }

    /// Read the cell at grid position (row, col).
    ///
    /// Relies on `Index<Point>` of `alacritty_terminal::grid::Grid` and the
    /// cell's public fields, on `Flags::contains` of its `bitflags` flag set,
    /// and on `vte::ansi::NamedColor`'s numeric codes (the 16 palette entries
    /// in declaration order, then 256 foreground, 257 background, 258 cursor).
    #[verifier::external_body]
    pub fn cell_at(&self, row: usize, col: usize) -> (c: TermCell)
        requires
            row < grid_rows(*self),
            col < grid_cols(*self),
        ensures
            c == grid_cells(*self)[row as int * grid_cols(*self) as int + col as int],
    {
        let cell = &self.term.grid()[Point::new(Line(row as i32), Column(col))];
        let conv = |c: &ansi::Color| -> AnsiColor {
            match c {
                ansi::Color::Named(n) => AnsiColor::Named(named_from_code(*n as usize)),
                ansi::Color::Spec(rgb) => AnsiColor::Spec(Color { r: rgb.r, g: rgb.g, b: rgb.b }),
                ansi::Color::Indexed(i) => AnsiColor::Indexed(*i),
            }
        };
        TermCell {
            ch: cell.c,
            fg: conv(&cell.fg),
            bg: conv(&cell.bg),
            wide: cell.flags.contains(Flags::WIDE_CHAR),
            spacer: cell.flags.contains(Flags::WIDE_CHAR_SPACER),
        }
    }

    /// Read the cursor's grid position and visibility.
    ///
    /// Relies on the public `cursor` field of `alacritty_terminal`'s grid and
    /// on `Term::mode`: the cursor is visible while the mode set contains
    /// `SHOW_CURSOR`. The cursor of the active grid never sits in scrollback,
    /// so its line is non-negative.
    #[verifier::external_body]
    pub fn cursor_state(&self) -> (cur: RenderCursor)
        ensures
            cur.col as nat == cursor_col(*self),
            cur.row as nat == cursor_row(*self),
            cur.visible == cursor_visible(*self),
    {
        let point = self.term.grid().cursor.point;
        RenderCursor {
            col: point.column.0,
            row: point.line.0 as usize,
            visible: self.term.mode().contains(TermMode::SHOW_CURSOR),
        }
    }
}

} // verus!
