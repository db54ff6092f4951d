//! Content extraction: snapshots of engine state for rendering.
//!
//! Each frame, the control thread extracts a `TerminalContent` from the
//! engine's grid. The snapshot lists the visible cells in row-major order,
//! omitting the spacer cells that pad double-width characters, with every
//! colour reference resolved to a concrete colour.

use vstd::arithmetic::div_mod::{lemma_fundamental_div_mod, lemma_fundamental_div_mod_converse};
use vstd::prelude::*;

use crate::colors::{ansi_to_color, spec_resolve_color, Color};
use crate::engine::{
    cursor_col, cursor_row, cursor_visible, grid_cells, grid_cols, grid_rows, TermCell, VtEngine,
};

verus! {

/// A single cell ready for rendering.
#[derive(Debug, Clone, Copy, PartialEq, Eq, Structural)]
pub struct RenderCell {
    /// Grid column (0-based).
    pub col: usize,
    /// Grid row (0-based, 0 = top of visible area).
    pub row: usize,
    /// Character to display (space for empty cells).
    pub c: char,
    /// Foreground colour, resolved.
    pub fg: Color,
    /// Background colour, resolved.
    pub bg: Color,
    /// Whether the cell starts a double-width character.
    pub wide: bool,
}

/// Cursor state for rendering.
#[derive(Debug, Clone, Copy, PartialEq, Eq, Structural)]
pub struct RenderCursor {
    pub col: usize,
    pub row: usize,
    pub visible: bool,
}

/// Snapshot of terminal state for one frame. Created whole on each
/// successful extraction and read-only afterwards.
#[derive(Debug, Clone)]
pub struct TerminalContent {
    /// All visible cells, row-major, spacer cells omitted.
    pub cells: Vec<RenderCell>,
    /// Grid dimensions (columns x rows).
    pub cols: usize,
    pub rows: usize,
    /// Cursor info.
    pub cursor: RenderCursor,
    /// Default background colour.
    pub default_bg: Color,
    /// Default foreground colour.
    pub default_fg: Color,
}

/// The default foreground a snapshot resolves cells against.
pub open spec fn snapshot_fg() -> Color {
    Color { r: 255, g: 255, b: 255 }
}

/// The default background a snapshot resolves cells against.
pub open spec fn snapshot_bg() -> Color {
    Color { r: 0, g: 0, b: 0 }
}

/// The rendered form of the grid cell at flat row-major position `pos`.
pub open spec fn spec_render_cell(
    cell: TermCell,
    pos: int,
    cols: nat,
    fg: Color,
    bg: Color,
) -> RenderCell {
    RenderCell {
        col: (pos % cols as int) as usize,
        row: (pos / cols as int) as usize,
        c: cell.ch,
        fg: spec_resolve_color(cell.fg, fg, bg),
        bg: spec_resolve_color(cell.bg, fg, bg),
        wide: cell.wide,
    }
}

/// The rendered cells for grid positions `pos` onwards: every cell in
/// row-major order except the spacers.
pub open spec fn spec_extract_cells(
    g: Seq<TermCell>,
    cols: nat,
    fg: Color,
    bg: Color,
    pos: int,
) -> Seq<RenderCell>
    decreases g.len() - pos,
{
    if pos < 0 || pos >= g.len() {
        Seq::empty()
    } else {
        let rest = spec_extract_cells(g, cols, fg, bg, pos + 1);
        if g[pos].spacer {
            rest
        } else {
            seq![spec_render_cell(g[pos], pos, cols, fg, bg)] + rest
        }
    }
}

/// What `from_term` extracts from an engine: the spacer-free rendered cells
/// of the whole grid.
pub open spec fn spec_content_cells(e: VtEngine) -> Seq<RenderCell> {
    spec_extract_cells(grid_cells(e), grid_cols(e), snapshot_fg(), snapshot_bg(), 0)
}

impl TerminalContent {
    /// Extract renderable content from an engine.
    pub fn from_term(engine: &VtEngine) -> (content: TerminalContent)
        ensures
            content.cols as nat == grid_cols(*engine),
            content.rows as nat == grid_rows(*engine),
            content.cells@ == spec_content_cells(*engine),
            content.cursor.col as nat == cursor_col(*engine),
            content.cursor.row as nat == cursor_row(*engine),
            content.cursor.visible == cursor_visible(*engine),
            content.default_fg == snapshot_fg(),
            content.default_bg == snapshot_bg(),
    {
        let (num_cols, num_lines) = engine.dims();
        let default_fg = Color { r: 255, g: 255, b: 255 };
        let default_bg = Color { r: 0, g: 0, b: 0 };
        let ghost g = grid_cells(*engine);
        let ghost cols_g = grid_cols(*engine);

        let mut cells: Vec<RenderCell> = Vec::new();
        let mut row: usize = 0;
        while row < num_lines
            invariant
                num_cols as nat == grid_cols(*engine),
                num_lines as nat == grid_rows(*engine),
                g == grid_cells(*engine),
                cols_g == grid_cols(*engine),
                g.len() == num_lines * num_cols,
                row <= num_lines,
                cells@ + spec_extract_cells(g, cols_g, default_fg, default_bg, row * num_cols)
                    == spec_extract_cells(g, cols_g, default_fg, default_bg, 0),
            decreases num_lines - row,
        {
            let mut col: usize = 0;
            while col < num_cols
                invariant
                    num_cols as nat == grid_cols(*engine),
                    num_lines as nat == grid_rows(*engine),
                    g == grid_cells(*engine),
                    cols_g == grid_cols(*engine),
                    g.len() == num_lines * num_cols,
                    row < num_lines,
                    col <= num_cols,
                    cells@ + spec_extract_cells(
                        g,
                        cols_g,
                        default_fg,
                        default_bg,
                        row * num_cols + col,
                    ) == spec_extract_cells(g, cols_g, default_fg, default_bg, 0),
                decreases num_cols - col,
            {
                let ghost pos = row as int * num_cols as int + col as int;
                proof {
                    assert(pos < g.len()) by (nonlinear_arith)
                        requires
                            row < num_lines,
                            col < num_cols,
                            g.len() == num_lines * num_cols,
                            pos == row as int * num_cols as int + col as int,
                    ;
                    lemma_fundamental_div_mod_converse(
                        pos,
                        num_cols as int,
                        row as int,
                        col as int,
                    );
                }
                let cell = engine.cell_at(row, col);
                if !cell.spacer {
                    let fg = ansi_to_color(&cell.fg, &default_fg, &default_bg);
                    let bg = ansi_to_color(&cell.bg, &default_fg, &default_bg);
                    cells.push(RenderCell { col, row, c: cell.ch, fg, bg, wide: cell.wide });
                    proof {
                        assert(cells@ + spec_extract_cells(g, cols_g, default_fg, default_bg, pos + 1)
                            =~= cells@.drop_last() + spec_extract_cells(
                            g,
                            cols_g,
                            default_fg,
                            default_bg,
                            pos,
                        ));
                    }
                }
                col = col + 1;
            }
            proof {
                assert(row as int * num_cols as int + num_cols as int == (row + 1) as int
                    * num_cols as int) by (nonlinear_arith);
            }
            row = row + 1;
        }
        proof {
            assert(cells@ =~= cells@ + spec_extract_cells(
                g,
                cols_g,
                default_fg,
                default_bg,
                num_lines as int * num_cols as int,
            ));
        }
        let cursor = engine.cursor_state();
        TerminalContent { cells, cols: num_cols, rows: num_lines, cursor, default_bg, default_fg }
    }
}

/// Whitespace that extraction trims from the end of each output line.
pub open spec fn is_line_ws(c: char) -> bool {
    c == ' ' || c == '\t'
}

/// Length of `s` once trailing whitespace is removed.
pub open spec fn spec_trim_len(s: Seq<char>) -> nat
    decreases s.len(),
{
    if s.len() == 0 {
        0
    } else if is_line_ws(s.last()) {
        spec_trim_len(s.drop_last())
    } else {
        s.len()
    }
}

/// `s` with its trailing whitespace removed; leading and interior
/// whitespace is untouched.
pub open spec fn spec_trim_end(s: Seq<char>) -> Seq<char> {
    s.take(spec_trim_len(s) as int)
}

/// The characters a region row contributes before trimming: for columns
/// `c..=c_end` in order, the character of every cell that lies inside the
/// grid and is not a spacer.
pub open spec fn spec_region_row(
    g: Seq<TermCell>,
    cols: nat,
    rows: nat,
    r: int,
    c: int,
    c_end: int,
) -> Seq<char>
    decreases c_end + 1 - c,
{
    if c > c_end {
        Seq::empty()
    } else {
        let rest = spec_region_row(g, cols, rows, r, c + 1, c_end);
        if 0 <= r < rows && 0 <= c < cols && !g[r * cols as int + c].spacer {
            seq![g[r * cols as int + c].ch] + rest
        } else {
            rest
        }
    }
}

/// The text of the region rows `r..=end_row`: each row's characters with
/// trailing whitespace trimmed, rows joined by a newline. The first row
/// starts at column `c0`, later rows at column 0; every row but the last
/// ends at the grid's last column, the last at `end_col`.
pub open spec fn spec_region_text(
    g: Seq<TermCell>,
    cols: nat,
    rows: nat,
    r: int,
    end_row: int,
    c0: int,
    end_col: int,
) -> Seq<char>
    decreases end_row - r,
{
    if r > end_row {
        Seq::empty()
    } else {
        let c_end = if r == end_row {
            end_col
        } else {
            cols - 1
        };
        let line = spec_trim_end(spec_region_row(g, cols, rows, r, c0, c_end));
        if r == end_row {
            line
        } else {
            line + seq!['\n'] + spec_region_text(g, cols, rows, r + 1, end_row, 0, end_col)
        }
    }
}

/// The text `extract_text` yields for a region of an engine's grid.
pub open spec fn spec_extract_text(
    g: Seq<TermCell>,
    cols: nat,
    rows: nat,
    start_row: int,
    start_col: int,
    end_row: int,
    end_col: int,
) -> Seq<char> {
    spec_region_text(g, cols, rows, start_row, end_row, start_col, end_col)
}

/// A row outside the grid contributes no characters.
proof fn lemma_region_row_outside(g: Seq<TermCell>, cols: nat, rows: nat, r: int, c: int, c_end: int)
    requires
        r < 0 || r >= rows,
    ensures
        spec_region_row(g, cols, rows, r, c, c_end) =~= Seq::<char>::empty(),
    decreases c_end + 1 - c,
{
    if c <= c_end {
        lemma_region_row_outside(g, cols, rows, r, c + 1, c_end);
    }
}

/// Columns at or beyond the grid's width contribute no characters.
proof fn lemma_region_row_beyond(g: Seq<TermCell>, cols: nat, rows: nat, r: int, c: int, c_end: int)
    requires
        c >= cols,
    ensures
        spec_region_row(g, cols, rows, r, c, c_end) =~= Seq::<char>::empty(),
    decreases c_end + 1 - c,
{
    if c <= c_end {
        lemma_region_row_beyond(g, cols, rows, r, c + 1, c_end);
    }
}

/// Trimming never lengthens a line.
proof fn lemma_trim_len_le(s: Seq<char>)
    ensures
        spec_trim_len(s) <= s.len(),
    decreases s.len(),
{
    if s.len() > 0 && is_line_ws(s.last()) {
        lemma_trim_len_le(s.drop_last());
    }
}

/// If everything from position `k` on is whitespace, trimming stops at or
/// before `k`.
proof fn lemma_trim_len_suffix(s: Seq<char>, k: int)
    requires
        0 <= k <= s.len(),
        forall|i: int| k <= i < s.len() ==> is_line_ws(s[i]),
    ensures
        spec_trim_len(s) == spec_trim_len(s.take(k)),
    decreases s.len() - k,
{
    if k == s.len() {
        assert(s.take(k) =~= s);
    } else {
        assert(is_line_ws(s.last()));
        assert(s.drop_last() =~= s.take(s.len() - 1));
        lemma_trim_len_suffix(s.take(s.len() - 1), k);
        assert(s.take(s.len() - 1).take(k) =~= s.take(k));
    }
}

/// The length of a row buffer once its trailing whitespace is dropped.
fn trimmed_len(buf: &Vec<char>) -> (k: usize)
    ensures
        k as nat == spec_trim_len(buf@),
{
    let mut k: usize = buf.len();
    loop
        invariant
            k <= buf.len(),
            forall|i: int| k <= i < buf@.len() ==> is_line_ws(buf@[i]),
        ensures
            k <= buf.len(),
            forall|i: int| k <= i < buf@.len() ==> is_line_ws(buf@[i]),
            k == 0 || !is_line_ws(buf@[k - 1]),
        decreases k,
    {
        if k == 0 {
            break;
        }
        let c = buf[k - 1];
        if c == ' ' || c == '\t' {
            k = k - 1;
        } else {
            break;
        }
    }
    proof {
        lemma_trim_len_suffix(buf@, k as int);
        let t = buf@.take(k as int);
        if k > 0 {
            assert(!is_line_ws(t.last()));
        }
        assert(spec_trim_len(t) == k);
    }
    k
}

/// Append `buf`, with its trailing whitespace trimmed, to `text`.
fn append_trimmed(text: &mut String, buf: &Vec<char>)
    ensures
        final(text)@ == old(text)@ + spec_trim_end(buf@),
{
    let keep = trimmed_len(buf);
    proof {
        lemma_trim_len_le(buf@);
    }
    let ghost t0 = text@;
    let mut j: usize = 0;
    while j < keep
        invariant
            keep as nat == spec_trim_len(buf@),
            keep <= buf@.len(),
            j <= keep,
            text@ == t0 + buf@.take(j as int),
        decreases keep - j,
    {
        crate::text::push_char(text, buf[j]);
        proof {
            assert(t0 + buf@.take(j + 1) =~= (t0 + buf@.take(j as int)).push(buf@[j as int]));
        }
        j = j + 1;
    }
    proof {
        assert(text@ =~= t0 + spec_trim_end(buf@));
    }
}

/// Extract the text of a rectangular region of the engine's grid.
///
/// The region runs from (start_row, start_col) to (end_row, end_col), both
/// inclusive; cells outside the grid contribute nothing. Spacer cells are
/// skipped, trailing whitespace is trimmed from each output line, and
/// leading and interior spacing is preserved.
pub fn extract_text(
    engine: &VtEngine,
    start_row: usize,
    start_col: usize,
    end_row: usize,
    end_col: usize,
) -> (text: String)
    ensures
        text@ == spec_extract_text(
            grid_cells(*engine),
            grid_cols(*engine),
            grid_rows(*engine),
            start_row as int,
            start_col as int,
            end_row as int,
            end_col as int,
        ),
{
    let (num_cols, num_lines) = engine.dims();
    let ghost g = grid_cells(*engine);
    let ghost cols_g = grid_cols(*engine);
    let ghost rows_g = grid_rows(*engine);

    let mut text = String::new();
    if start_row > end_row {
        return text;
    }
    let mut row: usize = start_row;
    loop
        invariant_except_break
            text@ + spec_region_text(
                g,
                cols_g,
                rows_g,
                row as int,
                end_row as int,
                if row == start_row {
                    start_col as int
                } else {
                    0
                },
                end_col as int,
            ) == spec_region_text(
                g,
                cols_g,
                rows_g,
                start_row as int,
                end_row as int,
                start_col as int,
                end_col as int,
            ),
        invariant
            num_cols as nat == cols_g,
            num_lines as nat == rows_g,
            g == grid_cells(*engine),
            cols_g == grid_cols(*engine),
            rows_g == grid_rows(*engine),
            g.len() == num_lines * num_cols,
            start_row <= row <= end_row,
        ensures
            text@ == spec_region_text(
                g,
                cols_g,
                rows_g,
                start_row as int,
                end_row as int,
                start_col as int,
                end_col as int,
            ),
        decreases end_row - row,
    {
        let col_start: usize = if row == start_row {
            start_col
        } else {
            0
        };
        let ghost c_end_spec: int = if row == end_row {
            end_col as int
        } else {
            cols_g - 1
        };

        let mut buf: Vec<char> = Vec::new();
        if row < num_lines {
            // Exclusive upper bound for the columns that can contribute:
            // nothing at or beyond the grid width does.
            let stop: usize = if row == end_row {
                if end_col >= num_cols {
                    num_cols
                } else {
                    end_col + 1
                }
            } else {
                num_cols
            };
            let mut col: usize = col_start;
            while col < stop
                invariant
                    num_cols as nat == cols_g,
                    num_lines as nat == rows_g,
                    g == grid_cells(*engine),
                    cols_g == grid_cols(*engine),
                    rows_g == grid_rows(*engine),
                    g.len() == num_lines * num_cols,
                    row < num_lines,
                    stop <= num_cols,
                    stop as int <= c_end_spec + 1,
                    col_start <= col <= stop || (col == col_start && col >= stop),
                    buf@ + spec_region_row(g, cols_g, rows_g, row as int, col as int, c_end_spec)
                        == spec_region_row(
                        g,
                        cols_g,
                        rows_g,
                        row as int,
                        col_start as int,
                        c_end_spec,
                    ),
                decreases stop - col,
            {
                let cell = engine.cell_at(row, col);
                proof {
                    assert((row as int * cols_g as int + col as int) < g.len())
                        by (nonlinear_arith)
                        requires
                            row < num_lines,
                            col < num_cols,
                            num_cols as nat == cols_g,
                            g.len() == num_lines * num_cols,
                    ;
                }
                if !cell.spacer {
                    buf.push(cell.ch);
                    proof {
                        assert(buf@ + spec_region_row(
                            g,
                            cols_g,
                            rows_g,
                            row as int,
                            col + 1,
                            c_end_spec,
                        ) =~= buf@.drop_last() + spec_region_row(
                            g,
                            cols_g,
                            rows_g,
                            row as int,
                            col as int,
                            c_end_spec,
                        ));
                    }
                }
                col = col + 1;
            }
            proof {
                if (col as int) <= c_end_spec {
                    lemma_region_row_beyond(g, cols_g, rows_g, row as int, col as int, c_end_spec);
                }
                assert(buf@ =~= spec_region_row(
                    g,
                    cols_g,
                    rows_g,
                    row as int,
                    col_start as int,
                    c_end_spec,
                ));
            }
        } else {
            proof {
                lemma_region_row_outside(g, cols_g, rows_g, row as int, col_start as int, c_end_spec);
            }
        }
        let ghost text_before = text@;
        append_trimmed(&mut text, &buf);
        if row == end_row {
            proof {
                let line = spec_trim_end(
                    spec_region_row(g, cols_g, rows_g, row as int, col_start as int, c_end_spec),
                );
                assert(spec_region_text(
                    g,
                    cols_g,
                    rows_g,
                    row as int,
                    end_row as int,
                    col_start as int,
                    end_col as int,
                ) == line);
            }
            break;
        }
        crate::text::push_char(&mut text, '\n');
        proof {
            let line = spec_trim_end(
                spec_region_row(g, cols_g, rows_g, row as int, col_start as int, c_end_spec),
            );
            assert(text@ =~= text_before + (line + seq!['\n']));
            assert(text_before + (line + seq!['\n'] + spec_region_text(
                g,
                cols_g,
                rows_g,
                row as int + 1,
                end_row as int,
                0,
                end_col as int,
            )) =~= text@ + spec_region_text(
                g,
                cols_g,
                rows_g,
                row as int + 1,
                end_row as int,
                0,
                end_col as int,
            ));
        }
        row = row + 1;
    }
    text
}


/// Every extracted cell renders a real, non-spacer grid cell: its column
/// lies inside the grid and the cell at its row-major position is the one
/// rendered.
pub proof fn lemma_extracted_cells_sound(
    g: Seq<TermCell>,
    cols: nat,
    fg: Color,
    bg: Color,
    pos: int,
)
    requires
        cols >= 1,
        cols <= usize::MAX,
        g.len() <= usize::MAX,
    ensures
        forall|k: int|
            0 <= k < spec_extract_cells(g, cols, fg, bg, pos).len() ==> {
                let rc = #[trigger] spec_extract_cells(g, cols, fg, bg, pos)[k];
                let p = rc.row as int * cols as int + rc.col as int;
                &&& rc.col < cols
                &&& pos <= p < g.len()
                &&& !g[p].spacer
                &&& rc == spec_render_cell(g[p], p, cols, fg, bg)
            },
    decreases g.len() - pos,
{
    if 0 <= pos < g.len() {
        lemma_extracted_cells_sound(g, cols, fg, bg, pos + 1);
        let ec = spec_extract_cells(g, cols, fg, bg, pos);
        let rest = spec_extract_cells(g, cols, fg, bg, pos + 1);
        if !g[pos].spacer {
            lemma_fundamental_div_mod(pos, cols as int);
            assert(0 <= pos % (cols as int) && pos % (cols as int) < cols as int) by (nonlinear_arith)
                requires
                    cols >= 1,
                    pos >= 0,
            ;
            assert(0 <= pos / (cols as int) && pos / (cols as int) <= pos) by (nonlinear_arith)
                requires
                    cols >= 1,
                    pos >= 0,
            ;
            let rc0 = spec_render_cell(g[pos], pos, cols, fg, bg);
            let q = pos / (cols as int);
            let r = pos % (cols as int);
            assert(rc0.row as int == q);
            assert(rc0.col as int == r);
            assert(q * cols as int == cols as int * q) by (nonlinear_arith);
            assert(rc0.row as int * cols as int + rc0.col as int == pos);
            assert forall|k: int| 0 <= k < ec.len() implies {
                let rc = #[trigger] ec[k];
                let p = rc.row as int * cols as int + rc.col as int;
                &&& rc.col < cols
                &&& pos <= p < g.len()
                &&& !g[p].spacer
                &&& rc == spec_render_cell(g[p], p, cols, fg, bg)
            } by {
                if k > 0 {
                    assert(ec[k] == rest[k - 1]);
                }
            }
        }
    }
}

/// A double-width character's continuation cell is a spacer, and extraction
/// emits no cell for a spacer: if the grid cell at (row, col) is a spacer,
/// no extracted cell lies at that row and column.
pub proof fn lemma_no_cell_at_spacer_position(
    g: Seq<TermCell>,
    cols: nat,
    fg: Color,
    bg: Color,
    row: int,
    col: int,
)
    requires
        cols >= 1,
        cols <= usize::MAX,
        g.len() <= usize::MAX,
        0 <= row,
        0 <= col < cols,
        row * cols as int + col < g.len(),
        g[row * cols as int + col].spacer,
    ensures
        forall|k: int|
            0 <= k < spec_extract_cells(g, cols, fg, bg, 0).len()
                ==> !((#[trigger] spec_extract_cells(g, cols, fg, bg, 0)[k]).row as int == row
                && spec_extract_cells(g, cols, fg, bg, 0)[k].col as int == col),
{
    lemma_extracted_cells_sound(g, cols, fg, bg, 0);
    let ec = spec_extract_cells(g, cols, fg, bg, 0);
    assert forall|k: int| 0 <= k < ec.len() implies !((#[trigger] ec[k]).row as int == row
        && ec[k].col as int == col) by {
        let rc = ec[k];
        if rc.row as int == row && rc.col as int == col {
            assert(!g[row * cols as int + col].spacer);
        }
    }
}

/// Trimming a line removes exactly its trailing whitespace: the result is a
/// prefix of the line, every leading and interior character — spacing
/// included — is kept unchanged, everything dropped is whitespace, and the
/// result does not itself end in whitespace.
pub proof fn lemma_trim_end_exact(s: Seq<char>)
    ensures
        spec_trim_len(s) <= s.len(),
        spec_trim_end(s).len() == spec_trim_len(s),
        forall|i: int| 0 <= i < spec_trim_len(s) ==> spec_trim_end(s)[i] == s[i],
        forall|i: int| spec_trim_len(s) <= i < s.len() ==> is_line_ws(s[i]),
        spec_trim_len(s) > 0 ==> !is_line_ws(spec_trim_end(s).last()),
    decreases s.len(),
{
    lemma_trim_len_le(s);
    if s.len() > 0 && is_line_ws(s.last()) {
        lemma_trim_end_exact(s.drop_last());
        assert forall|i: int| 0 <= i < spec_trim_len(s) implies spec_trim_end(s)[i] == s[i] by {
            assert(spec_trim_end(s.drop_last())[i] == s.drop_last()[i]);
        }
        assert forall|i: int| spec_trim_len(s) <= i < s.len() implies is_line_ws(s[i]) by {
            if i < s.len() - 1 {
                assert(is_line_ws(s.drop_last()[i]));
            }
        }
        if spec_trim_len(s) > 0 {
            assert(spec_trim_end(s).last() == spec_trim_end(s.drop_last()).last());
        }
    }
}

} // verus!
