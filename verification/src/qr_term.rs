use vstd::prelude::*;

use crate::matrix::BitMatrix;
use vstd::string::StringExecFns;

verus! {

// ---------------------------------------------------------------------------
// The rendered alphabet.
//
// ASCII mode paints each cell as a two-character colored block; Unicode mode
// packs two vertically adjacent cells into one half-block glyph.  Color
// escape sequences bracket each Unicode row (and the border rows of both
// modes): foreground is the clear color, background the set color.
// ---------------------------------------------------------------------------

/// The two-character block of a set cell (dark background).
pub open spec fn spec_black() -> Seq<char> {
    "\x1B[40m  \x1B[0m"@
}

/// The two-character block of a clear cell (light background).
pub open spec fn spec_white() -> Seq<char> {
    "\x1B[47m  \x1B[0m"@
}

/// Escape prefix selecting clear-color foreground on set-color background.
pub open spec fn spec_fg_bg() -> Seq<char> {
    "\x1B[30m\x1B[47m"@
}

/// Escape sequence restoring the terminal's default colors.
pub open spec fn spec_reset() -> Seq<char> {
    "\x1B[0m"@
}

pub open spec fn spec_nl() -> Seq<char> {
    "\n"@
}

/// The block of one cell in ASCII mode.
pub open spec fn spec_cell(set: bool) -> Seq<char> {
    if set {
        spec_black()
    } else {
        spec_white()
    }
}

/// The glyph packing a vertical pair of cells: blank, lower half, upper
/// half, or full block.
pub open spec fn spec_glyph(upper: bool, lower: bool) -> Seq<char> {
    if upper {
        if lower {
            "\u{2588}"@
        } else {
            "\u{2580}"@
        }
    } else {
        if lower {
            "\u{2584}"@
        } else {
            " "@
        }
    }
}

fn cell_str(set: bool) -> (r: &'static str)
    ensures
        r@ == spec_cell(set),
{
    if set {
        "\x1B[40m  \x1B[0m"
    } else {
        "\x1B[47m  \x1B[0m"
    }
}

/// Enters clear-on-set colors at the start of a framed row.
pub fn black_on_white() -> (r: &'static str)
    ensures
        r@ == spec_fg_bg(),
{
    "\x1B[30m\x1B[47m"
}

/// Leaves the colored region at the end of a framed row.
pub fn reset_colors() -> (r: &'static str)
    ensures
        r@ == spec_reset(),
{
    "\x1B[0m"
}

fn newline_str() -> (r: &'static str)
    ensures
        r@ == spec_nl(),
{
    "\n"
}

/// Selects the glyph for a vertical pair of cells, given as (upper, lower).
pub fn glyph(b: (bool, bool)) -> (r: &'static str)
    ensures
        r@ == spec_glyph(b.0, b.1),
{
    match b {
        (false, false) => " ",
        (false, true) => "\u{2584}",
        (true, false) => "\u{2580}",
        (true, true) => "\u{2588}",
    }
}

/// The cell below `(x, y)`, or clear when `y` is the last row.
pub open spec fn spec_lower(m: BitMatrix, x: int, y: int) -> bool {
    if y + 1 < m.side {
        m.spec_bit(x, y + 1)
    } else {
        false
    }
}

/// Reads the vertical pair of cells at column `x` starting at row `y`;
/// the missing partner of the last row of an odd-sided grid is clear.
pub fn block(m: &BitMatrix, x: usize, y: usize) -> (r: (bool, bool))
    requires
        m.wf(),
        x < m.side,
        y < m.side,
    ensures
        r.0 == m.spec_bit(x as int, y as int),
        r.1 == spec_lower(*m, x as int, y as int),
{
    let upper = m.get(x, y);
    let lower = if y + 1 < m.side {
        m.get(x, y + 1)
    } else {
        false
    };
    (upper, lower)
}

// ---------------------------------------------------------------------------
// Lines as concatenations of block sequences.
// ---------------------------------------------------------------------------

/// Concatenation of a sequence of character sequences.
pub open spec fn concat_all(bs: Seq<Seq<char>>) -> Seq<char>
    decreases bs.len(),
{
    if bs.len() == 0 {
        Seq::empty()
    } else {
        concat_all(bs.drop_last()) + bs.last()
    }
}

pub proof fn lemma_concat_all_take_step(bs: Seq<Seq<char>>, k: int)
    requires
        0 <= k < bs.len(),
    ensures
        concat_all(bs.take(k + 1)) == concat_all(bs.take(k)) + bs[k],
{
    assert(bs.take(k + 1).drop_last() =~= bs.take(k));
    assert(bs.take(k + 1).last() == bs[k]);
}

/// `n` copies of one border unit.
pub open spec fn spec_unit_blocks(u: Seq<char>, n: nat) -> Seq<Seq<char>> {
    Seq::new(n, |j: int| u)
}

/// A horizontal border line: the unit repeated across the full width,
/// wrapped in the color escapes, prefixed by the padding.
pub open spec fn spec_border_line(n: nat, pad: Seq<char>, unit: Seq<char>) -> Seq<char> {
    pad + spec_fg_bg() + concat_all(spec_unit_blocks(unit, (n + 2) as nat)) + spec_reset()
        + spec_nl()
}

/// Writes one horizontal border line of `size + 2` units.
pub fn horiz_border(size: usize, pad: &str, unit: &str) -> (r: String)
    requires
        size + 2 <= usize::MAX,
    ensures
        r@ == spec_border_line(size as nat, pad@, unit@),
{
    let ghost blocks = spec_unit_blocks(unit@, (size + 2) as nat);
    let mut line = String::from_str(pad);
    line.append(black_on_white());
    let count = size + 2;
    let mut j: usize = 0;
    assert(line@ =~= pad@ + spec_fg_bg() + concat_all(blocks.take(0)));
    while j < count
        invariant
            count == size + 2,
            j <= count,
            blocks == spec_unit_blocks(unit@, count as nat),
            line@ == pad@ + spec_fg_bg() + concat_all(blocks.take(j as int)),
        decreases count - j,
    {
        proof {
            lemma_concat_all_take_step(blocks, j as int);
        }
        line.append(unit);
        j += 1;
    }
    assert(blocks.take(count as int) =~= blocks);
    line.append(reset_colors());
    line.append(newline_str());
    assert(line@ =~= spec_border_line(size as nat, pad@, unit@));
    line
}

// ---------------------------------------------------------------------------
// ASCII mode: one block per cell, a one-block clear border on all sides.
// ---------------------------------------------------------------------------

/// The blocks of row `i` (0 and side + 1 are border rows): a clear block at
/// each edge and on border rows, the cell's block in between.
pub open spec fn spec_ascii_blocks(m: BitMatrix, i: int) -> Seq<Seq<char>> {
    Seq::new(
        (m.side + 2) as nat,
        |j: int|
            if 1 <= i <= m.side && 1 <= j <= m.side {
                spec_cell(m.spec_bit(j - 1, i - 1))
            } else {
                spec_white()
            },
    )
}

/// Line `i` of the ASCII rendering, newline-terminated.
pub open spec fn spec_ascii_line(m: BitMatrix, pad: Seq<char>, i: int) -> Seq<char> {
    if i == 0 || i == m.side + 1 {
        spec_border_line(m.side as nat, pad, spec_white())
    } else {
        pad + concat_all(spec_ascii_blocks(m, i)) + spec_nl()
    }
}

proof fn lemma_side_fits(side: int, len: int)
    requires
        0 <= side,
        len == side * side,
        len <= usize::MAX,
    ensures
        side + 2 <= usize::MAX,
{
    if side >= 3 {
        assert(side + 2 <= side * side) by (nonlinear_arith)
            requires
                side >= 3,
        ;
    }
}

/// Renders the grid in ASCII mode: `side + 2` newline-terminated lines, each
/// prefixed by `pad`, of `side + 2` two-character blocks each.
pub fn output_ascii(m: &BitMatrix, pad: &str) -> (r: Vec<String>)
    requires
        m.wf(),
    ensures
        r@.len() == m.side + 2,
        forall|i: int| 0 <= i < r@.len() ==> #[trigger] r@[i]@ == spec_ascii_line(*m, pad@, i),
{
    let len: usize = m.bits.len();
    proof {
        lemma_side_fits(m.side as int, len as int);
    }
    let mut lines: Vec<String> = Vec::new();
    lines.push(horiz_border(m.side, pad, cell_str(false)));
    let mut i: usize = 1;
    while i <= m.side
        invariant
            m.wf(),
            m.side + 2 <= usize::MAX,
            1 <= i <= m.side + 1,
            lines@.len() == i,
            forall|k: int| 0 <= k < i ==> #[trigger] lines@[k]@ == spec_ascii_line(*m, pad@, k),
        decreases m.side + 1 - i,
    {
        let ghost blocks = spec_ascii_blocks(*m, i as int);
        let mut line = String::from_str(pad);
        let count = m.side + 2;
        let mut j: usize = 0;
        assert(line@ =~= pad@ + concat_all(blocks.take(0)));
        while j < count
            invariant
                m.wf(),
                1 <= i <= m.side,
                count == m.side + 2,
                j <= count,
                blocks == spec_ascii_blocks(*m, i as int),
                line@ == pad@ + concat_all(blocks.take(j as int)),
            decreases count - j,
        {
            let piece: &str = if 1 <= j && j <= m.side {
                cell_str(m.get(j - 1, i - 1))
            } else {
                cell_str(false)
            };
            proof {
                lemma_concat_all_take_step(blocks, j as int);
            }
            line.append(piece);
            j += 1;
        }
        assert(blocks.take(count as int) =~= blocks);
        line.append(newline_str());
        assert(line@ =~= spec_ascii_line(*m, pad@, i as int));
        lines.push(line);
        i += 1;
    }
    lines.push(horiz_border(m.side, pad, cell_str(false)));
    lines
}

/// Every row of the ASCII rendering, border rows included, is built from
/// exactly `side + 2` blocks; each block is the set or the clear block, and
/// all blocks have the same character length, so every line is the same
/// rendered width.
pub proof fn lemma_ascii_row_width(m: BitMatrix, pad: Seq<char>, i: int)
    requires
        m.wf(),
        0 <= i < m.side + 2,
    ensures
        spec_ascii_blocks(m, i).len() == m.side + 2,
        forall|j: int|
            0 <= j < m.side + 2 ==> #[trigger] spec_ascii_blocks(m, i)[j] == spec_black()
                || spec_ascii_blocks(m, i)[j] == spec_white(),
        spec_black().len() == 11 && spec_white().len() == 11,
        spec_ascii_line(m, pad, i) == (if i == 0 || i == m.side + 1 {
            pad + spec_fg_bg() + concat_all(spec_ascii_blocks(m, i)) + spec_reset() + spec_nl()
        } else {
            pad + concat_all(spec_ascii_blocks(m, i)) + spec_nl()
        }),
{
    reveal_strlit("\x1B[40m  \x1B[0m");
    reveal_strlit("\x1B[47m  \x1B[0m");
    if i == 0 || i == m.side + 1 {
        assert(spec_unit_blocks(spec_white(), (m.side + 2) as nat) =~= spec_ascii_blocks(m, i));
    }
}

// ---------------------------------------------------------------------------
// Unicode mode: two rows per glyph line, half-block borders.
// ---------------------------------------------------------------------------

/// Number of glyph lines covering the grid's rows: two rows per line, the
/// odd last row padded with a clear partner.
pub open spec fn spec_uni_body_rows(n: nat) -> nat {
    ((n + 1) / 2) as nat
}

/// Total number of lines of the Unicode rendering: the top border, the glyph
/// lines, and a bottom border only when the side length is even (an odd last
/// row already draws its own bottom border through its clear lower halves).
pub open spec fn spec_uni_line_count(n: nat) -> nat {
    (1 + spec_uni_body_rows(n) + if n % 2 == 0 {
        1nat
    } else {
        0nat
    }) as nat
}

/// The blocks of the glyph line starting at grid row `y`: a blank border
/// column at each edge, glyphs of vertical cell pairs in between.
pub open spec fn spec_uni_blocks(m: BitMatrix, y: int) -> Seq<Seq<char>> {
    Seq::new(
        (m.side + 2) as nat,
        |j: int|
            if 1 <= j <= m.side {
                spec_glyph(m.spec_bit(j - 1, y), spec_lower(m, j - 1, y))
            } else {
                spec_glyph(false, false)
            },
    )
}

/// Line `i` of the Unicode rendering, newline-terminated.
pub open spec fn spec_uni_line(m: BitMatrix, pad: Seq<char>, i: int) -> Seq<char> {
    if i == 0 {
        spec_border_line(m.side as nat, pad, spec_glyph(true, false))
    } else if 1 <= i <= spec_uni_body_rows(m.side as nat) {
        pad + spec_fg_bg() + concat_all(spec_uni_blocks(m, 2 * (i - 1))) + spec_reset()
            + spec_nl()
    } else {
        spec_border_line(m.side as nat, pad, spec_glyph(false, true))
    }
}

/// Renders the grid in Unicode half-block mode.  The line count is the top
/// border plus one line per two grid rows, plus a bottom border only for
/// even side lengths: an odd side yields exactly `(side + 1) / 2 + 1` lines
/// and no separate bottom border.
pub fn output_unicode(m: &BitMatrix, pad: &str) -> (r: Vec<String>)
    requires
        m.wf(),
    ensures
        r@.len() == spec_uni_line_count(m.side as nat),
        forall|i: int| 0 <= i < r@.len() ==> #[trigger] r@[i]@ == spec_uni_line(*m, pad@, i),
        m.side % 2 == 1 ==> r@.len() == (m.side + 1) / 2 + 1,
        m.side % 2 == 0 ==> r@.len() == m.side / 2 + 2,
{
    let len: usize = m.bits.len();
    proof {
        lemma_side_fits(m.side as int, len as int);
    }
    let mut lines: Vec<String> = Vec::new();
    lines.push(horiz_border(m.side, pad, glyph((true, false))));
    let mut y: usize = 0;
    while y < m.side
        invariant
            m.wf(),
            m.side + 2 <= usize::MAX,
            y % 2 == 0,
            y <= m.side + 1,
            lines@.len() == 1 + y / 2,
            lines@.len() <= 1 + spec_uni_body_rows(m.side as nat),
            forall|k: int| 0 <= k < lines@.len() ==> #[trigger] lines@[k]@ == spec_uni_line(
                *m,
                pad@,
                k,
            ),
        decreases m.side + 2 - y,
    {
        let ghost blocks = spec_uni_blocks(*m, y as int);
        let mut line = String::from_str(pad);
        line.append(black_on_white());
        let count = m.side + 2;
        let mut j: usize = 0;
        assert(line@ =~= pad@ + spec_fg_bg() + concat_all(blocks.take(0)));
        while j < count
            invariant
                m.wf(),
                y < m.side,
                count == m.side + 2,
                j <= count,
                blocks == spec_uni_blocks(*m, y as int),
                line@ == pad@ + spec_fg_bg() + concat_all(blocks.take(j as int)),
            decreases count - j,
        {
            let piece: &str = if 1 <= j && j <= m.side {
                glyph(block(m, j - 1, y))
            } else {
                glyph((false, false))
            };
            proof {
                lemma_concat_all_take_step(blocks, j as int);
            }
            line.append(piece);
            j += 1;
        }
        assert(blocks.take(count as int) =~= blocks);
        line.append(reset_colors());
        line.append(newline_str());
        assert(line@ =~= spec_uni_line(*m, pad@, lines@.len() as int));
        lines.push(line);
        y += 2;
    }
    if m.side % 2 == 0 {
        lines.push(horiz_border(m.side, pad, glyph((false, true))));
    }
    lines
}

/// Joins rendered lines into the single text block handed to the host.
pub fn join_lines(lines: &Vec<String>) -> (r: String)
    ensures
        r@ == concat_all(lines@.map_values(|l: String| l@)),
{
    let ghost views = lines@.map_values(|l: String| l@);
    let mut out = String::new();
    let mut i: usize = 0;
    assert(out@ =~= concat_all(views.take(0)));
    while i < lines.len()
        invariant
            views == lines@.map_values(|l: String| l@),
            i <= lines@.len(),
            out@ == concat_all(views.take(i as int)),
        decreases lines@.len() - i,
    {
        proof {
            lemma_concat_all_take_step(views, i as int);
        }
        out.append(lines[i].as_str());
        i += 1;
    }
    assert(views.take(lines@.len() as int) =~= views);
    out
}

} // verus!
