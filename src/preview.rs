//! Thumbnails of captured terminal output: the styled cells of a pane are
//! sampled down to a target size and gathered into runs of one style.
use vstd::prelude::*;

use ansi_to_tui::IntoText;
use ratatui::style::Style;

use crate::text::{chars_of, is_ws, lines, split_lines, trim_end, trimmed_end_len};

verus! {

/// ratatui's `Style`, carried through the cells unopened.
#[verifier::external_type_specification]
#[verifier::external_body]
pub struct ExStyle(Style);

/// Relies on the `PartialEq` that ratatui derives for `Style`: two styles are
/// equal exactly when all their fields are.
#[verifier::external_body]
fn same_style(a: &Style, b: &Style) -> (r: bool)
    ensures
        r == (*a == *b),
{
    a == b
}

/// One character cell with its style.
#[derive(Debug)]
pub struct StyledChar {
    pub ch: char,
    pub style: Style,
}

impl StyledChar {
    /// The cell `ch` in `style`.
    pub fn new(ch: char, style: Style) -> (r: StyledChar)
        ensures
            r.ch == ch,
            r.style == style,
    {
        StyledChar { ch, style }
    }
}

impl View for StyledChar {
    type V = (char, Style);

    open spec fn view(&self) -> (char, Style) {
        (self.ch, self.style)
    }
}

/// Consecutive characters that share one style.
#[derive(Debug)]
pub struct StyledRun {
    pub text: Vec<char>,
    pub style: Style,
}

impl View for StyledRun {
    type V = (Seq<char>, Style);

    open spec fn view(&self) -> (Seq<char>, Style) {
        (self.text@, self.style)
    }
}

pub open spec fn row_view(row: Vec<StyledChar>) -> Seq<(char, Style)> {
    row@.map_values(|c: StyledChar| c@)
}

pub open spec fn grid_view(grid: Vec<Vec<StyledChar>>) -> Seq<Seq<(char, Style)>> {
    grid@.map_values(|row: Vec<StyledChar>| row_view(row))
}

pub open spec fn runs_view(runs: Vec<StyledRun>) -> Seq<(Seq<char>, Style)> {
    runs@.map_values(|r: StyledRun| r@)
}

pub open spec fn lines_view(out: Vec<Vec<StyledRun>>) -> Seq<Seq<(Seq<char>, Style)>> {
    out@.map_values(|row: Vec<StyledRun>| runs_view(row))
}

/// What ansi_to_tui reads from `content`: one row of styled cells per line,
/// or nothing where it refuses the escapes.
pub uninterp spec fn ansi_cells(content: Seq<char>) -> Option<Seq<Seq<(char, Style)>>>;

/// Relies on ansi_to_tui's `IntoText::into_text`: the styled lines that the
/// escapes of `content` describe, each span's characters carrying its style.
#[verifier::external_body]
fn parse_ansi(content: &str) -> (r: Option<Vec<Vec<StyledChar>>>)
    ensures
        match r {
            Some(g) => ansi_cells(content@) == Some(grid_view(g)),
            None => ansi_cells(content@) is None,
        },
{
    let text = content.as_bytes().into_text().ok()?;
    Some(text.lines.iter().map(|line| line.spans.iter().flat_map(|span| {
        span.content.chars().map(|ch| StyledChar::new(ch, span.style))
    }).collect()).collect())
}

/// Every character of every line of `content`, in the style `plain`.
pub open spec fn plain_grid(content: Seq<char>, plain: Style) -> Seq<Seq<(char, Style)>> {
    lines(content).map_values(|l: Seq<char>| l.map_values(|ch: char| (ch, plain)))
}

/// The styled cells of captured output: as its escapes describe them, or,
/// where they cannot be read, the plain characters of each line.
pub open spec fn styled_grid(content: Seq<char>, plain: Style) -> Seq<Seq<(char, Style)>> {
    match ansi_cells(content) {
        Some(g) => g,
        None => plain_grid(content, plain),
    }
}

/// The characters of `line`, each in the style `plain`.
fn plain_row(line: &Vec<char>, plain: Style) -> (r: Vec<StyledChar>)
    ensures
        row_view(r) == line@.map_values(|ch: char| (ch, plain)),
{
    let mut out: Vec<StyledChar> = Vec::new();
    let m = line.len();
    let mut j: usize = 0;
    while j < m
        invariant
            j <= m,
            m == line@.len(),
            out@.len() == j,
            forall|k: int| 0 <= k < j ==> (#[trigger] out@[k]).ch == line@[k] && out@[k].style == plain,
        decreases m - j,
    {
        out.push(StyledChar::new(line[j], plain));
        j = j + 1;
    }
    proof {
        assert(row_view(out) =~= line@.map_values(|ch: char| (ch, plain)));
    }
    out
}

/// Turns captured output into rows of styled cells; never fails.
pub fn ansi_to_styled_grid(content: &str, plain: Style) -> (r: Vec<Vec<StyledChar>>)
    ensures
        grid_view(r) == styled_grid(content@, plain),
{
    match parse_ansi(content) {
        Some(g) => g,
        None => {
            let cs = chars_of(content);
            let ls = split_lines(cs.as_slice());
            let ghost all = lines(content@);
            let mut grid: Vec<Vec<StyledChar>> = Vec::new();
            let n = ls.len();
            let mut i: usize = 0;
            while i < n
                invariant
                    i <= n,
                    n == all.len(),
                    all == lines(content@),
                    ls@.map_values(|v: Vec<char>| v@) == all,
                    grid_view(grid) == plain_grid(content@, plain).take(i as int),
                decreases n - i,
            {
                let line = &ls[i];
                proof {
                    assert(ls@.map_values(|v: Vec<char>| v@)[i as int] == line@);
                }
                let row = plain_row(line, plain);
                let ghost before = grid_view(grid);
                grid.push(row);
                proof {
                    assert(grid_view(grid) == before.push(row_view(row)));
                    assert(plain_grid(content@, plain).take(i + 1) == plain_grid(content@, plain).take(i as int).push(plain_grid(content@, plain)[i as int]));
                }
                i = i + 1;
            }
            proof {
                assert(plain_grid(content@, plain).take(n as int) == plain_grid(content@, plain));
            }
            grid
        },
    }
}

/// The source column sampled for target column `c`.
pub open spec fn source_col(c: int, source_width: int, target_width: int) -> int {
    if source_width > target_width {
        c * source_width / target_width
    } else {
        c
    }
}

/// How many source rows the thumbnail covers once rows must be dropped: the
/// most recent ones, at most twice the target height.
pub open spec fn row_window(rows: int, target_height: int) -> int {
    if rows < 2 * target_height {
        rows
    } else {
        2 * target_height
    }
}

/// The source row sampled for target row `r`: all rows from the top when they
/// fit, else a window anchored at the bottom.
pub open spec fn source_row(r: int, rows: int, target_height: int) -> int {
    if rows <= target_height {
        r
    } else {
        let w = row_window(rows, target_height);
        (rows - w) + r * w / target_height
    }
}

/// The cell at `c` in `row`, or a blank in the style `plain` past its end.
pub open spec fn cell_at(row: Seq<(char, Style)>, c: int, plain: Style) -> (char, Style) {
    if 0 <= c < row.len() {
        row[c]
    } else {
        (' ', plain)
    }
}

/// The `target_width` cells sampled from `row`.
pub open spec fn sampled_cells(
    row: Seq<(char, Style)>,
    target_width: nat,
    source_width: nat,
    plain: Style,
) -> Seq<(char, Style)> {
    Seq::new(
        target_width,
        |c: int| cell_at(row, source_col(c, source_width as int, target_width as int), plain),
    )
}

/// Consecutive cells of one style gathered into runs.
pub open spec fn coalesce(cells: Seq<(char, Style)>) -> Seq<(Seq<char>, Style)>
    decreases cells.len(),
{
    if cells.len() == 0 {
        Seq::empty()
    } else {
        let prev = coalesce(cells.drop_last());
        let (ch, style) = cells.last();
        if prev.len() > 0 && prev.last().1 == style {
            prev.update(prev.len() - 1, (prev.last().0.push(ch), style))
        } else {
            prev.push((seq![ch], style))
        }
    }
}

/// `runs` with the trailing white space of the last run trimmed; a last run
/// left empty is dropped.
pub open spec fn trim_last(runs: Seq<(Seq<char>, Style)>) -> Seq<(Seq<char>, Style)> {
    if runs.len() == 0 {
        runs
    } else {
        let t = trim_end(runs.last().0);
        if t.len() == 0 {
            runs.drop_last()
        } else {
            runs.update(runs.len() - 1, (t, runs.last().1))
        }
    }
}

/// The runs of one thumbnail row.
pub open spec fn row_runs(cells: Seq<(char, Style)>) -> Seq<(Seq<char>, Style)> {
    trim_last(coalesce(cells))
}

/// The thumbnail of `grid`: exactly `target_height` rows of runs.
pub open spec fn shrink_spec(
    grid: Seq<Seq<(char, Style)>>,
    target_width: nat,
    target_height: nat,
    source_width: nat,
    plain: Style,
) -> Seq<Seq<(Seq<char>, Style)>> {
    Seq::new(
        target_height,
        |r: int|
            {
                let s = source_row(r, grid.len() as int, target_height as int);
                if s < grid.len() {
                    row_runs(sampled_cells(grid[s], target_width, source_width, plain))
                } else {
                    Seq::empty()
                }
            },
    )
}

proof fn lemma_source_row_bounds(r: int, rows: int, target_height: int)
    requires
        0 <= r < target_height,
        target_height < rows,
    ensures
        rows - row_window(rows, target_height) <= source_row(r, rows, target_height) < rows,
{
    let w = row_window(rows, target_height);
    assert(0 <= r * w) by (nonlinear_arith)
        requires
            0 <= r,
            0 <= w,
    ;
    assert(r * w < target_height * w) by (nonlinear_arith)
        requires
            r < target_height,
            0 < w,
    ;
    assert(r * w / target_height < w) by (nonlinear_arith)
        requires
            r * w < target_height * w,
            0 < target_height,
            0 <= r * w,
    ;
    assert(0 <= r * w / target_height) by (nonlinear_arith)
        requires
            0 <= r * w,
            0 < target_height,
    ;
}

proof fn lemma_source_col_bounds(c: int, source_width: int, target_width: int)
    requires
        0 <= c < target_width,
        0 <= source_width,
    ensures
        0 <= source_col(c, source_width, target_width),
        source_width > target_width ==> source_col(c, source_width, target_width) < source_width,
{
    if source_width > target_width {
        assert(0 <= c * source_width) by (nonlinear_arith)
            requires
                0 <= c,
                0 <= source_width,
        ;
        assert(c * source_width < target_width * source_width) by (nonlinear_arith)
            requires
                c < target_width,
                0 < source_width,
        ;
        assert(c * source_width / target_width < source_width) by (nonlinear_arith)
            requires
                c * source_width < target_width * source_width,
                0 < target_width,
                0 <= c * source_width,
        ;
        assert(0 <= c * source_width / target_width) by (nonlinear_arith)
            requires
                0 <= c * source_width,
                0 < target_width,
        ;
    }
}

fn sample_col(c: usize, source_width: u32, target_width: usize) -> (r: usize)
    requires
        c < target_width,
    ensures
        r == source_col(c as int, source_width as int, target_width as int),
{
    if source_width as u128 > target_width as u128 {
        proof {
            lemma_source_col_bounds(c as int, source_width as int, target_width as int);
            assert((c as int) * (source_width as int) < 0x1_0000_0000_0000_0000_0000_0000int) by (nonlinear_arith)
                requires
                    0 <= c < 0x1_0000_0000_0000_0000int,
                    0 <= source_width < 0x1_0000_0000int,
            ;
        }
        let v = (c as u128) * (source_width as u128) / (target_width as u128);
        v as usize
    } else {
        c
    }
}

fn sample_row(r: usize, rows: usize, target_height: usize) -> (s: usize)
    requires
        r < target_height,
    ensures
        s == source_row(r as int, rows as int, target_height as int),
        rows > target_height ==> s < rows,
{
    if rows <= target_height {
        r
    } else {
        let w: usize = if rows - target_height < target_height {
            rows
        } else {
            2 * target_height
        };
        proof {
            lemma_source_row_bounds(r as int, rows as int, target_height as int);
            assert((r as int) * (w as int) < 0x1_0000_0000_0000_0000_0000_0000_0000_0000int) by (nonlinear_arith)
                requires
                    0 <= r < 0x1_0000_0000_0000_0000int,
                    0 <= w < 0x1_0000_0000_0000_0000int,
            ;
        }
        let off = (r as u128) * (w as u128) / (target_height as u128);
        (rows - w) + off as usize
    }
}

/// The runs of one thumbnail row sampled from `row`.
fn shrink_row(row: &Vec<StyledChar>, target_width: usize, source_width: u32, plain: Style) -> (r: Vec<
    StyledRun,
>)
    ensures
        runs_view(r) == row_runs(
            sampled_cells(row_view(*row), target_width as nat, source_width as nat, plain),
        ),
{
    let ghost cells = sampled_cells(row_view(*row), target_width as nat, source_width as nat, plain);
    let mut runs: Vec<StyledRun> = Vec::new();
    let mut cur_text: Vec<char> = Vec::new();
    let mut cur_style: Style = plain;
    let mut c: usize = 0;
    while c < target_width
        invariant
            c <= target_width,
            cells == sampled_cells(row_view(*row), target_width as nat, source_width as nat, plain),
            c == 0 ==> runs@.len() == 0 && cur_text@.len() == 0,
            c > 0 ==> cur_text@.len() > 0 && coalesce(cells.take(c as int)) == runs_view(runs).push(
                (cur_text@, cur_style),
            ),
        decreases target_width - c,
    {
        let sc = sample_col(c, source_width, target_width);
        let cell: StyledChar = if sc < row.len() {
            StyledChar { ch: row[sc].ch, style: row[sc].style }
        } else {
            StyledChar { ch: ' ', style: plain }
        };
        proof {
            assert(cells[c as int] == cell@);
            assert(cells.take(c + 1).drop_last() == cells.take(c as int));
            assert(cells.take(c + 1).last() == cell@);
        }
        let ghost old_runs = runs_view(runs);
        let ghost old_text = cur_text@;
        let ghost old_style = cur_style;
        if !same_style(&cell.style, &cur_style) && cur_text.len() > 0 {
            let mut done: Vec<char> = Vec::new();
            std::mem::swap(&mut done, &mut cur_text);
            runs.push(StyledRun { text: done, style: cur_style });
            proof {
                assert(runs_view(runs) =~= old_runs.push((old_text, old_style)));
            }
        }
        cur_style = cell.style;
        cur_text.push(cell.ch);
        proof {
            let prev = coalesce(cells.take(c as int));
            if c == 0 {
                assert(prev =~= Seq::<(Seq<char>, Style)>::empty());
                assert(cur_text@ =~= seq![cell.ch]);
                assert(coalesce(cells.take(c + 1)) =~= runs_view(runs).push((cur_text@, cur_style)));
            } else if old_style == cell.style {
                assert(coalesce(cells.take(c + 1)) =~= runs_view(runs).push((cur_text@, cur_style)));
            } else {
                assert(cur_text@ =~= seq![cell.ch]);
                assert(coalesce(cells.take(c + 1)) =~= runs_view(runs).push((cur_text@, cur_style)));
            }
        }
        c = c + 1;
    }
    proof {
        assert(cells.take(target_width as int) == cells);
    }
    if target_width == 0 {
        return runs;
    }
    let e = trimmed_end_len(cur_text.as_slice());
    if e > 0 {
        cur_text.truncate(e);
        let ghost before = runs_view(runs);
        runs.push(StyledRun { text: cur_text, style: cur_style });
        proof {
            assert(runs_view(runs) == before.push((cur_text@, cur_style)));
        }
    }
    runs
}

/// Samples `grid` down to `target_width` by `target_height` cells and gathers
/// each row into runs of one style; cells past the source are blanks in the
/// style `plain`.
pub fn shrink_styled_content(
    grid: &Vec<Vec<StyledChar>>,
    target_width: usize,
    target_height: usize,
    source_width: u32,
    plain: Style,
) -> (r: Vec<Vec<StyledRun>>)
    ensures
        lines_view(r) == shrink_spec(
            grid_view(*grid),
            target_width as nat,
            target_height as nat,
            source_width as nat,
            plain,
        ),
{
    let ghost g = grid_view(*grid);
    let ghost want = shrink_spec(g, target_width as nat, target_height as nat, source_width as nat, plain);
    let rows = grid.len();
    let mut out: Vec<Vec<StyledRun>> = Vec::new();
    let mut r: usize = 0;
    while r < target_height
        invariant
            r <= target_height,
            rows == grid@.len(),
            g == grid_view(*grid),
            want == shrink_spec(g, target_width as nat, target_height as nat, source_width as nat, plain),
            lines_view(out) == want.take(r as int),
        decreases target_height - r,
    {
        let s = sample_row(r, rows, target_height);
        let line: Vec<StyledRun> = if s < rows {
            proof {
                assert(g[s as int] == row_view(grid@[s as int]));
            }
            shrink_row(&grid[s], target_width, source_width, plain)
        } else {
            Vec::new()
        };
        proof {
            assert(runs_view(line) == want[r as int]);
        }
        let ghost before = lines_view(out);
        out.push(line);
        proof {
            assert(lines_view(out) == before.push(runs_view(line)));
            assert(want.take(r + 1) == want.take(r as int).push(want[r as int]));
        }
        r = r + 1;
    }
    proof {
        assert(want.take(target_height as int) == want);
    }
    out
}

/// The thumbnail of captured output `content`, whose pane is `source_width`
/// cells wide.
pub fn preview_runs(
    content: &str,
    target_width: usize,
    target_height: usize,
    source_width: u32,
    plain: Style,
) -> (r: Vec<Vec<StyledRun>>)
    ensures
        lines_view(r) == shrink_spec(
            styled_grid(content@, plain),
            target_width as nat,
            target_height as nat,
            source_width as nat,
            plain,
        ),
{
    let grid = ansi_to_styled_grid(content, plain);
    shrink_styled_content(&grid, target_width, target_height, source_width, plain)
}

/// The cells of `row` one for one up to `width`, blanks in the style `plain`
/// past its end.
pub open spec fn padded(row: Seq<(char, Style)>, width: nat, plain: Style) -> Seq<(char, Style)> {
    Seq::new(width, |c: int| cell_at(row, c, plain))
}

/// When the source is as wide as the target and has no more rows than it,
/// the thumbnail shows every source row from the top, cell for cell with its
/// style, and blank rows below them up to the target height.
pub proof fn lemma_scaling_keeps_fitting_content(
    grid: Seq<Seq<(char, Style)>>,
    width: nat,
    height: nat,
    plain: Style,
)
    requires
        grid.len() <= height,
    ensures
        shrink_spec(grid, width, height, width, plain).len() == height,
        forall|r: int|
            0 <= r < grid.len() ==> #[trigger] shrink_spec(grid, width, height, width, plain)[r]
                == row_runs(padded(grid[r], width, plain)),
        forall|r: int|
            grid.len() <= r < height ==> (#[trigger] shrink_spec(grid, width, height, width, plain)[r]).len()
                == 0,
{
    assert forall|r: int| 0 <= r < grid.len() implies #[trigger] shrink_spec(
        grid,
        width,
        height,
        width,
        plain,
    )[r] == row_runs(padded(grid[r], width, plain)) by {
        assert(sampled_cells(grid[r], width, width, plain) =~= padded(grid[r], width, plain));
    }
}

/// The cells that `runs` spell out, each with the style of its run.
pub open spec fn expand(runs: Seq<(Seq<char>, Style)>) -> Seq<(char, Style)>
    decreases runs.len(),
{
    if runs.len() == 0 {
        Seq::empty()
    } else {
        let (text, style) = runs.last();
        expand(runs.drop_last()) + text.map_values(|ch: char| (ch, style))
    }
}

/// Gathering cells into runs loses nothing: the runs spell out exactly the
/// cells, in order, each with its own style.
pub proof fn lemma_runs_keep_every_cell(cells: Seq<(char, Style)>)
    ensures
        expand(coalesce(cells)) == cells,
    decreases cells.len(),
{
    if cells.len() > 0 {
        let prev = coalesce(cells.drop_last());
        lemma_runs_keep_every_cell(cells.drop_last());
        let (ch, style) = cells.last();
        if prev.len() > 0 && prev.last().1 == style {
            let (t, st) = prev.last();
            let next = prev.update(prev.len() - 1, (t.push(ch), style));
            assert(next.drop_last() =~= prev.drop_last());
            assert(t.push(ch).map_values(|c: char| (c, style)) =~= t.map_values(|c: char| (c, style)).push(
                (ch, style),
            ));
            assert(expand(next) =~= expand(prev).push((ch, style)));
        } else {
            let next = prev.push((seq![ch], style));
            assert(next.drop_last() =~= prev);
            assert(seq![ch].map_values(|c: char| (c, style)) =~= seq![(ch, style)]);
        }
        assert(cells.drop_last().push(cells.last()) =~= cells);
    }
}

/// The thumbnail depends on nothing but its inputs: the same grid, sizes and
/// blank style always give the same rows of runs.
pub proof fn lemma_scaling_is_deterministic(
    g1: Seq<Seq<(char, Style)>>,
    g2: Seq<Seq<(char, Style)>>,
    target_width: nat,
    target_height: nat,
    source_width: nat,
    plain: Style,
)
    requires
        g1 == g2,
    ensures
        shrink_spec(g1, target_width, target_height, source_width, plain) == shrink_spec(
            g2,
            target_width,
            target_height,
            source_width,
            plain,
        ),
{
}

proof fn lemma_trim_end_is_prefix(s: Seq<char>)
    ensures
        trim_end(s).len() <= s.len(),
        trim_end(s) == s.take(trim_end(s).len() as int),
        forall|i: int| trim_end(s).len() <= i < s.len() ==> is_ws(#[trigger] s[i]),
    decreases s.len(),
{
    if s.len() > 0 && is_ws(s.last()) {
        let d = s.drop_last();
        lemma_trim_end_is_prefix(d);
        let k = trim_end(d).len() as int;
        assert(d.take(k) == s.take(k));
        assert forall|i: int| k <= i < s.len() implies is_ws(#[trigger] s[i]) by {
            if i < s.len() - 1 {
                assert(d[i] == s[i]);
            }
        }
    } else {
        assert(s.take(s.len() as int) == s);
    }
}

/// Trimming a row drops nothing but white space at its end: what its runs
/// spell out is the row's cells up to some point, and every cell after that
/// point is white space.
pub proof fn lemma_trim_drops_only_trailing_space(cells: Seq<(char, Style)>)
    ensures
        expand(row_runs(cells)).len() <= cells.len(),
        expand(row_runs(cells)) == cells.take(expand(row_runs(cells)).len() as int),
        forall|i: int|
            expand(row_runs(cells)).len() <= i < cells.len() ==> is_ws(#[trigger] cells[i].0),
{
    lemma_runs_keep_every_cell(cells);
    let runs = coalesce(cells);
    if runs.len() == 0 {
        assert(cells.take(0) =~= Seq::<(char, Style)>::empty());
    } else {
        let (text, st) = runs.last();
        let f = |ch: char| (ch, st);
        let head = expand(runs.drop_last());
        let tail = text.map_values(f);
        assert(cells == head + tail);
        let t = trim_end(text);
        lemma_trim_end_is_prefix(text);
        if t.len() == 0 {
            assert(row_runs(cells) == runs.drop_last());
            assert(cells.take(head.len() as int) =~= head);
            assert forall|i: int| head.len() <= i < cells.len() implies is_ws(#[trigger] cells[i].0) by {
                assert(cells[i] == tail[i - head.len()]);
            }
        } else {
            let next = runs.update(runs.len() - 1, (t, st));
            assert(row_runs(cells) == next);
            assert(next.drop_last() =~= runs.drop_last());
            assert(t.map_values(f) =~= tail.take(t.len() as int));
            assert(expand(next) == head + t.map_values(f));
            assert(cells.take((head.len() + t.len()) as int) =~= head + tail.take(t.len() as int));
            assert forall|i: int| head.len() + t.len() <= i < cells.len() implies is_ws(
                #[trigger] cells[i].0,
            ) by {
                assert(cells[i] == tail[i - head.len()]);
            }
        }
    }
}

} // verus!
