//! A mathematical model of a character-cell screen, and proofs of what
//! the buffered commands do to it once they reach the device.
//!
//! A screen is a partial map from zero-based (column, row) coordinates to
//! the character shown there — an absent key is a blank cell — together
//! with the cursor's position and visibility.  `apply_cmd` is the meaning
//! of one command; `apply_cmds` folds a whole buffer over a screen in call
//! order.
//!
//! The model idealizes printing: every character of a printed text fills
//! exactly one cell and moves the cursor one column right, the screen is
//! unbounded and never wraps.  A real terminal interprets control
//! characters (newlines, escapes) and wraps at its right edge, so the
//! proofs below speak of printable text within the device's extent.

use vstd::prelude::*;

use crate::command::CmdModel;

verus! {

/// The visible state of a terminal screen.
#[verifier::ext_equal]
pub struct ScreenModel {
    /// The character at each non-blank cell, keyed by (column, row).
    pub cells: Map<(int, int), char>,
    /// The cursor's column.
    pub cursor_x: int,
    /// The cursor's row.
    pub cursor_y: int,
    /// Whether the cursor is shown.
    pub cursor_visible: bool,
}

/// The cells after writing `text` left to right, starting at column `x`
/// of row `y`.
pub open spec fn write_run(
    cells: Map<(int, int), char>,
    x: int,
    y: int,
    text: Seq<char>,
) -> Map<(int, int), char>
    decreases text.len(),
{
    if text.len() == 0 {
        cells
    } else {
        write_run(cells.insert((x, y), text[0]), x + 1, y, text.drop_first())
    }
}

/// What one command does to a screen.
pub open spec fn apply_cmd(s: ScreenModel, c: CmdModel) -> ScreenModel {
    match c {
        CmdModel::MoveTo { x, y } => ScreenModel { cursor_x: x as int, cursor_y: y as int, ..s },
        CmdModel::ClearAll => ScreenModel { cells: Map::empty(), ..s },
        CmdModel::ClearLine => ScreenModel {
            cells: Map::new(
                |p: (int, int)| s.cells.dom().contains(p) && p.1 != s.cursor_y,
                |p: (int, int)| s.cells[p],
            ),
            ..s
        },
        CmdModel::Hide => ScreenModel { cursor_visible: false, ..s },
        CmdModel::Show => ScreenModel { cursor_visible: true, ..s },
        CmdModel::Print { text } => ScreenModel {
            cells: write_run(s.cells, s.cursor_x, s.cursor_y, text),
            cursor_x: s.cursor_x + text.len(),
            ..s
        },
    }
}

/// What a whole command sequence does to a screen, first command first.
pub open spec fn apply_cmds(s: ScreenModel, cs: Seq<CmdModel>) -> ScreenModel
    decreases cs.len(),
{
    if cs.len() == 0 {
        s
    } else {
        apply_cmds(apply_cmd(s, cs[0]), cs.drop_first())
    }
}

/// A cell off the printed run is untouched by `write_run`.
proof fn lemma_write_run_miss(
    cells: Map<(int, int), char>,
    x: int,
    y: int,
    text: Seq<char>,
    p: (int, int),
)
    requires
        !(p.1 == y && x <= p.0 < x + text.len()),
    ensures
        write_run(cells, x, y, text).dom().contains(p) == cells.dom().contains(p),
        cells.dom().contains(p) ==> write_run(cells, x, y, text)[p] == cells[p],
    decreases text.len(),
{
    if text.len() == 0 {
    } else {
        assert(p != (x, y));
        lemma_write_run_miss(cells.insert((x, y), text[0]), x + 1, y, text.drop_first(), p);
    }
}

/// The i-th character of a printed run lands i cells right of its start.
proof fn lemma_write_run_hit(
    cells: Map<(int, int), char>,
    x: int,
    y: int,
    text: Seq<char>,
    i: int,
)
    requires
        0 <= i < text.len(),
    ensures
        write_run(cells, x, y, text).dom().contains((x + i, y)),
        write_run(cells, x, y, text)[(x + i, y)] == text[i],
    decreases text.len(),
{
    let inserted = cells.insert((x, y), text[0]);
    let rest = text.drop_first();
    if i == 0 {
        lemma_write_run_miss(inserted, x + 1, y, rest, (x, y));
    } else {
        lemma_write_run_hit(inserted, x + 1, y, rest, i - 1);
        assert((x + 1 + (i - 1), y) == (x + i, y));
        assert(rest[i - 1] == text[i]);
    }
}

/// Law: after a move to (x, y), the next print renders exactly at that
/// cell and rightwards along the row, leaving every other cell as it
/// was; the cursor ends just past the text, on the same row.  As the
/// module's model does throughout, this idealizes `text` as printable
/// characters that fill one cell each, with no control characters and no
/// wrapping at the device's edge.
pub proof fn lemma_move_then_print_renders_at(s: ScreenModel, x: u16, y: u16, text: Seq<char>)
    ensures
        ({
            let s2 = apply_cmds(
                s,
                seq![(CmdModel::MoveTo { x, y }), (CmdModel::Print { text })],
            );
            &&& forall|p: (int, int)| #![trigger s2.cells.dom().contains(p)]
                p.1 == y as int && x <= p.0 < x + text.len() ==> s2.cells.dom().contains(p)
                    && s2.cells[p] == text[p.0 - x]
            &&& forall|p: (int, int)| #![trigger s2.cells.dom().contains(p)]
                !(p.1 == y as int && x <= p.0 < x + text.len()) ==> s2.cells.dom().contains(p)
                    == s.cells.dom().contains(p) && (s.cells.dom().contains(p) ==> s2.cells[p]
                    == s.cells[p])
            &&& s2.cursor_x == x + text.len()
            &&& s2.cursor_y == y as int
            &&& s2.cursor_visible == s.cursor_visible
        }),
{
    reveal_with_fuel(apply_cmds, 4);
    let cs = seq![(CmdModel::MoveTo { x, y }), (CmdModel::Print { text })];
    assert(cs.drop_first() =~= seq![(CmdModel::Print { text })]);
    assert(cs.drop_first().drop_first() =~= Seq::<CmdModel>::empty());
    let s1 = apply_cmd(s, (CmdModel::MoveTo { x, y }));
    let s2 = apply_cmds(s, cs);
    assert(s2 == apply_cmd(s1, (CmdModel::Print { text })));
    assert forall|p: (int, int)| #![trigger s2.cells.dom().contains(p)]
        p.1 == y as int && x <= p.0 < x + text.len() implies s2.cells.dom().contains(p)
        && s2.cells[p] == text[p.0 - x] by {
        lemma_write_run_hit(s.cells, x as int, y as int, text, p.0 - x);
        assert((x + (p.0 - x), y as int) == p);
    }
    assert forall|p: (int, int)| #![trigger s2.cells.dom().contains(p)]
        !(p.1 == y as int && x <= p.0 < x + text.len()) implies s2.cells.dom().contains(p)
        == s.cells.dom().contains(p) && (s.cells.dom().contains(p) ==> s2.cells[p]
        == s.cells[p]) by {
        lemma_write_run_miss(s.cells, x as int, y as int, text, p);
    }
}

/// Law: clearing the whole screen leaves no cell holding prior content;
/// cursor position and visibility are untouched.
pub proof fn lemma_clear_screen_erases_all(s: ScreenModel)
    ensures
        apply_cmd(s, CmdModel::ClearAll).cells == Map::<(int, int), char>::empty(),
        forall|p: (int, int)| !apply_cmd(s, CmdModel::ClearAll).cells.dom().contains(p),
        apply_cmd(s, CmdModel::ClearAll).cursor_x == s.cursor_x,
        apply_cmd(s, CmdModel::ClearAll).cursor_y == s.cursor_y,
        apply_cmd(s, CmdModel::ClearAll).cursor_visible == s.cursor_visible,
{
}

/// The command pair that hides and then shows the cursor.
pub open spec fn hide_show() -> Seq<CmdModel> {
    seq![CmdModel::Hide, CmdModel::Show]
}

/// Law: hiding then showing the cursor is a no-op on visible content —
/// no cell and no cursor coordinate changes, only visibility, which ends
/// up shown — and repeating the pair changes nothing further.
pub proof fn lemma_hide_show_preserves_content(s: ScreenModel)
    ensures
        apply_cmds(s, hide_show()).cells == s.cells,
        apply_cmds(s, hide_show()).cursor_x == s.cursor_x,
        apply_cmds(s, hide_show()).cursor_y == s.cursor_y,
        apply_cmds(s, hide_show()).cursor_visible == true,
        apply_cmds(s, hide_show() + hide_show()) == apply_cmds(s, hide_show()),
{
    reveal_with_fuel(apply_cmds, 4);
    assert(hide_show().drop_first() =~= seq![CmdModel::Show]);
    assert(seq![CmdModel::Show].drop_first() =~= Seq::<CmdModel>::empty());
    lemma_apply_cmds_append(s, hide_show(), hide_show());
    assert(apply_cmds(apply_cmds(s, hide_show()), hide_show()) =~= apply_cmds(s, hide_show()));
}

/// Applying a concatenation applies the two parts in order.
pub proof fn lemma_apply_cmds_append(s: ScreenModel, a: Seq<CmdModel>, b: Seq<CmdModel>)
    ensures
        apply_cmds(s, a + b) == apply_cmds(apply_cmds(s, a), b),
    decreases a.len(),
{
    if a.len() == 0 {
        assert(a + b =~= b);
    } else {
        assert((a + b).drop_first() =~= a.drop_first() + b);
        lemma_apply_cmds_append(apply_cmd(s, a[0]), a.drop_first(), b);
    }
}

} // verus!
