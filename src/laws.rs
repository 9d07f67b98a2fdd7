use vstd::prelude::*;
use vstd::arithmetic::div_mod::{lemma_fundamental_div_mod, lemma_fundamental_div_mod_converse};

use crate::vga::{cell_index, BUFFER_HEIGHT, BUFFER_WIDTH, NEWLINE};
use crate::writer::{
    blank, clear_model, is_newline, model_wf, newline_model, write_byte_model, write_bytes_model,
    ConsoleModel,
};

verus! {

/// Writing the newline byte puts the cursor at column 0 and writes no
/// character of its own: every cell afterwards is a blank in the current
/// attribute, or a cell that was already on the grid (in place, or moved up
/// one row by a scroll).
pub proof fn lemma_newline_writes_no_character(s: ConsoleModel)
    requires
        model_wf(s),
    ensures
        write_byte_model(s, NEWLINE).col == 0,
        forall|i: int|
            0 <= i < BUFFER_HEIGHT * BUFFER_WIDTH ==> {
                let c = #[trigger] write_byte_model(s, NEWLINE).cells[i];
                c == blank(s.attr) || c == s.cells[i] || c == s.cells[i + BUFFER_WIDTH]
            },
{
}

/// A new line on the bottom row scrolls: each row but the last takes the
/// old content of the row below it, the bottom row becomes blank in the
/// current attribute, and the cursor goes to column 0 of the bottom row.
pub proof fn lemma_newline_scrolls_at_bottom(s: ConsoleModel)
    requires
        model_wf(s),
        s.row == BUFFER_HEIGHT - 1,
    ensures
        newline_model(s).row == BUFFER_HEIGHT - 1,
        newline_model(s).col == 0,
        newline_model(s).attr == s.attr,
        forall|r: int, c: int|
            0 <= r < BUFFER_HEIGHT - 1 && 0 <= c < BUFFER_WIDTH ==> #[trigger] newline_model(
                s,
            ).cells[cell_index(r, c)] == s.cells[cell_index(r + 1, c)],
        forall|c: int|
            0 <= c < BUFFER_WIDTH ==> #[trigger] newline_model(s).cells[cell_index(
                BUFFER_HEIGHT - 1,
                c,
            )] == blank(s.attr),
{
}

/// A new line above the bottom row moves the cursor to column 0 of the next
/// row, blanks that row in the current attribute and leaves every other row
/// as it was.
pub proof fn lemma_newline_moves_down(s: ConsoleModel)
    requires
        model_wf(s),
        s.row < BUFFER_HEIGHT - 1,
    ensures
        newline_model(s).row == s.row + 1,
        newline_model(s).col == 0,
        forall|c: int|
            0 <= c < BUFFER_WIDTH ==> #[trigger] newline_model(s).cells[cell_index(s.row + 1, c)]
                == blank(s.attr),
        forall|r: int, c: int|
            0 <= r < BUFFER_HEIGHT && r != s.row + 1 && 0 <= c < BUFFER_WIDTH
                ==> #[trigger] newline_model(s).cells[cell_index(r, c)] == s.cells[cell_index(
                r,
                c,
            )],
{
}

/// Clearing the screen twice leaves the same state as clearing it once:
/// every cell blank in the current attribute.
pub proof fn lemma_clear_screen_idempotent(s: ConsoleModel)
    requires
        model_wf(s),
    ensures
        clear_model(clear_model(s)) == clear_model(s),
        forall|i: int|
            0 <= i < BUFFER_HEIGHT * BUFFER_WIDTH ==> #[trigger] clear_model(s).cells[i] == blank(
                s.attr,
            ),
{
}

/// Whatever bytes are written, the cursor stays on the grid and the grid
/// keeps its size.
pub proof fn lemma_cursor_stays_on_grid(s: ConsoleModel, bytes: Seq<u8>)
    requires
        model_wf(s),
    ensures
        model_wf(write_bytes_model(s, bytes)),
        write_bytes_model(s, bytes).attr == s.attr,
    decreases bytes.len(),
{
    if bytes.len() > 0 {
        lemma_cursor_stays_on_grid(s, bytes.drop_last());
    }
}


/// Writing `b` in state `s` starts a new line while the cursor is on the
/// bottom row, and so scrolls the grid.
pub open spec fn scrolls_on(s: ConsoleModel, b: u8) -> bool {
    s.row == BUFFER_HEIGHT - 1 && (is_newline(b) || s.col == BUFFER_WIDTH - 1)
}

/// How many times writing `bytes` from `s` scrolls the grid.
pub open spec fn scroll_count(s: ConsoleModel, bytes: Seq<u8>) -> nat
    decreases bytes.len(),
{
    if bytes.len() == 0 {
        0
    } else {
        scroll_count(s, bytes.drop_last()) + if scrolls_on(
            write_bytes_model(s, bytes.drop_last()),
            bytes.last(),
        ) {
            1nat
        } else {
            0nat
        }
    }
}

/// `n` copies of the byte `b`.
pub open spec fn repeated(b: u8, n: nat) -> Seq<u8> {
    Seq::new(n, |i: int| b)
}

/// Until the grid is full, `n` ordinary bytes written from the top-left
/// corner fill rows of `BUFFER_WIDTH - 1` cells each, without a scroll.
proof fn lemma_fill_position(s: ConsoleModel, b: u8, n: nat)
    requires
        model_wf(s),
        s.row == 0,
        s.col == 0,
        !is_newline(b),
        1 <= n <= BUFFER_HEIGHT * (BUFFER_WIDTH - 1),
    ensures
        write_bytes_model(s, repeated(b, n)).row == (n - 1) / (BUFFER_WIDTH - 1),
        write_bytes_model(s, repeated(b, n)).col == (n - 1) % (BUFFER_WIDTH - 1) + 1,
        scroll_count(s, repeated(b, n)) == 0,
    decreases n,
{
    assert(repeated(b, n).drop_last() =~= repeated(b, (n - 1) as nat));
    assert(repeated(b, n).last() == b);
    if n == 1 {
        assert(repeated(b, 0) =~= Seq::<u8>::empty());
        assert(write_bytes_model(s, repeated(b, 0)) == s);
        assert(scroll_count(s, repeated(b, 0)) == 0);
        assert(!scrolls_on(s, b));
    } else {
        let m: nat = (n - 1) as nat;
        lemma_fill_position(s, b, m);
        lemma_cursor_stays_on_grid(s, repeated(b, m));
        let t = write_bytes_model(s, repeated(b, m));
        let w: int = BUFFER_WIDTH - 1;
        let q: int = (m - 1) / w;
        let r: int = (m - 1) % w;
        lemma_fundamental_div_mod((m - 1) as int, w);
        assert(m - 1 == q * w + r) by (nonlinear_arith)
            requires
                m - 1 == w * q + r,
        ;
        if r + 1 < w {
            lemma_fundamental_div_mod_converse(m as int, w, q, r + 1);
        } else {
            assert(m == (q + 1) * w + 0) by (nonlinear_arith)
                requires
                    m - 1 == q * w + r,
                    r + 1 == w,
            ;
            lemma_fundamental_div_mod_converse(m as int, w, q + 1, 0);
            assert(q * w + w < BUFFER_HEIGHT * w) by (nonlinear_arith)
                requires
                    q * w + r + 1 == m,
                    r + 1 == w,
                    m < BUFFER_HEIGHT * w,
            ;
            assert(q < BUFFER_HEIGHT - 1) by (nonlinear_arith)
                requires
                    q * w + w < BUFFER_HEIGHT * w,
                    w > 0,
            ;
        }
        assert(!scrolls_on(t, b));
        assert(write_bytes_model(s, repeated(b, n)) == write_byte_model(t, b));
        assert(scroll_count(s, repeated(b, n)) == scroll_count(s, repeated(b, m)));
    }
}

/// Starting at the top-left corner, writing one ordinary byte
/// `1 + BUFFER_HEIGHT * (BUFFER_WIDTH - 1)` times fills every row up to its
/// last column and then scrolls the grid exactly once.
pub proof fn lemma_filling_grid_scrolls_once(s: ConsoleModel, b: u8)
    requires
        model_wf(s),
        s.row == 0,
        s.col == 0,
        !is_newline(b),
    ensures
        scroll_count(s, repeated(b, (1 + BUFFER_HEIGHT * (BUFFER_WIDTH - 1)) as nat)) == 1,
{
    let n: nat = (BUFFER_HEIGHT * (BUFFER_WIDTH - 1)) as nat;
    lemma_fill_position(s, b, n);
    assert(repeated(b, n + 1).drop_last() =~= repeated(b, n));
    lemma_fundamental_div_mod_converse(
        n - 1,
        BUFFER_WIDTH - 1,
        BUFFER_HEIGHT - 1,
        BUFFER_WIDTH - 2,
    );
}

} // verus!
