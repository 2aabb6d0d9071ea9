//! Textual rendering of vectors and of grids of integers.
//!
//! A grid renders as a `"<width>x<height>"` header followed by one line per
//! row, each cell right-aligned to the longest cell text and separated from
//! the next by a comma; there is no trailing newline. A vector renders as
//! `"(x, y)"`.

use vstd::prelude::*;

verus! {

use crate::grid::{Grid, index_position};
use crate::vector::Vector;
use vstd::arithmetic::div_mod::lemma_div_is_strictly_smaller;
use vstd::string::StrSliceExecFns;
use vstd::string::StringExecFns;

/// The character for the decimal digit `d`.
pub open spec fn digit_char(d: int) -> char
    recommends
        0 <= d < 10,
{
    ((d + 48) as u8) as char
}

/// The decimal digits of `n`, most significant first.
pub open spec fn dec_digits(n: nat) -> Seq<char>
    decreases n,
{
    if n < 10 {
        seq![digit_char(n as int)]
    } else {
        dec_digits(n / 10).push(digit_char((n % 10) as int))
    }
}

/// The decimal text of `v`, with a leading minus sign when `v` is negative.
pub open spec fn int_text(v: int) -> Seq<char> {
    if v < 0 {
        seq!['-'] + dec_digits((-v) as nat)
    } else {
        dec_digits(v as nat)
    }
}

/// The one-character string for the decimal digit `d`.
fn digit_str(d: u64) -> (s: &'static str)
    requires
        d < 10,
    ensures
        s@ =~= seq![digit_char(d as int)],
{
    proof {
        reveal_strlit("0");
        reveal_strlit("1");
        reveal_strlit("2");
        reveal_strlit("3");
        reveal_strlit("4");
        reveal_strlit("5");
        reveal_strlit("6");
        reveal_strlit("7");
        reveal_strlit("8");
        reveal_strlit("9");
    }
    match d {
        0 => "0",
        1 => "1",
        2 => "2",
        3 => "3",
        4 => "4",
        5 => "5",
        6 => "6",
        7 => "7",
        8 => "8",
        _ => "9",
    }
}

/// The decimal text of `n`.
fn u64_text(n: u64) -> (s: String)
    ensures
        s@ == dec_digits(n as nat),
    decreases n,
{
    if n < 10 {
        digit_str(n).to_owned()
    } else {
        proof {
            lemma_div_is_strictly_smaller(n as int, 10);
        }
        let mut s = u64_text(n / 10);
        s.append(digit_str(n % 10));
        proof {
            assert(s@ =~= dec_digits(n as nat));
        }
        s
    }
}

/// The decimal text of `v`, with a leading minus sign when `v` is negative.
pub fn i64_text(v: i64) -> (s: String)
    ensures
        s@ == int_text(v as int),
{
    if v >= 0 {
        u64_text(v as u64)
    } else {
        proof {
            reveal_strlit("-");
        }
        let m: u64 = (-(v as i128)) as u64;
        let mut s = "-".to_owned();
        s.append(u64_text(m).as_str());
        proof {
            assert(s@ =~= int_text(v as int));
        }
        s
    }
}

/// The text `"(x, y)"` of a vector.
pub open spec fn vector_text(v: Vector) -> Seq<char> {
    seq!['('] + int_text(v.x as int) + seq![',', ' '] + int_text(v.y as int) + seq![')']
}

impl Vector {
    /// Renders the vector as `"(x, y)"`.
    pub fn to_text(&self) -> (s: String)
        ensures
            s@ == vector_text(*self),
    {
        proof {
            reveal_strlit("(");
            reveal_strlit(", ");
            reveal_strlit(")");
        }
        let mut s = "(".to_owned();
        s.append(i64_text(self.x).as_str());
        s.append(", ");
        s.append(i64_text(self.y).as_str());
        s.append(")");
        proof {
            assert(s@ =~= vector_text(*self));
        }
        s
    }
}

/// A run of `n` spaces.
pub open spec fn spaces(n: int) -> Seq<char>
    decreases n,
{
    if n <= 0 {
        Seq::empty()
    } else {
        spaces(n - 1).push(' ')
    }
}

/// The text of `v` right-aligned with spaces to width `w`.
pub open spec fn padded_text(v: i64, w: int) -> Seq<char> {
    spaces(w - int_text(v as int).len()) + int_text(v as int)
}

/// The first `n` cells of row `y` of `g`, separated by commas, each
/// right-aligned to width `w`.
pub open spec fn row_text(g: Grid<i64>, y: int, n: int, w: int) -> Seq<char>
    decreases n,
{
    if n <= 0 {
        Seq::empty()
    } else {
        let cell = padded_text(g.spec_cell((Vector { x: (n - 1) as i64, y: y as i64 })), w);
        if n == 1 {
            cell
        } else {
            row_text(g, y, n - 1, w) + seq![','] + cell
        }
    }
}

/// The first `m` rows of `g`, separated by newlines, with cells
/// right-aligned to width `w`.
pub open spec fn rows_text(g: Grid<i64>, m: int, w: int) -> Seq<char>
    decreases m,
{
    if m <= 0 {
        Seq::empty()
    } else {
        let row = row_text(g, m - 1, g.spec_width(), w);
        if m == 1 {
            row
        } else {
            rows_text(g, m - 1, w) + seq!['\n'] + row
        }
    }
}

/// The length of the longest cell text among `cells`.
pub open spec fn max_text_len(cells: Seq<i64>) -> int
    decreases cells.len(),
{
    if cells.len() == 0 {
        0
    } else {
        vstd::math::max(
            max_text_len(cells.drop_last()),
            int_text(cells.last() as int).len() as int,
        )
    }
}

/// No cell text is longer than the longest one.
pub proof fn lemma_max_text_len_bound(cells: Seq<i64>, k: int)
    requires
        0 <= k < cells.len(),
    ensures
        int_text(cells[k] as int).len() <= max_text_len(cells),
    decreases cells.len(),
{
    if k == cells.len() - 1 {
        assert(cells.last() == cells[k]);
    } else {
        lemma_max_text_len_bound(cells.drop_last(), k);
        assert(cells.drop_last()[k] == cells[k]);
    }
}

/// The full rendering of `g`: a `"<width>x<height>"` header, then one line
/// per row with comma-separated cells right-aligned to the longest cell
/// text; no trailing newline.
pub open spec fn grid_text(g: Grid<i64>) -> Seq<char> {
    int_text(g.spec_width()) + seq!['x'] + int_text(g.spec_height()) + seq!['\n'] + rows_text(
        g,
        g.spec_height(),
        max_text_len(g.cells()),
    )
}

impl Grid<i64> {
    /// Renders the grid in a reader-friendly form: the header line
    /// `"<width>x<height>"`, then each row on a line of its own, cells
    /// separated by commas and right-padded with spaces to the width of the
    /// longest cell text; no trailing newline.
    pub fn render(&self) -> (s: String)
        ensures
            s@ == grid_text(*self),
    {
        let d = self.dim();
        let n = self.cell_count();
        let cols = d.x;
        let rows = d.y;

        let mut longest: usize = 0;
        let mut i: usize = 0;
        while i < n
            invariant
                d == self.spec_dim(),
                0 < d.x,
                0 < d.y,
                self.cells().len() == n == self.spec_width() * self.spec_height(),
                self.spec_width() * self.spec_height() <= usize::MAX,
                i <= n,
                longest == max_text_len(self.cells().take(i as int)),
            decreases n - i,
        {
            let p = index_position(d, i);
            let t = i64_text(*self.index(p));
            let l = t.as_str().unicode_len();
            if l > longest {
                longest = l;
            }
            proof {
                assert(self.cells().take(i + 1).drop_last() =~= self.cells().take(i as int));
                assert(self.cells().take(i + 1).last() == self.cells()[i as int]);
            }
            i = i + 1;
        }
        proof {
            assert(self.cells().take(n as int) =~= self.cells());
        }

        proof {
            reveal_strlit("x");
            reveal_strlit("\n");
            reveal_strlit(",");
            reveal_strlit(" ");
        }
        let mut out = i64_text(cols);
        out.append("x");
        out.append(i64_text(rows).as_str());
        out.append("\n");
        let ghost header = int_text(self.spec_width()) + seq!['x'] + int_text(self.spec_height())
            + seq!['\n'];
        proof {
            assert(out@ =~= header);
        }

        let ghost w = longest as int;
        let mut y: i64 = 0;
        while y < rows
            invariant
                d == self.spec_dim(),
                0 < d.x,
                0 < d.y,
                cols == d.x,
                rows == d.y,
                self.cells().len() == self.spec_width() * self.spec_height() <= usize::MAX,
                w == longest as int,
                longest == max_text_len(self.cells()),
                0 <= y <= rows,
                out@ == header + rows_text(*self, y as int, w),
            decreases rows - y,
        {
            proof {
                reveal_strlit("\n");
                reveal_strlit(",");
                reveal_strlit(" ");
            }
            if y > 0 {
                out.append("\n");
            }
            let ghost prefix = out@;
            proof {
                if y > 0 {
                    assert(prefix =~= header + rows_text(*self, y as int, w) + seq!['\n']);
                }
            }
            let mut x: i64 = 0;
            while x < cols
                invariant
                    d == self.spec_dim(),
                    0 < d.x,
                    0 < d.y,
                    cols == d.x,
                    rows == d.y,
                    self.cells().len() == self.spec_width() * self.spec_height() <= usize::MAX,
                    w == longest as int,
                    longest == max_text_len(self.cells()),
                    0 <= y < rows,
                    0 <= x <= cols,
                    out@ == prefix + row_text(*self, y as int, x as int, w),
                decreases cols - x,
            {
                proof {
                    reveal_strlit(",");
                    reveal_strlit(" ");
                }
                if x > 0 {
                    out.append(",");
                }
                let ghost before = out@;
                let p = Vector { x, y };
                let v = *self.index(p);
                proof {
                    crate::grid::lemma_row_major_index(d, p);
                    lemma_max_text_len_bound(self.cells(), self.spec_index_of(p));
                }
                let t = i64_text(v);
                let tl = t.as_str().unicode_len();
                let pad = longest - tl;
                let mut j: usize = 0;
                while j < pad
                    invariant
                        out@ == before + spaces(j as int),
                        j <= pad,
                    decreases pad - j,
                {
                    proof {
                        reveal_strlit(" ");
                    }
                    out.append(" ");
                    proof {
                        assert(out@ =~= before + spaces(j + 1));
                    }
                    j = j + 1;
                }
                out.append(t.as_str());
                proof {
                    assert(spaces(pad as int) =~= spaces(w - int_text(v as int).len()));
                    assert(out@ =~= before + padded_text(v, w));
                    if x > 0 {
                        assert(out@ =~= prefix + row_text(*self, y as int, x + 1, w));
                    } else {
                        assert(out@ =~= prefix + row_text(*self, y as int, 1, w));
                    }
                }
                x = x + 1;
            }
            proof {
                if y > 0 {
                    assert(out@ =~= header + rows_text(*self, y + 1, w));
                } else {
                    assert(out@ =~= header + rows_text(*self, 1, w));
                }
            }
            y = y + 1;
        }
        proof {
            assert(out@ =~= grid_text(*self));
        }
        out
    }
}

} // verus!
