//! The text of a matrix: its rows in brackets, separated by commas, inside brackets.

use vstd::prelude::*;
use super::mat::Mat;

verus! {

/// Formats a scalar with its `std::fmt::Display` implementation, as `format!("{}", x)` does.
/// Nothing is stated of the text, which depends on the scalar type's implementation.
#[verifier::external_body]
pub fn scalar_text<R: std::fmt::Display>(x: &R) -> String {
    format!("{}", x)
}

/// `parts` joined with `sep` between each two of them.
pub open spec fn joined(parts: Seq<Seq<char>>, sep: Seq<char>) -> Seq<char>
    decreases parts.len(),
{
    if parts.len() == 0 {
        seq![]
    } else if parts.len() == 1 {
        parts[0]
    } else {
        joined(parts.drop_last(), sep) + sep + parts.last()
    }
}

/// `s` between `[` and `]`.
pub open spec fn bracketed(s: Seq<char>) -> Seq<char> {
    seq!['['] + s + seq![']']
}

/// The text of a matrix whose cells have the texts `cells`, row by row: each row's texts joined
/// with `, ` and bracketed, and the rows joined with `, ` and bracketed.
pub open spec fn matrix_text(cells: Seq<Seq<Seq<char>>>) -> Seq<char> {
    bracketed(joined(cells.map_values(|row: Seq<Seq<char>>| bracketed(joined(row, seq![',', ' ']))), seq![',', ' ']))
}

/// The characters of strings.
pub open spec fn string_views(texts: Seq<String>) -> Seq<Seq<char>> {
    texts.map_values(|t: String| t@)
}

/// `texts` holds, for every cell of `m`, a text that `scalar_text` may give for it.
pub open spec fn cell_texts<R: std::fmt::Display, const I: usize, const J: usize>(m: Mat<R, I, J>, texts: Seq<Seq<String>>) -> bool {
    &&& texts.len() == I
    &&& forall|i: int| 0 <= i < I ==> (#[trigger] texts[i]).len() == J
    &&& forall|i: int, j: int| 0 <= i < I && 0 <= j < J ==> call_ensures(scalar_text::<R>, (&m.at(i, j),), #[trigger] texts[i][j])
}

/// `parts` with one more part joins to the join of `parts`, the separator and the new part.
proof fn lemma_joined_push(parts: Seq<Seq<char>>, sep: Seq<char>, x: Seq<char>)
    requires
        parts.len() > 0,
    ensures
        joined(parts.push(x), sep) == joined(parts, sep) + sep + x,
{
    assert(parts.push(x).drop_last() =~= parts);
}

impl<R: std::fmt::Display, const I: usize, const J: usize> Mat<R, I, J> {
    /// The text of the matrix, with each cell formatted by `std::fmt::Display`: `[[1, 2], [3, 4]]`
    /// for a 2x2 matrix.
    pub fn to_text(&self) -> (r: String)
        ensures
            exists|texts: Seq<Seq<String>>|
                #[trigger] cell_texts(*self, texts) && r@ == matrix_text(texts.map_values(|row: Seq<String>| string_views(row))),
    {
        proof {
            reveal_strlit("[");
            reveal_strlit("]");
            reveal_strlit(", ");
        }
        let ghost mut texts: Seq<Seq<String>> = seq![];
        let ghost sep: Seq<char> = seq![',', ' '];
        let mut out = String::from_str("[");
        let ghost mut rows: Seq<Seq<char>> = seq![];
        let mut i: usize = 0;
        while i < I
            invariant
                i <= I,
                texts.len() == i,
                rows.len() == i,
                forall|a: int| 0 <= a < i ==> (#[trigger] texts[a]).len() == J,
                forall|a: int, b: int| 0 <= a < i && 0 <= b < J ==> call_ensures(scalar_text::<R>, (&self.at(a, b),), #[trigger] texts[a][b]),
                forall|a: int| 0 <= a < i ==> #[trigger] rows[a] == bracketed(joined(string_views(texts[a]), sep)),
                out@ == seq!['['] + joined(rows, sep),
                sep == seq![',', ' '],
            decreases I - i,
        {
            proof {
                reveal_strlit("[");
                reveal_strlit("]");
                reveal_strlit(", ");
            }
            if i > 0 {
                out.append(", ");
            }
            out.append("[");
            let ghost mut row: Seq<String> = seq![];
            let ghost before = out@;
            let mut j: usize = 0;
            while j < J
                invariant
                    i < I,
                    j <= J,
                    row.len() == j,
                    forall|b: int| 0 <= b < j ==> call_ensures(scalar_text::<R>, (&self.at(i as int, b),), #[trigger] row[b]),
                    out@ == before + joined(string_views(row), sep),
                    sep == seq![',', ' '],
                decreases J - j,
            {
                proof {
                    reveal_strlit(", ");
                }
                if j > 0 {
                    out.append(", ");
                }
                let t = scalar_text(&self.0[i][j]);
                out.append(t.as_str());
                proof {
                    assert(string_views(row.push(t)) =~= string_views(row).push(t@));
                    if j > 0 {
                        lemma_joined_push(string_views(row), sep, t@);
                        assert(out@ =~= before + joined(string_views(row.push(t)), sep));
                    } else {
                        assert(string_views(row.push(t)) =~= seq![t@]);
                        assert(out@ =~= before + joined(string_views(row.push(t)), sep));
                    }
                    row = row.push(t);
                }
                j = j + 1;
            }
            out.append("]");
            proof {
                let this_row = bracketed(joined(string_views(row), sep));
                if i > 0 {
                    lemma_joined_push(rows, sep, this_row);
                    assert(out@ =~= seq!['['] + joined(rows.push(this_row), sep));
                } else {
                    assert(rows.push(this_row) =~= seq![this_row]);
                    assert(out@ =~= seq!['['] + joined(rows.push(this_row), sep));
                }
                rows = rows.push(this_row);
                texts = texts.push(row);
            }
            i = i + 1;
        }
        out.append("]");
        proof {
            assert(texts.map_values(|row: Seq<String>| string_views(row)).map_values(|row: Seq<Seq<char>>| bracketed(joined(row, seq![',', ' ']))) =~= rows);
            assert(cell_texts(*self, texts));
        }
        out
    }
}

} // verus!
