//! Rendering arrays, columns, rows and whole result sets as text.

use vstd::prelude::*;
use crate::value::{Value, opt_text, opt_wf, scalar_to_str};

verus! {

/// `parts` joined with `sep` between each two neighbours.
pub open spec fn join(parts: Seq<Seq<char>>, sep: char) -> Seq<char>
    decreases parts.len(),
{
    if parts.len() == 0 {
        Seq::empty()
    } else if parts.len() == 1 {
        parts[0]
    } else {
        join(parts.drop_last(), sep).push(sep) + parts.last()
    }
}

/// The canonical text of each element of an array.
pub open spec fn elems_text(s: Seq<Option<Value>>) -> Seq<Seq<char>> {
    s.map_values(|e: Option<Value>| opt_text(e))
}

/// An array column: `NULL`, or its elements' texts joined by commas within braces.
pub open spec fn array_text(a: Option<Seq<Option<Value>>>) -> Seq<char> {
    match a {
        Some(s) => seq!['{'] + join(elems_text(s), ',') + seq!['}'],
        None => "NULL"@,
    }
}

pub open spec fn elems_wf(s: Seq<Option<Value>>) -> bool {
    forall|i: int| 0 <= i < s.len() ==> opt_wf(#[trigger] s[i])
}

/// The array's contents as a sequence, or `None` for a NULL array.
pub open spec fn array_view(a: Option<Vec<Option<Value>>>) -> Option<Seq<Option<Value>>> {
    match a {
        Some(v) => Some(v@),
        None => None,
    }
}

/// The canonical text of a one-dimensional array column.
pub fn array_to_str(a: &Option<Vec<Option<Value>>>) -> (r: String)
    requires
        a matches Some(v) ==> elems_wf(v@),
    ensures
        r@ == array_text(array_view(*a)),
{
    match a {
        None => String::from_str("NULL"),
        Some(v) => {
            proof {
                reveal_strlit("{");
                reveal_strlit("}");
                assert("{"@ =~= seq!['{']);
                assert("}"@ =~= seq!['}']);
            }
            let mut out = String::from_str("{");
            let n = v.len();
            let mut i: usize = 0;
            while i < n
                invariant
                    n == v@.len(),
                    i <= n,
                    elems_wf(v@),
                    out@ == seq!['{'] + join(elems_text(v@.subrange(0, i as int)), ','),
                decreases n - i,
            {
                let ghost before = out@;
                proof {
                    reveal_strlit(",");
                    assert(","@ =~= seq![',']);
                }
                if i > 0 {
                    out.append(",");
                }
                let ghost mid = out@;
                let t = scalar_to_str(&v[i]);
                out.append(t.as_str());
                assert(out@ == mid + t@);
                proof {
                    let p = elems_text(v@.subrange(0, i + 1));
                    assert(p.drop_last() =~= elems_text(v@.subrange(0, i as int)));
                    assert(p.last() == opt_text(v@[i as int]));
                    let j = join(elems_text(v@.subrange(0, i as int)), ',');
                    if i == 0 {
                        assert(p.len() == 1);
                        assert(join(p, ',') == p[0]);
                        assert(out@ =~= seq!['{'] + join(p, ','));
                    } else {
                        assert(join(p, ',') == join(p.drop_last(), ',').push(',') + p.last());
                        assert(mid == before + seq![',']);
                        assert(out@ =~= seq!['{'] + (j.push(',') + p.last()));
                    }
                }
                i = i + 1;
            }
            out.append("}");
            assert(v@.subrange(0, n as int) =~= v@);
            out
        },
    }
}

/// One column of a row.
#[derive(Debug)]
pub enum Column {
    Scalar(Option<Value>),
    Array(Option<Vec<Option<Value>>>),
}

impl Column {
    pub open spec fn wf(self) -> bool {
        match self {
            Column::Scalar(v) => opt_wf(v),
            Column::Array(Some(v)) => elems_wf(v@),
            Column::Array(None) => true,
        }
    }
}

fn elems_are_wf(v: &Vec<Option<Value>>) -> (r: bool)
    ensures
        r == elems_wf(v@),
{
    let n = v.len();
    let mut i: usize = 0;
    while i < n
        invariant
            n == v@.len(),
            i <= n,
            forall|j: int| 0 <= j < i ==> opt_wf(#[trigger] v@[j]),
        decreases n - i,
    {
        let ok = match &v[i] {
            None => true,
            Some(x) => x.is_wf(),
        };
        if !ok {
            assert(!opt_wf(v@[i as int]));
            return false;
        }
        i = i + 1;
    }
    true
}

impl Column {
    /// Whether every value of the column can be rendered.
    pub fn is_wf(&self) -> (r: bool)
        ensures
            r == self.wf(),
    {
        match self {
            Column::Scalar(None) => true,
            Column::Scalar(Some(v)) => v.is_wf(),
            Column::Array(None) => true,
            Column::Array(Some(v)) => elems_are_wf(v),
        }
    }
}

/// The canonical text of a column.
pub open spec fn column_text(c: Column) -> Seq<char> {
    match c {
        Column::Scalar(v) => opt_text(v),
        Column::Array(a) => array_text(array_view(a)),
    }
}

/// The canonical text of a column.
pub fn column_to_str(c: &Column) -> (r: String)
    requires
        c.wf(),
    ensures
        r@ == column_text(*c),
{
    match c {
        Column::Scalar(v) => scalar_to_str(v),
        Column::Array(a) => array_to_str(a),
    }
}

/// NULL renders as `NULL` at every level: a NULL scalar column, a NULL array column, and
/// each NULL element inside an array.
pub proof fn lemma_null_renders_null(elems: Seq<Option<Value>>, i: int)
    requires
        0 <= i < elems.len(),
        elems[i] is None,
    ensures
        column_text(Column::Scalar(None)) == "NULL"@,
        column_text(Column::Array(None)) == "NULL"@,
        elems_text(elems)[i] == "NULL"@,
{
}

pub open spec fn columns_wf(cols: Seq<Column>) -> bool {
    forall|i: int| 0 <= i < cols.len() ==> (#[trigger] cols[i]).wf()
}

/// One row: its columns' texts separated by single spaces, ended by a newline.
pub open spec fn row_text(cols: Seq<Column>) -> Seq<char> {
    join(cols.map_values(|c: Column| column_text(c)), ' ').push('\n')
}

/// A row of two columns is the first column's text, one space, the second column's text
/// and one newline.
pub proof fn lemma_two_column_row(a: Column, b: Column)
    ensures
        row_text(seq![a, b]) == column_text(a) + seq![' '] + column_text(b) + seq!['\n'],
{
    let p = seq![a, b].map_values(|c: Column| column_text(c));
    assert(p.drop_last() =~= seq![column_text(a)]);
    assert(join(p.drop_last(), ' ') == column_text(a));
    assert(row_text(seq![a, b]) =~= column_text(a) + seq![' '] + column_text(b) + seq!['\n']);
}

/// Each row of a result set ends in exactly one newline: the text of a result set with
/// one more row is the earlier text followed by that row's text.
pub proof fn lemma_rows_append(rows: Seq<Vec<Column>>, row: Vec<Column>)
    ensures
        rows_text(rows.push(row)) == rows_text(rows) + row_text(row@),
        row_text(row@).last() == '\n',
{
    assert(rows.push(row).drop_last() =~= rows);
}

/// Appends the text of one row to `out`.
pub fn push_row(out: &mut String, cols: &Vec<Column>)
    requires
        columns_wf(cols@),
    ensures
        final(out)@ == old(out)@ + row_text(cols@),
{
    proof {
        reveal_strlit("\n");
        assert("\n"@ =~= seq!['\n']);
    }
    let n = cols.len();
    let mut i: usize = 0;
    while i < n
        invariant
            n == cols@.len(),
            i <= n,
            columns_wf(cols@),
            out@ == old(out)@ + join(
                cols@.subrange(0, i as int).map_values(|c: Column| column_text(c)),
                ' ',
            ),
        decreases n - i,
    {
        let ghost before = out@;
        proof {
            reveal_strlit(" ");
            assert(" "@ =~= seq![' ']);
        }
        if i > 0 {
            out.append(" ");
        }
        let ghost mid = out@;
        let t = column_to_str(&cols[i]);
        out.append(t.as_str());
        assert(out@ == mid + t@);
        proof {
            let p = cols@.subrange(0, i + 1).map_values(|c: Column| column_text(c));
            assert(p.drop_last() =~= cols@.subrange(0, i as int).map_values(
                |c: Column| column_text(c),
            ));
            assert(p.last() == column_text(cols@[i as int]));
            let j = join(cols@.subrange(0, i as int).map_values(|c: Column| column_text(c)), ' ');
            if i == 0 {
                assert(p.len() == 1);
                assert(join(p, ' ') == p[0]);
                assert(out@ =~= old(out)@ + join(p, ' '));
            } else {
                assert(join(p, ' ') == join(p.drop_last(), ' ').push(' ') + p.last());
                assert(mid == before + seq![' ']);
                assert(out@ =~= old(out)@ + (j.push(' ') + p.last()));
            }
        }
        i = i + 1;
    }
    out.append("\n");
    assert(cols@.subrange(0, n as int) =~= cols@);
}

/// The text of one row.
pub fn render_row(cols: &Vec<Column>) -> (r: String)
    requires
        columns_wf(cols@),
    ensures
        r@ == row_text(cols@),
{
    let mut out = String::new();
    push_row(&mut out, cols);
    assert(out@ =~= row_text(cols@));
    out
}

pub open spec fn rows_wf(rows: Seq<Vec<Column>>) -> bool {
    forall|i: int| 0 <= i < rows.len() ==> columns_wf((#[trigger] rows[i])@)
}

/// A result set: its rows' texts, in order; empty for no rows.
pub open spec fn rows_text(rows: Seq<Vec<Column>>) -> Seq<char>
    decreases rows.len(),
{
    if rows.len() == 0 {
        Seq::empty()
    } else {
        rows_text(rows.drop_last()) + row_text(rows.last()@)
    }
}

/// The text of a whole result set.
pub fn render_rows(rows: &Vec<Vec<Column>>) -> (r: String)
    requires
        rows_wf(rows@),
    ensures
        r@ == rows_text(rows@),
{
    let mut out = String::new();
    let n = rows.len();
    let mut i: usize = 0;
    while i < n
        invariant
            n == rows@.len(),
            i <= n,
            rows_wf(rows@),
            out@ == rows_text(rows@.subrange(0, i as int)),
        decreases n - i,
    {
        push_row(&mut out, &rows[i]);
        assert(rows@.subrange(0, i + 1).drop_last() =~= rows@.subrange(0, i as int));
        i = i + 1;
    }
    assert(rows@.subrange(0, n as int) =~= rows@);
    out
}

} // verus!
