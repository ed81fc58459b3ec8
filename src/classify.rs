//! Deciding whether a statement produces rows, and the engine's name.

use vstd::prelude::*;

verus! {

/// How a statement is sent to the database.
#[derive(PartialEq, Eq, Structural, Clone, Copy, Debug)]
pub enum StatementKind {
    /// Result-producing: its rows are rendered as text.
    Query,
    /// A command: it is executed and yields no text.
    Command,
}

/// The code of a character after ASCII lower-casing.
pub open spec fn lower_code(c: char) -> u32 {
    if 'A' <= c && c <= 'Z' {
        (c as u32 + 32) as u32
    } else {
        c as u32
    }
}

/// `s`, lower-cased in ASCII, starts with `kw`.
pub open spec fn starts_with_lower(s: Seq<char>, kw: Seq<char>) -> bool {
    &&& kw.len() <= s.len()
    &&& forall|i: int| 0 <= i < kw.len() ==> lower_code(#[trigger] s[i]) == kw[i] as u32
}

pub open spec fn kw_select() -> Seq<char> {
    seq!['s', 'e', 'l', 'e', 'c', 't']
}

pub open spec fn kw_values() -> Seq<char> {
    seq!['v', 'a', 'l', 'u', 'e', 's']
}

pub open spec fn kw_show() -> Seq<char> {
    seq!['s', 'h', 'o', 'w']
}

pub open spec fn kw_with() -> Seq<char> {
    seq!['w', 'i', 't', 'h']
}

pub open spec fn kw_describe() -> Seq<char> {
    seq!['d', 'e', 's', 'c', 'r', 'i', 'b', 'e']
}

/// A statement is a query when it starts, case-insensitively, with one of
/// `select`, `values`, `show`, `with` or `describe`.
pub open spec fn is_query_text(s: Seq<char>) -> bool {
    ||| starts_with_lower(s, kw_select())
    ||| starts_with_lower(s, kw_values())
    ||| starts_with_lower(s, kw_show())
    ||| starts_with_lower(s, kw_with())
    ||| starts_with_lower(s, kw_describe())
}

pub open spec fn kind_of(s: Seq<char>) -> StatementKind {
    if is_query_text(s) {
        StatementKind::Query
    } else {
        StatementKind::Command
    }
}

/// Classification ignores ASCII case: two statements that agree after lower-casing are
/// classified alike.
pub proof fn lemma_classify_ignores_case(s: Seq<char>, t: Seq<char>)
    requires
        s.len() == t.len(),
        forall|i: int| 0 <= i < s.len() ==> lower_code(#[trigger] s[i]) == lower_code(t[i]),
    ensures
        kind_of(s) == kind_of(t),
{
    assert forall|kw: Seq<char>| starts_with_lower(s, kw) == starts_with_lower(t, kw) by {
        if starts_with_lower(s, kw) {
            assert forall|i: int| 0 <= i < kw.len() implies lower_code(#[trigger] t[i])
                == kw[i] as u32 by {
                assert(lower_code(s[i]) == kw[i] as u32);
            }
        }
        if starts_with_lower(t, kw) {
            assert forall|i: int| 0 <= i < kw.len() implies lower_code(#[trigger] s[i])
                == kw[i] as u32 by {
                assert(lower_code(t[i]) == kw[i] as u32);
            }
        }
    }
}

fn starts_with_keyword(s: &str, n: usize, kw: &str) -> (r: bool)
    requires
        n == s@.len(),
    ensures
        r == starts_with_lower(s@, kw@),
{
    let k = kw.unicode_len();
    if k > n {
        return false;
    }
    let mut i: usize = 0;
    while i < k
        invariant
            k == kw@.len(),
            k <= n,
            n == s@.len(),
            i <= k,
            forall|j: int| 0 <= j < i ==> lower_code(#[trigger] s@[j]) == kw@[j] as u32,
        decreases k - i,
    {
        let c = s.get_char(i);
        let code: u32 = if 'A' <= c && c <= 'Z' {
            c as u32 + 32
        } else {
            c as u32
        };
        if code != kw.get_char(i) as u32 {
            return false;
        }
        i = i + 1;
    }
    true
}

/// Classifies a statement by its leading keyword.
pub fn classify(sql: &str) -> (r: StatementKind)
    ensures
        r == kind_of(sql@),
{
    proof {
        reveal_strlit("select");
        reveal_strlit("values");
        reveal_strlit("show");
        reveal_strlit("with");
        reveal_strlit("describe");
        assert("select"@ =~= kw_select());
        assert("values"@ =~= kw_values());
        assert("show"@ =~= kw_show());
        assert("with"@ =~= kw_with());
        assert("describe"@ =~= kw_describe());
    }
    let n = sql.unicode_len();
    if starts_with_keyword(sql, n, "select") || starts_with_keyword(sql, n, "values")
        || starts_with_keyword(sql, n, "show") || starts_with_keyword(sql, n, "with")
        || starts_with_keyword(sql, n, "describe") {
        StatementKind::Query
    } else {
        StatementKind::Command
    }
}

/// The name under which this engine reports itself.
pub fn engine_name() -> (r: &'static str)
    ensures
        r@ == "postgres-extended"@,
{
    "postgres-extended"
}

} // verus!
