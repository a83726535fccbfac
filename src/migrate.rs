//! Splitting a migration script into the statements run one by one.
use crate::text::{trim_text, trimmed};
use vstd::prelude::*;

verus! {

/// The pieces of `s` between semicolons, as `str::split(';')` yields them:
/// one more piece than there are semicolons, empty pieces included.
pub open spec fn split_semicolons(s: Seq<char>) -> Seq<Seq<char>>
    decreases s.len(),
{
    if s.len() == 0 {
        seq![Seq::<char>::empty()]
    } else {
        let prev = split_semicolons(s.drop_last());
        if s.last() == ';' {
            prev.push(Seq::empty())
        } else {
            prev.update(prev.len() - 1, prev.last().push(s.last()))
        }
    }
}

/// Each piece trimmed, the empty ones dropped, the rest closed with `;`.
pub open spec fn statements_of(pieces: Seq<Seq<char>>) -> Seq<Seq<char>>
    decreases pieces.len(),
{
    if pieces.len() == 0 {
        Seq::empty()
    } else {
        let prev = statements_of(pieces.drop_last());
        let t = trimmed(pieces.last());
        if t.len() > 0 {
            prev.push(t + ";"@)
        } else {
            prev
        }
    }
}

proof fn lemma_split_shape(s: Seq<char>, start: int)
    requires
        0 <= start <= s.len(),
        forall|k: int| start <= k < s.len() ==> s[k] != ';',
        start == 0 || s[start - 1] == ';',
    ensures
        split_semicolons(s).len() >= 1,
        split_semicolons(s).last() == s.subrange(start, s.len() as int),
    decreases s.len(),
{
    if s.len() > 0 {
        let d = s.drop_last();
        if s.last() == ';' {
            lemma_split_len(d);
            assert(start == s.len());
        } else {
            lemma_split_shape(d, start);
            assert(d.subrange(start, d.len() as int).push(s.last()) =~= s.subrange(start, s.len() as int));
        }
    }
}

proof fn lemma_split_len(s: Seq<char>)
    ensures
        split_semicolons(s).len() >= 1,
    decreases s.len(),
{
    if s.len() > 0 {
        lemma_split_len(s.drop_last());
    }
}

/// The statements of a migration script: the text between semicolons,
/// trimmed, with empty ones left out and each closed with `;`.
pub fn migration_statements(sql: &str) -> (r: Vec<String>)
    ensures
        r@.map_values(|t: String| t@) == statements_of(split_semicolons(sql@)),
{
    let n = sql.unicode_len();
    let mut out: Vec<String> = Vec::new();
    let mut start: usize = 0;
    let mut i: usize = 0;
    while i < n
        invariant
            n == sql@.len(),
            0 <= start <= i <= n,
            forall|k: int| start <= k < i ==> sql@[k] != ';',
            start == 0 || sql@[start - 1] == ';',
            split_semicolons(sql@.take(i as int)).len() >= 1,
            out@.map_values(|t: String| t@) == statements_of(split_semicolons(sql@.take(i as int)).drop_last()),
        decreases n - i,
    {
        let c = sql.get_char(i);
        let ghost before = split_semicolons(sql@.take(i as int));
        assert(sql@.take(i + 1).drop_last() =~= sql@.take(i as int));
        proof {
            lemma_split_shape(sql@.take(i as int), start as int);
            assert(sql@.take(i as int).subrange(start as int, i as int) =~= sql@.subrange(start as int, i as int));
        }
        if c == ';' {
            let piece = sql.substring_char(start, i);
            let t = trim_text(piece);
            let ghost prev_out = out@;
            if t.as_str().unicode_len() > 0 {
                let mut stmt = t;
                stmt.append(";");
                out.push(stmt);
                assert(out@.map_values(|t: String| t@) =~= prev_out.map_values(|t: String| t@).push(trimmed(before.last()) + ";"@));
            }
            assert(split_semicolons(sql@.take(i + 1)).drop_last() =~= before);
            start = i + 1;
        } else {
            assert(split_semicolons(sql@.take(i + 1)).drop_last() =~= before.drop_last());
        }
        i = i + 1;
    }
    proof {
        assert(sql@.take(n as int) =~= sql@);
        lemma_split_shape(sql@, start as int);
        assert(sql@.subrange(start as int, n as int) =~= sql@.subrange(start as int, sql@.len() as int));
    }
    let piece = sql.substring_char(start, n);
    let t = trim_text(piece);
    let ghost all = split_semicolons(sql@);
    assert(all.drop_last().push(all.last()) =~= all);
    let ghost prev_out = out@;
    if t.as_str().unicode_len() > 0 {
        let mut stmt = t;
        stmt.append(";");
        out.push(stmt);
        assert(out@.map_values(|t: String| t@) =~= prev_out.map_values(|t: String| t@).push(trimmed(all.last()) + ";"@));
    }
    out
}

} // verus!
