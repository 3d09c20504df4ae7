//! Splitting a migration script into statements.
use vstd::prelude::*;
use vstd::string::{StrSliceExecFns, StringExecFns};
use crate::text::{is_ws, is_ws_char, trim, trimmed, strings_of};

verus! {

/// Where the scanner stands: statements found, text of the current one, and
/// whether it is inside a quoted string, a line comment or a block comment.
pub struct SqlScan {
    pub statements: Seq<Seq<char>>,
    pub current: Seq<char>,
    pub single: bool,
    pub double: bool,
    pub line_comment: bool,
    pub block_comment: bool,
}

/// `stmts` with `cur` added where it is not blank.
pub open spec fn close_statement(stmts: Seq<Seq<char>>, cur: Seq<char>) -> Seq<Seq<char>> {
    if trimmed(cur).len() > 0 {
        stmts.push(trimmed(cur))
    } else {
        stmts
    }
}

pub open spec fn next_is(s: Seq<char>, i: int, c: char) -> bool {
    i + 1 < s.len() && s[i + 1] == c
}

/// One step of the scanner at position `i`: how many characters it takes and
/// the state after them. Comments are dropped (a line comment keeps its
/// newline); a doubled quote inside a string of that quote stays in it; a
/// `;` outside strings ends a statement.
pub open spec fn sql_step(s: Seq<char>, i: int, st: SqlScan) -> (int, SqlScan) {
    let ch = s[i];
    if st.line_comment {
        if ch == '\n' {
            (1, SqlScan { line_comment: false, current: st.current.push('\n'), ..st })
        } else {
            (1, st)
        }
    } else if st.block_comment {
        if ch == '*' && next_is(s, i, '/') {
            (2, SqlScan { block_comment: false, ..st })
        } else {
            (1, st)
        }
    } else if !st.single && !st.double && ch == '-' && next_is(s, i, '-') {
        (2, SqlScan { line_comment: true, ..st })
    } else if !st.single && !st.double && ch == '/' && next_is(s, i, '*') {
        (2, SqlScan { block_comment: true, ..st })
    } else if ch == '\'' && !st.double {
        if st.single && next_is(s, i, '\'') {
            (2, SqlScan { current: st.current.push('\'').push('\''), ..st })
        } else {
            (1, SqlScan { current: st.current.push('\''), single: !st.single, ..st })
        }
    } else if ch == '"' && !st.single {
        if st.double && next_is(s, i, '"') {
            (2, SqlScan { current: st.current.push('"').push('"'), ..st })
        } else {
            (1, SqlScan { current: st.current.push('"'), double: !st.double, ..st })
        }
    } else if ch == ';' && !st.single && !st.double {
        (1, SqlScan { statements: close_statement(st.statements, st.current), current: Seq::empty(), ..st })
    } else {
        (1, SqlScan { current: st.current.push(ch), ..st })
    }
}

/// The statements of `s` from position `i` on, from state `st`.
pub open spec fn sql_scan(s: Seq<char>, i: int, st: SqlScan) -> Seq<Seq<char>>
    decreases s.len() - i,
{
    if i < 0 || i >= s.len() {
        close_statement(st.statements, st.current)
    } else {
        let (n, st2) = sql_step(s, i, st);
        sql_scan(s, i + n, st2)
    }
}

pub open spec fn sql_start() -> SqlScan {
    SqlScan { statements: Seq::empty(), current: Seq::empty(), single: false, double: false, line_comment: false, block_comment: false }
}

/// The statements of a script, trimmed, blank ones left out.
pub open spec fn sql_statements(s: Seq<char>) -> Seq<Seq<char>> {
    sql_scan(s, 0, sql_start())
}

fn close_into(stmts: &mut Vec<String>, cur: &String)
    ensures
        strings_of(final(stmts)@) == close_statement(strings_of(old(stmts)@), cur@),
{
    let t = trim(cur.as_str());
    if t.unicode_len() > 0 {
        stmts.push(t);
        proof {
            assert(strings_of(stmts@) =~= strings_of(old(stmts)@).push(trimmed(cur@)));
        }
    }
}

/// The statements of a migration script.
pub fn split_sql_statements(sql: &str) -> (r: Vec<String>)
    ensures
        strings_of(r@) == sql_statements(sql@),
{
    let n = sql.unicode_len();
    let mut stmts: Vec<String> = Vec::new();
    let mut cur = String::new();
    let mut single = false;
    let mut double = false;
    let mut line_comment = false;
    let mut block_comment = false;
    let mut i: usize = 0;
    proof {
        assert(strings_of(stmts@) =~= Seq::<Seq<char>>::empty());
    }
    while i < n
        invariant
            n == sql@.len(),
            i <= n,
            sql_scan(sql@, i as int, SqlScan {
                statements: strings_of(stmts@),
                current: cur@,
                single,
                double,
                line_comment,
                block_comment,
            }) == sql_statements(sql@),
        decreases n - i,
    {
        let ch = sql.get_char(i);
        let has_next = i + 1 < n;
        let next: char = if has_next { sql.get_char(i + 1) } else { ' ' };
        let ghost st = SqlScan { statements: strings_of(stmts@), current: cur@, single, double, line_comment, block_comment };
        proof {
            assert(has_next ==> next == sql@[i + 1]);
        }
        let mut step: usize = 1;
        if line_comment {
            if ch == '\n' {
                line_comment = false;
                cur.push('\n');
            }
        } else if block_comment {
            if ch == '*' && has_next && next == '/' {
                block_comment = false;
                step = 2;
            }
        } else if !single && !double && ch == '-' && has_next && next == '-' {
            line_comment = true;
            step = 2;
        } else if !single && !double && ch == '/' && has_next && next == '*' {
            block_comment = true;
            step = 2;
        } else if ch == '\'' && !double {
            cur.push('\'');
            if single && has_next && next == '\'' {
                cur.push('\'');
                step = 2;
            } else {
                single = !single;
            }
        } else if ch == '"' && !single {
            cur.push('"');
            if double && has_next && next == '"' {
                cur.push('"');
                step = 2;
            } else {
                double = !double;
            }
        } else if ch == ';' && !single && !double {
            close_into(&mut stmts, &cur);
            cur = String::new();
        } else {
            cur.push(ch);
        }
        proof {
            let (k, st2) = sql_step(sql@, i as int, st);
            assert(k == step as int);
            assert(st2.current =~= cur@);
            assert(st2 == (SqlScan { statements: strings_of(stmts@), current: cur@, single, double, line_comment, block_comment }));
        }
        i = i + step;
    }
    close_into(&mut stmts, &cur);
    stmts
}

/// Whitespace runs collapsed to one space, none at either end.
pub open spec fn compact_spec(s: Seq<char>) -> (Seq<char>, bool)
    decreases s.len(),
{
    if s.len() == 0 {
        (Seq::empty(), false)
    } else {
        let (out, gap) = compact_spec(s.drop_last());
        let c = s.last();
        if is_ws(c) {
            (out, out.len() > 0)
        } else if gap {
            (out.push(' ').push(c), false)
        } else {
            (out.push(c), false)
        }
    }
}

/// The first 200 characters of a statement with its whitespace compacted.
pub open spec fn preview_spec(s: Seq<char>) -> Seq<char> {
    let c = compact_spec(s).0;
    if c.len() <= 200 {
        c
    } else {
        c.subrange(0, 200)
    }
}

/// A one-line preview of a statement, for messages.
pub fn statement_preview(statement: &str) -> (r: String)
    ensures
        r@ == preview_spec(statement@),
{
    let n = statement.unicode_len();
    let mut out = String::new();
    let mut count: usize = 0;
    let mut gap = false;
    let mut i: usize = 0;
    proof {
        assert(statement@.subrange(0, 0) =~= Seq::<char>::empty());
    }
    while i < n
        invariant
            n == statement@.len(),
            i <= n,
            count == (if compact_spec(statement@.subrange(0, i as int)).0.len() <= 201 {
                compact_spec(statement@.subrange(0, i as int)).0.len()
            } else {
                201
            }),
            compact_spec(statement@.subrange(0, i as int)).1 == gap,
            out@ == (if compact_spec(statement@.subrange(0, i as int)).0.len() <= 200 {
                compact_spec(statement@.subrange(0, i as int)).0
            } else {
                compact_spec(statement@.subrange(0, i as int)).0.subrange(0, 200)
            }),
        decreases n - i,
    {
        let c = statement.get_char(i);
        let ghost pre = statement@.subrange(0, i + 1);
        let ghost prev = compact_spec(statement@.subrange(0, i as int)).0;
        proof {
            assert(pre.drop_last() =~= statement@.subrange(0, i as int));
            assert(pre.last() == c);
        }
        if is_ws_char(c) {
            gap = count > 0;
        } else {
            if gap {
                if count < 200 {
                    out.push(' ');
                }
                if count < 201 {
                    count = count + 1;
                }
            }
            if count < 200 {
                out.push(c);
            }
            if count < 201 {
                count = count + 1;
            }
            gap = false;
        }
        proof {
            let now = compact_spec(pre).0;
            if now.len() <= 200 {
                assert(out@ =~= now);
            } else {
                assert(out@ =~= now.subrange(0, 200));
            }
        }
        i = i + 1;
    }
    proof {
        assert(statement@.subrange(0, n as int) =~= statement@);
    }
    out
}

} // verus!
