//! Properties of the clean-up applied to a reply before parsing: what is left of a reply
//! after it, and that a cleaned reply comes out of it unchanged.

use vstd::prelude::*;
use crate::llm::parser::{keep_line, spec_fix_response};
use crate::text::{
    find_from, free_of, is_white_space, join_lines, leading_ws, lemma_find_from, lemma_match_in_tail,
    lemma_next_newline_range, lemma_replace_absent, lines, matches_at, next_newline, replace_all, strip_cr,
    trailing_ws, trim,
};

verus! {

/// Where the trimmed text starts in `s`.
pub open spec fn trim_start(s: Seq<char>) -> int {
    leading_ws(s) as int
}

/// Where the trimmed text ends in `s`.
pub open spec fn trim_end(s: Seq<char>) -> int {
    s.len() - trailing_ws(s.skip(leading_ws(s) as int))
}

/// The leading white space is white space, and what follows it is not.
proof fn lemma_leading_ws_bounds(s: Seq<char>)
    ensures
        leading_ws(s) <= s.len(),
        forall|k: int| 0 <= k < leading_ws(s) ==> is_white_space(#[trigger] s[k]),
        leading_ws(s) < s.len() ==> !is_white_space(s[leading_ws(s) as int]),
    decreases s.len(),
{
    if s.len() > 0 && is_white_space(s[0]) {
        let t = s.drop_first();
        lemma_leading_ws_bounds(t);
        assert forall|k: int| 0 <= k < leading_ws(s) implies is_white_space(#[trigger] s[k]) by {
            if k > 0 {
                assert(s[k] == t[k - 1]);
            }
        }
        if leading_ws(s) < s.len() {
            assert(s[leading_ws(s) as int] == t[leading_ws(t) as int]);
        }
    }
}

/// The trailing white space is white space, and what precedes it is not.
proof fn lemma_trailing_ws_bounds(s: Seq<char>)
    ensures
        trailing_ws(s) <= s.len(),
        forall|k: int| s.len() - trailing_ws(s) <= k < s.len() ==> is_white_space(#[trigger] s[k]),
        trailing_ws(s) < s.len() ==> !is_white_space(s[s.len() - trailing_ws(s) - 1]),
    decreases s.len(),
{
    if s.len() > 0 && is_white_space(s.last()) {
        let t = s.drop_last();
        lemma_trailing_ws_bounds(t);
        assert forall|k: int| s.len() - trailing_ws(s) <= k < s.len() implies is_white_space(#[trigger] s[k]) by {
            if k < s.len() - 1 {
                assert(s[k] == t[k]);
            }
        }
        if trailing_ws(s) < s.len() {
            assert(s[s.len() - trailing_ws(s) - 1] == t[t.len() - trailing_ws(t) - 1]);
        }
    }
}

/// The trimmed text is the range between `trim_start` and `trim_end`; white space lies
/// before and after it, and it neither starts nor ends with white space.
pub proof fn lemma_trim_shape(s: Seq<char>)
    ensures
        0 <= trim_start(s) <= trim_end(s) <= s.len(),
        trim(s) == s.subrange(trim_start(s), trim_end(s)),
        forall|k: int| 0 <= k < trim_start(s) ==> is_white_space(#[trigger] s[k]),
        forall|k: int| trim_end(s) <= k < s.len() ==> is_white_space(#[trigger] s[k]),
        trim_start(s) < trim_end(s) ==> !is_white_space(s[trim_start(s)]) && !is_white_space(
            s[trim_end(s) - 1],
        ),
{
    lemma_leading_ws_bounds(s);
    let a = leading_ws(s) as int;
    let t = s.skip(a);
    lemma_trailing_ws_bounds(t);
    assert(trim(s) =~= s.subrange(trim_start(s), trim_end(s)));
    assert forall|k: int| trim_end(s) <= k < s.len() implies is_white_space(#[trigger] s[k]) by {
        assert(s[k] == t[k - a]);
    }
    if trim_start(s) < trim_end(s) {
        assert(s[trim_end(s) - 1] == t[t.len() - trailing_ws(t) - 1]);
        if trailing_ws(t) == t.len() {
            assert(false);
        }
    }
}

/// Trimming a trimmed text changes nothing.
pub proof fn lemma_trim_idempotent(s: Seq<char>)
    ensures
        trim(trim(s)) == trim(s),
{
    lemma_trim_shape(s);
    let y = trim(s);
    lemma_trim_shape(y);
    if y.len() > 0 {
        assert(y[0] == s[trim_start(s)]);
        assert(y[y.len() - 1] == s[trim_end(s) - 1]);
        lemma_leading_ws_bounds(y);
        assert(leading_ws(y) == 0) by {
            if leading_ws(y) > 0 {
                assert(is_white_space(y[0]));
            }
        }
        assert(y.skip(0) =~= y);
        lemma_trailing_ws_bounds(y);
        assert(trailing_ws(y) == 0) by {
            if trailing_ws(y) > 0 {
                assert(is_white_space(y[y.len() - 1]));
            }
        }
        assert(trim(y) =~= y);
    } else {
        assert(trim(y) =~= y);
    }
}

/// No newline comes before the first one found from `i`, and that one is a newline.
proof fn lemma_next_newline_clear(s: Seq<char>, i: int)
    requires
        0 <= i,
    ensures
        forall|k: int| i <= k < next_newline(s, i) ==> #[trigger] s[k] != '\n',
        next_newline(s, i) < s.len() ==> s[next_newline(s, i)] == '\n',
    decreases s.len() - i,
{
    if i < s.len() && s[i] != '\n' {
        lemma_next_newline_clear(s, i + 1);
    }
}

/// A line without a final carriage return is a range of the text.
proof fn lemma_strip_cr_range(s: Seq<char>, e: int)
    requires
        0 <= e <= s.len(),
    ensures
        strip_cr(s.take(e)) == s.subrange(0, e) || strip_cr(s.take(e)) == s.subrange(0, e - 1),
        strip_cr(s.take(e)).len() <= e,
{
    if e > 0 && s.take(e).last() == '\r' {
        assert(s.take(e).drop_last() =~= s.subrange(0, e - 1));
    } else {
        assert(s.take(e) =~= s.subrange(0, e));
    }
}

/// Each line of `s` has a property that every range of `s` has, and holds no newline.
pub proof fn lemma_lines_ranges(s: Seq<char>, prop: spec_fn(Seq<char>) -> bool)
    requires
        forall|a: int, b: int| 0 <= a <= b <= s.len() ==> #[trigger] prop(s.subrange(a, b)),
    ensures
        forall|i: int| 0 <= i < lines(s).len() ==> #[trigger] prop(lines(s)[i]),
        forall|i: int, k: int| 0 <= i < lines(s).len() && 0 <= k < lines(s)[i].len() ==> #[trigger] lines(s)[i][k]
            != '\n',
    decreases s.len(),
{
    if s.len() > 0 {
        let e = next_newline(s, 0);
        lemma_next_newline_range(s, 0);
        lemma_next_newline_clear(s, 0);
        if e >= s.len() {
            assert(s.take(s.len() as int) =~= s);
            lemma_strip_cr_range(s, s.len() as int);
            let first = strip_cr(s);
            assert(lines(s) == seq![first]);
            assert(prop(first));
            assert forall|i: int, k: int| 0 <= i < lines(s).len() && 0 <= k < lines(s)[i].len() implies #[trigger] lines(
                s,
            )[i][k] != '\n' by {
                assert(first[k] == s[k]);
            }
        } else {
            lemma_strip_cr_range(s, e);
            let first = strip_cr(s.take(e));
            let rest = s.skip(e + 1);
            assert forall|a: int, b: int| 0 <= a <= b <= rest.len() implies #[trigger] prop(rest.subrange(a, b)) by {
                assert(rest.subrange(a, b) =~= s.subrange(a + e + 1, b + e + 1));
            }
            lemma_lines_ranges(rest, prop);
            assert(lines(s) == seq![first] + lines(rest));
            assert(prop(first));
            assert forall|i: int| 0 <= i < lines(s).len() implies #[trigger] prop(lines(s)[i]) by {
                if i > 0 {
                    assert(lines(s)[i] == lines(rest)[i - 1]);
                }
            }
            assert forall|i: int, k: int| 0 <= i < lines(s).len() && 0 <= k < lines(s)[i].len() implies #[trigger] lines(
                s,
            )[i][k] != '\n' by {
                if i > 0 {
                    assert(lines(s)[i] == lines(rest)[i - 1]);
                } else {
                    assert(first[k] == s[k]);
                }
            }
        }
    }
}

/// Joining lines none of which holds `c` (not a newline) gives a text without `c`.
pub proof fn lemma_join_avoids(ls: Seq<Seq<char>>, c: char)
    requires
        c != '\n',
        forall|i: int, k: int| 0 <= i < ls.len() && 0 <= k < ls[i].len() ==> #[trigger] ls[i][k] != c,
    ensures
        forall|k: int| 0 <= k < join_lines(ls).len() ==> #[trigger] join_lines(ls)[k] != c,
    decreases ls.len(),
{
    if ls.len() == 1 {
        assert forall|k: int| 0 <= k < join_lines(ls).len() implies #[trigger] join_lines(ls)[k] != c by {
            assert(ls[0][k] != c);
        }
    } else if ls.len() > 1 {
        let init = ls.drop_last();
        lemma_join_avoids(init, c);
        let j = join_lines(init);
        let last = ls.last();
        assert forall|k: int| 0 <= k < join_lines(ls).len() implies #[trigger] join_lines(ls)[k] != c by {
            if k < j.len() {
                assert(join_lines(ls)[k] == j[k]);
            } else if k > j.len() {
                assert(join_lines(ls)[k] == last[k - j.len() - 1]);
                assert(ls[ls.len() - 1][k - j.len() - 1] != c);
            }
        }
    }
}

/// Joining lines free of `q` (a pattern without newline) gives a text free of `q`.
pub proof fn lemma_join_free(ls: Seq<Seq<char>>, q: Seq<char>)
    requires
        q.len() > 0,
        forall|k: int| 0 <= k < q.len() ==> #[trigger] q[k] != '\n',
        forall|i: int| 0 <= i < ls.len() ==> free_of(#[trigger] ls[i], q),
    ensures
        free_of(join_lines(ls), q),
    decreases ls.len(),
{
    if ls.len() == 1 {
        assert(free_of(ls[0], q));
    } else if ls.len() > 1 {
        let init = ls.drop_last();
        assert forall|i: int| 0 <= i < init.len() implies free_of(#[trigger] init[i], q) by {
            assert(init[i] == ls[i]);
        }
        lemma_join_free(init, q);
        let j = join_lines(init);
        let last = ls.last();
        assert(free_of(ls[ls.len() - 1], q));
        let all = join_lines(ls);
        assert(all == j + seq!['\n'] + last);
        assert forall|i: int| !#[trigger] matches_at(all, q, i) by {
            if matches_at(all, q, i) {
                if i + q.len() <= j.len() {
                    assert(all.subrange(i, i + q.len()) =~= j.subrange(i, i + q.len()));
                    assert(matches_at(j, q, i));
                } else if i > j.len() {
                    assert(all.subrange(i, i + q.len()) =~= last.subrange(i - j.len() - 1, i - j.len() - 1 + q.len()));
                    assert(matches_at(last, q, i - j.len() - 1));
                } else {
                    assert(all.subrange(i, i + q.len())[j.len() - i] == all[j.len() as int]);
                    assert(q[j.len() - i] == '\n');
                }
            }
        }
    }
}

/// A `//` at `p` with only white space from the start of a line (or of the text) up to it.
pub open spec fn comment_at(s: Seq<char>, p: int) -> bool {
    &&& 0 <= p
    &&& p + 2 <= s.len()
    &&& s[p] == '/'
    &&& s[p + 1] == '/'
    &&& exists|q: int| #[trigger] blank_from(s, q, p)
}

/// Only white space lies from `q`, the start of a line (or of the text), up to `p`.
pub open spec fn blank_from(s: Seq<char>, q: int, p: int) -> bool {
    0 <= q <= p && (q == 0 || s[q - 1] == '\n') && forall|k: int| q <= k < p ==> is_white_space(#[trigger] s[k])
}

/// No line of `s` is a comment line.
pub open spec fn comment_free(s: Seq<char>) -> bool {
    forall|p: int| !#[trigger] comment_at(s, p)
}

/// A line that the clean-up drops has `//` after its leading white space.
proof fn lemma_dropped_line(l: Seq<char>)
    requires
        !keep_line(l),
    ensures
        comment_at(l, leading_ws(l) as int),
{
    lemma_trim_shape(l);
    let a = trim_start(l);
    let t = trim(l);
    assert(t.take(2) == seq!['/', '/']);
    assert(t[0] == t.take(2)[0]);
    assert(t[1] == t.take(2)[1]);
    assert(l[a] == t[0]);
    assert(l[a + 1] == t[1]);
    assert(forall|k: int| 0 <= k < a ==> is_white_space(#[trigger] l[k]));
    assert(blank_from(l, 0, a));
}

/// A line without newline that has a comment is dropped by the clean-up.
proof fn lemma_comment_line_dropped(l: Seq<char>, p: int)
    requires
        forall|k: int| 0 <= k < l.len() ==> #[trigger] l[k] != '\n',
        comment_at(l, p),
    ensures
        !keep_line(l),
{
    let q = choose|q: int| blank_from(l, q, p);
    assert(q == 0);
    lemma_trim_shape(l);
    lemma_leading_ws_bounds(l);
    let a = trim_start(l);
    let b = trim_end(l);
    assert(!is_white_space('/'));
    if a < p {
        assert(is_white_space(l[a]));
        assert(!is_white_space(l[a]));
    }
    if a > p {
        assert(is_white_space(l[p]));
    }
    assert(a == p);
    if b <= p + 1 {
        assert(is_white_space(l[p + 1]));
    }
    let t = trim(l);
    assert(t.take(2) =~= seq!['/', '/']);
}

/// A comment in the text after a newline at `e` is a comment of the whole text.
proof fn lemma_comment_after_newline(x: Seq<char>, e: int, p: int)
    requires
        0 <= e < x.len(),
        x[e] == '\n',
        comment_at(x.skip(e + 1), p),
    ensures
        comment_at(x, p + e + 1),
{
    let r = x.skip(e + 1);
    let q = choose|q: int| blank_from(r, q, p);
    let q2 = q + e + 1;
    assert(q2 == 0 || x[q2 - 1] == '\n');
    assert forall|k: int| q2 <= k < p + e + 1 implies is_white_space(#[trigger] x[k]) by {
        assert(x[k] == r[k - e - 1]);
    }
    assert(x[p + e + 1] == r[p]);
    assert(x[p + e + 2] == r[p + 1]);
    assert(blank_from(x, q2, p + e + 1));
}

/// Every line of a text without carriage return and without comment line is kept.
proof fn lemma_lines_kept(x: Seq<char>)
    requires
        forall|k: int| 0 <= k < x.len() ==> #[trigger] x[k] != '\r',
        comment_free(x),
    ensures
        forall|i: int| 0 <= i < lines(x).len() ==> keep_line(#[trigger] lines(x)[i]),
    decreases x.len(),
{
    if x.len() > 0 {
        let e = next_newline(x, 0);
        lemma_next_newline_range(x, 0);
        lemma_next_newline_clear(x, 0);
        let first = if e >= x.len() {
            x
        } else {
            x.take(e)
        };
        assert(strip_cr(first) == first) by {
            if first.len() > 0 {
                assert(first.last() == x[first.len() - 1]);
            }
        }
        if !keep_line(first) {
            lemma_dropped_line(first);
            let p = leading_ws(first) as int;
            let w = choose|q: int| blank_from(first, q, p);
            assert(w == 0 || first[w - 1] == x[w - 1]);
            assert forall|k: int| w <= k < p implies is_white_space(#[trigger] x[k]) by {
                assert(first[k] == x[k]);
            }
            assert(first[p] == x[p]);
            assert(first[p + 1] == x[p + 1]);
            assert(blank_from(x, w, p));
            assert(comment_at(x, p));
        }
        if e >= x.len() {
            assert(x.take(x.len() as int) =~= x);
            assert(lines(x) == seq![first]);
        } else {
            let rest = x.skip(e + 1);
            assert forall|k: int| 0 <= k < rest.len() implies #[trigger] rest[k] != '\r' by {
                assert(rest[k] == x[k + e + 1]);
            }
            assert forall|p: int| !#[trigger] comment_at(rest, p) by {
                if comment_at(rest, p) {
                    lemma_comment_after_newline(x, e, p);
                }
            }
            lemma_lines_kept(rest);
            assert(lines(x) == seq![first] + lines(rest));
            assert forall|i: int| 0 <= i < lines(x).len() implies keep_line(#[trigger] lines(x)[i]) by {
                if i > 0 {
                    assert(lines(x)[i] == lines(rest)[i - 1]);
                }
            }
        }
    }
}

/// Joining kept lines without newline gives a text without comment line.
proof fn lemma_join_comment_free(ls: Seq<Seq<char>>)
    requires
        forall|i: int| 0 <= i < ls.len() ==> keep_line(#[trigger] ls[i]),
        forall|i: int, k: int| 0 <= i < ls.len() && 0 <= k < ls[i].len() ==> #[trigger] ls[i][k] != '\n',
    ensures
        comment_free(join_lines(ls)),
    decreases ls.len(),
{
    if ls.len() == 1 {
        assert forall|p: int| !#[trigger] comment_at(join_lines(ls), p) by {
            if comment_at(join_lines(ls), p) {
                assert(keep_line(ls[0]));
                assert forall|k: int| 0 <= k < ls[0].len() implies #[trigger] ls[0][k] != '\n' by {
                    assert(ls[0][k] != '\n');
                }
                lemma_comment_line_dropped(ls[0], p);
            }
        }
    } else if ls.len() > 1 {
        let init = ls.drop_last();
        assert forall|i: int| 0 <= i < init.len() implies keep_line(#[trigger] init[i]) by {
            assert(init[i] == ls[i]);
        }
        assert forall|i: int, k: int| 0 <= i < init.len() && 0 <= k < init[i].len() implies #[trigger] init[i][k] != '\n' by {
            assert(init[i] == ls[i]);
        }
        lemma_join_comment_free(init);
        let j = join_lines(init);
        let last = ls.last();
        let all = join_lines(ls);
        assert(all == j + seq!['\n'] + last);
        assert forall|p: int| !#[trigger] comment_at(all, p) by {
            if comment_at(all, p) {
                let q = choose|q: int| blank_from(all, q, p);
                if p + 2 <= j.len() {
                    assert(j[p] == all[p]);
                    assert(j[p + 1] == all[p + 1]);
                    assert(q == 0 || j[q - 1] == all[q - 1]);
                    assert forall|k: int| q <= k < p implies is_white_space(#[trigger] j[k]) by {
                        assert(j[k] == all[k]);
                    }
                    assert(blank_from(j, q, p));
                    assert(comment_at(j, p));
                } else if p <= j.len() {
                    assert(all[j.len() as int] == '\n');
                } else {
                    let off = j.len() + 1;
                    let p2 = p - off;
                    let q2 = if q <= j.len() {
                        0
                    } else {
                        q - off
                    };
                    assert(last[p2] == all[p]);
                    assert(last[p2 + 1] == all[p + 1]);
                    assert(q2 == 0 || last[q2 - 1] == all[q - 1]);
                    assert forall|k: int| q2 <= k < p2 implies is_white_space(#[trigger] last[k]) by {
                        assert(last[k] == all[k + off]);
                    }
                    assert(blank_from(last, q2, p2));
                    assert(comment_at(last, p2));
                    assert(keep_line(ls[ls.len() - 1]));
                    assert forall|k: int| 0 <= k < last.len() implies #[trigger] last[k] != '\n' by {
                        assert(ls[ls.len() - 1][k] != '\n');
                    }
                    lemma_comment_line_dropped(last, p2);
                }
            }
        }
    }
}

/// Trimming keeps a text without comment line free of them.
proof fn lemma_trim_comment_free(d: Seq<char>)
    requires
        comment_free(d),
    ensures
        comment_free(trim(d)),
{
    lemma_trim_shape(d);
    let a = trim_start(d);
    let x = trim(d);
    assert forall|p: int| !#[trigger] comment_at(x, p) by {
        if comment_at(x, p) {
            let q = choose|q: int| blank_from(x, q, p);
            let q2 = if q == 0 {
                0
            } else {
                q + a
            };
            assert(q2 == 0 || d[q2 - 1] == x[q - 1]);
            assert forall|k: int| q2 <= k < p + a implies is_white_space(#[trigger] d[k]) by {
                if k >= a {
                    assert(d[k] == x[k - a]);
                }
            }
            assert(d[p + a] == x[p]);
            assert(d[p + a + 1] == x[p + 1]);
            assert(blank_from(d, q2, p + a));
            assert(comment_at(d, p + a));
        }
    }
}

/// Joining a first line with further lines puts a newline between them.
proof fn lemma_join_prepend(h: Seq<char>, ls: Seq<Seq<char>>)
    requires
        ls.len() > 0,
    ensures
        join_lines(seq![h] + ls) == h + seq!['\n'] + join_lines(ls),
    decreases ls.len(),
{
    let all = seq![h] + ls;
    if ls.len() == 1 {
        assert(all.drop_last() =~= seq![h]);
        assert(all.last() == ls[0]);
        assert(join_lines(seq![h]) == h);
        assert(join_lines(ls) == ls[0]);
        assert(join_lines(all) == join_lines(all.drop_last()) + seq!['\n'] + all.last());
    } else {
        assert(all.drop_last() =~= seq![h] + ls.drop_last());
        lemma_join_prepend(h, ls.drop_last());
        assert(all.last() == ls.last());
        assert(join_lines(all) =~= h + seq!['\n'] + join_lines(ls));
    }
}

/// Splitting a text into lines and joining them gives the text back, when it holds no
/// carriage return and does not end with a newline.
proof fn lemma_lines_round_trip(x: Seq<char>)
    requires
        forall|k: int| 0 <= k < x.len() ==> #[trigger] x[k] != '\r',
        x.len() == 0 || x.last() != '\n',
    ensures
        join_lines(lines(x)) == x,
    decreases x.len(),
{
    if x.len() > 0 {
        let e = next_newline(x, 0);
        lemma_next_newline_range(x, 0);
        lemma_next_newline_clear(x, 0);
        if e >= x.len() {
            assert(x.take(x.len() as int) =~= x);
            assert(lines(x) == seq![strip_cr(x)]);
            assert(strip_cr(x) == x);
        } else {
            let first = x.take(e);
            assert(strip_cr(first) == first) by {
                if first.len() > 0 {
                    assert(first.last() == x[first.len() - 1]);
                }
            }
            let rest = x.skip(e + 1);
            assert(e != x.len() - 1);
            assert(rest.last() == x.last());
            assert forall|k: int| 0 <= k < rest.len() implies #[trigger] rest[k] != '\r' by {
                assert(rest[k] == x[k + e + 1]);
            }
            lemma_lines_round_trip(rest);
            assert(lines(x) == seq![first] + lines(rest));
            assert(lines(rest).len() > 0);
            lemma_join_prepend(first, lines(rest));
            assert(x =~= first + seq!['\n'] + rest);
        }
    }
}

/// Keeping the kept lines of lines that are all kept keeps them all.
proof fn lemma_filter_all_kept(ls: Seq<Seq<char>>)
    requires
        forall|i: int| 0 <= i < ls.len() ==> keep_line(#[trigger] ls[i]),
    ensures
        ls.filter(|l: Seq<char>| keep_line(l)) == ls,
    decreases ls.len(),
{
    reveal_with_fuel(Seq::<_>::filter, 1);
    if ls.len() > 0 {
        let init = ls.drop_last();
        assert forall|i: int| 0 <= i < init.len() implies keep_line(#[trigger] init[i]) by {
            assert(init[i] == ls[i]);
        }
        lemma_filter_all_kept(init);
        assert(keep_line(ls[ls.len() - 1]));
        assert(init.push(ls.last()) =~= ls);
    }
}

/// A pattern that does not occur is not found.
proof fn lemma_find_absent(s: Seq<char>, p: Seq<char>, i: int)
    requires
        free_of(s, p),
    ensures
        find_from(s, p, i) is None,
    decreases s.len() + 1 - i,
{
    if !(i < 0 || i + p.len() > s.len()) {
        assert(!matches_at(s, p, i));
        lemma_find_absent(s, p, i + 1);
    }
}

/// A range of a text free of `q` is free of `q`.
proof fn lemma_free_range(s: Seq<char>, q: Seq<char>, a: int, b: int)
    requires
        free_of(s, q),
        0 <= a <= b <= s.len(),
    ensures
        free_of(s.subrange(a, b), q),
{
    let r = s.subrange(a, b);
    assert forall|i: int| !#[trigger] matches_at(r, q, i) by {
        if matches_at(r, q, i) {
            assert(s.subrange(i + a, i + a + q.len()) =~= r.subrange(i, i + q.len()));
            assert(matches_at(s, q, i + a));
        }
    }
}

/// Replacing by a text without `c` in a text without `c` gives a text without `c`.
proof fn lemma_replace_avoids(s: Seq<char>, p: Seq<char>, r: Seq<char>, c: char)
    requires
        p.len() > 0,
        forall|k: int| 0 <= k < s.len() ==> #[trigger] s[k] != c,
        forall|k: int| 0 <= k < r.len() ==> #[trigger] r[k] != c,
    ensures
        forall|k: int| 0 <= k < replace_all(s, p, r).len() ==> #[trigger] replace_all(s, p, r)[k] != c,
    decreases s.len(),
{
    if s.len() > 0 {
        if matches_at(s, p, 0) {
            let s1 = s.skip(p.len() as int);
            assert forall|k: int| 0 <= k < s1.len() implies #[trigger] s1[k] != c by {
                assert(s1[k] == s[k + p.len()]);
            }
            lemma_replace_avoids(s1, p, r, c);
            let out = replace_all(s, p, r);
            let rest = replace_all(s1, p, r);
            assert forall|k: int| 0 <= k < out.len() implies #[trigger] out[k] != c by {
                if k >= r.len() {
                    assert(out[k] == rest[k - r.len()]);
                }
            }
        } else {
            let s1 = s.drop_first();
            assert forall|k: int| 0 <= k < s1.len() implies #[trigger] s1[k] != c by {
                assert(s1[k] == s[k + 1]);
            }
            lemma_replace_avoids(s1, p, r, c);
            let out = replace_all(s, p, r);
            let rest = replace_all(s1, p, r);
            assert forall|k: int| 0 <= k < out.len() implies #[trigger] out[k] != c by {
                if k >= 1 {
                    assert(out[k] == rest[k - 1]);
                }
            }
        }
    }
}

/// Removing every triple of `c`, left to right, leaves no triple of `c`.
proof fn lemma_remove_triple(s: Seq<char>, c: char)
    ensures
        free_of(replace_all(s, seq![c, c, c], Seq::<char>::empty()), seq![c, c, c]),
    decreases s.len(),
{
    let t = seq![c, c, c];
    let e = Seq::<char>::empty();
    let out = replace_all(s, t, e);
    if s.len() == 0 {
        return;
    }
    if matches_at(s, t, 0) {
        lemma_remove_triple(s.skip(3), c);
        assert(out =~= replace_all(s.skip(3), t, e));
    } else {
        let s1 = s.drop_first();
        lemma_remove_triple(s1, c);
        let rest = replace_all(s1, t, e);
        assert(out == seq![s[0]] + rest);
        assert forall|i: int| !#[trigger] matches_at(out, t, i) by {
            if matches_at(out, t, i) {
                if i == 0 {
                    assert(out.subrange(0, 3)[0] == out[0]);
                    assert(out.subrange(0, 3)[1] == out[1]);
                    assert(out.subrange(0, 3)[2] == out[2]);
                    assert(s1.len() > 0);
                    if matches_at(s1, t, 0) {
                        assert(s1.subrange(0, 3)[0] == s1[0]);
                        assert(s1.subrange(0, 3)[1] == s1[1]);
                        assert(s.subrange(0, 3) =~= t);
                    } else {
                        let s2 = s1.drop_first();
                        let rest2 = replace_all(s2, t, e);
                        assert(rest == seq![s1[0]] + rest2);
                        assert(s2.len() > 0);
                        if matches_at(s2, t, 0) {
                            assert(s2.subrange(0, 3)[0] == s2[0]);
                        } else {
                            assert(rest2 == seq![s2[0]] + replace_all(s2.drop_first(), t, e));
                        }
                        assert(s.subrange(0, 3) =~= t);
                    }
                } else {
                    lemma_match_in_tail(seq![s[0]], rest, t, i);
                }
            }
        }
    }
}

/// What is left of a reply after the clean-up: no carriage return (when the reply has
/// none), no single quote, no markdown fence, no comment line, and no white space at either
/// end.
pub proof fn lemma_cleaned_shape(s: Seq<char>)
    requires
        forall|k: int| 0 <= k < s.len() ==> #[trigger] s[k] != '\r',
    ensures
        forall|k: int| 0 <= k < spec_fix_response(s).len() ==> #[trigger] spec_fix_response(s)[k] != '\r',
        forall|k: int| 0 <= k < spec_fix_response(s).len() ==> #[trigger] spec_fix_response(s)[k] != '\'',
        free_of(spec_fix_response(s), seq!['`', '`', '`']),
        comment_free(spec_fix_response(s)),
        spec_fix_response(s).len() == 0 || spec_fix_response(s).last() != '\n',
        trim(spec_fix_response(s)) == spec_fix_response(s),
{
    reveal_strlit("</think>");
    reveal_strlit("```json");
    reveal_strlit("```");
    let fence = seq!['`', '`', '`'];
    assert("```"@ =~= fence);
    let a = match find_from(s, "</think>"@, 0) {
        Some(p) => s.skip(p + 8),
        None => s,
    };
    assert forall|k: int| 0 <= k < a.len() implies #[trigger] a[k] != '\r' by {
        if let Some(p) = find_from(s, "</think>"@, 0) {
            lemma_find_from(s, "</think>"@, 0);
            assert(a[k] == s[k + p + 8]);
        }
    }
    let e = Seq::<char>::empty();
    let b1 = replace_all(a, "```json"@, e);
    lemma_replace_avoids(a, "```json"@, e, '\r');
    let b = replace_all(b1, "```"@, e);
    lemma_replace_avoids(b1, "```"@, e, '\r');
    lemma_remove_triple(b1, '`');
    let f = |ch: char| if ch == '\'' { '"' } else { ch };
    let c = b.map_values(f);
    assert forall|k: int| 0 <= k < c.len() implies #[trigger] c[k] != '\r' && c[k] != '\'' by {
        assert(c[k] == f(b[k]));
    }
    assert(free_of(c, fence)) by {
        assert forall|i: int| !#[trigger] matches_at(c, fence, i) by {
            if matches_at(c, fence, i) {
                assert forall|k: int| 0 <= k < 3 implies #[trigger] b.subrange(i, i + 3)[k] == fence[k] by {
                    assert(c.subrange(i, i + 3)[k] == fence[k]);
                    assert(c[i + k] == f(b[i + k]));
                }
                assert(b.subrange(i, i + 3) =~= fence);
                assert(matches_at(b, fence, i));
            }
        }
    }
    let prop = |l: Seq<char>|
        (forall|k: int| 0 <= k < l.len() ==> #[trigger] l[k] != '\r' && l[k] != '\'') && free_of(l, fence);
    assert forall|x: int, y: int| 0 <= x <= y <= c.len() implies #[trigger] prop(c.subrange(x, y)) by {
        lemma_free_range(c, fence, x, y);
        assert forall|k: int| 0 <= k < c.subrange(x, y).len() implies #[trigger] c.subrange(x, y)[k] != '\r'
            && c.subrange(x, y)[k] != '\'' by {
            assert(c.subrange(x, y)[k] == c[x + k]);
        }
    }
    let ls = lines(c);
    lemma_lines_ranges(c, prop);
    let keep = |l: Seq<char>| keep_line(l);
    let kept = ls.filter(keep);
    assert forall|i: int| 0 <= i < kept.len() implies #[trigger] prop(kept[i]) && keep_line(kept[i]) && forall|k: int|
        0 <= k < kept[i].len() ==> kept[i][k] != '\n' by {
        ls.lemma_filter_pred(keep, i);
        assert(kept.contains(kept[i]));
        ls.lemma_filter_contains_rev(keep, kept[i]);
        let j = choose|j: int| 0 <= j < ls.len() && ls[j] == kept[i];
        assert(prop(ls[j]));
        assert forall|k: int| 0 <= k < kept[i].len() implies kept[i][k] != '\n' by {
            assert(ls[j][k] != '\n');
        }
    }
    assert forall|i: int, k: int| 0 <= i < kept.len() && 0 <= k < kept[i].len() implies #[trigger] kept[i][k] != '\r' by {
        assert(prop(kept[i]));
    }
    assert forall|i: int, k: int| 0 <= i < kept.len() && 0 <= k < kept[i].len() implies #[trigger] kept[i][k] != '\'' by {
        assert(prop(kept[i]));
    }
    assert forall|i: int, k: int| 0 <= i < kept.len() && 0 <= k < kept[i].len() implies #[trigger] kept[i][k] != '\n' by {
        assert(prop(kept[i]));
    }
    assert forall|i: int| 0 <= i < kept.len() implies free_of(#[trigger] kept[i], fence) by {
        assert(prop(kept[i]));
    }
    assert forall|i: int| 0 <= i < kept.len() implies keep_line(#[trigger] kept[i]) by {
        assert(prop(kept[i]));
    }
    let d = join_lines(kept);
    lemma_join_avoids(kept, '\r');
    lemma_join_avoids(kept, '\'');
    lemma_join_free(kept, fence);
    lemma_join_comment_free(kept);
    let x = trim(d);
    assert(x == spec_fix_response(s));
    lemma_trim_shape(d);
    lemma_trim_comment_free(d);
    lemma_free_range(d, fence, trim_start(d), trim_end(d));
    assert forall|k: int| 0 <= k < x.len() implies #[trigger] x[k] != '\r' && x[k] != '\'' by {
        assert(x[k] == d[k + trim_start(d)]);
    }
    if x.len() > 0 {
        assert(x.last() == d[trim_end(d) - 1]);
    }
    lemma_trim_idempotent(d);
}

/// A cleaned reply comes out of the clean-up unchanged, when the reply holds no carriage
/// return and the cleaned reply no closing think tag.
pub proof fn law_fix_response_idempotent(s: Seq<char>)
    requires
        forall|k: int| 0 <= k < s.len() ==> #[trigger] s[k] != '\r',
        free_of(spec_fix_response(s), "</think>"@),
    ensures
        spec_fix_response(spec_fix_response(s)) == spec_fix_response(s),
{
    reveal_strlit("</think>");
    reveal_strlit("```json");
    reveal_strlit("```");
    let x = spec_fix_response(s);
    lemma_cleaned_shape(s);
    let fence = seq!['`', '`', '`'];
    assert("```"@ =~= fence);
    lemma_find_absent(x, "</think>"@, 0);
    assert(free_of(x, "```json"@)) by {
        assert forall|i: int| !#[trigger] matches_at(x, "```json"@, i) by {
            if matches_at(x, "```json"@, i) {
                assert(x.subrange(i, i + 3) =~= x.subrange(i, i + 7).subrange(0, 3));
                assert(x.subrange(i, i + 3) =~= fence);
                assert(matches_at(x, fence, i));
            }
        }
    }
    let e = Seq::<char>::empty();
    lemma_replace_absent(x, "```json"@, e);
    lemma_replace_absent(x, "```"@, e);
    let f = |ch: char| if ch == '\'' { '"' } else { ch };
    assert(x.map_values(f) =~= x);
    lemma_lines_kept(x);
    lemma_filter_all_kept(lines(x));
    lemma_lines_round_trip(x);
}

} // verus!
