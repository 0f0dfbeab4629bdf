//! Removal of markup tags from the text of a log response.
//!
//! A tag is what the pattern `<.*?>\n?` matches: a `<`, then the shortest run
//! of characters other than a line feed that reaches a `>`, then one line feed
//! if one follows directly. Matches are found from left to right and do not
//! overlap; every match is removed and all other characters are kept.

use vstd::prelude::*;
use crate::text::{chars_of, push_char};

verus! {

/// Index of the first `>` or line feed at or after `i` in `s`,
/// or `s.len()` when none follows.
pub open spec fn tag_stop(s: Seq<char>, i: int) -> int
    decreases s.len() - i,
{
    if i >= s.len() {
        s.len() as int
    } else if s[i] == '>' || s[i] == '\n' {
        i
    } else {
        tag_stop(s, i + 1)
    }
}

/// The index just past the tag that starts at `i` in `s`, or `i` itself when
/// no tag starts there.
pub open spec fn tag_end(s: Seq<char>, i: int) -> int {
    let j = tag_stop(s, i + 1);
    if 0 <= i < s.len() && s[i] == '<' && j < s.len() && s[j] == '>' {
        if j + 1 < s.len() && s[j + 1] == '\n' {
            j + 2
        } else {
            j + 1
        }
    } else {
        i
    }
}

/// The text of `s` from index `i` on, with every tag removed.
pub open spec fn strip_from(s: Seq<char>, i: int) -> Seq<char>
    decreases s.len() - i,
{
    if i < 0 || i >= s.len() {
        Seq::empty()
    } else if tag_end(s, i) > i {
        strip_from(s, tag_end(s, i))
    } else {
        seq![s[i]] + strip_from(s, i + 1)
    }
}

/// The text `s` with every tag removed.
pub open spec fn strip_tags_spec(s: Seq<char>) -> Seq<char> {
    strip_from(s, 0)
}

/// No tag starts anywhere in `t`.
pub open spec fn tag_free(t: Seq<char>) -> bool {
    forall|p: int| 0 <= p < t.len() ==> #[trigger] tag_end(t, p) == p
}

/// A run of characters that are neither `>` nor a line feed, ended by such a
/// character or by the end of the text, is where `tag_stop` stops.
proof fn lemma_tag_stop_run(s: Seq<char>, a: int, b: int)
    requires
        0 <= a <= b <= s.len(),
        forall|q: int| a <= q < b ==> s[q] != '>' && s[q] != '\n',
        b == s.len() || s[b] == '>' || s[b] == '\n',
    ensures
        tag_stop(s, a) == b,
    decreases b - a,
{
    if a < b {
        lemma_tag_stop_run(s, a + 1, b);
    }
}

/// What `tag_stop` returns: a bound, the characters skipped, and the stop.
proof fn lemma_tag_stop_props(s: Seq<char>, i: int)
    requires
        0 <= i <= s.len(),
    ensures
        i <= tag_stop(s, i) <= s.len(),
        forall|q: int| i <= q < tag_stop(s, i) ==> s[q] != '>' && s[q] != '\n',
        tag_stop(s, i) == s.len() || s[tag_stop(s, i)] == '>' || s[tag_stop(s, i)] == '\n',
    decreases s.len() - i,
{
    if i < s.len() && s[i] != '>' && s[i] != '\n' {
        lemma_tag_stop_props(s, i + 1);
    }
}

/// A run without `>` or line feed that ends at a line feed or at the end of the
/// text holds no tag: it is kept as it stands.
proof fn lemma_plain_run(s: Seq<char>, a: int, b: int)
    requires
        0 <= a <= b <= s.len(),
        forall|q: int| a <= q < b ==> s[q] != '>' && s[q] != '\n',
        b == s.len() || s[b] == '\n',
    ensures
        strip_from(s, a) == s.subrange(a, b) + strip_from(s, b),
    decreases b - a,
{
    if a == b {
        assert(s.subrange(a, b) =~= Seq::<char>::empty());
        assert(s.subrange(a, b) + strip_from(s, b) =~= strip_from(s, b));
    } else {
        lemma_tag_stop_run(s, a + 1, b);
        assert(tag_end(s, a) == a);
        lemma_plain_run(s, a + 1, b);
        assert(s.subrange(a, b) =~= seq![s[a]] + s.subrange(a + 1, b));
        assert(seq![s[a]] + (s.subrange(a + 1, b) + strip_from(s, b)) =~= s.subrange(a, b)
            + strip_from(s, b));
    }
}

/// `tag_stop` past a first character is `tag_stop` of the rest, shifted by one.
proof fn lemma_tag_stop_cons(c: char, r: Seq<char>, q: int)
    requires
        1 <= q,
    ensures
        tag_stop(seq![c] + r, q) == tag_stop(r, q - 1) + 1,
    decreases r.len() - (q - 1),
{
    let t = seq![c] + r;
    if q < t.len() {
        assert(t[q] == r[q - 1]);
        if !(t[q] == '>' || t[q] == '\n') {
            lemma_tag_stop_cons(c, r, q + 1);
        }
    }
}

/// `tag_end` past a first character is `tag_end` of the rest, shifted by one.
proof fn lemma_tag_end_cons(c: char, r: Seq<char>, p: int)
    requires
        1 <= p,
    ensures
        tag_end(seq![c] + r, p) == tag_end(r, p - 1) + 1,
{
    let t = seq![c] + r;
    lemma_tag_stop_cons(c, r, p + 1);
    let j = tag_stop(r, p);
    if p <= r.len() {
        lemma_tag_stop_props(r, p);
    }
    if 0 <= j < r.len() {
        assert(t[j + 1] == r[j]);
    }
    if 0 <= j + 1 < r.len() {
        assert(t[j + 2] == r[j + 1]);
    }
    if 0 <= p - 1 < r.len() {
        assert(t[p] == r[p - 1]);
    }
}

/// No tag is left in what remains after the tags are removed.
proof fn lemma_strip_from_tag_free(s: Seq<char>, i: int)
    requires
        0 <= i <= s.len(),
    ensures
        tag_free(strip_from(s, i)),
    decreases s.len() - i,
{
    if i < s.len() {
        if tag_end(s, i) > i {
            lemma_strip_from_tag_free(s, tag_end(s, i));
        } else {
            let rest = strip_from(s, i + 1);
            let out = strip_from(s, i);
            lemma_strip_from_tag_free(s, i + 1);
            assert(out == seq![s[i]] + rest);
            assert forall|p: int| 1 <= p < out.len() implies #[trigger] tag_end(out, p) == p by {
                lemma_tag_end_cons(s[i], rest, p);
                assert(tag_end(rest, p - 1) == p - 1);
            }
            if s[i] == '<' {
                let j = tag_stop(s, i + 1);
                lemma_tag_stop_props(s, i + 1);
                assert(j == s.len() || s[j] == '\n');
                lemma_plain_run(s, i + 1, j);
                let mid = s.subrange(i + 1, j);
                if j < s.len() {
                    assert(tag_end(s, j) == j);
                    assert(strip_from(s, j) == seq![s[j]] + strip_from(s, j + 1));
                    assert(out[j - i] == '\n');
                } else {
                    assert(strip_from(s, j) =~= Seq::<char>::empty());
                    assert(out.len() == j - i);
                }
                assert forall|q: int| 1 <= q < j - i implies out[q] != '>' && out[q] != '\n' by {
                    assert(out[q] == mid[q - 1]);
                }
                lemma_tag_stop_run(out, 1, j - i);
                assert(tag_end(out, 0) == 0);
            }
            assert forall|p: int| 0 <= p < out.len() implies #[trigger] tag_end(out, p) == p by {
                if p >= 1 {
                    lemma_tag_end_cons(s[i], rest, p);
                    assert(tag_end(rest, p - 1) == p - 1);
                }
            }
        }
    }
}

/// A text in which no tag starts is kept as it stands.
proof fn lemma_tag_free_kept(t: Seq<char>, i: int)
    requires
        tag_free(t),
        0 <= i <= t.len(),
    ensures
        strip_from(t, i) == t.subrange(i, t.len() as int),
    decreases t.len() - i,
{
    if i < t.len() {
        assert(tag_end(t, i) == i);
        lemma_tag_free_kept(t, i + 1);
        assert(t.subrange(i, t.len() as int) =~= seq![t[i]] + t.subrange(i + 1, t.len() as int));
    } else {
        assert(t.subrange(i, t.len() as int) =~= Seq::<char>::empty());
    }
}

/// Removing tags leaves no tag behind: no tag starts anywhere in the result.
pub proof fn lemma_stripped_text_is_tag_free(s: Seq<char>)
    ensures
        tag_free(strip_tags_spec(s)),
{
    lemma_strip_from_tag_free(s, 0);
}

/// Removing tags twice gives what removing them once gives.
pub proof fn lemma_strip_tags_idempotent(s: Seq<char>)
    ensures
        strip_tags_spec(strip_tags_spec(s)) == strip_tags_spec(s),
{
    let once = strip_tags_spec(s);
    lemma_strip_from_tag_free(s, 0);
    lemma_tag_free_kept(once, 0);
    assert(once.subrange(0, once.len() as int) =~= once);
}

/// A text that holds no `<` is kept as it stands.
pub proof fn lemma_text_without_open_bracket_kept(s: Seq<char>)
    requires
        forall|q: int| 0 <= q < s.len() ==> s[q] != '<',
    ensures
        strip_tags_spec(s) == s,
{
    assert forall|p: int| 0 <= p < s.len() implies #[trigger] tag_end(s, p) == p by {
        assert(s[p] != '<');
    }
    lemma_tag_free_kept(s, 0);
    assert(s.subrange(0, s.len() as int) =~= s);
}

/// Removes every tag from `content` (see the module documentation).
pub fn strip_tags(content: &str) -> (out: String)
    ensures
        out@ == strip_tags_spec(content@),
{
    let s = chars_of(content);
    let n = s.len();
    let mut out = String::new();
    let mut i: usize = 0;
    while i < n
        invariant
            0 <= i <= n,
            n == s@.len(),
            s@ == content@,
            strip_from(s@, 0) == out@ + strip_from(s@, i as int),
        decreases n - i,
    {
        if s[i] == '<' {
            let mut j: usize = i + 1;
            while j < n && s[j] != '>' && s[j] != '\n'
                invariant
                    i + 1 <= j <= n,
                    n == s@.len(),
                    forall|q: int| i + 1 <= q < j ==> s@[q] != '>' && s@[q] != '\n',
                decreases n - j,
            {
                j = j + 1;
            }
            proof {
                lemma_tag_stop_run(s@, i + 1, j as int);
            }
            if j < n && s[j] == '>' {
                let mut k: usize = j + 1;
                if k < n && s[k] == '\n' {
                    k = k + 1;
                }
                assert(tag_end(s@, i as int) == k);
                i = k;
            } else {
                let ghost before = out@;
                proof {
                    lemma_plain_run(s@, i + 1, j as int);
                    assert(tag_end(s@, i as int) == i);
                }
                push_char(&mut out, '<');
                let mut q: usize = i + 1;
                while q < j
                    invariant
                        i + 1 <= q <= j <= n,
                        n == s@.len(),
                        out@ == before.push('<') + s@.subrange(i + 1, q as int),
                    decreases j - q,
                {
                    push_char(&mut out, s[q]);
                    assert(s@.subrange(i + 1, q + 1) =~= s@.subrange(i + 1, q as int).push(s@[q as int]));
                    q = q + 1;
                }
                assert(before + strip_from(s@, i as int) =~= out@ + strip_from(s@, j as int));
                i = j;
            }
        } else {
            let ghost before = out@;
            push_char(&mut out, s[i]);
            assert(tag_end(s@, i as int) == i);
            assert(before + strip_from(s@, i as int) =~= out@ + strip_from(s@, i + 1));
            i = i + 1;
        }
    }
    assert(out@ =~= out@ + strip_from(s@, n as int));
    out
}

/// `tag_stop` in a text that follows a prefix is `tag_stop` in that text,
/// shifted by the prefix's length.
proof fn lemma_tag_stop_shift(u: Seq<char>, v: Seq<char>, i: int)
    requires
        0 <= i,
    ensures
        tag_stop(u + v, u.len() + i) == u.len() + tag_stop(v, i),
    decreases v.len() - i,
{
    if i < v.len() {
        assert((u + v)[u.len() + i] == v[i]);
        lemma_tag_stop_shift(u, v, i + 1);
    }
}

/// `tag_end` in a text that follows a prefix is `tag_end` in that text,
/// shifted by the prefix's length.
proof fn lemma_tag_end_shift(u: Seq<char>, v: Seq<char>, i: int)
    requires
        0 <= i,
    ensures
        tag_end(u + v, u.len() + i) == u.len() + tag_end(v, i),
{
    let s = u + v;
    lemma_tag_stop_shift(u, v, i + 1);
    let j = tag_stop(v, i + 1);
    if i + 1 <= v.len() {
        lemma_tag_stop_props(v, i + 1);
    }
    if 0 <= j < v.len() {
        assert(s[u.len() + j] == v[j]);
    }
    if 0 <= j + 1 < v.len() {
        assert(s[u.len() + j + 1] == v[j + 1]);
    }
    if i < v.len() {
        assert(s[u.len() + i] == v[i]);
    }
}

/// Removing the tags of a text that follows a prefix, from the end of the
/// prefix on, is removing the tags of that text.
proof fn lemma_strip_from_shift(u: Seq<char>, v: Seq<char>, i: int)
    requires
        0 <= i <= v.len(),
    ensures
        strip_from(u + v, u.len() + i) == strip_from(v, i),
    decreases v.len() - i,
{
    let s = u + v;
    if i < v.len() {
        lemma_tag_end_shift(u, v, i);
        if tag_end(v, i) > i {
            lemma_strip_from_shift(u, v, tag_end(v, i));
        } else {
            assert(s[u.len() + i] == v[i]);
            lemma_strip_from_shift(u, v, i + 1);
        }
    }
}

/// What the removal does at the start of a text, which with the text after
/// that start determines the whole result:
/// - a character other than `<` is kept;
/// - a `<` followed by characters other than `>` and line feed and then a
///   `>` is a tag: it is removed, with one line feed that follows it directly;
/// - a `<` followed by characters other than `>` and line feed and then a
///   line feed, or the end of the text, opens no tag: it and those characters
///   are kept.
pub proof fn lemma_strip_tags_steps(c: char, t: Seq<char>, rest: Seq<char>)
    requires
        forall|q: int| 0 <= q < t.len() ==> t[q] != '>' && t[q] != '\n',
    ensures
        c != '<' ==> strip_tags_spec(seq![c] + rest) == seq![c] + strip_tags_spec(rest),
        strip_tags_spec(seq!['<'] + t + seq!['>', '\n'] + rest) == strip_tags_spec(rest),
        (rest.len() == 0 || rest[0] != '\n') ==> strip_tags_spec(seq!['<'] + t + seq!['>'] + rest)
            == strip_tags_spec(rest),
        (rest.len() == 0 || rest[0] == '\n') ==> strip_tags_spec(seq!['<'] + t + rest)
            == seq!['<'] + t + strip_tags_spec(rest),
{
    let n = t.len() as int;
    // A character other than `<`.
    let s1 = seq![c] + rest;
    if c != '<' {
        assert(tag_end(s1, 0) == 0);
        lemma_strip_from_shift(seq![c], rest, 0);
    }
    // A tag followed by a line feed.
    let u2 = seq!['<'] + t + seq!['>', '\n'];
    let s2 = u2 + rest;
    assert forall|q: int| 1 <= q < n + 1 implies s2[q] != '>' && s2[q] != '\n' by {
        assert(s2[q] == t[q - 1]);
    }
    assert(s2[n + 1] == '>');
    assert(s2[n + 2] == '\n');
    lemma_tag_stop_run(s2, 1, n + 1);
    assert(tag_end(s2, 0) == n + 3);
    lemma_strip_from_shift(u2, rest, 0);
    // A tag followed by something other than a line feed.
    let u3 = seq!['<'] + t + seq!['>'];
    let s3 = u3 + rest;
    assert forall|q: int| 1 <= q < n + 1 implies s3[q] != '>' && s3[q] != '\n' by {
        assert(s3[q] == t[q - 1]);
    }
    assert(s3[n + 1] == '>');
    lemma_tag_stop_run(s3, 1, n + 1);
    if rest.len() == 0 || rest[0] != '\n' {
        if rest.len() > 0 {
            assert(s3[n + 2] == rest[0]);
        }
        assert(tag_end(s3, 0) == n + 2);
        lemma_strip_from_shift(u3, rest, 0);
    }
    // A `<` that opens no tag.
    let u4 = seq!['<'] + t;
    let s4 = u4 + rest;
    if rest.len() == 0 || rest[0] == '\n' {
        assert forall|q: int| 1 <= q < n + 1 implies s4[q] != '>' && s4[q] != '\n' by {
            assert(s4[q] == t[q - 1]);
        }
        if rest.len() > 0 {
            assert(s4[n + 1] == rest[0]);
        }
        lemma_tag_stop_run(s4, 1, n + 1);
        assert(tag_end(s4, 0) == 0);
        assert forall|q: int| 1 <= q < n + 1 implies s4[q] != '>' && s4[q] != '\n' by {
            assert(s4[q] == t[q - 1]);
        }
        lemma_plain_run(s4, 1, n + 1);
        lemma_strip_from_shift(u4, rest, 0);
        assert(s4.subrange(1, n + 1) =~= t);
        assert(strip_from(s4, 0) == seq![s4[0]] + strip_from(s4, 1));
        assert(strip_tags_spec(s4) =~= seq!['<'] + t + strip_tags_spec(rest));
    }
}

} // verus!
