//! Character-level text operations: trimming, cutting at a separator,
//! lines and whitespace-delimited tokens, each with its meaning on
//! sequences of characters.

use vstd::prelude::*;

verus! {

/// Whether `c` has the Unicode property `White_Space`.
pub open spec fn is_space(c: char) -> bool {
    let u = c as u32;
    ||| 0x09 <= u <= 0x0d
    ||| u == 0x20
    ||| u == 0x85
    ||| u == 0xa0
    ||| u == 0x1680
    ||| 0x2000 <= u <= 0x200a
    ||| u == 0x2028
    ||| u == 0x2029
    ||| u == 0x202f
    ||| u == 0x205f
    ||| u == 0x3000
}

/// `s` without its leading whitespace.
pub open spec fn trimmed_start(s: Seq<char>) -> Seq<char>
    decreases s.len(),
{
    if s.len() > 0 && is_space(s.first()) {
        trimmed_start(s.drop_first())
    } else {
        s
    }
}

/// `s` without its trailing whitespace.
pub open spec fn trimmed_end(s: Seq<char>) -> Seq<char>
    decreases s.len(),
{
    if s.len() > 0 && is_space(s.last()) {
        trimmed_end(s.drop_last())
    } else {
        s
    }
}

/// `s` without its leading and trailing whitespace.
pub open spec fn trimmed(s: Seq<char>) -> Seq<char> {
    trimmed_end(trimmed_start(s))
}

/// The position of the first `c` in `s`, or `s.len()` where `s` holds none.
pub open spec fn index_of(s: Seq<char>, c: char) -> int
    decreases s.len(),
{
    if s.len() == 0 || s.first() == c {
        0
    } else {
        1 + index_of(s.drop_first(), c)
    }
}

/// What stands before and after the first `c` in `s`, if there is one.
pub open spec fn cut_once(s: Seq<char>, c: char) -> Option<(Seq<char>, Seq<char>)> {
    let p = index_of(s, c);
    if p < s.len() {
        Some((s.take(p), s.skip(p + 1)))
    } else {
        None
    }
}

/// The pieces of `s` between the occurrences of `c`: one more piece than
/// there are occurrences, so an empty text gives one empty piece.
pub open spec fn pieces(s: Seq<char>, c: char) -> Seq<Seq<char>>
    decreases s.len(),
{
    let p = index_of(s, c);
    if 0 <= p < s.len() {
        seq![s.take(p)] + pieces(s.skip(p + 1), c)
    } else {
        seq![s]
    }
}

/// The lines of `s`: each ends at a line feed, which is left out, or at
/// the end of the text. An empty text has no line, and a final line feed
/// opens no further line. A carriage return stays in its line.
pub open spec fn lines_of(s: Seq<char>) -> Seq<Seq<char>>
    decreases s.len(),
{
    let p = index_of(s, '\n');
    if s.len() == 0 {
        Seq::empty()
    } else if 0 <= p < s.len() {
        seq![s.take(p)] + lines_of(s.skip(p + 1))
    } else {
        seq![s]
    }
}

/// The longest prefix of `s` that holds no whitespace.
pub open spec fn word_prefix(s: Seq<char>) -> Seq<char>
    decreases s.len(),
{
    if s.len() == 0 || is_space(s.first()) {
        Seq::empty()
    } else {
        seq![s.first()] + word_prefix(s.drop_first())
    }
}

/// The longest suffix of `s` that holds no whitespace.
pub open spec fn word_suffix(s: Seq<char>) -> Seq<char>
    decreases s.len(),
{
    if s.len() == 0 || is_space(s.last()) {
        Seq::empty()
    } else {
        word_suffix(s.drop_last()).push(s.last())
    }
}

/// The first whitespace-delimited token of `s`, empty where `s` is blank.
pub open spec fn first_word(s: Seq<char>) -> Seq<char> {
    word_prefix(trimmed_start(s))
}

/// The last whitespace-delimited token of `s`, empty where `s` is blank.
pub open spec fn last_word(s: Seq<char>) -> Seq<char> {
    word_suffix(trimmed_end(s))
}

/// Whether `s` begins with `c`.
pub open spec fn begins_with(s: Seq<char>, c: char) -> bool {
    s.len() > 0 && s.first() == c
}

/// `index_of` is the first occurrence: no `c` stands before it, and where
/// it lies inside `s`, a `c` stands there.
pub proof fn index_of_is_first(s: Seq<char>, c: char)
    ensures
        0 <= index_of(s, c) <= s.len(),
        forall|k: int| 0 <= k < index_of(s, c) ==> s[k] != c,
        index_of(s, c) < s.len() ==> s[index_of(s, c)] == c,
    decreases s.len(),
{
    if s.len() > 0 && s.first() != c {
        let rest = s.drop_first();
        index_of_is_first(rest, c);
        assert forall|k: int| 0 <= k < index_of(s, c) implies s[k] != c by {
            if k > 0 {
                assert(s[k] == rest[k - 1]);
            }
        }
        if index_of(rest, c) < rest.len() {
            assert(s[index_of(rest, c) + 1] == rest[index_of(rest, c)]);
        }
    }
}

/// `trimmed_start` drops whitespace from the front and nothing else, and
/// what it leaves does not begin with whitespace.
pub proof fn trimmed_start_is_suffix(s: Seq<char>)
    ensures
        trimmed_start(s).len() <= s.len(),
        trimmed_start(s) == s.skip(s.len() - trimmed_start(s).len()),
        forall|k: int| 0 <= k < s.len() - trimmed_start(s).len() ==> is_space(s[k]),
        trimmed_start(s).len() > 0 ==> !is_space(trimmed_start(s).first()),
    decreases s.len(),
{
    if s.len() > 0 && is_space(s.first()) {
        let rest = s.drop_first();
        trimmed_start_is_suffix(rest);
        let n = rest.len() - trimmed_start(rest).len();
        assert(rest.skip(n) =~= s.skip(n + 1));
        assert forall|k: int| 0 <= k < s.len() - trimmed_start(s).len() implies is_space(s[k]) by {
            if k > 0 {
                assert(s[k] == rest[k - 1]);
            }
        }
    } else {
        assert(s.skip(0) =~= s);
    }
}

/// `trimmed_end` drops whitespace from the back and nothing else, and
/// what it leaves does not end with whitespace.
pub proof fn trimmed_end_is_prefix(s: Seq<char>)
    ensures
        trimmed_end(s).len() <= s.len(),
        trimmed_end(s) == s.take(trimmed_end(s).len() as int),
        forall|k: int| trimmed_end(s).len() <= k < s.len() ==> is_space(s[k]),
        trimmed_end(s).len() > 0 ==> !is_space(trimmed_end(s).last()),
    decreases s.len(),
{
    if s.len() > 0 && is_space(s.last()) {
        let rest = s.drop_last();
        trimmed_end_is_prefix(rest);
        let n = trimmed_end(rest).len() as int;
        assert(rest.take(n) =~= s.take(n));
        assert forall|k: int| trimmed_end(s).len() <= k < s.len() implies is_space(s[k]) by {
            if k < rest.len() {
                assert(s[k] == rest[k]);
            }
        }
    } else {
        assert(s.take(s.len() as int) =~= s);
    }
}

/// A trimmed text neither begins nor ends with whitespace, and trimming
/// it again changes nothing.
pub proof fn trimmed_has_no_outer_space(s: Seq<char>)
    ensures
        trimmed(s).len() > 0 ==> !is_space(trimmed(s).first()) && !is_space(trimmed(s).last()),
        trimmed(trimmed(s)) == trimmed(s),
{
    let front = trimmed_start(s);
    trimmed_start_is_suffix(s);
    trimmed_end_is_prefix(front);
    let t = trimmed(s);
    if t.len() > 0 {
        assert(t.first() == front.first());
    }
}

/// No piece holds the separator.
pub proof fn pieces_hold_no_separator(s: Seq<char>, c: char)
    ensures
        forall|i: int, k: int|
            0 <= i < pieces(s, c).len() && 0 <= k < pieces(s, c)[i].len() ==> pieces(s, c)[i][k]
                != c,
    decreases s.len(),
{
    let p = index_of(s, c);
    index_of_is_first(s, c);
    if p < s.len() {
        let rest = pieces(s.skip(p + 1), c);
        pieces_hold_no_separator(s.skip(p + 1), c);
        assert forall|i: int, k: int|
            0 <= i < pieces(s, c).len() && 0 <= k < pieces(s, c)[i].len() implies pieces(s, c)[i][k]
            != c by {
            if i > 0 {
                assert(pieces(s, c)[i] == rest[i - 1]);
            }
        }
    }
}

/// The pieces with `c` put between them.
pub open spec fn joined(ps: Seq<Seq<char>>, c: char) -> Seq<char>
    decreases ps.len(),
{
    if ps.len() == 0 {
        Seq::empty()
    } else if ps.len() == 1 {
        ps.first()
    } else {
        ps.first() + seq![c] + joined(ps.drop_first(), c)
    }
}

/// Cutting loses nothing: there is at least one piece, and the pieces
/// with the separator put between them are the text again.
pub proof fn pieces_join_to_the_text(s: Seq<char>, c: char)
    ensures
        pieces(s, c).len() >= 1,
        joined(pieces(s, c), c) == s,
    decreases s.len(),
{
    let p = index_of(s, c);
    index_of_is_first(s, c);
    if p < s.len() {
        let rest = pieces(s.skip(p + 1), c);
        pieces_join_to_the_text(s.skip(p + 1), c);
        assert(pieces(s, c).drop_first() =~= rest);
        assert(s.take(p) + seq![c] + s.skip(p + 1) =~= s);
    }
}

/// Where `s` is cut once at `c`, the two parts with `c` between them are
/// `s`, and the first part holds no `c`.
pub proof fn cut_once_keeps_the_text(s: Seq<char>, c: char)
    ensures
        cut_once(s, c) is None <==> !s.contains(c),
        cut_once(s, c) matches Some(parts) ==> {
            &&& parts.0 + seq![c] + parts.1 == s
            &&& !parts.0.contains(c)
        },
{
    let p = index_of(s, c);
    index_of_is_first(s, c);
    if p < s.len() {
        assert(s.take(p) + seq![c] + s.skip(p + 1) =~= s);
        assert(s.contains(c));
    }
}

/// No line holds a line feed.
pub proof fn lines_hold_no_line_feed(s: Seq<char>)
    ensures
        forall|i: int, k: int|
            0 <= i < lines_of(s).len() && 0 <= k < lines_of(s)[i].len() ==> lines_of(s)[i][k]
                != '\n',
    decreases s.len(),
{
    let p = index_of(s, '\n');
    index_of_is_first(s, '\n');
    if s.len() > 0 && p < s.len() {
        let rest = lines_of(s.skip(p + 1));
        lines_hold_no_line_feed(s.skip(p + 1));
        assert forall|i: int, k: int|
            0 <= i < lines_of(s).len() && 0 <= k < lines_of(s)[i].len() implies lines_of(s)[i][k]
            != '\n' by {
            if i > 0 {
                assert(lines_of(s)[i] == rest[i - 1]);
            }
        }
    }
}

/// A word holds no whitespace.
pub proof fn words_hold_no_space(s: Seq<char>)
    ensures
        forall|k: int| 0 <= k < word_prefix(s).len() ==> !is_space(word_prefix(s)[k]),
        forall|k: int| 0 <= k < word_suffix(s).len() ==> !is_space(word_suffix(s)[k]),
    decreases s.len(),
{
    if s.len() > 0 {
        words_hold_no_space(s.drop_first());
        words_hold_no_space(s.drop_last());
        if !is_space(s.first()) {
            let rest = word_prefix(s.drop_first());
            assert forall|k: int| 0 <= k < word_prefix(s).len() implies !is_space(
                word_prefix(s)[k],
            ) by {
                if k > 0 {
                    assert(word_prefix(s)[k] == rest[k - 1]);
                }
            }
        }
        if !is_space(s.last()) {
            let front = word_suffix(s.drop_last());
            assert forall|k: int| 0 <= k < word_suffix(s).len() implies !is_space(
                word_suffix(s)[k],
            ) by {
                if k < front.len() {
                    assert(word_suffix(s)[k] == front[k]);
                }
            }
        }
    }
}

/// Tests a character for whitespace.
pub fn is_space_char(c: char) -> (r: bool)
    ensures
        r == is_space(c),
{
    let u: u32 = c as u32;
    (0x09 <= u && u <= 0x0d) || u == 0x20 || u == 0x85 || u == 0xa0 || u == 0x1680 || (0x2000 <= u
        && u <= 0x200a) || u == 0x2028 || u == 0x2029 || u == 0x202f || u == 0x205f || u == 0x3000
}

/// The characters of `s` as a vector.
pub fn chars_of(s: &str) -> (v: Vec<char>)
    ensures
        v@ == s@,
{
    let mut v: Vec<char> = Vec::new();
    for c in it: s.chars()
        invariant
            it.seq() == s@,
            v@ == it.seq().take(it.index() as int),
    {
        v.push(c);
        assert(v@ =~= it.seq().take(it.index() + 1));
    }
    assert(s@.take(s@.len() as int) =~= s@);
    v
}

/// The characters of `s` from position `a` up to `b`, as a string.
fn slice_string(s: &str, a: usize, b: usize) -> (r: String)
    requires
        a <= b <= s@.len(),
    ensures
        r@ == s@.subrange(a as int, b as int),
{
    s.substring_char(a, b).to_owned()
}

/// The start of `cs[lo..hi]` without its leading whitespace.
fn skip_spaces(cs: &Vec<char>, lo: usize, hi: usize) -> (a: usize)
    requires
        lo <= hi <= cs@.len(),
    ensures
        lo <= a <= hi,
        cs@.subrange(a as int, hi as int) == trimmed_start(cs@.subrange(lo as int, hi as int)),
{
    let mut a: usize = lo;
    while a < hi && is_space_char(cs[a])
        invariant
            lo <= a <= hi <= cs@.len(),
            trimmed_start(cs@.subrange(lo as int, hi as int)) == trimmed_start(
                cs@.subrange(a as int, hi as int),
            ),
        decreases hi - a,
    {
        assert(cs@.subrange(a as int, hi as int).drop_first() =~= cs@.subrange(
            a as int + 1,
            hi as int,
        ));
        a += 1;
    }
    a
}

/// The end of `cs[lo..hi]` without its trailing whitespace.
fn drop_spaces(cs: &Vec<char>, lo: usize, hi: usize) -> (b: usize)
    requires
        lo <= hi <= cs@.len(),
    ensures
        lo <= b <= hi,
        cs@.subrange(lo as int, b as int) == trimmed_end(cs@.subrange(lo as int, hi as int)),
{
    let mut b: usize = hi;
    while b > lo && is_space_char(cs[b - 1])
        invariant
            lo <= b <= hi <= cs@.len(),
            trimmed_end(cs@.subrange(lo as int, hi as int)) == trimmed_end(
                cs@.subrange(lo as int, b as int),
            ),
        decreases b - lo,
    {
        assert(cs@.subrange(lo as int, b as int).drop_last() =~= cs@.subrange(
            lo as int,
            b as int - 1,
        ));
        b -= 1;
    }
    b
}

/// The position of the first `c` in `cs[lo..hi]`, or `hi`.
fn find_char(cs: &Vec<char>, lo: usize, hi: usize, c: char) -> (p: usize)
    requires
        lo <= hi <= cs@.len(),
    ensures
        lo <= p <= hi,
        p - lo == index_of(cs@.subrange(lo as int, hi as int), c),
{
    let mut p: usize = lo;
    while p < hi && cs[p] != c
        invariant
            lo <= p <= hi <= cs@.len(),
            index_of(cs@.subrange(lo as int, hi as int), c) == (p - lo) + index_of(
                cs@.subrange(p as int, hi as int),
                c,
            ),
        decreases hi - p,
    {
        assert(cs@.subrange(p as int, hi as int).drop_first() =~= cs@.subrange(
            p as int + 1,
            hi as int,
        ));
        p += 1;
    }
    p
}

/// Removes leading and trailing whitespace.
pub fn trim(s: &str) -> (r: String)
    ensures
        r@ == trimmed(s@),
{
    let cs = chars_of(s);
    let n: usize = cs.len();
    let a: usize = skip_spaces(&cs, 0, n);
    let b: usize = drop_spaces(&cs, a, n);
    assert(cs@.subrange(0, n as int) =~= cs@);
    slice_string(s, a, b)
}

/// Cuts `s` at its first `c`.
pub fn split_once(s: &str, c: char) -> (r: Option<(String, String)>)
    ensures
        r.deep_view() == cut_once(s@, c),
{
    let cs = chars_of(s);
    let n: usize = cs.len();
    let p: usize = find_char(&cs, 0, n, c);
    assert(cs@.subrange(0, n as int) =~= cs@);
    if p < n {
        let head = slice_string(s, 0, p);
        let tail = slice_string(s, p + 1, n);
        assert(s@.subrange(0, p as int) =~= s@.take(p as int));
        assert(s@.subrange(p as int + 1, n as int) =~= s@.skip(p as int + 1));
        Some((head, tail))
    } else {
        None
    }
}

/// Whether `s` begins with `c`.
pub fn starts_with(s: &str, c: char) -> (r: bool)
    ensures
        r == begins_with(s@, c),
{
    !s.is_empty() && s.get_char(0) == c
}

/// Cuts `s` at every `c`.
pub fn split(s: &str, c: char) -> (r: Vec<String>)
    ensures
        r.deep_view() == pieces(s@, c),
{
    let cs = chars_of(s);
    let n: usize = cs.len();
    let mut out: Vec<String> = Vec::new();
    let mut start: usize = 0;
    let mut p: usize = find_char(&cs, 0, n, c);
    assert(s@.skip(0) =~= s@);
    while p < n
        invariant
            start <= p <= n,
            n == s@.len(),
            cs@ == s@,
            p - start == index_of(s@.subrange(start as int, n as int), c),
            pieces(s@, c) == out.deep_view() + pieces(s@.skip(start as int), c),
        decreases n - start,
    {
        let piece = slice_string(s, start, p);
        proof {
            let rest = s@.skip(start as int);
            assert(rest =~= s@.subrange(start as int, n as int));
            assert(rest.take(p - start) =~= piece@);
            assert(rest.skip(p - start + 1) =~= s@.skip(p as int + 1));
            assert(out.deep_view().push(piece@) + pieces(s@.skip(p as int + 1), c) =~= out.deep_view()
                + (seq![piece@] + pieces(s@.skip(p as int + 1), c)));
        }
        let ghost before = out.deep_view();
        out.push(piece);
        assert(out.deep_view() =~= before.push(piece@));
        start = p + 1;
        p = find_char(&cs, start, n, c);
    }
    let piece = slice_string(s, start, n);
    proof {
        let rest = s@.skip(start as int);
        assert(rest =~= s@.subrange(start as int, n as int));
        assert(out.deep_view().push(piece@) =~= out.deep_view() + seq![rest]);
    }
    let ghost before = out.deep_view();
    out.push(piece);
    assert(out.deep_view() =~= before.push(piece@));
    out
}

/// Cuts `s` into its lines, of which there are no more than characters.
pub fn lines(s: &str) -> (r: Vec<String>)
    ensures
        r.deep_view() == lines_of(s@),
        r@.len() <= s@.len(),
{
    let cs = chars_of(s);
    let n: usize = cs.len();
    let mut out: Vec<String> = Vec::new();
    let mut start: usize = 0;
    assert(s@.skip(0) =~= s@);
    while start < n
        invariant
            start <= n,
            n == s@.len(),
            cs@ == s@,
            out@.len() <= start,
            lines_of(s@) == out.deep_view() + lines_of(s@.skip(start as int)),
        decreases n - start,
    {
        let p: usize = find_char(&cs, start, n, '\n');
        let line = slice_string(s, start, p);
        proof {
            let rest = s@.skip(start as int);
            assert(rest =~= s@.subrange(start as int, n as int));
            assert(rest.take(p - start) =~= line@);
            if p < n {
                assert(rest.skip(p - start + 1) =~= s@.skip(p as int + 1));
                assert(out.deep_view().push(line@) + lines_of(s@.skip(p as int + 1))
                    =~= out.deep_view() + (seq![line@] + lines_of(s@.skip(p as int + 1))));
            } else {
                assert(line@ =~= rest);
                assert(out.deep_view().push(line@) + lines_of(s@.skip(n as int)) =~= out.deep_view()
                    + seq![rest]);
            }
        }
        let ghost before = out.deep_view();
        out.push(line);
        assert(out.deep_view() =~= before.push(line@));
        start = if p < n { p + 1 } else { n };
    }
    assert(out.deep_view() + lines_of(s@.skip(start as int)) =~= out.deep_view());
    out
}

/// The first whitespace-delimited token of `s`.
pub fn first_token(s: &str) -> (r: String)
    ensures
        r@ == first_word(s@),
{
    let cs = chars_of(s);
    let n: usize = cs.len();
    let a: usize = skip_spaces(&cs, 0, n);
    assert(cs@.subrange(0, n as int) =~= cs@);
    let mut e: usize = a;
    assert(cs@.subrange(a as int, a as int) =~= Seq::<char>::empty());
    while e < n && !is_space_char(cs[e])
        invariant
            a <= e <= n,
            n == cs@.len(),
            word_prefix(cs@.subrange(a as int, n as int)) == cs@.subrange(a as int, e as int)
                + word_prefix(cs@.subrange(e as int, n as int)),
        decreases n - e,
    {
        proof {
            let rest = cs@.subrange(e as int, n as int);
            assert(rest.drop_first() =~= cs@.subrange(e as int + 1, n as int));
            assert(cs@.subrange(a as int, e as int) + (seq![rest.first()] + word_prefix(
                rest.drop_first(),
            )) =~= cs@.subrange(a as int, e as int + 1) + word_prefix(rest.drop_first()));
        }
        e += 1;
    }
    assert(cs@.subrange(a as int, e as int) + Seq::<char>::empty() =~= cs@.subrange(
        a as int,
        e as int,
    ));
    slice_string(s, a, e)
}

/// The last whitespace-delimited token of `s`.
pub fn last_token(s: &str) -> (r: String)
    ensures
        r@ == last_word(s@),
{
    let cs = chars_of(s);
    let n: usize = cs.len();
    let b: usize = drop_spaces(&cs, 0, n);
    assert(cs@.subrange(0, n as int) =~= cs@);
    let mut a: usize = b;
    assert(cs@.subrange(b as int, b as int) =~= Seq::<char>::empty());
    while a > 0 && !is_space_char(cs[a - 1])
        invariant
            a <= b <= n,
            n == cs@.len(),
            word_suffix(cs@.subrange(0, b as int)) == word_suffix(cs@.subrange(0, a as int))
                + cs@.subrange(a as int, b as int),
        decreases a,
    {
        proof {
            let front = cs@.subrange(0, a as int);
            assert(front.drop_last() =~= cs@.subrange(0, a as int - 1));
            assert(word_suffix(front.drop_last()).push(front.last()) + cs@.subrange(
                a as int,
                b as int,
            ) =~= word_suffix(front.drop_last()) + cs@.subrange(a as int - 1, b as int));
        }
        a -= 1;
    }
    assert(Seq::<char>::empty() + cs@.subrange(a as int, b as int) =~= cs@.subrange(
        a as int,
        b as int,
    ));
    slice_string(s, a, b)
}

} // verus!
