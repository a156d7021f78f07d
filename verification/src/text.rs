//! Text operations on character sequences: comparison, trimming, splitting,
//! joining and substitution, each with an exact contract over `Seq<char>`.

use vstd::prelude::*;

verus! {

/// Whether `c` is Unicode white space (the `White_Space` property).
pub open spec fn is_space(c: char) -> bool {
    let u: u32 = c as u32;
    ||| 0x09 <= u <= 0x0D
    ||| u == 0x20
    ||| u == 0x85
    ||| u == 0xA0
    ||| u == 0x1680
    ||| 0x2000 <= u <= 0x200A
    ||| u == 0x2028
    ||| u == 0x2029
    ||| u == 0x202F
    ||| u == 0x205F
    ||| u == 0x3000
}

/// Number of white-space characters at the front of `s`.
pub open spec fn leading_spaces(s: Seq<char>) -> nat
    decreases s.len(),
{
    if s.len() > 0 && is_space(s[0]) {
        1 + leading_spaces(s.drop_first())
    } else {
        0
    }
}

/// Number of white-space characters at the back of `s`.
pub open spec fn trailing_spaces(s: Seq<char>) -> nat
    decreases s.len(),
{
    if s.len() > 0 && is_space(s.last()) {
        1 + trailing_spaces(s.drop_last())
    } else {
        0
    }
}

/// `s` without its leading and trailing white space.
pub open spec fn trimmed(s: Seq<char>) -> Seq<char> {
    let rest = s.skip(leading_spaces(s) as int);
    rest.take(rest.len() - trailing_spaces(rest))
}

/// The pieces of `s` between occurrences of `sep`. There is always at least
/// one piece; `n` separators give `n + 1` pieces, some of them possibly empty.
pub open spec fn split_on(s: Seq<char>, sep: char) -> Seq<Seq<char>>
    decreases s.len(),
{
    if s.len() == 0 {
        seq![Seq::<char>::empty()]
    } else {
        let before = split_on(s.drop_last(), sep);
        if s.last() == sep {
            before.push(Seq::<char>::empty())
        } else {
            before.drop_last().push(before.last().push(s.last()))
        }
    }
}

/// The maximal runs of characters of `s` that hold no white space, in order.
pub open spec fn words(s: Seq<char>) -> Seq<Seq<char>>
    decreases s.len(),
{
    if s.len() == 0 {
        Seq::<Seq<char>>::empty()
    } else {
        let before = words(s.drop_last());
        if is_space(s.last()) {
            before
        } else if s.len() >= 2 && !is_space(s[s.len() - 2]) {
            before.drop_last().push(before.last().push(s.last()))
        } else {
            before.push(seq![s.last()])
        }
    }
}

/// The parts in order with `sep` between each two neighbours.
pub open spec fn joined(parts: Seq<Seq<char>>, sep: Seq<char>) -> Seq<char>
    decreases parts.len(),
{
    if parts.len() == 0 {
        Seq::<char>::empty()
    } else if parts.len() == 1 {
        parts[0]
    } else {
        joined(parts.drop_last(), sep) + sep + parts.last()
    }
}

/// `s` without its white space: its words, one after the other.
pub open spec fn squeezed(s: Seq<char>) -> Seq<char> {
    joined(words(s), Seq::<char>::empty())
}

/// `text` with every occurrence of `pattern` replaced by `with`, scanning from
/// the left; a replaced occurrence is not scanned again. An empty pattern
/// occurs nowhere.
pub open spec fn replaced(text: Seq<char>, pattern: Seq<char>, with: Seq<char>) -> Seq<char>
    decreases text.len(),
{
    if pattern.len() == 0 || text.len() < pattern.len() {
        text
    } else if text.take(pattern.len() as int) == pattern {
        with + replaced(text.skip(pattern.len() as int), pattern, with)
    } else {
        seq![text[0]] + replaced(text.skip(1), pattern, with)
    }
}

pub fn char_is_space(c: char) -> (r: bool)
    ensures
        r == is_space(c),
{
    let u: u32 = c as u32;
    (0x09 <= u && u <= 0x0D) || u == 0x20 || u == 0x85 || u == 0xA0 || u == 0x1680 || (0x2000 <= u
        && u <= 0x200A) || u == 0x2028 || u == 0x2029 || u == 0x202F || u == 0x205F || u == 0x3000
}

/// The characters of `s`, in order.
pub fn chars_of(s: &str) -> (v: Vec<char>)
    ensures
        v@ == s@,
{
    let mut v: Vec<char> = Vec::new();
    for c in it: s.chars()
        invariant
            it.seq() == s@,
            v@ == it.seq().take(it.index() as int),
    {
        v.push(c);
    }
    v
}

/// Whether the two texts hold the same characters.
pub fn text_eq(a: &str, b: &str) -> (r: bool)
    ensures
        r == (a@ == b@),
{
    let x = chars_of(a);
    let y = chars_of(b);
    if x.len() != y.len() {
        return false;
    }
    let mut i: usize = 0;
    while i < x.len()
        invariant
            x@ == a@,
            y@ == b@,
            x.len() == y.len(),
            i <= x.len(),
            a@.take(i as int) == b@.take(i as int),
        decreases x.len() - i,
    {
        if x[i] != y[i] {
            return false;
        }
        assert(a@.take(i + 1) == a@.take(i as int).push(a@[i as int]));
        assert(b@.take(i + 1) == b@.take(i as int).push(b@[i as int]));
        i = i + 1;
    }
    assert(a@.take(x.len() as int) == a@);
    assert(b@.take(y.len() as int) == b@);
    true
}

/// Whether `s` begins with `prefix`.
pub fn starts_with(s: &str, prefix: &str) -> (r: bool)
    ensures
        r == prefix@.is_prefix_of(s@),
{
    let x = chars_of(s);
    let p = chars_of(prefix);
    if p.len() > x.len() {
        return false;
    }
    let mut i: usize = 0;
    while i < p.len()
        invariant
            x@ == s@,
            p@ == prefix@,
            p.len() <= x.len(),
            i <= p.len(),
            s@.take(i as int) == prefix@.take(i as int),
        decreases p.len() - i,
    {
        if x[i] != p[i] {
            assert(s@.subrange(0, p.len() as int)[i as int] != prefix@[i as int]);
            return false;
        }
        assert(s@.take(i + 1) == s@.take(i as int).push(s@[i as int]));
        assert(prefix@.take(i + 1) == prefix@.take(i as int).push(prefix@[i as int]));
        i = i + 1;
    }
    assert(prefix@.take(p.len() as int) == prefix@);
    assert(s@.take(p.len() as int) == s@.subrange(0, p.len() as int));
    true
}

/// The characters of `s` from position `from` up to, not including, `to`.
/// Text that is all ASCII is cut in constant time.
pub fn slice(s: &str, from: usize, to: usize) -> (r: &str)
    requires
        from <= to <= s@.len(),
    ensures
        r@ == s@.subrange(from as int, to as int),
{
    if s.is_ascii() {
        s.substring_ascii(from, to)
    } else {
        s.substring_char(from, to)
    }
}

/// As [`slice`], for a text of which the caller knows whether it is all
/// ASCII.
fn cut(s: &str, ascii: bool, from: usize, to: usize) -> (r: &str)
    requires
        from <= to <= s@.len(),
        ascii ==> s.is_ascii(),
    ensures
        r@ == s@.subrange(from as int, to as int),
{
    if ascii {
        s.substring_ascii(from, to)
    } else {
        s.substring_char(from, to)
    }
}

/// `a` followed by `b`.
pub fn followed_by(a: &str, b: &str) -> (r: String)
    ensures
        r@ == a@ + b@,
{
    let mut r = String::from_str(a);
    r.append(b);
    r
}

/// `s` without its leading and trailing white space.
pub fn trim(s: &str) -> (r: &str)
    ensures
        r@ == trimmed(s@),
{
    let v = chars_of(s);
    let ascii = s.is_ascii();
    let n = v.len();
    let mut i: usize = 0;
    assert(s@.skip(0) == s@);
    while i < n && char_is_space(v[i])
        invariant
            v@ == s@,
            n == v.len(),
            i <= n,
            leading_spaces(s@) == i + leading_spaces(s@.skip(i as int)),
        decreases n - i,
    {
        assert(s@.skip(i as int).drop_first() == s@.skip(i + 1));
        i = i + 1;
    }
    assert(leading_spaces(s@) == i);
    let ghost rest = s@.skip(i as int);
    let mut j: usize = n;
    assert(rest.take(n - i) == rest);
    while j > i && char_is_space(v[j - 1])
        invariant
            v@ == s@,
            n == v.len(),
            i <= j <= n,
            rest == s@.skip(i as int),
            trailing_spaces(rest) == (n - j) + trailing_spaces(rest.take(j - i)),
        decreases j,
    {
        assert(rest.take(j - i).drop_last() == rest.take(j - i - 1));
        j = j - 1;
    }
    assert(trailing_spaces(rest) == n - j);
    assert(rest.take(j - i) == s@.subrange(i as int, j as int));
    cut(s, ascii, i, j)
}

/// The pieces of `s` between occurrences of `sep`.
pub fn split(s: &str, sep: char) -> (r: Vec<String>)
    ensures
        r.deep_view() == split_on(s@, sep),
{
    let v = chars_of(s);
    let ascii = s.is_ascii();
    let n = v.len();
    let mut out: Vec<String> = Vec::new();
    let mut start: usize = 0;
    let mut i: usize = 0;
    assert(s@.take(0) == Seq::<char>::empty());
    assert(out.deep_view().push(s@.subrange(0, 0)) == seq![Seq::<char>::empty()]);
    while i < n
        invariant
            v@ == s@,
            n == v.len(),
            ascii ==> s.is_ascii(),
            start <= i <= n,
            split_on(s@.take(i as int), sep) == out.deep_view().push(
                s@.subrange(start as int, i as int),
            ),
        decreases n - i,
    {
        let ghost before = split_on(s@.take(i as int), sep);
        assert(s@.take(i + 1).drop_last() == s@.take(i as int));
        if v[i] == sep {
            let piece = String::from_str(cut(s, ascii, start, i));
            let ghost old_out = out.deep_view();
            out.push(piece);
            assert(out.deep_view() == old_out.push(s@.subrange(start as int, i as int)));
            start = i + 1;
            assert(s@.subrange(start as int, i + 1) == Seq::<char>::empty());
        } else {
            assert(before.drop_last() == out.deep_view());
            assert(before.last().push(s@[i as int]) == s@.subrange(start as int, i + 1));
        }
        i = i + 1;
    }
    assert(s@.take(n as int) == s@);
    let piece = String::from_str(cut(s, ascii, start, n));
    let ghost old_out = out.deep_view();
    out.push(piece);
    assert(out.deep_view() == old_out.push(s@.subrange(start as int, n as int)));
    out
}

/// The white-space separated words of `s`.
pub fn split_words(s: &str) -> (r: Vec<String>)
    ensures
        r.deep_view() == words(s@),
{
    let v = chars_of(s);
    let ascii = s.is_ascii();
    let n = v.len();
    let mut out: Vec<String> = Vec::new();
    let mut start: usize = 0;
    let mut i: usize = 0;
    assert(s@.take(0) == Seq::<char>::empty());
    assert(out.deep_view() == Seq::<Seq<char>>::empty());
    while i < n
        invariant
            v@ == s@,
            n == v.len(),
            ascii ==> s.is_ascii(),
            start <= i <= n,
            start < i ==> !is_space(s@[i - 1]),
            start == i && i > 0 ==> is_space(s@[i - 1]),
            words(s@.take(i as int)) == if start < i {
                out.deep_view().push(s@.subrange(start as int, i as int))
            } else {
                out.deep_view()
            },
        decreases n - i,
    {
        let ghost before = words(s@.take(i as int));
        assert(s@.take(i + 1).drop_last() == s@.take(i as int));
        if char_is_space(v[i]) {
            if start < i {
                let piece = String::from_str(cut(s, ascii, start, i));
                let ghost old_out = out.deep_view();
                out.push(piece);
                assert(out.deep_view() == old_out.push(s@.subrange(start as int, i as int)));
            }
            start = i + 1;
        } else {
            if start < i {
                assert(before.drop_last() == out.deep_view());
                assert(before.last().push(s@[i as int]) == s@.subrange(start as int, i + 1));
            } else {
                assert(seq![s@[i as int]] == s@.subrange(start as int, i + 1));
            }
        }
        i = i + 1;
    }
    assert(s@.take(n as int) == s@);
    if start < n {
        let piece = String::from_str(cut(s, ascii, start, n));
        let ghost old_out = out.deep_view();
        out.push(piece);
        assert(out.deep_view() == old_out.push(s@.subrange(start as int, n as int)));
    }
    out
}

/// The first `count` parts in order with `sep` between each two neighbours.
pub fn join_first(parts: &Vec<String>, count: usize, sep: &str) -> (r: String)
    requires
        count <= parts.len(),
    ensures
        r@ == joined(parts.deep_view().take(count as int), sep@),
{
    let mut out = String::new();
    let mut i: usize = 0;
    assert(parts.deep_view().take(0) == Seq::<Seq<char>>::empty());
    while i < count
        invariant
            count <= parts.len(),
            i <= count,
            out@ == joined(parts.deep_view().take(i as int), sep@),
        decreases count - i,
    {
        let ghost done = parts.deep_view().take(i as int);
        let ghost next = parts.deep_view().take(i + 1);
        assert(next.drop_last() == done);
        assert(next.last() == parts[i as int]@);
        if i > 0 {
            out.append(sep);
        }
        out.append(parts[i].as_str());
        assert(out@ == joined(next, sep@));
        i = i + 1;
    }
    out
}

/// `text` with every occurrence of `pattern` replaced by `with`.
pub fn replace_all(text: &str, pattern: &str, with: &str) -> (r: String)
    ensures
        r@ == replaced(text@, pattern@, with@),
{
    let t = chars_of(text);
    let p = chars_of(pattern);
    let ascii = text.is_ascii();
    let n = t.len();
    let m = p.len();
    if m == 0 || n < m {
        return String::from_str(text);
    }
    let mut out = String::new();
    let mut run: usize = 0;
    let mut i: usize = 0;
    assert(text@.skip(0) == text@);
    assert(text@.subrange(0, 0) == Seq::<char>::empty());
    while i <= n - m
        invariant
            t@ == text@,
            p@ == pattern@,
            n == t.len(),
            m == p.len(),
            ascii ==> text.is_ascii(),
            0 < m <= n,
            run <= i <= n,
            replaced(text@, pattern@, with@) == out@ + text@.subrange(run as int, i as int)
                + replaced(text@.skip(i as int), pattern@, with@),
        decreases n - i,
    {
        let ghost rest = text@.skip(i as int);
        let mut k: usize = 0;
        while k < m && t[i + k] == p[k]
            invariant
                t@ == text@,
                p@ == pattern@,
                n == t.len(),
                m == p.len(),
                i + m <= n,
                k <= m,
                rest == text@.skip(i as int),
                rest.take(k as int) == pattern@.take(k as int),
            decreases m - k,
        {
            assert(rest.take(k + 1) == rest.take(k as int).push(rest[k as int]));
            assert(pattern@.take(k + 1) == pattern@.take(k as int).push(pattern@[k as int]));
            k = k + 1;
        }
        if k == m {
            assert(pattern@.take(m as int) == pattern@);
            assert(rest.skip(m as int) == text@.skip(i + m));
            out.append(cut(text, ascii, run, i));
            out.append(with);
            i = i + m;
            run = i;
            assert(text@.subrange(run as int, i as int) == Seq::<char>::empty());
        } else {
            assert(rest.take(m as int)[k as int] != pattern@[k as int]);
            assert(rest.skip(1) == text@.skip(i + 1));
            assert(text@.subrange(run as int, i as int) + seq![rest[0]] == text@.subrange(
                run as int,
                i + 1,
            ));
            i = i + 1;
        }
    }
    assert(text@.subrange(run as int, i as int) + text@.skip(i as int) == text@.subrange(
        run as int,
        n as int,
    ));
    out.append(cut(text, ascii, run, n));
    out
}

/// Whether `c` occurs in `s`.
pub fn contains_char(s: &str, c: char) -> (r: bool)
    ensures
        r == s@.contains(c),
{
    let v = chars_of(s);
    let mut i: usize = 0;
    while i < v.len()
        invariant
            v@ == s@,
            i <= v.len(),
            forall|k: int| 0 <= k < i ==> s@[k] != c,
        decreases v.len() - i,
    {
        if v[i] == c {
            assert(s@[i as int] == c);
            return true;
        }
        i = i + 1;
    }
    false
}

/// `s` without its white space.
pub fn squeeze(s: &str) -> (r: String)
    ensures
        r@ == squeezed(s@),
{
    let parts = split_words(s);
    proof {
        reveal_strlit("");
        assert(""@ == Seq::<char>::empty());
        assert(parts.deep_view().take(parts.len() as int) == parts.deep_view());
    }
    join_first(&parts, parts.len(), "")
}

} // verus!
