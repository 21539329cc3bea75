//! Text: comparing, searching, trimming, lines.

use vstd::prelude::*;

verus! {

/// The texts held by a sequence of strings.
pub open spec fn texts(v: Seq<String>) -> Seq<Seq<char>> {
    Seq::new(v.len(), |i: int| v[i]@)
}

/// The characters of `s`.
pub fn chars_of(s: &str) -> (r: Vec<char>)
    ensures
        r@ == s@,
{
    let mut out: Vec<char> = Vec::new();
    for c in it: s.chars()
        invariant
            out@ == it.seq().take(it.index()),
            it.seq() == s@,
    {
        out.push(c);
    }
    assert(s@.take(s@.len() as int) == s@);
    out
}

/// Whether two texts hold the same characters.
pub fn same_text(a: &str, b: &str) -> (r: bool)
    ensures
        r == (a@ == b@),
{
    let x: Vec<char> = chars_of(a);
    let y: Vec<char> = chars_of(b);
    if x.len() != y.len() {
        return false;
    }
    for i in 0..x.len()
        invariant
            x@ == a@,
            y@ == b@,
            x@.len() == y@.len(),
            forall|j: int| 0 <= j < i ==> x@[j] == y@[j],
    {
        if x[i] != y[i] {
            return false;
        }
    }
    assert(a@ =~= b@);
    true
}

/// Whether `s` begins with `prefix`.
pub open spec fn begins(s: Seq<char>, prefix: Seq<char>) -> bool {
    prefix.len() <= s.len() && s.take(prefix.len() as int) == prefix
}

/// Whether `s` ends with `suffix`.
pub open spec fn ends(s: Seq<char>, suffix: Seq<char>) -> bool {
    suffix.len() <= s.len() && s.skip(s.len() - suffix.len()) == suffix
}

/// Whether `part` stands in `s` from position `i` on.
pub open spec fn stands_at(s: Seq<char>, part: Seq<char>, i: int) -> bool {
    0 <= i && i + part.len() <= s.len() && s.subrange(i, i + part.len()) == part
}

/// Whether `part` stands somewhere in `s`.
pub open spec fn holds(s: Seq<char>, part: Seq<char>) -> bool {
    exists|i: int| stands_at(s, part, i)
}

/// Whether `part` stands in `s` from position `from` on.
fn matches_at(s: &Vec<char>, part: &Vec<char>, from: usize) -> (r: bool)
    requires
        from + part@.len() <= s@.len(),
    ensures
        r == stands_at(s@, part@, from as int),
{
    let n: usize = s.len();
    for j in 0..part.len()
        invariant
            n == s@.len(),
            from + part@.len() <= s@.len(),
            forall|k: int| 0 <= k < j ==> s@[from + k] == part@[k],
    {
        if s[from + j] != part[j] {
            assert(s@.subrange(from as int, from + part@.len())[j as int] != part@[j as int]);
            return false;
        }
    }
    assert(s@.subrange(from as int, from + part@.len()) =~= part@);
    true
}

/// `str::starts_with` on texts.
pub fn text_begins(s: &str, prefix: &str) -> (r: bool)
    ensures
        r == begins(s@, prefix@),
{
    let x: Vec<char> = chars_of(s);
    let y: Vec<char> = chars_of(prefix);
    if y.len() > x.len() {
        return false;
    }
    assert(s@.take(prefix@.len() as int) =~= s@.subrange(0, prefix@.len() as int));
    matches_at(&x, &y, 0)
}

/// `str::ends_with` on texts.
pub fn text_ends(s: &str, suffix: &str) -> (r: bool)
    ensures
        r == ends(s@, suffix@),
{
    let x: Vec<char> = chars_of(s);
    let y: Vec<char> = chars_of(suffix);
    if y.len() > x.len() {
        return false;
    }
    assert(s@.skip(s@.len() - suffix@.len()) =~= s@.subrange(
        s@.len() - suffix@.len(),
        s@.len() as int,
    ));
    matches_at(&x, &y, x.len() - y.len())
}

/// `str::contains` on texts.
pub fn text_holds(s: &str, part: &str) -> (r: bool)
    ensures
        r == holds(s@, part@),
{
    let x: Vec<char> = chars_of(s);
    let y: Vec<char> = chars_of(part);
    if y.len() > x.len() {
        return false;
    }
    let last: usize = x.len() - y.len();
    let mut i: usize = 0;
    while i <= last
        invariant
            x@ == s@,
            y@ == part@,
            last == x@.len() - y@.len(),
            i <= last + 1,
            forall|j: int| 0 <= j < i ==> !stands_at(s@, part@, j),
        decreases last + 1 - i,
    {
        if matches_at(&x, &y, i) {
            return true;
        }
        if i == last {
            return false;
        }
        i = i + 1;
    }
    false
}

/// The characters of the Unicode property `White_Space`.
pub open spec fn white_space(c: char) -> bool {
    let u = c as u32;
    ||| 0x09 <= u <= 0x0d
    ||| u == 0x20
    ||| u == 0x85
    ||| u == 0xa0
    ||| u == 0x1680
    ||| 0x2000 <= u <= 0x200a
    ||| u == 0x2028
    ||| u == 0x2029
    ||| u == 0x202f
    ||| u == 0x205f
    ||| u == 0x3000
}

/// Whether `c` is white space.
pub fn is_white_space(c: char) -> (r: bool)
    ensures
        r == white_space(c),
{
    let u: u32 = c as u32;
    (0x09 <= u && u <= 0x0d) || u == 0x20 || u == 0x85 || u == 0xa0 || u == 0x1680 || (0x2000 <= u
        && u <= 0x200a) || u == 0x2028 || u == 0x2029 || u == 0x202f || u == 0x205f || u == 0x3000
}

/// `s` without the white space at its two ends.
pub open spec fn trimmed(s: Seq<char>) -> Seq<char>
    decreases s.len(),
{
    if s.len() > 0 && white_space(s.first()) {
        trimmed(s.drop_first())
    } else if s.len() > 0 && white_space(s.last()) {
        trimmed(s.drop_last())
    } else {
        s
    }
}

/// Whether `s` holds nothing but white space.
pub open spec fn blank(s: Seq<char>) -> bool {
    forall|i: int| 0 <= i < s.len() ==> white_space(#[trigger] s[i])
}

/// Trimming leaves nothing exactly where there is nothing but white space.
pub proof fn lemma_trimmed_blank(s: Seq<char>)
    ensures
        blank(s) <==> trimmed(s).len() == 0,
    decreases s.len(),
{
    if s.len() > 0 && white_space(s.first()) {
        lemma_trimmed_blank(s.drop_first());
        if blank(s.drop_first()) {
            assert forall|i: int| 0 <= i < s.len() implies white_space(#[trigger] s[i]) by {
                if i > 0 {
                    assert(s[i] == s.drop_first()[i - 1]);
                }
            }
        }
        if blank(s) {
            assert forall|i: int| 0 <= i < s.drop_first().len() implies white_space(
                #[trigger] s.drop_first()[i],
            ) by {
                assert(s.drop_first()[i] == s[i + 1]);
            }
        }
    } else if s.len() > 0 && white_space(s.last()) {
        lemma_trimmed_blank(s.drop_last());
        assert(!white_space(s[0]));
        if s.len() > 1 {
            assert(s.drop_last()[0] == s[0]);
        }
    } else if s.len() > 0 {
        assert(!white_space(s[0]));
    }
}

/// `str::trim`.
pub fn trim(s: &str) -> (r: &str)
    ensures
        r@ == trimmed(s@),
{
    let x: Vec<char> = chars_of(s);
    let mut a: usize = 0;
    let mut b: usize = x.len();
    assert(s@ =~= s@.subrange(0, s@.len() as int));
    while a < b && is_white_space(x[a])
        invariant
            x@ == s@,
            a <= b <= x@.len(),
            trimmed(s@) == trimmed(s@.subrange(a as int, b as int)),
        decreases b - a,
    {
        assert(s@.subrange(a as int, b as int).drop_first() =~= s@.subrange(a + 1, b as int));
        a = a + 1;
    }
    while a < b && is_white_space(x[b - 1])
        invariant
            x@ == s@,
            a <= b <= x@.len(),
            a < b ==> !white_space(x@[a as int]),
            trimmed(s@) == trimmed(s@.subrange(a as int, b as int)),
        decreases b - a,
    {
        assert(s@.subrange(a as int, b as int).drop_last() =~= s@.subrange(a as int, b - 1));
        b = b - 1;
    }
    s.substring_char(a, b)
}

/// Whether `s` holds nothing but white space: `s.trim().is_empty()`.
pub fn is_blank(s: &str) -> (r: bool)
    ensures
        r == blank(s@),
{
    proof {
        lemma_trimmed_blank(s@);
    }
    trim(s).unicode_len() == 0
}

/// The text that an optional string holds.
pub open spec fn opt_text(s: Option<String>) -> Option<Seq<char>> {
    match s {
        Some(t) => Some(t@),
        None => None,
    }
}

/// Whether the first line break of `s` is at `i`.
pub open spec fn breaks_at(s: Seq<char>, i: int) -> bool {
    0 <= i < s.len() && s[i] == '\n' && forall|j: int| 0 <= j < i ==> s[j] != '\n'
}

/// A line without the carriage return before its line break.
pub open spec fn without_return(line: Seq<char>) -> Seq<char> {
    if line.len() > 0 && line.last() == '\r' {
        line.drop_last()
    } else {
        line
    }
}

/// The lines of a text, without their line breaks.
pub open spec fn lines_of(s: Seq<char>) -> Seq<Seq<char>>
    decreases s.len(),
{
    if s.len() == 0 {
        Seq::empty()
    } else if exists|i: int| breaks_at(s, i) {
        let i = choose|i: int| breaks_at(s, i);
        seq![without_return(s.take(i))] + lines_of(s.skip(i + 1))
    } else {
        seq![s]
    }
}

/// `str::lines`.
pub fn text_lines(s: &str) -> (r: Vec<&str>)
    ensures
        r@.len() == lines_of(s@).len(),
        forall|i: int| 0 <= i < r@.len() ==> (#[trigger] r@[i])@ == lines_of(s@)[i],
{
    let x: Vec<char> = chars_of(s);
    let n: usize = x.len();
    let mut out: Vec<&str> = Vec::new();
    let mut from: usize = 0;
    assert(s@.skip(0) =~= s@);
    while from < n
        invariant
            x@ == s@,
            n == x@.len(),
            from <= n,
            lines_of(s@).len() == out@.len() + lines_of(s@.skip(from as int)).len(),
            forall|i: int| 0 <= i < out@.len() ==> (#[trigger] out@[i])@ == lines_of(s@)[i],
            forall|i: int|
                0 <= i < lines_of(s@.skip(from as int)).len() ==> lines_of(s@)[out@.len() + i]
                    == #[trigger] lines_of(s@.skip(from as int))[i],
        decreases n - from,
    {
        let ghost rest = s@.skip(from as int);
        let ghost whole = lines_of(rest);
        let mut to: usize = from;
        while to < n && x[to] != '\n'
            invariant
                x@ == s@,
                n == x@.len(),
                from <= to <= n,
                forall|j: int| from <= j < to ==> x@[j] != '\n',
            decreases n - to,
        {
            to = to + 1;
        }
        if to < n {
            let end: usize = if to > from && x[to - 1] == '\r' {
                to - 1
            } else {
                to
            };
            proof {
                let k = to - from;
                assert(breaks_at(rest, k));
                let c = choose|c: int| breaks_at(rest, c);
                assert(c == k);
                assert(rest.take(k) =~= s@.subrange(from as int, to as int));
                assert(without_return(rest.take(k)) =~= s@.subrange(from as int, end as int));
                assert(rest.skip(k + 1) =~= s@.skip(to + 1));
                assert(whole =~= seq![s@.subrange(from as int, end as int)] + lines_of(
                    s@.skip(to + 1),
                ));
            }
            let ghost before = out@;
            out.push(s.substring_char(from, end));
            proof {
                assert(lines_of(s@)[before.len() as int + 0] == whole[0]);
                let tail = lines_of(s@.skip(to + 1));
                assert forall|i: int| 0 <= i < tail.len() implies lines_of(s@)[out@.len() + i]
                    == #[trigger] tail[i] by {
                    assert(whole[i + 1] == tail[i]);
                    assert(lines_of(s@)[before.len() + (i + 1)] == whole[i + 1]);
                }
            }
            from = to + 1;
        } else {
            proof {
                assert forall|c: int| !breaks_at(rest, c) by {
                    if breaks_at(rest, c) {
                        assert(rest[c] == x@[from + c]);
                    }
                }
                assert(rest =~= s@.subrange(from as int, n as int));
                assert(whole =~= seq![rest]);
                assert(s@.skip(n as int).len() == 0);
            }
            let ghost before = out@;
            out.push(s.substring_char(from, n));
            assert(lines_of(s@)[before.len() as int + 0] == whole[0]);
            from = n;
        }
    }
    out
}

/// Trimming takes off white space at the two ends and nothing else: what is left is
/// a part of the text, only white space stands before and behind it, and neither of
/// its ends is white space.
pub proof fn law_trim_takes_white_ends(s: Seq<char>) -> (r: (int, int))
    ensures
        0 <= r.0 <= r.1 <= s.len(),
        trimmed(s) == s.subrange(r.0, r.1),
        forall|i: int| 0 <= i < r.0 ==> white_space(#[trigger] s[i]),
        forall|i: int| r.1 <= i < s.len() ==> white_space(#[trigger] s[i]),
        trimmed(s).len() > 0 ==> !white_space(trimmed(s).first()) && !white_space(
            trimmed(s).last(),
        ),
    decreases s.len(),
{
    if s.len() > 0 && white_space(s.first()) {
        let front = s.drop_first();
        let (a, b) = law_trim_takes_white_ends(front);
        assert(front.subrange(a, b) =~= s.subrange(a + 1, b + 1));
        assert forall|i: int| 0 <= i < a + 1 implies white_space(#[trigger] s[i]) by {
            if i > 0 {
                assert(s[i] == front[i - 1]);
            }
        }
        assert forall|i: int| b + 1 <= i < s.len() implies white_space(#[trigger] s[i]) by {
            assert(s[i] == front[i - 1]);
        }
        (a + 1, b + 1)
    } else if s.len() > 0 && white_space(s.last()) {
        let back = s.drop_last();
        let (a, b) = law_trim_takes_white_ends(back);
        assert(back.subrange(a, b) =~= s.subrange(a, b));
        assert forall|i: int| 0 <= i < a implies white_space(#[trigger] s[i]) by {
            assert(s[i] == back[i]);
        }
        assert forall|i: int| b <= i < s.len() implies white_space(#[trigger] s[i]) by {
            if i < back.len() {
                assert(s[i] == back[i]);
            }
        }
        (a, b)
    } else {
        assert(s.subrange(0, s.len() as int) =~= s);
        (0, s.len() as int)
    }
}

/// A text begins with its front, ends with its back and holds each of its parts, and
/// only so: what a text begins with, ends with or holds can be parted from the rest.
pub proof fn law_parts_of_a_text(a: Seq<char>, b: Seq<char>, c: Seq<char>, s: Seq<char>)
    ensures
        begins(a + b, a),
        ends(a + b, b),
        holds(a + b + c, b),
        begins(s, a) ==> s == a + s.skip(a.len() as int),
        ends(s, a) ==> s == s.take(s.len() - a.len()) + a,
        holds(s, a) ==> exists|i: int|
            0 <= i <= s.len() - a.len() && s == #[trigger] s.take(i) + a + s.skip(i + a.len()),
{
    assert((a + b).take(a.len() as int) =~= a);
    assert((a + b).skip((a + b).len() - b.len()) =~= b);
    assert((a + b + c).subrange(a.len() as int, (a.len() + b.len()) as int) =~= b);
    assert(stands_at(a + b + c, b, a.len() as int));
    if begins(s, a) {
        assert(s =~= s.take(a.len() as int) + s.skip(a.len() as int));
    }
    if ends(s, a) {
        assert(s =~= s.take(s.len() - a.len()) + s.skip(s.len() - a.len()));
    }
    if holds(s, a) {
        let i = choose|i: int| stands_at(s, a, i);
        assert(s =~= s.take(i) + s.subrange(i, i + a.len()) + s.skip(i + a.len()));
    }
}

/// A line ends at its line break, which is taken off together with the carriage
/// return before it; what follows is read in the same way, and the last line needs no
/// line break.
pub proof fn law_lines_end_at_breaks(line: Seq<char>, rest: Seq<char>)
    requires
        forall|i: int| 0 <= i < line.len() ==> line[i] != '\n',
    ensures
        lines_of(Seq::empty()).len() == 0,
        line.len() > 0 ==> lines_of(line) == seq![line],
        line.len() == 0 || line.last() != '\r' ==> lines_of(line.push('\n') + rest) == seq![line]
            + lines_of(rest),
        lines_of(line.push('\r').push('\n') + rest) == seq![line] + lines_of(rest),
{
    if line.len() > 0 {
        assert forall|i: int| !breaks_at(line, i) by {}
    }
    lemma_first_line(line, rest);
    let long = line.push('\r');
    assert forall|i: int| 0 <= i < long.len() implies long[i] != '\n' by {}
    lemma_first_line(long, rest);
    assert(long.drop_last() =~= line);
}

proof fn lemma_first_line(line: Seq<char>, rest: Seq<char>)
    requires
        forall|i: int| 0 <= i < line.len() ==> line[i] != '\n',
    ensures
        lines_of(line.push('\n') + rest) == seq![without_return(line)] + lines_of(rest),
{
    let s = line.push('\n') + rest;
    let k = line.len() as int;
    assert(breaks_at(s, k)) by {
        assert forall|j: int| 0 <= j < k implies s[j] != '\n' by {
            assert(s[j] == line[j]);
        }
    }
    let c = choose|c: int| breaks_at(s, c);
    assert(c == k);
    assert(s.take(k) =~= line);
    assert(s.skip(k + 1) =~= rest);
}

} // verus!
