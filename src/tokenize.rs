use vstd::prelude::*;

use crate::command::SplittedCommands;

verus! {

/// Whether a character has the Unicode `White_Space` property, as
/// `char::is_whitespace` and `str::trim` use it.
pub open spec fn is_white_space(c: char) -> bool {
    let v = c as u32;
    (0x9 <= v && v <= 0xd) || v == 0x20 || v == 0x85 || v == 0xa0 || v == 0x1680 || (0x2000 <= v
        && v <= 0x200a) || v == 0x2028 || v == 0x2029 || v == 0x202f || v == 0x205f || v == 0x3000
}

/// `s` without its leading white space.
pub open spec fn trim_start(s: Seq<char>) -> Seq<char>
    decreases s.len(),
{
    if s.len() > 0 && is_white_space(s[0]) {
        trim_start(s.drop_first())
    } else {
        s
    }
}

/// `s` without its trailing white space.
pub open spec fn trim_end(s: Seq<char>) -> Seq<char>
    decreases s.len(),
{
    if s.len() > 0 && is_white_space(s.last()) {
        trim_end(s.drop_last())
    } else {
        s
    }
}

/// `s` without leading and trailing white space.
pub open spec fn trim(s: Seq<char>) -> Seq<char> {
    trim_end(trim_start(s))
}

/// The pieces of `s` between occurrences of `sep`, in order; `n`
/// separators give `n + 1` pieces, some of which may be empty.
pub open spec fn split(s: Seq<char>, sep: char) -> Seq<Seq<char>>
    decreases s.len(),
{
    if s.len() == 0 {
        seq![Seq::empty()]
    } else {
        let prev = split(s.drop_last(), sep);
        if s.last() == sep {
            prev.push(Seq::empty())
        } else {
            prev.update(prev.len() - 1, prev.last().push(s.last()))
        }
    }
}

/// The pipeline that a line stands for: the trimmed line split at `|`, and
/// each trimmed group split at single spaces.
pub open spec fn tokenize(line: Seq<char>) -> Seq<Seq<Seq<char>>> {
    split(trim(line), '|').map_values(|g: Seq<char>| split(trim(g), ' '))
}

/// Splitting always yields at least one piece.
pub proof fn lemma_split_nonempty(s: Seq<char>, sep: char)
    ensures
        split(s, sep).len() >= 1,
    decreases s.len(),
{
    if s.len() > 0 {
        lemma_split_nonempty(s.drop_last(), sep);
    }
}

/// Whether `c` is white space, as `char::is_whitespace` decides it.
pub fn is_white_space_char(c: char) -> (r: bool)
    ensures
        r == is_white_space(c),
{
    let v = c as u32;
    (0x9 <= v && v <= 0xd) || v == 0x20 || v == 0x85 || v == 0xa0 || v == 0x1680 || (0x2000 <= v
        && v <= 0x200a) || v == 0x2028 || v == 0x2029 || v == 0x202f || v == 0x205f || v == 0x3000
}

/// The bounds, in characters, of `s` with its leading and trailing white
/// space removed.
pub fn trim_bounds(s: &str) -> (r: (usize, usize))
    ensures
        r.0 <= r.1 <= s@.len(),
        s@.subrange(r.0 as int, r.1 as int) == trim(s@),
{
    let n = s.unicode_len();
    let mut a: usize = 0;
    assert(s@.subrange(0, n as int) =~= s@);
    while a < n && is_white_space_char(s.get_char(a))
        invariant
            n == s@.len(),
            a <= n,
            trim_start(s@) == trim_start(s@.subrange(a as int, n as int)),
        decreases n - a,
    {
        assert(s@.subrange(a as int, n as int).drop_first() =~= s@.subrange(a + 1, n as int));
        a = a + 1;
    }
    assert(trim_start(s@) == s@.subrange(a as int, n as int));
    let mut b: usize = n;
    while b > a && is_white_space_char(s.get_char(b - 1))
        invariant
            n == s@.len(),
            a <= b <= n,
            trim(s@) == trim_end(s@.subrange(a as int, b as int)),
        decreases b - a,
    {
        assert(s@.subrange(a as int, b as int).drop_last() =~= s@.subrange(a as int, b - 1));
        b = b - 1;
    }
    (a, b)
}

/// The pieces of `s[lo..hi]` (in characters) between occurrences of `sep`.
pub fn split_range<'a>(s: &'a str, lo: usize, hi: usize, sep: char) -> (r: Vec<&'a str>)
    requires
        lo <= hi <= s@.len(),
    ensures
        r.deep_view() == split(s@.subrange(lo as int, hi as int), sep),
{
    let mut r: Vec<&'a str> = Vec::new();
    let mut start: usize = lo;
    let mut i: usize = lo;
    assert(s@.subrange(lo as int, lo as int) =~= Seq::<char>::empty());
    assert(r.deep_view().push(s@.subrange(start as int, i as int)) =~= seq![Seq::<char>::empty()]);
    while i < hi
        invariant
            lo <= start <= i <= hi <= s@.len(),
            split(s@.subrange(lo as int, i as int), sep) == r.deep_view().push(
                s@.subrange(start as int, i as int),
            ),
        decreases hi - i,
    {
        let c = s.get_char(i);
        let ghost whole = s@.subrange(lo as int, i + 1);
        assert(whole.drop_last() =~= s@.subrange(lo as int, i as int));
        assert(whole.last() == c);
        if c == sep {
            let ghost before = r.deep_view();
            let piece = s.substring_char(start, i);
            r.push(piece);
            assert(r.deep_view() =~= before.push(piece@));
            assert(s@.subrange(i + 1, i + 1) =~= Seq::<char>::empty());
            start = i + 1;
        } else {
            assert(s@.subrange(start as int, i + 1) =~= s@.subrange(start as int, i as int).push(
                c,
            ));
            assert(r.deep_view().push(s@.subrange(start as int, i as int)).update(
                r.deep_view().len() as int,
                s@.subrange(start as int, i + 1),
            ) =~= r.deep_view().push(s@.subrange(start as int, i + 1)));
        }
        i = i + 1;
    }
    let ghost before = r.deep_view();
    let piece = s.substring_char(start, hi);
    r.push(piece);
    assert(r.deep_view() =~= before.push(piece@));
    r
}

/// Given a string of commands, splits it into piped command groups, and each
/// group into a program and its arguments: the line is trimmed and split at
/// `|`, and each group is trimmed and split at single spaces.
pub fn split_commands<'a>(commands: &'a str) -> (r: SplittedCommands<'a>)
    ensures
        r.deep_view() == tokenize(commands@),
        r@.len() >= 1,
        forall|k: int| 0 <= k < r@.len() ==> #[trigger] r@[k]@.len() >= 1,
{
    let (lo, hi) = trim_bounds(commands);
    let groups = split_range(commands, lo, hi, '|');
    let ghost t = tokenize(commands@);
    let mut r: Vec<Vec<&'a str>> = Vec::new();
    let mut j: usize = 0;
    while j < groups.len()
        invariant
            j <= groups@.len(),
            groups.deep_view() == split(trim(commands@), '|'),
            t == tokenize(commands@),
            r@.len() == j,
            forall|k: int| 0 <= k < j ==> #[trigger] r@[k].deep_view() == t[k],
            forall|k: int| 0 <= k < j ==> #[trigger] r@[k]@.len() >= 1,
        decreases groups@.len() - j,
    {
        let g: &'a str = groups[j];
        let (a, b) = trim_bounds(g);
        let tokens = split_range(g, a, b, ' ');
        proof {
            lemma_split_nonempty(trim(g@), ' ');
            assert(groups.deep_view()[j as int] == g@);
        }
        r.push(tokens);
        j = j + 1;
    }
    proof {
        lemma_split_nonempty(trim(commands@), '|');
        assert(r.deep_view() =~= t);
    }
    r
}

} // verus!
