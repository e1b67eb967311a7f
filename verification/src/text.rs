//! Character-level text handling: Unicode whitespace, trimming, prefixes and
//! line splitting, all stated over `Seq<char>`.

use vstd::prelude::*;

verus! {

/// The Unicode `White_Space` property, as `char::is_whitespace` tests it.
pub open spec fn is_ws(c: char) -> bool {
    let u = c as u32;
    ||| 0x09 <= u <= 0x0D
    ||| u == 0x20
    ||| u == 0x85
    ||| u == 0xA0
    ||| u == 0x1680
    ||| 0x2000 <= u <= 0x200A
    ||| u == 0x2028
    ||| u == 0x2029
    ||| u == 0x202F
    ||| u == 0x205F
    ||| u == 0x3000
}

/// Whether `c` is Unicode whitespace.
pub fn is_whitespace(c: char) -> (res: bool)
    ensures
        res == is_ws(c),
{
    let u = c as u32;
    (0x09 <= u && u <= 0x0D) || u == 0x20 || u == 0x85 || u == 0xA0 || u == 0x1680 || (0x2000 <= u
        && u <= 0x200A) || u == 0x2028 || u == 0x2029 || u == 0x202F || u == 0x205F || u == 0x3000
}

/// A class of characters that trimming strips from the ends of a text.
#[derive(Clone, Copy, Debug)]
pub enum Strip {
    /// Unicode whitespace, as `str::trim` strips it.
    Whitespace,
    /// Single and double quotes, as `trim_matches(['"', '\''])` strips them.
    Quotes,
}

impl Strip {
    pub open spec fn strips(self, c: char) -> bool {
        match self {
            Strip::Whitespace => is_ws(c),
            Strip::Quotes => c == '"' || c == '\'',
        }
    }

    /// Whether this class strips `c`.
    pub fn test(&self, c: char) -> (res: bool)
        ensures
            res == self.strips(c),
    {
        match self {
            Strip::Whitespace => is_whitespace(c),
            Strip::Quotes => c == '"' || c == '\'',
        }
    }
}

/// How many characters at the front of `s` the class strips.
pub open spec fn lead_count(s: Seq<char>, k: Strip) -> nat
    decreases s.len(),
{
    if s.len() > 0 && k.strips(s[0]) {
        1 + lead_count(s.drop_first(), k)
    } else {
        0
    }
}

/// How many characters at the back of `s` the class strips.
pub open spec fn trail_count(s: Seq<char>, k: Strip) -> nat
    decreases s.len(),
{
    if s.len() > 0 && k.strips(s.last()) {
        1 + trail_count(s.drop_last(), k)
    } else {
        0
    }
}

/// `s` without the characters of class `k` at its front.
pub open spec fn trim_start_by(s: Seq<char>, k: Strip) -> Seq<char> {
    s.skip(lead_count(s, k) as int)
}

/// `s` without the characters of class `k` at its back.
pub open spec fn trim_end_by(s: Seq<char>, k: Strip) -> Seq<char> {
    s.take(s.len() - trail_count(s, k))
}

/// `s` without the characters of class `k` at either end.
pub open spec fn trim_by(s: Seq<char>, k: Strip) -> Seq<char> {
    trim_end_by(trim_start_by(s, k), k)
}

/// `str::trim_start`.
pub open spec fn trim_start(s: Seq<char>) -> Seq<char> {
    trim_start_by(s, Strip::Whitespace)
}

/// `str::trim`.
pub open spec fn trim(s: Seq<char>) -> Seq<char> {
    trim_by(s, Strip::Whitespace)
}

/// `str::starts_with` with a text pattern.
pub open spec fn starts_with(s: Seq<char>, p: Seq<char>) -> bool {
    p.len() <= s.len() && s.take(p.len() as int) == p
}

/// Whether `p` occurs in `s` as a contiguous piece.
pub open spec fn contains_seq(s: Seq<char>, p: Seq<char>) -> bool {
    exists|i: int| 0 <= i && i + p.len() <= s.len() && #[trigger] s.subrange(i, i + p.len()) == p
}

/// The index of the first `'\n'` at or after `i`, or the length of `s` if there is none.
pub open spec fn line_end(s: Seq<char>, i: nat) -> nat
    decreases s.len() - i,
{
    if i >= s.len() {
        s.len()
    } else if s[i as int] == '\n' {
        i
    } else {
        line_end(s, i + 1)
    }
}

pub proof fn lemma_line_end(s: Seq<char>, i: nat)
    requires
        i <= s.len(),
    ensures
        i <= line_end(s, i) <= s.len(),
        line_end(s, i) < s.len() ==> s[line_end(s, i) as int] == '\n',
        forall|j: int| i <= j < line_end(s, i) ==> s[j] != '\n',
    decreases s.len() - i,
{
    if i < s.len() && s[i as int] != '\n' {
        lemma_line_end(s, i + 1);
    }
}

/// The line that starts at `i`: up to the next `'\n'`, without it, and without a
/// `'\r'` just before it; the last line may lack the `'\n'` and keeps any `'\r'`.
pub open spec fn line_at(s: Seq<char>, i: nat) -> Seq<char> {
    let e = line_end(s, i);
    if e < s.len() && e > i && s[e - 1] == '\r' {
        s.subrange(i as int, e - 1)
    } else {
        s.subrange(i as int, e as int)
    }
}

/// The lines of `s` from index `i` on, as `str::lines` yields them.
pub open spec fn lines_from(s: Seq<char>, i: nat) -> Seq<Seq<char>>
    decreases s.len() - i,
{
    if i >= s.len() {
        seq![]
    } else {
        proof {
            lemma_line_end(s, i);
        }
        if line_end(s, i) < s.len() {
            seq![line_at(s, i)] + lines_from(s, line_end(s, i) + 1)
        } else {
            seq![line_at(s, i)]
        }
    }
}

/// `str::lines`: the text split at `"\n"` and `"\r\n"`, with no empty line after a
/// final line ending.
pub open spec fn lines(s: Seq<char>) -> Seq<Seq<char>> {
    lines_from(s, 0)
}

/// The view of an optional `String`.
pub open spec fn opt_view(o: Option<String>) -> Option<Seq<char>> {
    match o {
        Some(s) => Some(s@),
        None => None,
    }
}

/// The characters of `s`, in order.
pub fn chars_of(s: &str) -> (res: Vec<char>)
    ensures
        res@ == s@,
{
    let mut res: Vec<char> = Vec::new();
    for c in it: s.chars()
        invariant
            res@ == it.seq().take(it.index() as int),
    {
        res.push(c);
    }
    res
}

/// The first index at or after `lo` and before `hi` whose character the class does not
/// strip (or `hi`).
pub fn skip_front(v: &Vec<char>, lo: usize, hi: usize, k: Strip) -> (r: usize)
    requires
        lo <= hi <= v.len(),
    ensures
        lo <= r <= hi,
        r - lo == lead_count(v@.subrange(lo as int, hi as int), k),
        v@.subrange(r as int, hi as int) == trim_start_by(v@.subrange(lo as int, hi as int), k),
{
    let mut i = lo;
    while i < hi && k.test(v[i])
        invariant
            lo <= i <= hi <= v.len(),
            lead_count(v@.subrange(lo as int, hi as int), k) == (i - lo) + lead_count(
                v@.subrange(i as int, hi as int),
                k,
            ),
        decreases hi - i,
    {
        assert(v@.subrange(i as int, hi as int).drop_first() =~= v@.subrange(i + 1, hi as int));
        i = i + 1;
    }
    assert(v@.subrange(lo as int, hi as int).skip(i - lo) =~= v@.subrange(i as int, hi as int));
    i
}

/// The last index after `lo` up to `hi` such that the class strips every character in
/// `[r, hi)` (or `lo`).
pub fn skip_back(v: &Vec<char>, lo: usize, hi: usize, k: Strip) -> (r: usize)
    requires
        lo <= hi <= v.len(),
    ensures
        lo <= r <= hi,
        hi - r == trail_count(v@.subrange(lo as int, hi as int), k),
        v@.subrange(lo as int, r as int) == trim_end_by(v@.subrange(lo as int, hi as int), k),
{
    let mut j = hi;
    while j > lo && k.test(v[j - 1])
        invariant
            lo <= j <= hi <= v.len(),
            trail_count(v@.subrange(lo as int, hi as int), k) == (hi - j) + trail_count(
                v@.subrange(lo as int, j as int),
                k,
            ),
        decreases j - lo,
    {
        assert(v@.subrange(lo as int, j as int).drop_last() =~= v@.subrange(lo as int, j - 1));
        j = j - 1;
    }
    assert(v@.subrange(lo as int, hi as int).take((j - lo) as int) =~= v@.subrange(
        lo as int,
        j as int,
    ));
    j
}

/// The bounds of `v[lo..hi]` with the characters of class `k` stripped from both ends.
pub fn trim_range(v: &Vec<char>, lo: usize, hi: usize, k: Strip) -> (r: (usize, usize))
    requires
        lo <= hi <= v.len(),
    ensures
        lo <= r.0 <= r.1 <= hi,
        v@.subrange(r.0 as int, r.1 as int) == trim_by(v@.subrange(lo as int, hi as int), k),
{
    let a = skip_front(v, lo, hi, k);
    let b = skip_back(v, a, hi, k);
    (a, b)
}

/// Whether `v[lo..hi]` starts with `p`.
pub fn range_starts_with(v: &Vec<char>, lo: usize, hi: usize, p: &Vec<char>) -> (res: bool)
    requires
        lo <= hi <= v.len(),
    ensures
        res == starts_with(v@.subrange(lo as int, hi as int), p@),
{
    if p.len() > hi - lo {
        return false;
    }
    let mut j: usize = 0;
    while j < p.len()
        invariant
            lo <= hi <= v.len(),
            p.len() <= hi - lo,
            j <= p.len(),
            forall|t: int| 0 <= t < j ==> v@[lo + t] == p@[t],
        decreases p.len() - j,
    {
        if v[lo + j] != p[j] {
            assert(v@.subrange(lo as int, hi as int).take(p.len() as int)[j as int] != p@[j as int]);
            return false;
        }
        j = j + 1;
    }
    assert(v@.subrange(lo as int, hi as int).take(p.len() as int) =~= p@);
    true
}

/// `str::ends_with` with a text pattern.
pub open spec fn ends_with(s: Seq<char>, p: Seq<char>) -> bool {
    p.len() <= s.len() && s.skip(s.len() - p.len()) == p
}

/// The first index at or after `i` whose character is whitespace when `ws` holds, or
/// is not whitespace otherwise; the length of `s` if there is none.
pub open spec fn next_where(s: Seq<char>, i: nat, ws: bool) -> nat
    decreases s.len() - i,
{
    if i >= s.len() {
        s.len()
    } else if is_ws(s[i as int]) == ws {
        i
    } else {
        next_where(s, i + 1, ws)
    }
}

pub proof fn lemma_next_where(s: Seq<char>, i: nat, ws: bool)
    requires
        i <= s.len(),
    ensures
        i <= next_where(s, i, ws) <= s.len(),
        next_where(s, i, ws) < s.len() ==> is_ws(s[next_where(s, i, ws) as int]) == ws,
        forall|j: int| i <= j < next_where(s, i, ws) ==> is_ws(s[j]) != ws,
    decreases s.len() - i,
{
    if i < s.len() && is_ws(s[i as int]) != ws {
        lemma_next_where(s, i + 1, ws);
    }
}

/// The words of `s` from index `i` on: the maximal runs of non-whitespace characters.
pub open spec fn words_from(s: Seq<char>, i: nat) -> Seq<Seq<char>>
    decreases s.len() - i,
{
    if i >= s.len() {
        seq![]
    } else {
        proof {
            lemma_next_where(s, i, false);
        }
        let j = next_where(s, i, false);
        if j >= s.len() {
            seq![]
        } else {
            proof {
                lemma_next_where(s, j + 1, true);
            }
            let k = next_where(s, j + 1, true);
            seq![s.subrange(j as int, k as int)] + words_from(s, k)
        }
    }
}

/// `str::split_whitespace`.
pub open spec fn words(s: Seq<char>) -> Seq<Seq<char>> {
    words_from(s, 0)
}

/// A copy of `v[lo..hi]`.
pub fn copy_range(v: &Vec<char>, lo: usize, hi: usize) -> (res: Vec<char>)
    requires
        lo <= hi <= v.len(),
    ensures
        res@ == v@.subrange(lo as int, hi as int),
{
    let mut res: Vec<char> = Vec::new();
    let mut i = lo;
    while i < hi
        invariant
            lo <= i <= hi <= v.len(),
            res@ == v@.subrange(lo as int, i as int),
        decreases hi - i,
    {
        res.push(v[i]);
        i = i + 1;
    }
    res
}

/// The bounds of the words of `v`, in order.
pub fn word_bounds(v: &Vec<char>) -> (res: Vec<(usize, usize)>)
    ensures
        res@.len() == words(v@).len(),
        forall|t: int|
            0 <= t < res@.len() ==> {
                &&& (#[trigger] res@[t]).0 <= res@[t].1 <= v@.len()
                &&& v@.subrange(res@[t].0 as int, res@[t].1 as int) == words(v@)[t]
            },
{
    let n = v.len();
    let mut res: Vec<(usize, usize)> = Vec::new();
    let ghost mut done: Seq<Seq<char>> = seq![];
    let mut p: usize = 0;
    while p < n
        invariant
            n == v.len(),
            p <= n,
            words(v@) == done + words_from(v@, p as nat),
            res@.len() == done.len(),
            forall|t: int|
                0 <= t < res@.len() ==> {
                    &&& (#[trigger] res@[t]).0 <= res@[t].1 <= v@.len()
                    &&& v@.subrange(res@[t].0 as int, res@[t].1 as int) == done[t]
                },
        decreases n - p,
    {
        let mut j = p;
        while j < n && is_whitespace(v[j])
            invariant
                p <= j <= n,
                n == v.len(),
                next_where(v@, p as nat, false) == next_where(v@, j as nat, false),
            decreases n - j,
        {
            j = j + 1;
        }
        if j == n {
            assert(words_from(v@, p as nat) =~= seq![]);
            p = n;
        } else {
            let mut k = j + 1;
            while k < n && !is_whitespace(v[k])
                invariant
                    j < k <= n,
                    n == v.len(),
                    next_where(v@, (j + 1) as nat, true) == next_where(v@, k as nat, true),
                decreases n - k,
            {
                k = k + 1;
            }
            let ghost w = v@.subrange(j as int, k as int);
            proof {
                assert(words_from(v@, p as nat) == seq![w] + words_from(v@, k as nat));
                assert(done + words_from(v@, p as nat) =~= done.push(w) + words_from(
                    v@,
                    k as nat,
                ));
                done = done.push(w);
            }
            res.push((j, k));
            p = k;
        }
    }
    proof {
        assert(words_from(v@, p as nat) =~= seq![]);
        assert(done + seq![] =~= done);
    }
    res
}

/// Whether `v[lo..hi]` ends with `p`.
pub fn range_ends_with(v: &Vec<char>, lo: usize, hi: usize, p: &Vec<char>) -> (res: bool)
    requires
        lo <= hi <= v.len(),
    ensures
        res == ends_with(v@.subrange(lo as int, hi as int), p@),
{
    if p.len() > hi - lo {
        return false;
    }
    let start = hi - p.len();
    let mut j: usize = 0;
    while j < p.len()
        invariant
            lo <= start <= hi <= v.len(),
            start + p.len() == hi,
            j <= p.len(),
            forall|t: int| 0 <= t < j ==> v@[start + t] == p@[t],
        decreases p.len() - j,
    {
        if v[start + j] != p[j] {
            assert(v@.subrange(lo as int, hi as int).skip((hi - lo) - p.len())[j as int]
                != p@[j as int]);
            return false;
        }
        j = j + 1;
    }
    assert(v@.subrange(lo as int, hi as int).skip((hi - lo) - p.len()) =~= p@);
    true
}

/// Whether `v[lo..hi]` is exactly `p`.
pub fn range_equals(v: &Vec<char>, lo: usize, hi: usize, p: &Vec<char>) -> (res: bool)
    requires
        lo <= hi <= v.len(),
    ensures
        res == (v@.subrange(lo as int, hi as int) == p@),
{
    if hi - lo != p.len() {
        return false;
    }
    let r = range_starts_with(v, lo, hi, p);
    assert(v@.subrange(lo as int, hi as int).take(p.len() as int) =~= v@.subrange(
        lo as int,
        hi as int,
    ));
    r
}

/// The bounds of the lines of `v`, in order, as `str::lines` yields them.
pub fn line_bounds(v: &Vec<char>) -> (res: Vec<(usize, usize)>)
    ensures
        res@.len() == lines(v@).len(),
        forall|t: int|
            0 <= t < res@.len() ==> {
                &&& (#[trigger] res@[t]).0 <= res@[t].1 <= v@.len()
                &&& v@.subrange(res@[t].0 as int, res@[t].1 as int) == lines(v@)[t]
            },
{
    let n = v.len();
    let mut res: Vec<(usize, usize)> = Vec::new();
    let ghost mut done: Seq<Seq<char>> = seq![];
    let mut i: usize = 0;
    while i < n
        invariant
            n == v.len(),
            i <= n,
            lines(v@) == done + lines_from(v@, i as nat),
            res@.len() == done.len(),
            forall|t: int|
                0 <= t < res@.len() ==> {
                    &&& (#[trigger] res@[t]).0 <= res@[t].1 <= v@.len()
                    &&& v@.subrange(res@[t].0 as int, res@[t].1 as int) == done[t]
                },
        decreases n - i,
    {
        let mut e = i;
        while e < n && v[e] != '\n'
            invariant
                i <= e <= n,
                n == v.len(),
                line_end(v@, i as nat) == line_end(v@, e as nat),
            decreases n - e,
        {
            e = e + 1;
        }
        let le = if e < n && e > i && v[e - 1] == '\r' {
            e - 1
        } else {
            e
        };
        let next = if e < n {
            e + 1
        } else {
            n
        };
        let ghost raw = v@.subrange(i as int, le as int);
        proof {
            assert(line_at(v@, i as nat) == raw);
            assert(lines_from(v@, i as nat) == seq![raw] + lines_from(v@, next as nat));
            assert(done + lines_from(v@, i as nat) =~= done.push(raw) + lines_from(
                v@,
                next as nat,
            ));
            done = done.push(raw);
        }
        res.push((i, le));
        i = next;
    }
    proof {
        assert(lines_from(v@, i as nat) =~= seq![]);
        assert(done + seq![] =~= done);
    }
    res
}

proof fn lemma_line_end_shift(a: Seq<char>, b: Seq<char>, j: nat)
    requires
        j <= b.len(),
    ensures
        line_end(a + b, a.len() + j) == a.len() + line_end(b, j),
    decreases b.len() - j,
{
    if j < b.len() {
        assert((a + b)[a.len() + j as int] == b[j as int]);
        if b[j as int] != '\n' {
            lemma_line_end_shift(a, b, j + 1);
        }
    }
}

/// The lines of `a + b` from inside `b` are the lines of `b` from there.
pub proof fn lemma_lines_shift(a: Seq<char>, b: Seq<char>, j: nat)
    requires
        j <= b.len(),
    ensures
        lines_from(a + b, a.len() + j) == lines_from(b, j),
    decreases b.len() - j,
{
    let s = a + b;
    let i = a.len() + j;
    if j < b.len() {
        lemma_line_end_shift(a, b, j);
        lemma_line_end(b, j);
        lemma_line_end(s, i);
        let e = line_end(b, j);
        let es = line_end(s, i);
        assert(es == a.len() + e);
        if e > j {
            assert(s[es - 1] == b[e - 1]);
        }
        assert(s.subrange(i as int, es as int) =~= b.subrange(j as int, e as int));
        if e > j {
            assert(s.subrange(i as int, es - 1) =~= b.subrange(j as int, e - 1));
        }
        assert(line_at(s, i) == line_at(b, j));
        if e < b.len() {
            lemma_lines_shift(a, b, e + 1);
            assert(a.len() + (e + 1) == es + 1);
        }
    }
}

proof fn lemma_line_end_prefix(a: Seq<char>, b: Seq<char>, i: nat)
    requires
        i < a.len(),
        a.last() == '\n',
    ensures
        line_end(a + b, i) == line_end(a, i),
        line_end(a, i) < a.len(),
    decreases a.len() - i,
{
    assert((a + b)[i as int] == a[i as int]);
    if a[i as int] != '\n' {
        lemma_line_end_prefix(a, b, i + 1);
    }
}

proof fn lemma_lines_concat_from(a: Seq<char>, b: Seq<char>, i: nat)
    requires
        i <= a.len(),
        a.len() == 0 || a.last() == '\n',
    ensures
        lines_from(a + b, i) == lines_from(a, i) + lines(b),
    decreases a.len() - i,
{
    if i == a.len() {
        lemma_lines_shift(a, b, 0);
        assert(lines_from(a, i) + lines(b) =~= lines(b));
    } else {
        let s = a + b;
        lemma_line_end_prefix(a, b, i);
        lemma_line_end(a, i);
        let e = line_end(a, i);
        if e > i {
            assert(s[e - 1] == a[e - 1]);
            assert(s.subrange(i as int, e - 1) =~= a.subrange(i as int, e - 1));
        }
        assert(s.subrange(i as int, e as int) =~= a.subrange(i as int, e as int));
        assert(line_at(s, i) == line_at(a, i));
        lemma_lines_concat_from(a, b, e + 1);
        assert(seq![line_at(a, i)] + (lines_from(a, e + 1) + lines(b)) =~= (seq![line_at(a, i)]
            + lines_from(a, e + 1)) + lines(b));
    }
}

/// Text that ends a line (or is empty), followed by more text: its lines come first,
/// then those of the rest.
pub proof fn lemma_lines_concat(a: Seq<char>, b: Seq<char>)
    requires
        a.len() == 0 || a.last() == '\n',
    ensures
        lines(a + b) == lines(a) + lines(b),
{
    lemma_lines_concat_from(a, b, 0);
}

proof fn lemma_line_end_at(s: Seq<char>, j: nat, n: nat)
    requires
        j <= n < s.len(),
        s[n as int] == '\n',
        forall|k: int| j <= k < n ==> s[k] != '\n',
    ensures
        line_end(s, j) == n,
    decreases n - j,
{
    if j < n {
        lemma_line_end_at(s, j + 1, n);
    }
}

/// A line `w` without a line break, then `'\n'`, then `c`: `w` (without a `'\r'` at its
/// end) is one line, and the lines of `c` follow.
pub proof fn lemma_lines_after_line(w: Seq<char>, c: Seq<char>)
    requires
        forall|k: int| 0 <= k < w.len() ==> w[k] != '\n',
    ensures
        lines(w + seq!['\n'] + c) == seq![line_at(w + seq!['\n'] + c, 0)] + lines(c),
        line_at(w + seq!['\n'] + c, 0) == (if w.len() > 0 && w.last() == '\r' {
            w.drop_last()
        } else {
            w
        }),
{
    let p = w + seq!['\n'];
    let b = w + seq!['\n'] + c;
    assert(b =~= p + c);
    assert forall|k: int| 0 <= k < w.len() implies b[k] != '\n' by {
        assert(b[k] == w[k]);
    }
    assert(b[w.len() as int] == '\n');
    lemma_line_end_at(b, 0, w.len());
    lemma_lines_shift(p, c, 0);
    assert(b.subrange(0, w.len() as int) =~= w);
    if w.len() > 0 {
        assert(b[w.len() - 1] == w.last());
        assert(b.subrange(0, w.len() - 1) =~= w.drop_last());
    }
}

} // verus!
