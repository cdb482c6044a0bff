//! Character sequences: the text model that the rest of the crate is stated over.

use vstd::prelude::*;
use vstd::std_specs::iter::IteratorSpec;

verus! {

broadcast use vstd::string::group_string_axioms;

/// `String::push` appends one character to the end of the string.
pub assume_specification[ String::push ](s: &mut String, ch: char)
    ensures
        final(s)@ == old(s)@.push(ch),
;

/// The characters of `s`, in order.
pub fn chars_of(s: &str) -> (v: Vec<char>)
    ensures
        v@ == s@,
{
    let mut it = s.chars();
    let mut v: Vec<char> = Vec::new();
    loop
        invariant
            it.obeys_prophetic_iter_laws(),
            it.decrease() is Some,
            v@ + it.remaining() == s@,
        ensures
            v@ == s@,
        decreases it.decrease()->0,
    {
        match it.next() {
            Some(c) => {
                v.push(c);
            },
            None => {
                break ;
            },
        }
    }
    v
}

/// The string made of the characters `v`.
pub fn string_of(v: &Vec<char>) -> (s: String)
    ensures
        s@ == v@,
{
    let mut s = String::new();
    let mut i: usize = 0;
    while i < v.len()
        invariant
            i <= v.len(),
            s@ == v@.subrange(0, i as int),
        decreases v.len() - i,
    {
        s.push(v[i]);
        i += 1;
    }
    s
}

/// The Unicode code points with the property `White_Space`.
pub open spec fn is_whitespace(c: char) -> bool {
    let u = c as u32;
    ||| 0x09 <= u <= 0x0d
    ||| u == 0x20
    ||| u == 0x85
    ||| u == 0xa0
    ||| u == 0x1680
    ||| 0x2000 <= u <= 0x200a
    ||| u == 0x2028
    ||| u == 0x2029
    ||| u == 0x202f
    ||| u == 0x205f
    ||| u == 0x3000
}

/// Whether `c` is white space.
pub fn char_is_whitespace(c: char) -> (r: bool)
    ensures
        r == is_whitespace(c),
{
    let u: u32 = c as u32;
    (0x09 <= u && u <= 0x0d) || u == 0x20 || u == 0x85 || u == 0xa0 || u == 0x1680 || (0x2000 <= u
        && u <= 0x200a) || u == 0x2028 || u == 0x2029 || u == 0x202f || u == 0x205f || u == 0x3000
}

/// A set of characters that a scan can run over.
#[derive(Clone, Copy, Debug)]
pub enum CharClass {
    /// White space.
    Space,
    /// Everything but white space.
    NonSpace,
    /// The one character given.
    Only(char),
    /// Every character but the one given.
    Except(char),
}

impl CharClass {
    /// Whether `c` belongs to the class.
    pub open spec fn has(self, c: char) -> bool {
        match self {
            CharClass::Space => is_whitespace(c),
            CharClass::NonSpace => !is_whitespace(c),
            CharClass::Only(d) => c == d,
            CharClass::Except(d) => c != d,
        }
    }

    /// Whether `c` belongs to the class.
    pub fn holds(&self, c: char) -> (r: bool)
        ensures
            r == self.has(c),
    {
        match self {
            CharClass::Space => char_is_whitespace(c),
            CharClass::NonSpace => !char_is_whitespace(c),
            CharClass::Only(d) => c == *d,
            CharClass::Except(d) => c != *d,
        }
    }
}

/// The length of the longest prefix of `s` whose characters all belong to `class`.
pub open spec fn run_front(s: Seq<char>, class: CharClass) -> int
    decreases s.len(),
{
    if s.len() > 0 && class.has(s[0]) {
        1 + run_front(s.drop_first(), class)
    } else {
        0
    }
}

/// The length of the longest suffix of `s` whose characters all belong to `class`.
pub open spec fn run_back(s: Seq<char>, class: CharClass) -> int
    decreases s.len(),
{
    if s.len() > 0 && class.has(s.last()) {
        1 + run_back(s.drop_last(), class)
    } else {
        0
    }
}

/// A prefix of `n` characters of the class that cannot be made longer is the front run.
proof fn lemma_run_front(s: Seq<char>, class: CharClass, n: int)
    requires
        0 <= n <= s.len(),
        forall|k: int| 0 <= k < n ==> class.has(#[trigger] s[k]),
        n == s.len() || !class.has(s[n]),
    ensures
        run_front(s, class) == n,
    decreases n,
{
    if n > 0 {
        let t = s.drop_first();
        assert forall|k: int| 0 <= k < n - 1 implies class.has(#[trigger] t[k]) by {
            assert(t[k] == s[k + 1]);
        }
        if n - 1 < t.len() {
            assert(t[n - 1] == s[n]);
        }
        lemma_run_front(t, class, n - 1);
    }
}

/// A suffix of `n` characters of the class that cannot be made longer is the back run.
proof fn lemma_run_back(s: Seq<char>, class: CharClass, n: int)
    requires
        0 <= n <= s.len(),
        forall|k: int| s.len() - n <= k < s.len() ==> class.has(#[trigger] s[k]),
        n == s.len() || !class.has(s[s.len() - n - 1]),
    ensures
        run_back(s, class) == n,
    decreases n,
{
    if n > 0 {
        let t = s.drop_last();
        assert forall|k: int| t.len() - (n - 1) <= k < t.len() implies class.has(
            #[trigger] t[k],
        ) by {
            assert(t[k] == s[k]);
        }
        if n - 1 < t.len() {
            assert(t[t.len() - (n - 1) - 1] == s[s.len() - n - 1]);
        }
        lemma_run_back(t, class, n - 1);
    }
}

/// The front run lies within the sequence, holds only characters of the class, and
/// stops at a character outside it.
proof fn lemma_run_front_bounds(s: Seq<char>, class: CharClass)
    ensures
        0 <= run_front(s, class) <= s.len(),
        forall|k: int| 0 <= k < run_front(s, class) ==> class.has(#[trigger] s[k]),
        run_front(s, class) < s.len() ==> !class.has(s[run_front(s, class)]),
    decreases s.len(),
{
    if s.len() > 0 && class.has(s[0]) {
        let t = s.drop_first();
        lemma_run_front_bounds(t, class);
        assert forall|k: int| 0 <= k < run_front(s, class) implies class.has(#[trigger] s[k]) by {
            if k > 0 {
                assert(s[k] == t[k - 1]);
            }
        }
        if run_front(s, class) < s.len() {
            assert(s[run_front(s, class)] == t[run_front(t, class)]);
        }
    }
}

/// The back run lies within the sequence, holds only characters of the class, and
/// stops at a character outside it.
proof fn lemma_run_back_bounds(s: Seq<char>, class: CharClass)
    ensures
        0 <= run_back(s, class) <= s.len(),
        forall|k: int| s.len() - run_back(s, class) <= k < s.len() ==> class.has(#[trigger] s[k]),
        run_back(s, class) < s.len() ==> !class.has(s[s.len() - run_back(s, class) - 1]),
    decreases s.len(),
{
    if s.len() > 0 && class.has(s.last()) {
        let t = s.drop_last();
        lemma_run_back_bounds(t, class);
        assert forall|k: int| s.len() - run_back(s, class) <= k < s.len() implies class.has(
            #[trigger] s[k],
        ) by {
            if k < s.len() - 1 {
                assert(s[k] == t[k]);
            }
        }
        if run_back(s, class) < s.len() {
            assert(s[s.len() - run_back(s, class) - 1] == t[t.len() - run_back(t, class) - 1]);
        }
    }
}

/// `s` without its longest prefix and its longest suffix of characters of `class`.
pub open spec fn trim_class(s: Seq<char>, class: CharClass) -> Seq<char> {
    let rest = s.skip(run_front(s, class));
    rest.take(rest.len() - run_back(rest, class))
}

/// `s` without leading and trailing white space.
pub open spec fn trim(s: Seq<char>) -> Seq<char> {
    trim_class(s, CharClass::Space)
}

/// What trimming leaves is one stretch of `s`: it neither begins nor ends with a
/// character of the class, and all that stands before and after it in `s` belongs
/// to the class.
pub proof fn law_trim_shape(s: Seq<char>, class: CharClass)
    ensures
        ({
            let from = run_front(s, class);
            let kept = trim_class(s, class);
            &&& 0 <= from <= from + kept.len() <= s.len()
            &&& kept == s.subrange(from, from + kept.len())
            &&& forall|k: int| 0 <= k < from ==> class.has(#[trigger] s[k])
            &&& forall|k: int| from + kept.len() <= k < s.len() ==> class.has(#[trigger] s[k])
            &&& kept.len() > 0 ==> !class.has(kept[0]) && !class.has(kept.last())
        }),
{
    let from = run_front(s, class);
    lemma_run_front_bounds(s, class);
    let rest = s.skip(from);
    lemma_run_back_bounds(rest, class);
    let kept = trim_class(s, class);
    assert(kept =~= s.subrange(from, from + kept.len()));
    assert forall|k: int| from + kept.len() <= k < s.len() implies class.has(#[trigger] s[k]) by {
        assert(s[k] == rest[k - from]);
    }
    if kept.len() > 0 {
        assert(kept[0] == s[from]);
        assert(kept.last() == rest[rest.len() - run_back(rest, class) - 1]);
    }
}

/// The characters of `v` from index `from` up to, not including, index `to`.
pub fn slice_chars(v: &Vec<char>, from: usize, to: usize) -> (r: Vec<char>)
    requires
        from <= to <= v.len(),
    ensures
        r@ == v@.subrange(from as int, to as int),
{
    let mut r: Vec<char> = Vec::new();
    let mut i: usize = from;
    while i < to
        invariant
            from <= i <= to <= v.len(),
            r@ == v@.subrange(from as int, i as int),
        decreases to - i,
    {
        r.push(v[i]);
        i += 1;
    }
    r
}

/// The index at which the run of `class` that starts at `from` ends.
pub fn scan_front(v: &Vec<char>, from: usize, class: CharClass) -> (r: usize)
    requires
        from <= v.len(),
    ensures
        from <= r <= v.len(),
        r - from == run_front(v@.skip(from as int), class),
{
    let mut i: usize = from;
    while i < v.len() && class.holds(v[i])
        invariant
            from <= i <= v.len(),
            forall|k: int| from <= k < i ==> class.has(#[trigger] v@[k]),
        decreases v.len() - i,
    {
        i += 1;
    }
    proof {
        lemma_run_front(v@.skip(from as int), class, i - from);
    }
    i
}

/// The index at which the run of `class` that ends at `to` begins, searching no
/// further back than `from`.
pub fn scan_back(v: &Vec<char>, from: usize, to: usize, class: CharClass) -> (r: usize)
    requires
        from <= to <= v.len(),
    ensures
        from <= r <= to,
        to - r == run_back(v@.subrange(from as int, to as int), class),
{
    let mut i: usize = to;
    while i > from && class.holds(v[i - 1])
        invariant
            from <= i <= to <= v.len(),
            forall|k: int| i <= k < to ==> class.has(#[trigger] v@[k]),
        decreases i,
    {
        i -= 1;
    }
    proof {
        lemma_run_back(v@.subrange(from as int, to as int), class, to - i);
    }
    i
}

/// Removes from both ends of `v` every character of `class`.
pub fn trim_chars(v: &Vec<char>, class: CharClass) -> (r: Vec<char>)
    ensures
        r@ == trim_class(v@, class),
{
    let a = scan_front(v, 0, class);
    let b = scan_back(v, a, v.len(), class);
    proof {
        assert(v@.skip(0) == v@);
        assert(v@.skip(a as int) == v@.subrange(a as int, v@.len() as int));
    }
    slice_chars(v, a, b)
}

/// Whether the two vectors hold the same characters.
pub fn same_chars(a: &Vec<char>, b: &Vec<char>) -> (r: bool)
    ensures
        r == (a@ == b@),
{
    if a.len() != b.len() {
        return false;
    }
    let mut i: usize = 0;
    while i < a.len()
        invariant
            a.len() == b.len(),
            i <= a.len(),
            forall|k: int| 0 <= k < i ==> a@[k] == b@[k],
        decreases a.len() - i,
    {
        if a[i] != b[i] {
            return false;
        }
        i += 1;
    }
    assert(a@ =~= b@);
    true
}

/// Whether `v` spells `word`.
pub fn spells(v: &Vec<char>, word: &str) -> (r: bool)
    ensures
        r == (v@ == word@),
{
    let w = chars_of(word);
    same_chars(v, &w)
}


/// The index of the first `ch` in `s`, or the length of `s` where it holds none.
pub open spec fn index_of(s: Seq<char>, ch: char) -> int {
    run_front(s, CharClass::Except(ch))
}

/// `s` cut at its first `ch`: what stands before it and what stands after it.
pub open spec fn split_once(s: Seq<char>, ch: char) -> Option<(Seq<char>, Seq<char>)> {
    let i = index_of(s, ch);
    if i < s.len() {
        Some((s.take(i), s.skip(i + 1)))
    } else {
        None
    }
}

/// Cuts `v` at its first `ch`.
pub fn split_once_chars(v: &Vec<char>, ch: char) -> (r: Option<(Vec<char>, Vec<char>)>)
    ensures
        match split_once(v@, ch) {
            Some((head, tail)) => r matches Some((a, b)) && a@ == head && b@ == tail,
            None => r is None,
        },
{
    let i = scan_front(v, 0, CharClass::Except(ch));
    proof {
        assert(v@.skip(0) == v@);
    }
    if i < v.len() {
        let a = slice_chars(v, 0, i);
        let b = slice_chars(v, i + 1, v.len());
        Some((a, b))
    } else {
        None
    }
}

/// The pieces of `s` between its occurrences of `ch`; there is always at least one.
pub open spec fn split_on(s: Seq<char>, ch: char) -> Seq<Seq<char>>
    decreases s.len(),
{
    let i = index_of(s, ch);
    if 0 <= i < s.len() {
        seq![s.take(i)] + split_on(s.skip(i + 1), ch)
    } else {
        seq![s]
    }
}

/// The pieces in a row, with `ch` between each two.
pub open spec fn joined(pieces: Seq<Seq<char>>, ch: char) -> Seq<char>
    decreases pieces.len(),
{
    if pieces.len() == 0 {
        Seq::empty()
    } else if pieces.len() == 1 {
        pieces[0]
    } else {
        pieces[0] + seq![ch] + joined(pieces.drop_first(), ch)
    }
}

/// Cutting at `ch` gives at least one piece, none of which holds `ch`, and the
/// pieces with `ch` between them are the whole again.
pub proof fn law_split_round_trip(s: Seq<char>, ch: char)
    ensures
        split_on(s, ch).len() >= 1,
        forall|i: int, k: int|
            0 <= i < split_on(s, ch).len() && 0 <= k < split_on(s, ch)[i].len() ==> (
            #[trigger] split_on(s, ch)[i][k]) != ch,
        joined(split_on(s, ch), ch) == s,
    decreases s.len(),
{
    let i = index_of(s, ch);
    lemma_run_front_bounds(s, CharClass::Except(ch));
    if 0 <= i < s.len() {
        let rest = s.skip(i + 1);
        law_split_round_trip(rest, ch);
        let pieces = split_on(s, ch);
        let tail = split_on(rest, ch);
        assert(pieces =~= seq![s.take(i)] + tail);
        assert(pieces.drop_first() =~= tail);
        assert(joined(pieces, ch) == s.take(i) + seq![ch] + joined(tail, ch));
        assert(s.take(i) + seq![ch] + rest =~= s);
        assert forall|p: int, k: int|
            0 <= p < pieces.len() && 0 <= k < pieces[p].len() implies (#[trigger] pieces[p][k])
            != ch by {
            if p == 0 {
                assert(pieces[0][k] == s[k]);
            } else {
                assert(pieces[p] == tail[p - 1]);
            }
        }
    } else {
        assert(split_on(s, ch) =~= seq![s]);
    }
}

/// The view of a list of character vectors: the list of their views.
pub open spec fn views(v: Seq<Vec<char>>) -> Seq<Seq<char>> {
    v.map_values(|x: Vec<char>| x@)
}

/// The view of a list of strings: the list of their views.
pub open spec fn string_views(v: Seq<String>) -> Seq<Seq<char>> {
    v.map_values(|x: String| x@)
}

/// Cuts `v` at every `ch`.
pub fn split_chars(v: &Vec<char>, ch: char) -> (r: Vec<Vec<char>>)
    ensures
        views(r@) == split_on(v@, ch),
{
    let mut out: Vec<Vec<char>> = Vec::new();
    let mut pos: usize = 0;
    proof {
        assert(v@.skip(0) == v@);
        assert(views(out@) + split_on(v@.skip(0), ch) =~= split_on(v@, ch));
    }
    loop
        invariant_except_break
            pos <= v.len(),
            views(out@) + split_on(v@.skip(pos as int), ch) == split_on(v@, ch),
        ensures
            views(out@) == split_on(v@, ch),
        decreases v.len() - pos,
    {
        let i = scan_front(v, pos, CharClass::Except(ch));
        let piece = slice_chars(v, pos, i);
        let ghost rest = v@.skip(pos as int);
        let ghost before = views(out@);
        proof {
            assert(rest.take(i - pos) == piece@);
        }
        out.push(piece);
        proof {
            assert(views(out@) =~= before.push(piece@));
        }
        if i < v.len() {
            proof {
                assert(rest.skip(i - pos + 1) == v@.skip(i + 1));
                assert(before.push(piece@) + split_on(v@.skip(i + 1), ch) =~= before + split_on(
                    rest,
                    ch,
                ));
            }
            pos = i + 1;
        } else {
            proof {
                assert(split_on(rest, ch) == seq![rest]);
                assert(piece@ == rest);
                assert(before.push(piece@) =~= before + seq![rest]);
            }
            break ;
        }
    }
    out
}

/// `s` without one carriage return at its end, where it has one.
pub open spec fn strip_cr(s: Seq<char>) -> Seq<char> {
    if s.len() > 0 && s.last() == '\r' {
        s.drop_last()
    } else {
        s
    }
}

/// The lines of `s`. A line ends at a line feed, or at a carriage return directly
/// before one; neither belongs to the line. What follows the last line feed is a
/// line only where it is not empty.
pub open spec fn lines_of(s: Seq<char>) -> Seq<Seq<char>>
    decreases s.len(),
{
    if s.len() == 0 {
        Seq::empty()
    } else {
        let i = index_of(s, '\n');
        if 0 <= i < s.len() {
            seq![strip_cr(s.take(i))] + lines_of(s.skip(i + 1))
        } else {
            seq![s]
        }
    }
}

/// How often `ch` stands in `s`.
pub open spec fn count_of(s: Seq<char>, ch: char) -> nat
    decreases s.len(),
{
    if s.len() == 0 {
        0
    } else if s.last() == ch {
        count_of(s.drop_last(), ch) + 1
    } else {
        count_of(s.drop_last(), ch)
    }
}

/// Occurrences in two sequences add up in the two put together.
proof fn lemma_count_concat(a: Seq<char>, b: Seq<char>, ch: char)
    ensures
        count_of(a + b, ch) == count_of(a, ch) + count_of(b, ch),
    decreases b.len(),
{
    if b.len() == 0 {
        assert(a + b =~= a);
    } else {
        assert((a + b).drop_last() =~= a + b.drop_last());
        assert((a + b).last() == b.last());
        lemma_count_concat(a, b.drop_last(), ch);
    }
}

/// A sequence without `ch` holds it zero times.
proof fn lemma_count_absent(a: Seq<char>, ch: char)
    requires
        forall|k: int| 0 <= k < a.len() ==> #[trigger] a[k] != ch,
    ensures
        count_of(a, ch) == 0,
    decreases a.len(),
{
    if a.len() > 0 {
        assert(a.last() == a[a.len() - 1]);
        assert forall|k: int| 0 <= k < a.drop_last().len() implies #[trigger] a.drop_last()[k]
            != ch by {
            assert(a.drop_last()[k] == a[k]);
        }
        lemma_count_absent(a.drop_last(), ch);
    }
}

/// A text has as many lines as it has line feeds, and one more where it does not
/// end with one and is not empty; and no line holds a line feed.
pub proof fn law_line_count(s: Seq<char>)
    ensures
        lines_of(s).len() == count_of(s, '\n') + (if s.len() > 0 && s.last() != '\n' {
            1nat
        } else {
            0nat
        }),
        forall|i: int, k: int|
            0 <= i < lines_of(s).len() && 0 <= k < lines_of(s)[i].len() ==> (
            #[trigger] lines_of(s)[i][k]) != '\n',
    decreases s.len(),
{
    if s.len() > 0 {
        let i = index_of(s, '\n');
        lemma_run_front_bounds(s, CharClass::Except('\n'));
        let all = lines_of(s);
        if 0 <= i < s.len() {
            let head = s.take(i);
            let rest = s.skip(i + 1);
            law_line_count(rest);
            let tail = lines_of(rest);
            assert(all =~= seq![strip_cr(head)] + tail);
            assert(s =~= (head + seq!['\n']) + rest);
            lemma_count_concat(head + seq!['\n'], rest, '\n');
            lemma_count_concat(head, seq!['\n'], '\n');
            assert forall|k: int| 0 <= k < head.len() implies #[trigger] head[k] != '\n' by {
                assert(head[k] == s[k]);
            }
            lemma_count_absent(head, '\n');
            assert(seq!['\n'].drop_last() =~= Seq::<char>::empty());
            assert(count_of(seq!['\n'], '\n') == 1) by {
                assert(count_of(seq!['\n'].drop_last(), '\n') == 0);
            }
            if rest.len() > 0 {
                assert(s.last() == rest.last());
            }
            assert forall|p: int, k: int|
                0 <= p < all.len() && 0 <= k < all[p].len() implies (#[trigger] all[p][k])
                != '\n' by {
                if p == 0 {
                    assert(all[0][k] == head[k]);
                } else {
                    assert(all[p] == tail[p - 1]);
                }
            }
        } else {
            assert(all =~= seq![s]);
            lemma_count_absent(s, '\n');
            assert(s.last() == s[s.len() - 1]);
        }
    }
}

/// The lines of `v`.
pub fn lines(v: &Vec<char>) -> (r: Vec<Vec<char>>)
    ensures
        views(r@) == lines_of(v@),
{
    let mut out: Vec<Vec<char>> = Vec::new();
    let mut pos: usize = 0;
    proof {
        assert(v@.skip(0) == v@);
        assert(views(out@) + lines_of(v@.skip(0)) =~= lines_of(v@));
    }
    while pos < v.len()
        invariant
            pos <= v.len(),
            views(out@) + lines_of(v@.skip(pos as int)) == lines_of(v@),
        decreases v.len() - pos,
    {
        let i = scan_front(v, pos, CharClass::Except('\n'));
        let ghost rest = v@.skip(pos as int);
        let ghost before = views(out@);
        if i < v.len() {
            let end = if i > pos && v[i - 1] == '\r' {
                i - 1
            } else {
                i
            };
            let piece = slice_chars(v, pos, end);
            proof {
                assert(rest.take(i - pos) == v@.subrange(pos as int, i as int));
                assert(strip_cr(rest.take(i - pos)) == piece@);
            }
            out.push(piece);
            proof {
                assert(views(out@) =~= before.push(piece@));
                assert(rest.skip(i - pos + 1) == v@.skip(i + 1));
                assert(before.push(piece@) + lines_of(v@.skip(i + 1)) =~= before + lines_of(rest));
            }
            pos = i + 1;
        } else {
            let piece = slice_chars(v, pos, i);
            out.push(piece);
            proof {
                assert(piece@ == rest);
                assert(views(out@) =~= before.push(piece@));
                assert(lines_of(v@.skip(i as int)) =~= Seq::<Seq<char>>::empty());
                assert(before.push(piece@) + lines_of(v@.skip(i as int)) =~= before + lines_of(
                    rest,
                ));
            }
            pos = i;
        }
    }
    proof {
        assert(lines_of(v@.skip(pos as int)) =~= Seq::<Seq<char>>::empty());
        assert(views(out@) + Seq::<Seq<char>>::empty() =~= views(out@));
    }
    out
}

/// The first run of characters of `s` that are not white space; empty where `s`
/// holds none.
pub open spec fn first_token(s: Seq<char>) -> Seq<char> {
    let rest = s.skip(run_front(s, CharClass::Space));
    rest.take(run_front(rest, CharClass::NonSpace))
}

/// The first token holds no white space, stands in `s` after white space only, and
/// is empty exactly where `s` holds nothing but white space.
pub proof fn law_first_token_shape(s: Seq<char>)
    ensures
        ({
            let from = run_front(s, CharClass::Space);
            let token = first_token(s);
            &&& 0 <= from <= from + token.len() <= s.len()
            &&& token == s.subrange(from, from + token.len())
            &&& forall|k: int| 0 <= k < from ==> is_whitespace(#[trigger] s[k])
            &&& forall|k: int| 0 <= k < token.len() ==> !is_whitespace(#[trigger] token[k])
            &&& from + token.len() < s.len() ==> is_whitespace(s[from + token.len()])
            &&& token.len() == 0 <==> from == s.len()
        }),
{
    let from = run_front(s, CharClass::Space);
    lemma_run_front_bounds(s, CharClass::Space);
    let rest = s.skip(from);
    lemma_run_front_bounds(rest, CharClass::NonSpace);
    let token = first_token(s);
    assert(token =~= s.subrange(from, from + token.len()));
    assert forall|k: int| 0 <= k < token.len() implies !is_whitespace(#[trigger] token[k]) by {
        assert(token[k] == rest[k]);
    }
    if from + token.len() < s.len() {
        assert(s[from + token.len()] == rest[token.len() as int]);
    }
    if from < s.len() {
        assert(rest[0] == s[from]);
    }
}

/// The first white-space-delimited token of `v`.
pub fn first_token_chars(v: &Vec<char>) -> (r: Vec<char>)
    ensures
        r@ == first_token(v@),
{
    let a = scan_front(v, 0, CharClass::Space);
    let b = scan_front(v, a, CharClass::NonSpace);
    proof {
        assert(v@.skip(0) == v@);
        assert(v@.skip(a as int).take(b - a) == v@.subrange(a as int, b as int));
    }
    slice_chars(v, a, b)
}

/// Whether `needle` stands in `hay` at index `at`.
pub open spec fn occurs_at(hay: Seq<char>, needle: Seq<char>, at: int) -> bool {
    0 <= at && at + needle.len() <= hay.len() && hay.subrange(at, at + needle.len()) == needle
}

/// Whether `needle` stands somewhere in `hay`. The empty sequence stands in every one.
pub open spec fn contains(hay: Seq<char>, needle: Seq<char>) -> bool {
    exists|at: int| occurs_at(hay, needle, at)
}

/// Whether `needle` stands in `hay` at index `at`.
pub fn matches_at(hay: &Vec<char>, needle: &Vec<char>, at: usize) -> (r: bool)
    requires
        at + needle.len() <= hay.len(),
    ensures
        r == occurs_at(hay@, needle@, at as int),
{
    let mut j: usize = 0;
    while j < needle.len()
        invariant
            j <= needle.len(),
            at + needle.len() <= hay.len(),
            forall|k: int| 0 <= k < j ==> hay@[at + k] == needle@[k],
        decreases needle.len() - j,
    {
        if hay[at + j] != needle[j] {
            proof {
                assert(hay@.subrange(at as int, at + needle@.len())[j as int] == hay@[at + j]);
            }
            return false;
        }
        j += 1;
    }
    proof {
        assert(hay@.subrange(at as int, at + needle@.len()) =~= needle@);
    }
    true
}

/// Whether `needle` stands somewhere in `hay`.
pub fn contains_chars(hay: &Vec<char>, needle: &Vec<char>) -> (r: bool)
    ensures
        r == contains(hay@, needle@),
{
    if needle.len() > hay.len() {
        return false;
    }
    let last: usize = hay.len() - needle.len();
    let mut at: usize = 0;
    loop
        invariant_except_break
            last == hay.len() - needle.len(),
            at <= last,
            forall|k: int| 0 <= k < at ==> !occurs_at(hay@, needle@, k),
        ensures
            forall|k: int| 0 <= k <= last ==> !occurs_at(hay@, needle@, k),
        decreases last - at,
    {
        if matches_at(hay, needle, at) {
            return true;
        }
        if at == last {
            break ;
        }
        at += 1;
    }
    false
}


/// Whether `c` is one of the ten decimal digits.
pub open spec fn is_digit(c: char) -> bool {
    48 <= c as u32 <= 57
}

/// The number that the digit `c` stands for; 0 for any other character.
pub open spec fn digit_value(c: char) -> nat {
    if is_digit(c) {
        (c as u32 - 48) as nat
    } else {
        0
    }
}

/// Whether every character of `s` is a decimal digit.
pub open spec fn all_digits(s: Seq<char>) -> bool {
    forall|i: int| 0 <= i < s.len() ==> is_digit(#[trigger] s[i])
}

/// The number that the digits `s` write in base ten.
pub open spec fn digits_value(s: Seq<char>) -> nat
    decreases s.len(),
{
    if s.len() == 0 {
        0
    } else {
        digits_value(s.drop_last()) * 10 + digit_value(s.last())
    }
}

/// The number that `s` writes in base ten: digits, at least one, after an optional
/// `+` and, where `signed`, in its place an optional `-`.
pub open spec fn parse_decimal(s: Seq<char>, signed: bool) -> Option<int> {
    let negative = signed && s.len() > 0 && s[0] == '-';
    let digits = if s.len() > 0 && (s[0] == '+' || negative) {
        s.skip(1)
    } else {
        s
    };
    if digits.len() > 0 && all_digits(digits) {
        Some(
            if negative {
                -(digits_value(digits) as int)
            } else {
                digits_value(digits) as int
            },
        )
    } else {
        None
    }
}

/// The unsigned 32-bit number that `s` writes, where it writes one.
pub open spec fn parse_u32(s: Seq<char>) -> Option<u32> {
    match parse_decimal(s, false) {
        Some(n) => if n <= u32::MAX {
            Some(n as u32)
        } else {
            None
        },
        None => None,
    }
}

/// The signed 32-bit number that `s` writes, where it writes one.
pub open spec fn parse_i32(s: Seq<char>) -> Option<i32> {
    match parse_decimal(s, true) {
        Some(n) => if i32::MIN <= n <= i32::MAX {
            Some(n as i32)
        } else {
            None
        },
        None => None,
    }
}

/// A prefix of a digit string writes a number no greater than the whole.
proof fn lemma_digits_prefix(s: Seq<char>, k: int)
    requires
        0 <= k <= s.len(),
    ensures
        digits_value(s.take(k)) <= digits_value(s),
    decreases s.len(),
{
    if k == s.len() {
        assert(s.take(k) == s);
    } else {
        assert(s.drop_last().take(k) == s.take(k));
        lemma_digits_prefix(s.drop_last(), k);
    }
}

/// The number written by the digits of `v` from index `from` on, where there is at
/// least one character there, all are digits and the number is at most `limit`.
pub fn parse_magnitude(v: &Vec<char>, from: usize, limit: u64) -> (r: Option<u64>)
    requires
        from <= v.len(),
        limit <= 0xffff_ffff_ffff,
    ensures
        r == if v@.skip(from as int).len() > 0 && all_digits(v@.skip(from as int)) && digits_value(
            v@.skip(from as int),
        ) <= limit {
            Some(digits_value(v@.skip(from as int)) as u64)
        } else {
            None
        },
{
    let ghost digits = v@.skip(from as int);
    if from == v.len() {
        return None;
    }
    let mut acc: u64 = 0;
    let mut i: usize = from;
    proof {
        assert(digits.take(0) =~= Seq::<char>::empty());
    }
    while i < v.len()
        invariant
            from <= i <= v.len(),
            digits == v@.skip(from as int),
            limit <= 0xffff_ffff_ffff,
            acc <= limit,
            acc == digits_value(digits.take(i - from)),
            forall|k: int| 0 <= k < i - from ==> is_digit(#[trigger] digits[k]),
        decreases v.len() - i,
    {
        let u: u32 = v[i] as u32;
        if u < 48 || u > 57 {
            proof {
                assert(!is_digit(digits[i - from]));
            }
            return None;
        }
        let d: u64 = (u - 48) as u64;
        let next: u64 = acc * 10 + d;
        proof {
            let longer = digits.take(i - from + 1);
            assert(longer.drop_last() == digits.take(i - from));
            assert(longer.last() == v@[i as int]);
            assert(digits_value(longer) == next);
            lemma_digits_prefix(digits, i - from + 1);
        }
        if next > limit {
            return None;
        }
        acc = next;
        i += 1;
    }
    proof {
        assert(digits.take(i - from) == digits);
    }
    Some(acc)
}

/// Reads an unsigned 32-bit number written in base ten.
pub fn parse_u32_chars(v: &Vec<char>) -> (r: Option<u32>)
    ensures
        r == parse_u32(v@),
{
    let from: usize = if v.len() > 0 && v[0] == '+' {
        1
    } else {
        0
    };
    proof {
        assert(v@.skip(0) == v@);
    }
    match parse_magnitude(v, from, 0xffff_ffff) {
        Some(n) => Some(n as u32),
        None => None,
    }
}

/// Reads a signed 32-bit number written in base ten.
pub fn parse_i32_chars(v: &Vec<char>) -> (r: Option<i32>)
    ensures
        r == parse_i32(v@),
{
    let negative: bool = v.len() > 0 && v[0] == '-';
    let from: usize = if v.len() > 0 && (v[0] == '+' || negative) {
        1
    } else {
        0
    };
    let limit: u64 = if negative {
        0x8000_0000
    } else {
        0x7fff_ffff
    };
    proof {
        assert(v@.skip(0) == v@);
    }
    match parse_magnitude(v, from, limit) {
        Some(n) => if negative {
            Some((0 - (n as i64)) as i32)
        } else {
            Some(n as i32)
        },
        None => None,
    }
}

/// The character that writes the digit `d`.
pub open spec fn digit_char(d: int) -> char {
    ((48 + d) as u8) as char
}

/// `n` written in base ten, without leading zeros.
pub open spec fn decimal(n: nat) -> Seq<char>
    decreases n,
{
    if n < 10 {
        seq![digit_char(n as int)]
    } else {
        decimal(n / 10).push(digit_char((n % 10) as int))
    }
}

/// `n` written in base ten, with a `-` before it where it is negative.
pub open spec fn signed_decimal(n: int) -> Seq<char> {
    if n < 0 {
        seq!['-'] + decimal((-n) as nat)
    } else {
        decimal(n as nat)
    }
}

/// The base-ten form of a number is made of digits, at least one, and writes that
/// number.
proof fn lemma_decimal_digits(n: nat)
    ensures
        decimal(n).len() > 0,
        all_digits(decimal(n)),
        digits_value(decimal(n)) == n,
    decreases n,
{
    if n < 10 {
        let s = decimal(n);
        assert(s.drop_last() =~= Seq::<char>::empty());
        assert(digits_value(s.drop_last()) == 0);
        assert(digit_value(s.last()) == n);
        assert(digits_value(s) == digits_value(s.drop_last()) * 10 + digit_value(s.last()));
    } else {
        lemma_decimal_digits(n / 10);
        let s = decimal(n);
        assert(s.drop_last() =~= decimal(n / 10));
        assert(digit_value(s.last()) == n % 10);
        assert(digits_value(s) == digits_value(s.drop_last()) * 10 + digit_value(s.last()));
    }
}

/// A number that is written in base ten and read again is the same number: so
/// two numbers that are written alike are one.
pub proof fn law_decimal_round_trip(n: int)
    ensures
        parse_decimal(signed_decimal(n), true) == Some(n),
        n >= 0 ==> parse_decimal(decimal(n as nat), false) == Some(n),
{
    if n < 0 {
        let m = (-n) as nat;
        lemma_decimal_digits(m);
        let s = signed_decimal(n);
        assert(s[0] == '-');
        assert(s.skip(1) =~= decimal(m));
    } else {
        lemma_decimal_digits(n as nat);
        let s = decimal(n as nat);
        assert(is_digit(s[0]));
    }
}

/// Two numbers have the same base-ten form only where they are equal.
pub(crate) proof fn lemma_decimal_injective(a: nat, b: nat)
    ensures
        decimal(a) == decimal(b) ==> a == b,
{
    lemma_decimal_digits(a);
    lemma_decimal_digits(b);
}

/// Appends `n`, written in base ten, to `out`.
pub fn push_decimal(out: &mut String, n: u64)
    ensures
        final(out)@ == old(out)@ + decimal(n as nat),
    decreases n,
{
    if n >= 10 {
        push_decimal(out, n / 10);
    }
    let d: u8 = (n % 10) as u8;
    out.push((48u8 + d) as char);
    proof {
        assert(out@ =~= old(out)@ + decimal(n as nat));
    }
}

/// Appends `n`, written in base ten with its sign where negative, to `out`.
pub fn push_signed_decimal(out: &mut String, n: i64)
    ensures
        final(out)@ == old(out)@ + signed_decimal(n as int),
{
    if n < 0 {
        out.push('-');
        let m: u64 = if n == i64::MIN {
            0x8000_0000_0000_0000
        } else {
            (0 - n) as u64
        };
        push_decimal(out, m);
        proof {
            assert(out@ =~= old(out)@ + signed_decimal(n as int));
        }
    } else {
        push_decimal(out, n as u64);
    }
}

/// What `str::to_lowercase` makes of the characters `s`: their lowercase
/// equivalent under the Unicode property `Lowercase`, which may hold more
/// characters than `s`.
pub uninterp spec fn lowercase(s: Seq<char>) -> Seq<char>;

/// `str::to_lowercase` returns the lowercase equivalent of the string, which
/// depends on its characters alone.
pub assume_specification[ str::to_lowercase ](s: &str) -> (r: String)
    ensures
        r@ == lowercase(s@),
;


/// The lowercase equivalent of the characters `v`.
pub fn lowered(v: &Vec<char>) -> (r: Vec<char>)
    ensures
        r@ == lowercase(v@),
{
    let s = string_of(v);
    let low = s.as_str().to_lowercase();
    chars_of(low.as_str())
}

/// The view of a string that may be absent.
pub open spec fn optional_view(s: Option<String>) -> Option<Seq<char>> {
    match s {
        Some(text) => Some(text@),
        None => None,
    }
}

} // verus!
