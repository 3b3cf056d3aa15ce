//! Character-level helpers shared by the parsers and formatters of the library.
use vstd::prelude::*;

verus! {

// ---------------------------------------------------------------------------
// Specifications
// ---------------------------------------------------------------------------

/// Splitting `s` at the first `n - 1` occurrences of `sep`: the pieces that
/// `str::splitn(n, sep)` yields, for `n >= 1`.
pub open spec fn splitn_char(s: Seq<char>, n: nat, sep: char) -> Seq<Seq<char>>
    decreases s.len(),
{
    if s.len() == 0 {
        seq![Seq::<char>::empty()]
    } else {
        let r = splitn_char(s.drop_last(), n, sep);
        let c = s.last();
        if c == sep && r.len() < n {
            r.push(Seq::<char>::empty())
        } else {
            r.update(r.len() - 1, r.last().push(c))
        }
    }
}

/// The pieces of `parts` put back together, with `sep` between each two.
pub open spec fn join_char(parts: Seq<Seq<char>>, sep: char) -> Seq<char>
    decreases parts.len(),
{
    if parts.len() <= 1 {
        if parts.len() == 0 { Seq::<char>::empty() } else { parts[0] }
    } else {
        join_char(parts.drop_last(), sep).push(sep) + parts.last()
    }
}

/// `c` does not occur in `s`.
pub open spec fn free_of(s: Seq<char>, c: char) -> bool {
    forall|i: int| 0 <= i < s.len() ==> s[i] != c
}

/// The views of a sequence of strings.
pub open spec fn views(v: Seq<String>) -> Seq<Seq<char>> {
    v.map_values(|x: String| x@)
}

// ---------------------------------------------------------------------------
// Lemmas about splitting and joining
// ---------------------------------------------------------------------------

/// `splitn_char` always yields at least one and at most `n` pieces.
pub proof fn lemma_splitn_len(s: Seq<char>, n: nat, sep: char)
    requires n >= 1,
    ensures 1 <= splitn_char(s, n, sep).len() <= n,
    decreases s.len(),
{
    if s.len() > 0 {
        lemma_splitn_len(s.drop_last(), n, sep);
    }
}

/// There are never more pieces than characters plus one.
pub proof fn lemma_splitn_len_bound(s: Seq<char>, n: nat, sep: char)
    requires n >= 1,
    ensures splitn_char(s, n, sep).len() <= s.len() + 1,
    decreases s.len(),
{
    if s.len() > 0 {
        lemma_splitn_len_bound(s.drop_last(), n, sep);
        lemma_splitn_len(s.drop_last(), n, sep);
    }
}

/// A string free of the separator is a single piece.
pub proof fn lemma_splitn_free(s: Seq<char>, n: nat, sep: char)
    requires n >= 1, free_of(s, sep),
    ensures splitn_char(s, n, sep) == seq![s],
    decreases s.len(),
{
    if s.len() > 0 {
        lemma_splitn_free(s.drop_last(), n, sep);
        assert(s.drop_last().push(s.last()) =~= s);
    } else {
        assert(s =~= Seq::<char>::empty());
    }
}

/// Splitting into a single piece leaves the string whole.
pub proof fn lemma_splitn_one(s: Seq<char>, sep: char)
    ensures splitn_char(s, 1, sep) == seq![s],
    decreases s.len(),
{
    if s.len() > 0 {
        lemma_splitn_one(s.drop_last(), sep);
        assert(s.drop_last().push(s.last()) =~= s);
    } else {
        assert(s =~= Seq::<char>::empty());
    }
}

/// Splitting `x + [sep] + y`, where `x` is free of the separator, gives `x`
/// followed by the pieces of `y`.
pub proof fn lemma_splitn_cons(x: Seq<char>, y: Seq<char>, n: nat, sep: char)
    requires n >= 2, free_of(x, sep),
    ensures splitn_char(x.push(sep) + y, n, sep) == seq![x] + splitn_char(y, (n - 1) as nat, sep),
    decreases y.len(),
{
    if y.len() == 0 {
        lemma_splitn_free(x, n, sep);
        assert(x.push(sep) + y =~= x.push(sep));
        assert(x.push(sep).drop_last() =~= x);
        assert(splitn_char(y, (n - 1) as nat, sep) =~= seq![Seq::<char>::empty()]);
        assert(seq![x].push(Seq::<char>::empty()) =~= seq![x] + seq![Seq::<char>::empty()]);
    } else {
        let y2 = y.drop_last();
        lemma_splitn_cons(x, y2, n, sep);
        lemma_splitn_len(y2, (n - 1) as nat, sep);
        let whole = x.push(sep) + y;
        assert(whole.drop_last() =~= x.push(sep) + y2);
        assert(whole.last() == y.last());
        let r = splitn_char(y2, (n - 1) as nat, sep);
        let c = y.last();
        if c == sep && r.len() < n - 1 {
            assert((seq![x] + r).push(Seq::<char>::empty()) =~= seq![x] + r.push(Seq::<char>::empty()));
        } else {
            assert((seq![x] + r).update(r.len() as int, r.last().push(c)) =~= seq![x] + r.update(r.len() - 1, r.last().push(c)));
        }
    }
}

/// No piece but the last holds the separator, and where fewer than `n`
/// pieces came out, the last holds none either.
pub proof fn lemma_splitn_pieces_free(s: Seq<char>, n: nat, sep: char)
    requires n >= 1,
    ensures
        forall|i: int| 0 <= i < splitn_char(s, n, sep).len()
            && (i < splitn_char(s, n, sep).len() - 1 || splitn_char(s, n, sep).len() < n)
            ==> free_of(#[trigger] splitn_char(s, n, sep)[i], sep),
    decreases s.len(),
{
    if s.len() > 0 {
        let s2 = s.drop_last();
        lemma_splitn_pieces_free(s2, n, sep);
        lemma_splitn_len(s2, n, sep);
        let r = splitn_char(s2, n, sep);
        let c = s.last();
        let p = splitn_char(s, n, sep);
        if c == sep && r.len() < n {
            assert(p == r.push(Seq::<char>::empty()));
            assert forall|i: int| 0 <= i < p.len() && (i < p.len() - 1 || p.len() < n)
                implies free_of(#[trigger] p[i], sep) by {
                if i < r.len() {
                    assert(p[i] == r[i]);
                } else {
                    assert(p[i] =~= Seq::<char>::empty());
                }
            }
        } else {
            assert(p == r.update(r.len() - 1, r.last().push(c)));
            assert forall|i: int| 0 <= i < p.len() && (i < p.len() - 1 || p.len() < n)
                implies free_of(#[trigger] p[i], sep) by {
                if i < r.len() - 1 {
                    assert(p[i] == r[i]);
                } else {
                    assert(r.len() < n);
                    assert(c != sep);
                    assert(free_of(r[r.len() - 1], sep));
                    assert(p[i] == r.last().push(c));
                }
            }
        }
    }
}

/// How many times `c` occurs in `s`.
pub open spec fn count_char(s: Seq<char>, c: char) -> nat
    decreases s.len(),
{
    if s.len() == 0 {
        0
    } else {
        count_char(s.drop_last(), c) + if s.last() == c { 1nat } else { 0nat }
    }
}

/// `splitn_char` yields one piece more than there are separators, but never
/// more than `n`.
pub proof fn lemma_splitn_len_exact(s: Seq<char>, n: nat, sep: char)
    requires n >= 1,
    ensures splitn_char(s, n, sep).len() == if count_char(s, sep) + 1 < n { count_char(s, sep) + 1 } else { n },
    decreases s.len(),
{
    if s.len() > 0 {
        lemma_splitn_len_exact(s.drop_last(), n, sep);
    }
}

/// Joining at least two pieces puts the first, a separator and the join of
/// the rest together.
pub proof fn lemma_join_front(parts: Seq<Seq<char>>, sep: char)
    requires parts.len() >= 2,
    ensures join_char(parts, sep) == parts[0].push(sep) + join_char(parts.drop_first(), sep),
    decreases parts.len(),
{
    if parts.len() == 2 {
        assert(parts.drop_last() =~= seq![parts[0]]);
        assert(parts.drop_first() =~= seq![parts[1]]);
    } else {
        lemma_join_front(parts.drop_last(), sep);
        let d = parts.drop_first();
        assert(parts.drop_last().drop_first() =~= d.drop_last());
        assert(d.last() == parts.last());
        assert(parts.drop_last()[0] == parts[0]);
        let j = join_char(d.drop_last(), sep);
        assert(join_char(parts, sep) == join_char(parts.drop_last(), sep).push(sep) + parts.last());
        assert(join_char(d, sep) == j.push(sep) + d.last());
        assert((parts[0].push(sep) + j).push(sep) + parts.last() =~= parts[0].push(sep) + (j.push(sep) + parts.last()));
    }
}

/// Splitting the join of pieces free of the separator, into at least as
/// many pieces, gives the pieces back.
pub proof fn lemma_splitn_join(parts: Seq<Seq<char>>, n: nat, sep: char)
    requires
        parts.len() >= 1,
        n >= parts.len(),
        forall|i: int| 0 <= i < parts.len() ==> free_of(#[trigger] parts[i], sep),
    ensures
        splitn_char(join_char(parts, sep), n, sep) == parts,
        join_char(parts, sep).len() + 1 >= parts.len(),
    decreases parts.len(),
{
    if parts.len() == 1 {
        lemma_splitn_free(parts[0], n, sep);
        assert(seq![parts[0]] =~= parts);
    } else {
        let rest = parts.drop_first();
        assert forall|i: int| 0 <= i < rest.len() implies free_of(#[trigger] rest[i], sep) by {
            assert(rest[i] == parts[i + 1]);
        }
        lemma_splitn_join(rest, (n - 1) as nat, sep);
        lemma_join_front(parts, sep);
        assert(free_of(parts[0], sep));
        lemma_splitn_cons(parts[0], join_char(rest, sep), n, sep);
        assert(seq![parts[0]] + rest =~= parts);
    }
}

/// Joining the pieces of a split gives back the string.
pub proof fn lemma_join_splitn(s: Seq<char>, n: nat, sep: char)
    requires n >= 1,
    ensures join_char(splitn_char(s, n, sep), sep) == s,
    decreases s.len(),
{
    if s.len() == 0 {
        assert(s =~= Seq::<char>::empty());
    } else {
        let s2 = s.drop_last();
        lemma_join_splitn(s2, n, sep);
        lemma_splitn_len(s2, n, sep);
        let r = splitn_char(s2, n, sep);
        let c = s.last();
        if c == sep && r.len() < n {
            let p = r.push(Seq::<char>::empty());
            assert(p.drop_last() =~= r);
            assert(join_char(p, sep) =~= join_char(r, sep).push(sep));
            assert(s2.push(sep) =~= s);
        } else {
            let p = r.update(r.len() - 1, r.last().push(c));
            if r.len() == 1 {
                assert(join_char(p, sep) == p[0]);
                assert(s2.push(c) =~= s);
            } else {
                assert(p.drop_last() =~= r.drop_last());
                assert(join_char(r, sep) == join_char(r.drop_last(), sep).push(sep) + r.last());
                assert(join_char(p, sep) =~= join_char(r, sep).push(c));
                assert(s2.push(c) =~= s);
            }
        }
    }
}

// ---------------------------------------------------------------------------
// Executable helpers
// ---------------------------------------------------------------------------

/// Appends `c` to `s`, as `String::push` does.
#[verifier::external_body]
pub(crate) fn push_char(s: &mut String, c: char)
    ensures final(s)@ == old(s)@.push(c),
{
    s.push(c)
}

/// The characters of `s`, in order.
pub fn chars_of(s: &str) -> (v: Vec<char>)
    ensures v@ == s@,
{
    let mut v: Vec<char> = Vec::new();
    for c in it: s.chars()
        invariant
            v@ == it.seq().take(it.index() as int),
            it.seq() == s@,
    {
        v.push(c);
    }
    v
}

/// A fresh string holding the characters of `s[start..end]`.
pub fn string_of_range(s: &Vec<char>, start: usize, end: usize) -> (r: String)
    requires start <= end <= s.len(),
    ensures r@ == s@.subrange(start as int, end as int),
{
    let mut r = String::new();
    let mut i = start;
    while i < end
        invariant
            start <= i <= end <= s.len(),
            r@ == s@.subrange(start as int, i as int),
        decreases end - i,
    {
        push_char(&mut r, s[i]);
        assert(s@.subrange(start as int, i + 1) =~= s@.subrange(start as int, i as int).push(s@[i as int]));
        i += 1;
    }
    r
}

/// A fresh string holding all characters of `s`.
pub fn string_of(s: &Vec<char>) -> (r: String)
    ensures r@ == s@,
{
    let r = string_of_range(s, 0, s.len());
    assert(s@.subrange(0, s@.len() as int) =~= s@);
    r
}

/// A copy of `s` as an owned string.
pub fn owned(s: &str) -> (r: String)
    ensures r@ == s@,
{
    s.to_owned()
}

/// `a` followed by `b`, as a fresh string.
pub fn concat2(a: &str, b: &str) -> (r: String)
    ensures r@ == a@ + b@,
{
    let mut r = owned(a);
    r.append(b);
    r
}

/// Splits `s` at the first `n - 1` occurrences of `sep`, as `str::splitn` does.
pub fn splitn(s: &str, n: usize, sep: char) -> (parts: Vec<String>)
    requires n >= 1,
    ensures views(parts@) == splitn_char(s@, n as nat, sep),
{
    let cs = chars_of(s);
    let mut done: Vec<String> = Vec::new();
    let mut cur = String::new();
    let mut i: usize = 0;
    while i < cs.len()
        invariant
            n >= 1,
            cs@ == s@,
            0 <= i <= cs.len(),
            views(done@).push(cur@) == splitn_char(cs@.take(i as int), n as nat, sep),
        decreases cs.len() - i,
    {
        let c = cs[i];
        let ghost prev = cs@.take(i as int);
        proof {
            lemma_splitn_len(prev, n as nat, sep);
            assert(cs@.take(i + 1).drop_last() =~= prev);
            assert(cs@.take(i + 1).last() == c);
        }
        if c == sep && done.len() + 1 < n {
            let ghost old_done = done@;
            let ghost finished = cur@;
            done.push(cur);
            cur = String::new();
            assert(views(done@) =~= views(old_done).push(finished));
            assert(views(done@).push(cur@) =~= splitn_char(cs@.take(i + 1), n as nat, sep));
        } else {
            let ghost before = views(done@).push(cur@);
            push_char(&mut cur, c);
            assert(views(done@).push(cur@) =~= before.update(before.len() - 1, before.last().push(c)));
        }
        i += 1;
    }
    proof {
        assert(cs@.take(cs@.len() as int) =~= s@);
    }
    let ghost old_done = done@;
    let ghost last = cur@;
    done.push(cur);
    assert(views(done@) =~= views(old_done).push(last));
    done
}

/// Whether two character sequences are equal.
pub fn chars_eq(a: &Vec<char>, b: &Vec<char>) -> (r: bool)
    ensures r == (a@ == b@),
{
    if a.len() != b.len() {
        return false;
    }
    let mut i: usize = 0;
    while i < a.len()
        invariant
            a.len() == b.len(),
            0 <= i <= a.len(),
            forall|k: int| 0 <= k < i ==> a@[k] == b@[k],
        decreases a.len() - i,
    {
        if a[i] != b[i] {
            return false;
        }
        i += 1;
    }
    assert(a@ =~= b@);
    true
}

/// Whether two strings are equal.
pub fn str_eq(a: &str, b: &str) -> (r: bool)
    ensures r == (a@ == b@),
{
    chars_eq(&chars_of(a), &chars_of(b))
}

/// Whether `s` begins with `p`.
pub fn starts_with(s: &str, p: &str) -> (r: bool)
    ensures r == p@.is_prefix_of(s@),
{
    let cs = chars_of(s);
    let cp = chars_of(p);
    if cp.len() > cs.len() {
        return false;
    }
    let mut i: usize = 0;
    while i < cp.len()
        invariant
            cs@ == s@,
            cp@ == p@,
            cp.len() <= cs.len(),
            0 <= i <= cp.len(),
            forall|k: int| 0 <= k < i ==> cp@[k] == cs@[k],
        decreases cp.len() - i,
    {
        if cs[i] != cp[i] {
            return false;
        }
        i += 1;
    }
    true
}

/// Whether `s` ends with `p`.
pub fn ends_with(s: &str, p: &str) -> (r: bool)
    ensures r == p@.is_suffix_of(s@),
{
    let cs = chars_of(s);
    let cp = chars_of(p);
    if cp.len() > cs.len() {
        return false;
    }
    let off = cs.len() - cp.len();
    let mut i: usize = 0;
    while i < cp.len()
        invariant
            cs@ == s@,
            cp@ == p@,
            off == cs.len() - cp.len(),
            0 <= i <= cp.len(),
            forall|k: int| 0 <= k < i ==> cp@[k] == cs@[off + k],
        decreases cp.len() - i,
    {
        if cs[off + i] != cp[i] {
            return false;
        }
        i += 1;
    }
    true
}

// ---------------------------------------------------------------------------
// Searching
// ---------------------------------------------------------------------------

/// `pat` occurs in `s` at position `i`.
pub open spec fn occurs_at(s: Seq<char>, pat: Seq<char>, i: int) -> bool {
    0 <= i && i + pat.len() <= s.len() && s.subrange(i, i + pat.len()) == pat
}

/// The first position at or after `i` where `pat` occurs in `s`.
pub open spec fn find_from(s: Seq<char>, pat: Seq<char>, i: int) -> Option<int>
    decreases s.len() + 1 - i,
{
    if i < 0 || i + pat.len() > s.len() {
        None
    } else if occurs_at(s, pat, i) {
        Some(i)
    } else {
        find_from(s, pat, i + 1)
    }
}

/// A position found is at or after the start and `pat` occurs there.
pub proof fn lemma_find_from_some(s: Seq<char>, pat: Seq<char>, i: int)
    ensures
        match find_from(s, pat, i) {
            Some(j) => i <= j && occurs_at(s, pat, j),
            None => true,
        },
    decreases s.len() + 1 - i,
{
    if !(i < 0 || i + pat.len() > s.len()) && !occurs_at(s, pat, i) {
        lemma_find_from_some(s, pat, i + 1);
    }
}

/// The second piece of `s` split at `pat` (`s.split(pat).nth(1)`): the text
/// between the first occurrence of `pat` and the next one, or the end.
pub open spec fn second_piece(s: Seq<char>, pat: Seq<char>) -> Option<Seq<char>> {
    match find_from(s, pat, 0) {
        None => None,
        Some(i) => {
            let rest = s.skip(i + pat.len());
            match find_from(rest, pat, 0) {
                None => Some(rest),
                Some(j) => Some(rest.take(j)),
            }
        },
    }
}

/// All pieces of `s` split at `sep`.
pub open spec fn split_all(s: Seq<char>, sep: char) -> Seq<Seq<char>> {
    splitn_char(s, s.len() + 1, sep)
}

fn matches_at(s: &Vec<char>, pat: &Vec<char>, i: usize) -> (b: bool)
    requires i + pat.len() <= s.len(),
    ensures b == occurs_at(s@, pat@, i as int),
{
    let mut k: usize = 0;
    while k < pat.len()
        invariant
            i + pat.len() <= s.len(),
            0 <= k <= pat.len(),
            forall|m: int| 0 <= m < k ==> s@[i + m] == pat@[m],
        decreases pat.len() - k,
    {
        if s[i + k] != pat[k] {
            assert(s@.subrange(i as int, i + pat.len())[k as int] != pat@[k as int]);
            return false;
        }
        k += 1;
    }
    assert(s@.subrange(i as int, i + pat.len()) =~= pat@);
    true
}

/// The first position at or after `from` where `pat` occurs in `s`.
pub fn find(s: &Vec<char>, pat: &Vec<char>, from: usize) -> (r: Option<usize>)
    requires from <= s.len(),
    ensures
        match r {
            Some(i) => find_from(s@, pat@, from as int) == Some(i as int),
            None => find_from(s@, pat@, from as int) is None,
        },
{
    if pat.len() == 0 {
        assert(occurs_at(s@, pat@, from as int)) by {
            assert(s@.subrange(from as int, from as int) =~= pat@);
        };
        return Some(from);
    }
    if pat.len() > s.len() || from > s.len() - pat.len() {
        return None;
    }
    let last = s.len() - pat.len();
    let mut i = from;
    while i <= last
        invariant
            last == s.len() - pat.len(),
            pat.len() >= 1,
            from <= i,
            i <= last + 1,
            find_from(s@, pat@, from as int) == find_from(s@, pat@, i as int),
        decreases last + 1 - i,
    {
        if matches_at(s, pat, i) {
            return Some(i);
        }
        i += 1;
    }
    None
}

pub proof fn lemma_find_shift(s: Seq<char>, pat: Seq<char>, k: int, i: int)
    requires 0 <= k <= s.len(), 0 <= i,
    ensures find_from(s.skip(k), pat, i) == (match find_from(s, pat, i + k) {
        Some(j) => Some(j - k),
        None => None,
    }),
    decreases s.len() + 1 - k - i,
{
    if i + pat.len() > s.skip(k).len() {
    } else {
        assert(s.skip(k).subrange(i, i + pat.len()) =~= s.subrange(i + k, i + k + pat.len()));
        if !occurs_at(s.skip(k), pat, i) {
            lemma_find_shift(s, pat, k, i + 1);
        }
    }
}

/// Splits `s` at every occurrence of `sep`, as `str::split` does.
pub fn split_all_exec(s: &str, sep: char) -> (parts: Vec<String>)
    ensures views(parts@) == split_all(s@, sep),
{
    let cs = chars_of(s);
    let ghost n: nat = s@.len() + 1;
    let mut done: Vec<String> = Vec::new();
    let mut cur = String::new();
    let mut i: usize = 0;
    while i < cs.len()
        invariant
            n == s@.len() + 1,
            cs@ == s@,
            0 <= i <= cs.len(),
            views(done@).push(cur@) == splitn_char(cs@.take(i as int), n, sep),
        decreases cs.len() - i,
    {
        let c = cs[i];
        let ghost prev = cs@.take(i as int);
        proof {
            lemma_splitn_len_bound(prev, n, sep);
            assert(cs@.take(i + 1).drop_last() =~= prev);
            assert(cs@.take(i + 1).last() == c);
        }
        if c == sep {
            let ghost old_done = done@;
            let ghost finished = cur@;
            done.push(cur);
            cur = String::new();
            assert(views(done@) =~= views(old_done).push(finished));
            assert(views(done@).push(cur@) =~= splitn_char(cs@.take(i + 1), n, sep));
        } else {
            let ghost before = views(done@).push(cur@);
            push_char(&mut cur, c);
            assert(views(done@).push(cur@) =~= before.update(before.len() - 1, before.last().push(c)));
        }
        i += 1;
    }
    proof {
        assert(cs@.take(cs@.len() as int) =~= s@);
    }
    let ghost old_done = done@;
    let ghost last = cur@;
    done.push(cur);
    assert(views(done@) =~= views(old_done).push(last));
    done
}

/// The pieces of `s` from position `i` on, split at every occurrence of `pat`
/// (`str::split` with a string pattern).
pub open spec fn pieces_from(s: Seq<char>, pat: Seq<char>, i: int) -> Seq<Seq<char>>
    decreases s.len() + 1 - i,
    when pat.len() > 0 && 0 <= i
{
    match find_from(s, pat, i) {
        Some(j) => {
            proof {
                lemma_find_from_some(s, pat, i);
            }
            seq![s.subrange(i, j)] + pieces_from(s, pat, j + pat.len())
        },
        None => seq![s.subrange(i, s.len() as int)],
    }
}

/// The text before the first occurrence of `pat`, or all of `s` where there is none.
pub open spec fn before_first(s: Seq<char>, pat: Seq<char>) -> Seq<char> {
    match find_from(s, pat, 0) {
        Some(e) => s.take(e),
        None => s,
    }
}

/// A copy of `s[a..b]`.
pub fn copy_range(s: &Vec<char>, a: usize, b: usize) -> (r: Vec<char>)
    requires a <= b <= s.len(),
    ensures r@ == s@.subrange(a as int, b as int),
{
    let mut r: Vec<char> = Vec::new();
    let mut i = a;
    while i < b
        invariant
            a <= i <= b <= s.len(),
            r@ == s@.subrange(a as int, i as int),
        decreases b - i,
    {
        r.push(s[i]);
        assert(s@.subrange(a as int, i + 1) =~= s@.subrange(a as int, i as int).push(s@[i as int]));
        i += 1;
    }
    r
}

/// The text before the first occurrence of `pat`.
pub fn before_first_exec(s: &Vec<char>, pat: &Vec<char>) -> (r: Vec<char>)
    ensures r@ == before_first(s@, pat@),
{
    proof {
        lemma_find_from_some(s@, pat@, 0);
    }
    match find(s, pat, 0) {
        Some(e) => {
            let r = copy_range(s, 0, e);
            assert(r@ =~= s@.take(e as int));
            r
        }
        None => {
            let r = copy_range(s, 0, s.len());
            assert(r@ =~= s@);
            r
        }
    }
}

/// The text between the first occurrence of `pat` and the next one (or the end).
pub fn second_piece_exec(s: &Vec<char>, pat: &Vec<char>) -> (r: Option<Vec<char>>)
    ensures
        match r {
            Some(v) => second_piece(s@, pat@) == Some(v@),
            None => second_piece(s@, pat@) is None,
        },
{
    proof {
        lemma_find_from_some(s@, pat@, 0);
    }
    let start = match find(s, pat, 0) {
        Some(i) => {
            assert(occurs_at(s@, pat@, i as int));
            assert(i + pat@.len() <= s@.len());
            assert(i + pat.len() <= s.len());
            i + pat.len()
        },
        None => return None,
    };
    let ghost rest = s@.skip(start as int);
    proof {
        lemma_find_shift(s@, pat@, start as int, 0);
        lemma_find_from_some(s@, pat@, start as int);
    }
    let end = match find(s, pat, start) {
        Some(j) => j,
        None => s.len(),
    };
    let r = copy_range(s, start, end);
    proof {
        match find_from(rest, pat@, 0) {
            Some(j) => { assert(r@ =~= rest.take(j)); }
            None => { assert(r@ =~= rest); }
        }
    }
    Some(r)
}

// ---------------------------------------------------------------------------
// UTF-8 widths
// ---------------------------------------------------------------------------

/// The number of bytes `c` takes in UTF-8.
pub open spec fn char_width(c: char) -> nat {
    if (c as u32) < 0x80 {
        1
    } else if (c as u32) < 0x800 {
        2
    } else if (c as u32) < 0x10000 {
        3
    } else {
        4
    }
}

/// The number of bytes `s` takes in UTF-8.
pub open spec fn utf8_width(s: Seq<char>) -> nat
    decreases s.len(),
{
    if s.len() == 0 { 0 } else { utf8_width(s.drop_last()) + char_width(s.last()) }
}

pub fn width(c: char) -> (w: usize)
    ensures w == char_width(c),
{
    let v = c as u32;
    if v < 0x80 {
        1
    } else if v < 0x800 {
        2
    } else if v < 0x10000 {
        3
    } else {
        4
    }
}

pub proof fn lemma_width_grows(s: Seq<char>, k: int, m: int)
    requires 0 <= k <= m <= s.len(),
    ensures utf8_width(s.take(k)) + (m - k) <= utf8_width(s.take(m)),
    decreases m - k,
{
    if k < m {
        lemma_width_grows(s, k, m - 1);
        assert(s.take(m).drop_last() =~= s.take(m - 1));
    }
}

/// Whether `s` takes more than `limit` bytes in UTF-8.
pub fn wider_than(s: &str, limit: usize) -> (b: bool)
    requires limit < usize::MAX - 4,
    ensures b == (utf8_width(s@) > limit),
{
    let cs = chars_of(s);
    let mut w: usize = 0;
    let mut i: usize = 0;
    assert(cs@.take(0) =~= Seq::<char>::empty());
    while i < cs.len()
        invariant
            limit < usize::MAX - 4,
            cs@ == s@,
            0 <= i <= cs.len(),
            w == utf8_width(cs@.take(i as int)),
            w <= limit,
        decreases cs.len() - i,
    {
        assert(cs@.take(i + 1).drop_last() =~= cs@.take(i as int));
        w = w + width(cs[i]);
        i += 1;
        if w > limit {
            proof {
                assert(cs@.take(cs@.len() as int) =~= cs@);
                lemma_width_grows(cs@, i as int, cs@.len() as int);
            }
            return true;
        }
    }
    assert(cs@.take(i as int) =~= cs@);
    false
}

// ---------------------------------------------------------------------------
// Whitespace
// ---------------------------------------------------------------------------

/// Unicode white space (`char::is_whitespace`).
pub open spec fn is_ws(c: char) -> bool {
    ('\u{9}' <= c && c <= '\u{d}') || c == ' ' || c == '\u{85}' || c == '\u{a0}' || c == '\u{1680}'
        || ('\u{2000}' <= c && c <= '\u{200a}') || c == '\u{2028}' || c == '\u{2029}' || c == '\u{202f}'
        || c == '\u{205f}' || c == '\u{3000}'
}

pub fn ws(c: char) -> (b: bool)
    ensures b == is_ws(c),
{
    ('\u{9}' <= c && c <= '\u{d}') || c == ' ' || c == '\u{85}' || c == '\u{a0}' || c == '\u{1680}'
        || ('\u{2000}' <= c && c <= '\u{200a}') || c == '\u{2028}' || c == '\u{2029}' || c == '\u{202f}'
        || c == '\u{205f}' || c == '\u{3000}'
}

/// `s` without its leading white space.
pub open spec fn trim_start(s: Seq<char>) -> Seq<char>
    decreases s.len(),
{
    if s.len() > 0 && is_ws(s[0]) { trim_start(s.drop_first()) } else { s }
}

/// `s` without its trailing white space.
pub open spec fn trim_end(s: Seq<char>) -> Seq<char>
    decreases s.len(),
{
    if s.len() > 0 && is_ws(s.last()) { trim_end(s.drop_last()) } else { s }
}

/// `s` without leading and trailing white space (`str::trim`).
pub open spec fn trim(s: Seq<char>) -> Seq<char> {
    trim_end(trim_start(s))
}

/// The bounds of `s[start..end]` with its white space trimmed off.
pub fn trim_bounds(s: &Vec<char>, start: usize, end: usize) -> (r: (usize, usize))
    requires start <= end <= s.len(),
    ensures
        start <= r.0 <= r.1 <= end,
        s@.subrange(r.0 as int, r.1 as int) == trim(s@.subrange(start as int, end as int)),
{
    let ghost whole = s@.subrange(start as int, end as int);
    let mut i = start;
    while i < end && ws(s[i])
        invariant
            start <= i <= end <= s.len(),
            trim_start(whole) == trim_start(s@.subrange(i as int, end as int)),
        decreases end - i,
    {
        assert(s@.subrange(i as int, end as int).drop_first() =~= s@.subrange(i + 1, end as int));
        i += 1;
    }
    assert(trim_start(s@.subrange(i as int, end as int)) == s@.subrange(i as int, end as int));
    let mut j = end;
    while j > i && ws(s[j - 1])
        invariant
            start <= i <= j <= end <= s.len(),
            trim(whole) == trim_end(s@.subrange(i as int, j as int)),
        decreases j - i,
    {
        assert(s@.subrange(i as int, j as int).drop_last() =~= s@.subrange(i as int, j - 1));
        j -= 1;
    }
    (i, j)
}

// ---------------------------------------------------------------------------
// Decimal numbers
// ---------------------------------------------------------------------------

/// The digit character for `d < 10`.
pub open spec fn digit_char(d: nat) -> char {
    (48 + d) as char
}

/// The decimal digits of `n`, most significant first, without leading zeros.
pub open spec fn decimal(n: nat) -> Seq<char>
    decreases n,
{
    if n < 10 {
        seq![digit_char(n)]
    } else {
        decimal(n / 10).push(digit_char(n % 10))
    }
}

/// The decimal text of a signed number, with a leading `-` when it is negative.
pub open spec fn signed_decimal(n: int) -> Seq<char> {
    if n < 0 { seq!['-'] + decimal((-n) as nat) } else { decimal(n as nat) }
}

fn digit(d: u64) -> (c: char)
    requires d < 10,
    ensures c == digit_char(d as nat),
{
    match d {
        0 => '0',
        1 => '1',
        2 => '2',
        3 => '3',
        4 => '4',
        5 => '5',
        6 => '6',
        7 => '7',
        8 => '8',
        _ => '9',
    }
}

/// Appends the decimal digits of `n` to `s`.
pub fn push_decimal(s: &mut String, n: u64)
    ensures final(s)@ == old(s)@ + decimal(n as nat),
    decreases n,
{
    if n < 10 {
        push_char(s, digit(n));
        assert(old(s)@.push(digit_char(n as nat)) =~= old(s)@ + decimal(n as nat));
    } else {
        push_decimal(s, n / 10);
        push_char(s, digit(n % 10));
        assert(old(s)@ + decimal((n / 10) as nat) + seq![digit_char((n % 10) as nat)] =~= old(s)@ + decimal(n as nat));
    }
}

/// Appends the decimal text of the signed number `n` to `s`.
pub fn push_signed_decimal(s: &mut String, n: i64)
    ensures final(s)@ == old(s)@ + signed_decimal(n as int),
{
    if n < 0 {
        push_char(s, '-');
        let m: u64 = (-(n as i128)) as u64;
        push_decimal(s, m);
        assert(old(s)@.push('-') + decimal(m as nat) =~= old(s)@ + signed_decimal(n as int));
    } else {
        push_decimal(s, n as u64);
    }
}

/// Every character of `d` is an ASCII digit.
pub open spec fn all_digits(d: Seq<char>) -> bool {
    forall|i: int| 0 <= i < d.len() ==> '0' <= #[trigger] d[i] && d[i] <= '9'
}

/// The number the digits `d` spell.
pub open spec fn digits_value(d: Seq<char>) -> int
    decreases d.len(),
{
    if d.len() == 0 { 0 } else { digits_value(d.drop_last()) * 10 + (d.last() as int - 48) }
}

/// The number `s` spells as a decimal `i64` (`str::parse::<i64>`): an optional
/// sign, then one or more ASCII digits, within the range of `i64`.
pub open spec fn parse_i64(s: Seq<char>) -> Option<i64> {
    let signed = s.len() > 0 && (s[0] == '-' || s[0] == '+');
    let d = if signed { s.drop_first() } else { s };
    let v = if s.len() > 0 && s[0] == '-' { -digits_value(d) } else { digits_value(d) };
    if d.len() == 0 || !all_digits(d) || v < i64::MIN || v > i64::MAX {
        None
    } else {
        Some(v as i64)
    }
}

/// Digits never spell less than any of their prefixes.
pub proof fn lemma_digits_monotone(d: Seq<char>, k: int)
    requires all_digits(d), 0 <= k <= d.len(),
    ensures 0 <= digits_value(d.take(k)) <= digits_value(d),
    decreases d.len(),
{
    if d.len() > 0 {
        assert(all_digits(d.drop_last()));
        lemma_digits_monotone(d.drop_last(), 0);
        if k < d.len() {
            lemma_digits_monotone(d.drop_last(), k);
            assert(d.drop_last().take(k) =~= d.take(k));
        } else {
            assert(d.take(k) =~= d);
        }
    } else {
        assert(d.take(k) =~= d);
    }
}

/// Reads a decimal `i64` as `str::parse::<i64>` does.
pub fn parse_i64_exec(s: &Vec<char>) -> (r: Option<i64>)
    ensures r == parse_i64(s@),
{
    let neg = s.len() > 0 && s[0] == '-';
    let start: usize = if s.len() > 0 && (s[0] == '-' || s[0] == '+') { 1 } else { 0 };
    let ghost d = if start == 1 { s@.drop_first() } else { s@ };
    assert(d =~= s@.skip(start as int));
    if start == s.len() {
        return None;
    }
    let mut acc: i128 = 0;
    let mut k = start;
    while k < s.len()
        invariant
            start <= k <= s.len(),
            d =~= s@.skip(start as int),
            d == (if s@.len() > 0 && (s@[0] == '-' || s@[0] == '+') { s@.drop_first() } else { s@ }),
            all_digits(s@.subrange(start as int, k as int)),
            acc == digits_value(s@.subrange(start as int, k as int)),
            0 <= acc <= 0x8000_0000_0000_0000i128,
        decreases s.len() - k,
    {
        let c = s[k];
        if c < '0' || c > '9' {
            assert(d[k - start] == c);
            return None;
        }
        let ghost prev = s@.subrange(start as int, k as int);
        let ghost next = s@.subrange(start as int, k + 1);
        assert(next.drop_last() =~= prev);
        assert(all_digits(next));
        let v: i128 = (c as u32 - 48) as i128;
        acc = acc * 10 + v;
        k += 1;
        if acc > 0x8000_0000_0000_0000i128 {
            proof {
                if all_digits(d) {
                    lemma_digits_monotone(d, (k - start) as int);
                    assert(d.take((k - start) as int) =~= next);
                }
            }
            return None;
        }
    }
    assert(s@.subrange(start as int, k as int) =~= d);
    if neg {
        if acc > 0x8000_0000_0000_0000i128 {
            None
        } else {
            Some((-acc) as i64)
        }
    } else {
        if acc > 0x7fff_ffff_ffff_ffffi128 {
            None
        } else {
            Some(acc as i64)
        }
    }
}

/// The number `s` spells as an unsigned decimal no larger than `max`
/// (`str::parse` for unsigned types): an optional `+`, then one or more ASCII digits.
pub open spec fn parse_unsigned(s: Seq<char>, max: u64) -> Option<u64> {
    let d = if s.len() > 0 && s[0] == '+' { s.drop_first() } else { s };
    if d.len() == 0 || !all_digits(d) || digits_value(d) > max {
        None
    } else {
        Some(digits_value(d) as u64)
    }
}

/// Reads an unsigned decimal no larger than `max`.
pub fn parse_unsigned_exec(s: &str, max: u64) -> (r: Option<u64>)
    ensures r == parse_unsigned(s@, max),
{
    let cs = chars_of(s);
    let start: usize = if cs.len() > 0 && cs[0] == '+' { 1 } else { 0 };
    let ghost d = if start == 1 { cs@.drop_first() } else { cs@ };
    assert(d =~= cs@.skip(start as int));
    if start == cs.len() {
        return None;
    }
    let mut acc: u128 = 0;
    let mut k = start;
    while k < cs.len()
        invariant
            cs@ == s@,
            start <= k <= cs.len(),
            d =~= cs@.skip(start as int),
            d == (if s@.len() > 0 && s@[0] == '+' { s@.drop_first() } else { s@ }),
            all_digits(cs@.subrange(start as int, k as int)),
            acc == digits_value(cs@.subrange(start as int, k as int)),
            acc <= max,
        decreases cs.len() - k,
    {
        let c = cs[k];
        if c < '0' || c > '9' {
            assert(d[k - start] == c);
            return None;
        }
        let ghost next = cs@.subrange(start as int, k + 1);
        assert(next.drop_last() =~= cs@.subrange(start as int, k as int));
        assert(all_digits(next));
        acc = acc * 10 + (c as u32 - 48) as u128;
        k += 1;
        if acc > max as u128 {
            proof {
                if all_digits(d) {
                    lemma_digits_monotone(d, (k - start) as int);
                    assert(d.take((k - start) as int) =~= next);
                }
            }
            return None;
        }
    }
    assert(cs@.subrange(start as int, k as int) =~= d);
    Some(acc as u64)
}


// ---------------------------------------------------------------------------
// JSON strings
// ---------------------------------------------------------------------------

/// The lower-case hexadecimal digit of `n < 16`.
pub open spec fn hex_digit(n: int) -> char {
    "0123456789abcdef"@[n]
}

/// One character inside a JSON string: quote and backslash escaped, the
/// control characters with a short escape where JSON has one (`\b`, `\f`,
/// `\n`, `\r`, `\t`) and as `\u00xx` otherwise; every other character as it is.
pub open spec fn json_escape_char(c: char) -> Seq<char> {
    if c == '"' {
        seq!['\\', '"']
    } else if c == '\\' {
        seq!['\\', '\\']
    } else if c == '\x08' {
        seq!['\\', 'b']
    } else if c == '\x0c' {
        seq!['\\', 'f']
    } else if c == '\n' {
        seq!['\\', 'n']
    } else if c == '\r' {
        seq!['\\', 'r']
    } else if c == '\t' {
        seq!['\\', 't']
    } else if (c as u32) < 32 {
        seq!['\\', 'u', '0', '0', hex_digit(((c as u32) / 16) as int), hex_digit(((c as u32) % 16) as int)]
    } else {
        seq![c]
    }
}

/// The characters of `s` escaped for a JSON string.
pub open spec fn json_escape(s: Seq<char>) -> Seq<char>
    decreases s.len(),
{
    if s.len() == 0 { Seq::<char>::empty() } else { json_escape(s.drop_last()) + json_escape_char(s.last()) }
}

/// `s` as a JSON string, quotes included.
pub open spec fn json_quote(s: Seq<char>) -> Seq<char> {
    seq!['"'] + json_escape(s) + seq!['"']
}

/// Appends `s` to `out` as a JSON string, quotes included.
pub fn push_json_string(out: &mut String, s: &str)
    ensures final(out)@ == old(out)@ + json_quote(s@),
{
    proof {
        reveal_strlit("0123456789abcdef");
    }
    let hex = chars_of("0123456789abcdef");
    let cs = chars_of(s);
    let ghost start = out@;
    push_char(out, '"');
    let mut i: usize = 0;
    while i < cs.len()
        invariant
            cs@ == s@,
            hex@ == "0123456789abcdef"@,
            hex@.len() == 16,
            0 <= i <= cs.len(),
            out@ == start + seq!['"'] + json_escape(cs@.take(i as int)),
        decreases cs.len() - i,
    {
        let c = cs[i];
        assert(cs@.take(i + 1).drop_last() =~= cs@.take(i as int));
        assert(cs@.take(i + 1).last() == c);
        let ghost before = out@;
        if c == '"' {
            push_char(out, '\\');
            push_char(out, '"');
        } else if c == '\\' {
            push_char(out, '\\');
            push_char(out, '\\');
        } else if c == '\x08' {
            push_char(out, '\\');
            push_char(out, 'b');
        } else if c == '\x0c' {
            push_char(out, '\\');
            push_char(out, 'f');
        } else if c == '\n' {
            push_char(out, '\\');
            push_char(out, 'n');
        } else if c == '\r' {
            push_char(out, '\\');
            push_char(out, 'r');
        } else if c == '\t' {
            push_char(out, '\\');
            push_char(out, 't');
        } else if (c as u32) < 32 {
            let v = c as u32;
            push_char(out, '\\');
            push_char(out, 'u');
            push_char(out, '0');
            push_char(out, '0');
            push_char(out, hex[(v / 16) as usize]);
            push_char(out, hex[(v % 16) as usize]);
        } else {
            push_char(out, c);
        }
        assert(out@ =~= before + json_escape_char(c));
        i += 1;
    }
    assert(cs@.take(cs@.len() as int) =~= s@);
    push_char(out, '"');
    assert(out@ =~= start + json_quote(s@));
}
} // verus!
