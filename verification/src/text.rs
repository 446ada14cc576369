//! Character-level string helpers shared by the rest of the library:
//! trimming, splitting on a separator, joining, prefix stripping, substring
//! search and decimal formatting, each stated over `Seq<char>`.
use vstd::prelude::*;

verus! {

broadcast use vstd::string::group_string_axioms;

// ---------------------------------------------------------------------------
// Specifications
// ---------------------------------------------------------------------------

/// The characters that `char::is_whitespace` accepts: the Unicode
/// `White_Space` property.
pub open spec fn is_white_space(c: char) -> bool {
    let u = c as u32;
    ||| 0x09 <= u <= 0x0d
    ||| u == 0x20
    ||| u == 0x85
    ||| u == 0xa0
    ||| u == 0x1680
    ||| 0x2000 <= u <= 0x200a
    ||| u == 0x2028
    ||| u == 0x2029
    ||| u == 0x202f
    ||| u == 0x205f
    ||| u == 0x3000
}

/// A class of characters that a trim removes.
#[derive(Clone, Copy, Debug, PartialEq, Eq)]
pub enum TrimClass {
    /// Unicode white space, as `str::trim` removes.
    WhiteSpace,
    /// The slash, as `str::trim_matches('/')` removes.
    Slash,
}

pub open spec fn in_class(k: TrimClass, c: char) -> bool {
    match k {
        TrimClass::WhiteSpace => is_white_space(c),
        TrimClass::Slash => c == '/',
    }
}

/// `s` without its leading characters of class `k`.
pub open spec fn trim_start(s: Seq<char>, k: TrimClass) -> Seq<char>
    decreases s.len(),
{
    if s.len() > 0 && in_class(k, s[0]) {
        trim_start(s.drop_first(), k)
    } else {
        s
    }
}

/// `s` without its trailing characters of class `k`.
pub open spec fn trim_end(s: Seq<char>, k: TrimClass) -> Seq<char>
    decreases s.len(),
{
    if s.len() > 0 && in_class(k, s.last()) {
        trim_end(s.drop_last(), k)
    } else {
        s
    }
}

/// `s` without its leading and trailing characters of class `k`.
pub open spec fn trim(s: Seq<char>, k: TrimClass) -> Seq<char> {
    trim_end(trim_start(s, k), k)
}

/// What `str::trim` returns.
pub open spec fn trim_white(s: Seq<char>) -> Seq<char> {
    trim(s, TrimClass::WhiteSpace)
}

/// `s.trim().is_empty()`.
pub open spec fn is_blank(s: Seq<char>) -> bool {
    trim_white(s).len() == 0
}

/// The pieces that `str::split(sep)` yields: always at least one piece,
/// empty pieces included.
pub open spec fn split_on(s: Seq<char>, sep: char) -> Seq<Seq<char>>
    decreases s.len(),
{
    if s.len() == 0 {
        seq![Seq::empty()]
    } else {
        let pieces = split_on(s.drop_last(), sep);
        if s.last() == sep {
            pieces.push(Seq::empty())
        } else {
            pieces.update(pieces.len() - 1, pieces.last().push(s.last()))
        }
    }
}

/// `parts` without its empty members, order kept.
pub open spec fn drop_empty(parts: Seq<Seq<char>>) -> Seq<Seq<char>>
    decreases parts.len(),
{
    if parts.len() == 0 {
        Seq::empty()
    } else if parts.last().len() > 0 {
        drop_empty(parts.drop_last()).push(parts.last())
    } else {
        drop_empty(parts.drop_last())
    }
}

/// The non-empty pieces of `s` between slashes.
pub open spec fn slash_segments(s: Seq<char>) -> Seq<Seq<char>> {
    drop_empty(split_on(s, '/'))
}

/// `parts` joined with `sep` between neighbours.
pub open spec fn join(parts: Seq<Seq<char>>, sep: Seq<char>) -> Seq<char>
    decreases parts.len(),
{
    if parts.len() == 0 {
        Seq::empty()
    } else if parts.len() == 1 {
        parts[0]
    } else {
        join(parts.drop_last(), sep) + sep + parts.last()
    }
}

/// The views of a sequence of strings.
pub open spec fn string_views(v: Seq<String>) -> Seq<Seq<char>> {
    Seq::new(v.len(), |i: int| v[i]@)
}

/// What `str::trim_start_matches(prefix)` returns: `s` with every leading
/// repetition of a non-empty `prefix` removed.
pub open spec fn strip_prefixes(s: Seq<char>, prefix: Seq<char>) -> Seq<char>
    decreases s.len(),
{
    if prefix.len() > 0 && prefix.len() <= s.len() && s.take(prefix.len() as int) == prefix {
        strip_prefixes(s.skip(prefix.len() as int), prefix)
    } else {
        s
    }
}

/// `pattern` occurs in `s` at position `i`.
pub open spec fn occurs_at(s: Seq<char>, pattern: Seq<char>, i: int) -> bool {
    0 <= i && i + pattern.len() <= s.len() && s.subrange(i, i + pattern.len()) == pattern
}

/// `str::contains(pattern)`.
pub open spec fn contains_text(s: Seq<char>, pattern: Seq<char>) -> bool {
    exists|i: int| occurs_at(s, pattern, i)
}

/// The decimal digit `d`.
pub open spec fn digit_char(d: nat) -> char {
    (48 + d) as char
}

/// How `Display` writes a non-negative integer.
pub open spec fn decimal(n: nat) -> Seq<char>
    decreases n,
{
    if n < 10 {
        seq![digit_char(n)]
    } else {
        decimal(n / 10).push(digit_char(n % 10))
    }
}

/// How `Display` writes a signed integer.
pub open spec fn signed_decimal(n: int) -> Seq<char> {
    if n < 0 {
        seq!['-'] + decimal((-n) as nat)
    } else {
        decimal(n as nat)
    }
}

// ---------------------------------------------------------------------------
// Lemmas
// ---------------------------------------------------------------------------

proof fn lemma_trim_start_step(s: Seq<char>, k: TrimClass, i: int)
    requires
        0 <= i < s.len(),
        in_class(k, s[i]),
    ensures
        trim_start(s.skip(i), k) == trim_start(s.skip(i + 1), k),
{
    assert(s.skip(i).drop_first() =~= s.skip(i + 1));
}

proof fn lemma_trim_end_step(s: Seq<char>, k: TrimClass, i: int, j: int)
    requires
        0 <= i < j <= s.len(),
        in_class(k, s[j - 1]),
    ensures
        trim_end(s.subrange(i, j), k) == trim_end(s.subrange(i, j - 1), k),
{
    assert(s.subrange(i, j).drop_last() =~= s.subrange(i, j - 1));
}

/// Every piece of a split is free of the separator.
pub proof fn lemma_split_pieces_free(s: Seq<char>, sep: char)
    ensures
        split_on(s, sep).len() >= 1,
        forall|i: int| 0 <= i < split_on(s, sep).len() ==> !#[trigger] split_on(s, sep)[i].contains(sep),
    decreases s.len(),
{
    if s.len() > 0 {
        lemma_split_pieces_free(s.drop_last(), sep);
        let pieces = split_on(s.drop_last(), sep);
        if s.last() != sep {
            let p = pieces.last();
            assert forall|j: int| 0 <= j < p.push(s.last()).len() implies p.push(s.last())[j] != sep by {
                if j < p.len() {
                    assert(p[j] != sep) by {
                        if p[j] == sep {
                            assert(p.contains(sep));
                        }
                    }
                }
            }
        }
        assert forall|i: int| 0 <= i < split_on(s, sep).len() implies !#[trigger] split_on(s, sep)[i].contains(sep) by {
            let q = split_on(s, sep)[i];
            if q.contains(sep) {
                let j = choose|j: int| 0 <= j < q.len() && q[j] == sep;
                if i < pieces.len() - 1 || (s.last() == sep && i == pieces.len() - 1) {
                    assert(pieces[i].contains(sep)) by {
                        assert(pieces[i][j] == sep);
                    }
                }
            }
        }
    }
}

/// A text free of the separator is a single piece.
pub proof fn lemma_split_without_separator(s: Seq<char>, sep: char)
    requires
        !s.contains(sep),
    ensures
        split_on(s, sep) == seq![s],
    decreases s.len(),
{
    if s.len() > 0 {
        assert(!s.drop_last().contains(sep)) by {
            if s.drop_last().contains(sep) {
                let j = choose|j: int| 0 <= j < s.drop_last().len() && s.drop_last()[j] == sep;
                assert(s[j] == sep);
            }
        }
        lemma_split_without_separator(s.drop_last(), sep);
        assert(s.last() != sep) by {
            assert(s[s.len() - 1] == s.last());
        }
        assert(s.drop_last().push(s.last()) =~= s);
        assert(split_on(s, sep) =~= seq![s]);
    } else {
        assert(s =~= Seq::<char>::empty());
    }
}

/// Splitting at a separator splits the pieces of both sides apart.
pub proof fn lemma_split_concat(a: Seq<char>, b: Seq<char>, sep: char)
    ensures
        split_on(a + seq![sep] + b, sep) == split_on(a, sep) + split_on(b, sep),
    decreases b.len(),
{
    let x = a + seq![sep];
    if b.len() == 0 {
        assert(x + b =~= x);
        assert(x.drop_last() =~= a);
        assert(split_on(b, sep) =~= seq![Seq::<char>::empty()]);
        assert(split_on(x, sep) =~= split_on(a, sep) + split_on(b, sep));
    } else {
        lemma_split_concat(a, b.drop_last(), sep);
        lemma_split_pieces_free(a, sep);
        lemma_split_pieces_free(b.drop_last(), sep);
        assert((x + b).drop_last() =~= x + b.drop_last());
        assert((x + b).last() == b.last());
        let left = split_on(a, sep);
        let right = split_on(b.drop_last(), sep);
        if b.last() == sep {
            assert(split_on(x + b, sep) =~= left + split_on(b, sep));
        } else {
            assert((left + right).last() == right.last());
            assert(split_on(x + b, sep) =~= left + split_on(b, sep));
        }
    }
}

/// Splitting a joined list of separator-free parts gives the parts back.
pub proof fn lemma_split_join(parts: Seq<Seq<char>>, sep: char)
    requires
        parts.len() >= 1,
        forall|i: int| 0 <= i < parts.len() ==> !#[trigger] parts[i].contains(sep),
    ensures
        split_on(join(parts, seq![sep]), sep) == parts,
    decreases parts.len(),
{
    if parts.len() == 1 {
        assert(!parts[0].contains(sep));
        lemma_split_without_separator(parts[0], sep);
        assert(seq![parts[0]] =~= parts);
    } else {
        let init = parts.drop_last();
        assert forall|i: int| 0 <= i < init.len() implies !#[trigger] init[i].contains(sep) by {
            assert(init[i] == parts[i]);
        }
        lemma_split_join(init, sep);
        assert(!parts.last().contains(sep)) by {
            assert(parts[parts.len() - 1] == parts.last());
        }
        lemma_split_without_separator(parts.last(), sep);
        lemma_split_concat(join(init, seq![sep]), parts.last(), sep);
        assert(init + seq![parts.last()] =~= parts);
    }
}

/// Every member of `drop_empty(parts)` is a non-empty member of `parts`.
pub proof fn lemma_drop_empty_members(parts: Seq<Seq<char>>)
    ensures
        forall|i: int| 0 <= i < drop_empty(parts).len() ==> (#[trigger] drop_empty(parts)[i]).len() > 0
            && parts.contains(drop_empty(parts)[i]),
    decreases parts.len(),
{
    if parts.len() > 0 {
        let init = parts.drop_last();
        lemma_drop_empty_members(init);
        assert forall|i: int| 0 <= i < drop_empty(parts).len() implies (#[trigger] drop_empty(parts)[i]).len() > 0
            && parts.contains(drop_empty(parts)[i]) by {
            if i < drop_empty(init).len() {
                let j = choose|j: int| 0 <= j < init.len() && init[j] == drop_empty(init)[i];
                assert(parts[j] == init[j]);
            } else {
                assert(parts[parts.len() - 1] == parts.last());
            }
        }
    }
}

/// Every slash segment is non-empty and free of slashes.
pub proof fn lemma_slash_segments_wellformed(s: Seq<char>)
    ensures
        forall|i: int| 0 <= i < slash_segments(s).len() ==> (#[trigger] slash_segments(s)[i]).len() > 0
            && !slash_segments(s)[i].contains('/'),
{
    lemma_drop_empty_members(split_on(s, '/'));
    lemma_split_pieces_free(s, '/');
    assert forall|i: int| 0 <= i < slash_segments(s).len() implies (#[trigger] slash_segments(s)[i]).len() > 0
        && !slash_segments(s)[i].contains('/') by {
        let pieces = split_on(s, '/');
        let j = choose|j: int| 0 <= j < pieces.len() && pieces[j] == slash_segments(s)[i];
        assert(!pieces[j].contains('/'));
    }
}

/// Joining non-empty slash-free segments with slashes and taking the slash
/// segments of the result gives the segments back.
pub proof fn lemma_slash_segments_of_join(parts: Seq<Seq<char>>)
    requires
        forall|i: int| 0 <= i < parts.len() ==> (#[trigger] parts[i]).len() > 0 && !parts[i].contains('/'),
    ensures
        slash_segments(join(parts, seq!['/'])) == parts,
{
    if parts.len() == 0 {
        assert(join(parts, seq!['/']) =~= Seq::<char>::empty());
        let single = seq![Seq::<char>::empty()];
        assert(single.last().len() == 0);
        assert(single.drop_last() =~= Seq::<Seq<char>>::empty());
        assert(drop_empty(Seq::<Seq<char>>::empty()) =~= Seq::<Seq<char>>::empty());
        assert(drop_empty(single) =~= Seq::<Seq<char>>::empty());
        assert(parts =~= Seq::<Seq<char>>::empty());
    } else {
        lemma_split_join(parts, '/');
        lemma_drop_empty_all_nonempty(parts);
    }
}

proof fn lemma_drop_empty_all_nonempty(parts: Seq<Seq<char>>)
    requires
        forall|i: int| 0 <= i < parts.len() ==> (#[trigger] parts[i]).len() > 0,
    ensures
        drop_empty(parts) == parts,
    decreases parts.len(),
{
    if parts.len() > 0 {
        let init = parts.drop_last();
        assert forall|i: int| 0 <= i < init.len() implies (#[trigger] init[i]).len() > 0 by {
            assert(init[i] == parts[i]);
        }
        lemma_drop_empty_all_nonempty(init);
        assert(parts[parts.len() - 1] == parts.last());
        assert(init.push(parts.last()) =~= parts);
    }
}

// ---------------------------------------------------------------------------
// Executable helpers
// ---------------------------------------------------------------------------

/// Appends one character to a string.
#[verifier::external_body]
pub(crate) fn push_char(s: &mut String, c: char)
    ensures
        final(s)@ == old(s)@.push(c),
{
    s.push(c);
}

/// The characters of a string slice, in order.
pub fn to_chars(s: &str) -> (r: Vec<char>)
    ensures
        r@ == s@,
{
    let mut r: Vec<char> = Vec::new();
    for c in it: s.chars()
        invariant
            r@ == it.seq().take(it.index() as int),
    {
        r.push(c);
    }
    r
}

/// The string made of the characters `v[from..to]`.
pub fn string_from_range(v: &Vec<char>, from: usize, to: usize) -> (r: String)
    requires
        from <= to <= v.len(),
    ensures
        r@ == v@.subrange(from as int, to as int),
{
    let mut r = String::new();
    let mut i = from;
    while i < to
        invariant
            from <= i <= to <= v.len(),
            r@ == v@.subrange(from as int, i as int),
        decreases to - i,
    {
        push_char(&mut r, v[i]);
        assert(v@.subrange(from as int, i + 1) =~= v@.subrange(from as int, i as int).push(v[i as int]));
        i += 1;
    }
    r
}

/// The string made of the characters of `v`.
pub fn string_from_chars(v: &Vec<char>) -> (r: String)
    ensures
        r@ == v@,
{
    let r = string_from_range(v, 0, v.len());
    assert(v@.subrange(0, v@.len() as int) =~= v@);
    r
}

/// Whether `c` is Unicode white space (`char::is_whitespace`).
pub fn is_white_space_char(c: char) -> (r: bool)
    ensures
        r == is_white_space(c),
{
    let u = c as u32;
    (0x09 <= u && u <= 0x0d) || u == 0x20 || u == 0x85 || u == 0xa0 || u == 0x1680 || (0x2000 <= u
        && u <= 0x200a) || u == 0x2028 || u == 0x2029 || u == 0x202f || u == 0x205f || u == 0x3000
}

fn in_class_char(k: TrimClass, c: char) -> (r: bool)
    ensures
        r == in_class(k, c),
{
    match k {
        TrimClass::WhiteSpace => is_white_space_char(c),
        TrimClass::Slash => c == '/',
    }
}

/// The bounds `(i, j)` such that `v[i..j]` is `v` trimmed of class `k`.
fn trim_bounds(v: &Vec<char>, k: TrimClass) -> (r: (usize, usize))
    ensures
        r.0 <= r.1 <= v.len(),
        v@.subrange(r.0 as int, r.1 as int) == trim(v@, k),
{
    let n = v.len();
    let mut i: usize = 0;
    assert(v@.skip(0) =~= v@);
    while i < n && in_class_char(k, v[i])
        invariant
            0 <= i <= n == v.len(),
            trim_start(v@, k) == trim_start(v@.skip(i as int), k),
        decreases n - i,
    {
        proof {
            lemma_trim_start_step(v@, k, i as int);
        }
        i += 1;
    }
    assert(trim_start(v@, k) == v@.skip(i as int));
    assert(v@.skip(i as int) =~= v@.subrange(i as int, n as int));
    let mut j: usize = n;
    while j > i && in_class_char(k, v[j - 1])
        invariant
            i <= j <= n == v.len(),
            trim_end(v@.subrange(i as int, n as int), k) == trim_end(v@.subrange(i as int, j as int), k),
        decreases j,
    {
        proof {
            lemma_trim_end_step(v@, k, i as int, j as int);
        }
        j -= 1;
    }
    proof {
        let t = v@.subrange(i as int, j as int);
        if t.len() > 0 {
            assert(t.last() == v@[j - 1]);
        }
    }
    (i, j)
}

/// `s` without leading and trailing characters of class `k`.
pub fn trim_text(s: &str, k: TrimClass) -> (r: String)
    ensures
        r@ == trim(s@, k),
{
    let v = to_chars(s);
    let (i, j) = trim_bounds(&v, k);
    string_from_range(&v, i, j)
}

/// `s.trim().is_empty()`.
pub fn is_blank_text(s: &str) -> (r: bool)
    ensures
        r == is_blank(s@),
{
    let v = to_chars(s);
    let (i, j) = trim_bounds(&v, TrimClass::WhiteSpace);
    i == j
}

/// The non-empty pieces of `s` between slashes (`s.split('/')` with the
/// empty pieces filtered out).
pub fn split_slash_segments(s: &str) -> (r: Vec<String>)
    ensures
        string_views(r@) == slash_segments(s@),
{
    let v = to_chars(s);
    let n = v.len();
    let mut out: Vec<String> = Vec::new();
    let mut cur: Vec<char> = Vec::new();
    let ghost mut done: Seq<Seq<char>> = Seq::empty();
    let mut i: usize = 0;
    assert(v@.take(0) =~= Seq::<char>::empty());
    assert(split_on(v@.take(0), '/') =~= done.push(cur@));
    while i < n
        invariant
            0 <= i <= n == v.len(),
            split_on(v@.take(i as int), '/') == done.push(cur@),
            string_views(out@) == drop_empty(done),
        decreases n - i,
    {
        let c = v[i];
        assert(v@.take(i + 1).drop_last() =~= v@.take(i as int));
        assert(v@.take(i + 1).last() == c);
        if c == '/' {
            if cur.len() > 0 {
                let piece = string_from_chars(&cur);
                out.push(piece);
                assert(string_views(out@) =~= drop_empty(done.push(cur@))) by {
                    assert(done.push(cur@).drop_last() =~= done);
                }
            } else {
                assert(drop_empty(done.push(cur@)) =~= drop_empty(done)) by {
                    assert(done.push(cur@).drop_last() =~= done);
                }
            }
            proof {
                done = done.push(cur@);
            }
            cur = Vec::new();
            assert(split_on(v@.take(i + 1), '/') =~= done.push(cur@));
        } else {
            let ghost old_cur = cur@;
            cur.push(c);
            assert(split_on(v@.take(i + 1), '/') =~= done.push(cur@)) by {
                assert(done.push(old_cur).update(done.len() as int, old_cur.push(c)) =~= done.push(cur@));
            }
        }
        i += 1;
    }
    assert(v@.take(n as int) =~= v@);
    if cur.len() > 0 {
        let piece = string_from_chars(&cur);
        out.push(piece);
        assert(string_views(out@) =~= drop_empty(done.push(cur@))) by {
            assert(done.push(cur@).drop_last() =~= done);
        }
    } else {
        assert(drop_empty(done.push(cur@)) =~= drop_empty(done)) by {
            assert(done.push(cur@).drop_last() =~= done);
        }
    }
    out
}

/// Whether `pattern` occurs in `v` at position `i`.
fn occurs_at_exec(v: &Vec<char>, pattern: &Vec<char>, i: usize) -> (r: bool)
    requires
        i <= v.len(),
    ensures
        r == occurs_at(v@, pattern@, i as int),
{
    if pattern.len() > v.len() - i {
        return false;
    }
    let m = pattern.len();
    let mut k: usize = 0;
    while k < m
        invariant
            0 <= k <= m == pattern.len(),
            i + m <= v.len(),
            forall|t: int| 0 <= t < k ==> v@[i + t] == pattern@[t],
        decreases m - k,
    {
        if v[i + k] != pattern[k] {
            assert(v@.subrange(i as int, i + m)[k as int] != pattern@[k as int]);
            return false;
        }
        k += 1;
    }
    assert(v@.subrange(i as int, i + m) =~= pattern@);
    true
}

/// `s.contains(pattern)`.
pub fn contains_text_exec(s: &str, pattern: &str) -> (r: bool)
    ensures
        r == contains_text(s@, pattern@),
{
    let v = to_chars(s);
    let p = to_chars(pattern);
    let n = v.len();
    let m = p.len();
    if m == 0 {
        assert(occurs_at(v@, p@, 0)) by {
            assert(v@.subrange(0, 0) =~= p@);
        }
        return true;
    }
    if m > n {
        return false;
    }
    let last = n - m;
    let mut i: usize = 0;
    while i <= last
        invariant
            0 <= i <= last + 1,
            last + m == n == v.len(),
            m == p.len() > 0,
            v@ == s@,
            p@ == pattern@,
            forall|t: int| 0 <= t < i ==> !occurs_at(v@, p@, t),
        decreases last + 1 - i,
    {
        if occurs_at_exec(&v, &p, i) {
            assert(occurs_at(v@, p@, i as int));
            return true;
        }
        i += 1;
    }
    assert forall|t: int| !occurs_at(v@, p@, t) by {
        if 0 <= t && t <= last {
            assert(t < i);
        }
    }
    false
}

/// `s.trim_start_matches(prefix)`.
pub fn strip_prefixes_text(s: &str, prefix: &str) -> (r: String)
    ensures
        r@ == strip_prefixes(s@, prefix@),
{
    let v = to_chars(s);
    let p = to_chars(prefix);
    let n = v.len();
    let m = p.len();
    let mut i: usize = 0;
    assert(v@.skip(0) =~= v@);
    if m > 0 {
        while i <= n && occurs_at_exec(&v, &p, i)
            invariant
                0 <= i <= n == v.len(),
                m == p.len() > 0,
                strip_prefixes(v@, p@) == strip_prefixes(v@.skip(i as int), p@),
            decreases n - i,
        {
            proof {
                let rest = v@.skip(i as int);
                assert(rest.take(m as int) =~= v@.subrange(i as int, i + m));
                assert(rest.skip(m as int) =~= v@.skip(i + m));
            }
            i += m;
        }
        proof {
            let rest = v@.skip(i as int);
            if m <= rest.len() {
                assert(rest.take(m as int) =~= v@.subrange(i as int, i + m));
            }
        }
    }
    assert(v@.skip(i as int) =~= v@.subrange(i as int, n as int));
    string_from_range(&v, i, n)
}

/// Appends the decimal digits of `n` to `s`.
pub fn push_decimal(s: &mut String, n: u64)
    ensures
        final(s)@ == old(s)@ + decimal(n as nat),
    decreases n,
{
    if n >= 10 {
        push_decimal(s, n / 10);
    }
    let d: u8 = (n % 10) as u8;
    let c = (48u8 + d) as char;
    assert(c == digit_char((n % 10) as nat));
    push_char(s, c);
    proof {
        if n >= 10 {
            assert(old(s)@ + decimal((n / 10) as nat) + seq![c] =~= old(s)@ + decimal(n as nat));
        } else {
            assert(old(s)@ + seq![c] =~= old(s)@ + decimal(n as nat));
        }
    }
}

/// Appends the decimal form of the signed `n` to `s`.
pub fn push_signed_decimal(s: &mut String, n: i64)
    ensures
        final(s)@ == old(s)@ + signed_decimal(n as int),
{
    if n < 0 {
        push_char(s, '-');
        let magnitude: u64 = if n == i64::MIN {
            9223372036854775808u64
        } else {
            (-n) as u64
        };
        push_decimal(s, magnitude);
        assert(old(s)@.push('-') + decimal(magnitude as nat) =~= old(s)@ + signed_decimal(n as int));
    } else {
        push_decimal(s, n as u64);
    }
}

/// Appends `t` to `s`.
pub fn push_text(s: &mut String, t: &str)
    ensures
        final(s)@ == old(s)@ + t@,
{
    s.append(t);
}

/// The value of a sequence of decimal digit characters.
pub open spec fn digits_value(s: Seq<char>) -> int
    decreases s.len(),
{
    if s.len() == 0 {
        0
    } else {
        10 * digits_value(s.drop_last()) + ((s.last() as u32) as int - 48)
    }
}

/// Every character of `s` is a decimal digit.
pub open spec fn all_digits(s: Seq<char>) -> bool {
    forall|i: int| 0 <= i < s.len() ==> 48 <= #[trigger] (s[i] as u32) <= 57
}

proof fn lemma_digit_char(d: nat)
    requires
        d < 10,
    ensures
        digit_char(d) as u32 == 48 + d,
        digit_char(d) as int == 48 + d,
{
}

proof fn lemma_decimal_digits(n: nat)
    ensures
        decimal(n).len() > 0,
        all_digits(decimal(n)),
        digits_value(decimal(n)) == n,
    decreases n,
{
    lemma_digit_char(n % 10);
    if n < 10 {
        assert(decimal(n).drop_last() =~= Seq::<char>::empty());
        assert(digits_value(Seq::<char>::empty()) == 0);
        assert(decimal(n).last() == digit_char(n));
    } else {
        lemma_decimal_digits(n / 10);
        let d = decimal(n);
        assert(d.drop_last() =~= decimal(n / 10));
        assert(d.last() == digit_char(n % 10));
        assert(digits_value(d) == 10 * (n / 10) + n % 10);
        assert(10 * (n / 10) + n % 10 == n) by (nonlinear_arith);
        assert forall|i: int| 0 <= i < d.len() implies 48 <= #[trigger] (d[i] as u32) <= 57 by {
            if i < d.len() - 1 {
                assert(d[i] == decimal(n / 10)[i]);
            }
        }
    }
}

proof fn lemma_digits_value_prefix(s: Seq<char>, k: int)
    requires
        all_digits(s),
        0 <= k <= s.len(),
    ensures
        0 <= digits_value(s.take(k)) <= digits_value(s),
    decreases s.len(),
{
    if s.len() > 0 {
        let init = s.drop_last();
        assert(all_digits(init)) by {
            assert forall|i: int| 0 <= i < init.len() implies 48 <= #[trigger] (init[i] as u32) <= 57 by {
                assert(init[i] == s[i]);
            }
        }
        assert(48 <= (s[s.len() - 1] as u32) <= 57);
        if k == s.len() {
            assert(s.take(k) =~= s);
            lemma_digits_value_prefix(init, 0);
        } else {
            lemma_digits_value_prefix(init, k);
            assert(init.take(k) =~= s.take(k));
        }
    } else {
        assert(s.take(k) =~= s);
    }
}

/// The `i32` that `s` writes in canonical decimal form (as `Display` writes
/// it: an optional minus sign, no leading zeros, no `-0`), if any.
pub fn parse_canonical_i32(s: &str) -> (r: Option<i32>)
    ensures
        r matches Some(v) ==> s@ == signed_decimal(v as int),
        forall|v: i32| s@ == signed_decimal(v as int) ==> r == Some(v),
{
    let chars = to_chars(s);
    let n = chars.len();
    if n == 0 {
        proof {
            assert forall|v: i32| s@ != signed_decimal(v as int) by {
                lemma_decimal_digits(if v < 0 { (-v) as nat } else { v as nat });
            }
        }
        return None;
    }
    let negative = chars[0] == '-';
    let start: usize = if negative { 1 } else { 0 };
    let ghost magnitude_text = chars@.subrange(start as int, n as int);
    proof {
        assert forall|v: i32| s@ == signed_decimal(v as int) implies all_digits(magnitude_text) && digits_value(
            magnitude_text,
        ) == (if v < 0 { -v } else { v as int }) && (v < 0 <==> negative) by {
            let m: nat = if v < 0 { (-v) as nat } else { v as nat };
            lemma_decimal_digits(m);
            if v < 0 {
                assert(magnitude_text =~= decimal(m));
            } else {
                assert(48 <= (decimal(m)[0] as u32) <= 57);
                assert(magnitude_text =~= decimal(m));
            }
        }
    }
    let mut acc: u64 = 0;
    let mut i: usize = start;
    assert(chars@.subrange(start as int, start as int) =~= Seq::<char>::empty());
    while i < n
        invariant
            start <= i <= n == chars.len(),
            chars@ == s@,
            magnitude_text == chars@.subrange(start as int, n as int),
            acc as int == digits_value(chars@.subrange(start as int, i as int)),
            all_digits(chars@.subrange(start as int, i as int)),
            forall|v: i32| s@ == signed_decimal(v as int) ==> all_digits(magnitude_text) && digits_value(
                magnitude_text,
            ) == (if v < 0 { -v } else { v as int }),
        decreases n - i,
    {
        let c = chars[i];
        let u = c as u32;
        if u < 48 || u > 57 {
            proof {
                assert forall|v: i32| s@ != signed_decimal(v as int) by {
                    if s@ == signed_decimal(v as int) {
                        assert(magnitude_text[i - start] == c);
                    }
                }
            }
            return None;
        }
        if acc > 2147483648 {
            proof {
                assert forall|v: i32| s@ != signed_decimal(v as int) by {
                    if s@ == signed_decimal(v as int) {
                        lemma_digits_value_prefix(magnitude_text, i - start);
                        assert(magnitude_text.take(i - start) =~= chars@.subrange(start as int, i as int));
                    }
                }
            }
            return None;
        }
        let ghost next = chars@.subrange(start as int, i + 1);
        assert(next.drop_last() =~= chars@.subrange(start as int, i as int));
        assert(next.last() == c);
        acc = acc * 10 + (u - 48) as u64;
        assert(all_digits(next)) by {
            assert forall|j: int| 0 <= j < next.len() implies 48 <= #[trigger] (next[j] as u32) <= 57 by {
                if j < next.len() - 1 {
                    assert(next[j] == chars@.subrange(start as int, i as int)[j]);
                }
            }
        }
        i += 1;
    }
    if acc > 2147483648 || (acc == 2147483648 && !negative) {
        proof {
            assert forall|v: i32| s@ != signed_decimal(v as int) by {
                if s@ == signed_decimal(v as int) {
                    assert(chars@.subrange(start as int, n as int) == magnitude_text);
                }
            }
        }
        return None;
    }
    let value: i64 = if negative { -(acc as i64) } else { acc as i64 };
    let mut canonical = String::new();
    push_signed_decimal(&mut canonical, value);
    let written = s.to_owned();
    if canonical == written {
        Some(value as i32)
    } else {
        proof {
            assert forall|v: i32| s@ != signed_decimal(v as int) by {
                if s@ == signed_decimal(v as int) {
                    assert(chars@.subrange(start as int, n as int) == magnitude_text);
                    assert(v as int == value);
                }
            }
        }
        None
    }
}

/// Decimal forms are unambiguous: two integers with the same decimal form
/// are equal.
pub proof fn lemma_signed_decimal_injective(a: int, b: int)
    requires
        signed_decimal(a) == signed_decimal(b),
    ensures
        a == b,
{
    let ma: nat = if a < 0 { (-a) as nat } else { a as nat };
    let mb: nat = if b < 0 { (-b) as nat } else { b as nat };
    lemma_decimal_digits(ma);
    lemma_decimal_digits(mb);
    let da = decimal(ma);
    let db = decimal(mb);
    if a < 0 && b >= 0 {
        assert(signed_decimal(a)[0] == '-');
        assert(48 <= (db[0] as u32) <= 57);
    } else if a >= 0 && b < 0 {
        assert(signed_decimal(b)[0] == '-');
        assert(48 <= (da[0] as u32) <= 57);
    } else if a < 0 {
        assert(signed_decimal(a).drop_first() =~= da);
        assert(signed_decimal(b).drop_first() =~= db);
    }
}

proof fn lemma_trim_start_subset(s: Seq<char>, k: TrimClass, c: char)
    requires
        trim_start(s, k).contains(c),
    ensures
        s.contains(c),
    decreases s.len(),
{
    if s.len() > 0 && in_class(k, s[0]) {
        lemma_trim_start_subset(s.drop_first(), k, c);
        let j = choose|j: int| 0 <= j < s.drop_first().len() && s.drop_first()[j] == c;
        assert(s[j + 1] == c);
    }
}

proof fn lemma_trim_end_subset(s: Seq<char>, k: TrimClass, c: char)
    requires
        trim_end(s, k).contains(c),
    ensures
        s.contains(c),
    decreases s.len(),
{
    if s.len() > 0 && in_class(k, s.last()) {
        lemma_trim_end_subset(s.drop_last(), k, c);
        let j = choose|j: int| 0 <= j < s.drop_last().len() && s.drop_last()[j] == c;
        assert(s[j] == c);
    }
}

/// A trimmed text holds only characters of the text it was trimmed from.
pub proof fn lemma_trim_subset(s: Seq<char>, k: TrimClass, c: char)
    requires
        trim(s, k).contains(c),
    ensures
        s.contains(c),
{
    lemma_trim_end_subset(trim_start(s, k), k, c);
    lemma_trim_start_subset(s, k, c);
}

proof fn lemma_trim_start_shape(s: Seq<char>, k: TrimClass)
    ensures
        trim_start(s, k).len() > 0 ==> !in_class(k, trim_start(s, k)[0]),
    decreases s.len(),
{
    if s.len() > 0 && in_class(k, s[0]) {
        lemma_trim_start_shape(s.drop_first(), k);
    }
}

proof fn lemma_trim_end_shape(s: Seq<char>, k: TrimClass)
    ensures
        trim_end(s, k).len() > 0 ==> !in_class(k, trim_end(s, k).last()),
        trim_end(s, k).len() > 0 && s.len() > 0 ==> trim_end(s, k)[0] == s[0],
    decreases s.len(),
{
    if s.len() > 0 && in_class(k, s.last()) {
        lemma_trim_end_shape(s.drop_last(), k);
    }
}

/// A trimmed text neither starts nor ends with a character of the class.
pub proof fn lemma_trim_ends(s: Seq<char>, k: TrimClass)
    ensures
        trim(s, k).len() > 0 ==> !in_class(k, trim(s, k)[0]) && !in_class(k, trim(s, k).last()),
{
    lemma_trim_start_shape(s, k);
    lemma_trim_end_shape(trim_start(s, k), k);
}

/// The value that `str::parse` reads from an unsigned decimal text: an
/// optional `+`, then one or more decimal digits (`None` for anything else).
pub open spec fn unsigned_text_value(s: Seq<char>) -> Option<int> {
    let body = if s.len() > 0 && s[0] == '+' {
        s.drop_first()
    } else {
        s
    };
    if body.len() > 0 && all_digits(body) {
        Some(digits_value(body))
    } else {
        None
    }
}

/// `s.parse::<u16>().ok()`.
pub fn parse_u16(s: &str) -> (r: Option<u16>)
    ensures
        r == (match unsigned_text_value(s@) {
            Some(v) => if v <= 65535 {
                Some(v as u16)
            } else {
                None::<u16>
            },
            None => None::<u16>,
        }),
{
    let chars = to_chars(s);
    let n = chars.len();
    let start: usize = if n > 0 && chars[0] == '+' { 1 } else { 0 };
    let ghost body = chars@.subrange(start as int, n as int);
    assert(body =~= (if s@.len() > 0 && s@[0] == '+' { s@.drop_first() } else { s@ }));
    if start == n {
        return None;
    }
    let mut acc: u64 = 0;
    let mut i: usize = start;
    assert(chars@.subrange(start as int, start as int) =~= Seq::<char>::empty());
    while i < n
        invariant
            start <= i <= n == chars.len(),
            start < n,
            chars@ == s@,
            body == chars@.subrange(start as int, n as int),
            body == (if s@.len() > 0 && s@[0] == '+' {
                s@.drop_first()
            } else {
                s@
            }),
            acc as int == digits_value(chars@.subrange(start as int, i as int)),
            acc <= 65535,
            all_digits(chars@.subrange(start as int, i as int)),
        decreases n - i,
    {
        let c = chars[i];
        let u = c as u32;
        if u < 48 || u > 57 {
            assert(!all_digits(body)) by {
                assert(body[i - start] == c);
            }
            return None;
        }
        let ghost next = chars@.subrange(start as int, i + 1);
        assert(next.drop_last() =~= chars@.subrange(start as int, i as int));
        assert(next.last() == c);
        assert(all_digits(next)) by {
            assert forall|j: int| 0 <= j < next.len() implies 48 <= #[trigger] (next[j] as u32) <= 57 by {
                if j < next.len() - 1 {
                    assert(next[j] == chars@.subrange(start as int, i as int)[j]);
                }
            }
        }
        acc = acc * 10 + (u - 48) as u64;
        if acc > 65535 {
            proof {
                if all_digits(body) {
                    lemma_digits_value_prefix(body, i + 1 - start);
                    assert(body.take(i + 1 - start) =~= next);
                }
            }
            return None;
        }
        i += 1;
    }
    assert(chars@.subrange(start as int, n as int) == body);
    Some(acc as u16)
}

} // verus!
