//! Character-sequence primitives shared by the prompt, template, hotkey and
//! registry code. Text is handled as `Vec<char>` internally and specified
//! over `Seq<char>`, the view that vstd gives `str` and `String`.
use vstd::prelude::*;

verus! {

broadcast use vstd::string::group_string_axioms;

/// Views of a sequence of strings.
pub open spec fn views(v: Seq<String>) -> Seq<Seq<char>> {
    v.map_values(|s: String| s@)
}

/// Views of a sequence of character vectors.
pub open spec fn vec_views(v: Seq<Vec<char>>) -> Seq<Seq<char>> {
    v.map_values(|s: Vec<char>| s@)
}

/// The Unicode `White_Space` characters: the set that `char::is_whitespace`
/// (and therefore `str::trim`) recognises.
pub open spec fn is_ws(c: char) -> bool {
    let u = c as u32;
    ||| 0x09 <= u <= 0x0d
    ||| u == 0x20
    ||| u == 0x85
    ||| u == 0xa0
    ||| u == 0x1680
    ||| 0x2000 <= u <= 0x200a
    ||| u == 0x2028
    ||| u == 0x2029
    ||| u == 0x202f
    ||| u == 0x205f
    ||| u == 0x3000
}

/// The character sets that trimming removes.
pub enum CharSet {
    /// Unicode whitespace (`str::trim`).
    Whitespace,
    /// Newline, space, tab and carriage return (the set a code fence's
    /// content is trimmed of).
    FencePadding,
}

pub open spec fn in_set(set: CharSet, c: char) -> bool {
    match set {
        CharSet::Whitespace => is_ws(c),
        CharSet::FencePadding => c == '\n' || c == ' ' || c == '\t' || c == '\r',
    }
}

/// `s` with its leading characters of `set` removed.
pub open spec fn trim_start_in(s: Seq<char>, set: CharSet) -> Seq<char>
    decreases s.len(),
{
    if s.len() > 0 && in_set(set, s[0]) {
        trim_start_in(s.subrange(1, s.len() as int), set)
    } else {
        s
    }
}

/// `s` with its trailing characters of `set` removed.
pub open spec fn trim_end_in(s: Seq<char>, set: CharSet) -> Seq<char>
    decreases s.len(),
{
    if s.len() > 0 && in_set(set, s.last()) {
        trim_end_in(s.drop_last(), set)
    } else {
        s
    }
}

pub open spec fn trim_in(s: Seq<char>, set: CharSet) -> Seq<char> {
    trim_end_in(trim_start_in(s, set), set)
}

/// `str::trim_start`.
pub open spec fn trim_start(s: Seq<char>) -> Seq<char> {
    trim_start_in(s, CharSet::Whitespace)
}

/// `str::trim`.
pub open spec fn trim(s: Seq<char>) -> Seq<char> {
    trim_in(s, CharSet::Whitespace)
}

/// `p` occurs in `s` at index `i`.
pub open spec fn occurs_at(s: Seq<char>, p: Seq<char>, i: int) -> bool {
    0 <= i && i + p.len() <= s.len() && s.subrange(i, i + p.len()) == p
}

pub open spec fn starts_with(s: Seq<char>, p: Seq<char>) -> bool {
    occurs_at(s, p, 0)
}

pub open spec fn ends_with(s: Seq<char>, p: Seq<char>) -> bool {
    occurs_at(s, p, s.len() - p.len())
}

pub open spec fn contains(s: Seq<char>, p: Seq<char>) -> bool {
    exists|i: int| occurs_at(s, p, i)
}

/// The items joined with `sep` between consecutive items (`[String]::join`).
pub open spec fn join(items: Seq<Seq<char>>, sep: Seq<char>) -> Seq<char>
    decreases items.len(),
{
    if items.len() == 0 {
        Seq::empty()
    } else if items.len() == 1 {
        items[0]
    } else {
        join(items.drop_last(), sep) + sep + items.last()
    }
}

/// Every non-overlapping occurrence of `p`, scanning left to right, replaced
/// by `r` (`str::replace` for a non-empty pattern).
pub open spec fn replace_all(s: Seq<char>, p: Seq<char>, r: Seq<char>) -> Seq<char>
    decreases s.len(),
{
    if p.len() == 0 || s.len() < p.len() {
        s
    } else if s.subrange(0, p.len() as int) == p {
        r + replace_all(s.subrange(p.len() as int, s.len() as int), p, r)
    } else {
        seq![s[0]] + replace_all(s.subrange(1, s.len() as int), p, r)
    }
}

/// The first occurrence of `p` replaced by `r` (`str::replacen(p, r, 1)`).
pub open spec fn replace_first(s: Seq<char>, p: Seq<char>, r: Seq<char>) -> Seq<char>
    decreases s.len(),
{
    if p.len() == 0 || s.len() < p.len() {
        s
    } else if s.subrange(0, p.len() as int) == p {
        r + s.subrange(p.len() as int, s.len() as int)
    } else {
        seq![s[0]] + replace_first(s.subrange(1, s.len() as int), p, r)
    }
}

/// ASCII lower-casing of one character.
pub open spec fn lower(c: char) -> char {
    if 'A' <= c && c <= 'Z' {
        ((c as u32) + 32) as char
    } else {
        c
    }
}

/// `str::eq_ignore_ascii_case`.
pub open spec fn eq_ic(a: Seq<char>, b: Seq<char>) -> bool {
    a.len() == b.len() && forall|i: int| 0 <= i < a.len() ==> lower(a[i]) == lower(b[i])
}

/// The pieces of `s` between occurrences of `c` (`str::split(c)`); there is
/// always at least one piece.
pub open spec fn split_char(s: Seq<char>, c: char) -> Seq<Seq<char>>
    decreases s.len(),
{
    if s.len() == 0 {
        seq![Seq::<char>::empty()]
    } else {
        let init = split_char(s.drop_last(), c);
        if s.last() == c {
            init.push(Seq::<char>::empty())
        } else {
            init.update(init.len() - 1, init.last().push(s.last()))
        }
    }
}

/// Decimal digit `d`.
pub open spec fn digit(d: nat) -> char {
    ((48 + d) as u32) as char
}

/// Decimal representation of `n` without leading zeros.
pub open spec fn decimal(n: nat) -> Seq<char>
    decreases n,
{
    if n < 10 {
        seq![digit(n)]
    } else {
        decimal(n / 10).push(digit(n % 10))
    }
}

pub proof fn lemma_split_nonempty(s: Seq<char>, c: char)
    ensures
        split_char(s, c).len() >= 1,
    decreases s.len(),
{
    if s.len() > 0 {
        lemma_split_nonempty(s.drop_last(), c);
    }
}

proof fn lemma_trim_start_skip(s: Seq<char>, i: int, set: CharSet)
    requires
        0 <= i <= s.len(),
        forall|k: int| 0 <= k < i ==> in_set(set, #[trigger] s[k]),
    ensures
        trim_start_in(s, set) == trim_start_in(s.subrange(i, s.len() as int), set),
    decreases i,
{
    if i > 0 {
        let t = s.subrange(1, s.len() as int);
        assert(in_set(set, s[0]));
        assert forall|k: int| 0 <= k < i - 1 implies in_set(set, #[trigger] t[k]) by {
            assert(t[k] == s[k + 1]);
        }
        lemma_trim_start_skip(t, i - 1, set);
        assert(t.subrange(i - 1, t.len() as int) =~= s.subrange(i, s.len() as int));
    } else {
        assert(s.subrange(0, s.len() as int) =~= s);
    }
}

proof fn lemma_trim_end_cut(s: Seq<char>, j: int, set: CharSet)
    requires
        0 <= j <= s.len(),
        forall|k: int| j <= k < s.len() ==> in_set(set, #[trigger] s[k]),
    ensures
        trim_end_in(s, set) == trim_end_in(s.subrange(0, j), set),
    decreases s.len() - j,
{
    if j < s.len() {
        let t = s.drop_last();
        assert(in_set(set, s.last()));
        assert forall|k: int| j <= k < t.len() implies in_set(set, #[trigger] t[k]) by {
            assert(t[k] == s[k]);
        }
        lemma_trim_end_cut(t, j, set);
        assert(t.subrange(0, j) =~= s.subrange(0, j));
    } else {
        assert(s.subrange(0, j) =~= s);
    }
}

/// Whether `c` is Unicode whitespace.
pub fn is_ws_char(c: char) -> (b: bool)
    ensures
        b == is_ws(c),
{
    let u = c as u32;
    (0x09 <= u && u <= 0x0d) || u == 0x20 || u == 0x85 || u == 0xa0 || u == 0x1680 || (0x2000
        <= u && u <= 0x200a) || u == 0x2028 || u == 0x2029 || u == 0x202f || u == 0x205f || u
        == 0x3000
}

/// Collects the characters of `s` into a vector.
pub fn chars_of(s: &str) -> (v: Vec<char>)
    ensures
        v@ == s@,
{
    let mut v: Vec<char> = Vec::new();
    for c in it: s.chars()
        invariant
            v@ == it.seq().take(it.index() as int),
    {
        v.push(c);
    }
    v
}

/// `String::push`.
#[verifier::external_body]
fn string_push(s: &mut String, c: char)
    ensures
        final(s)@ == old(s)@.push(c),
{
    s.push(c);
}

/// Builds a `String` holding the characters of `v`.
pub fn string_of(v: &Vec<char>) -> (s: String)
    ensures
        s@ == v@,
{
    let mut s = String::new();
    let mut i: usize = 0;
    while i < v.len()
        invariant
            i <= v.len(),
            s@ == v@.take(i as int),
        decreases v.len() - i,
    {
        string_push(&mut s, v[i]);
        assert(v@.take(i as int).push(v@[i as int]) =~= v@.take(i + 1));
        i += 1;
    }
    assert(v@.take(v.len() as int) =~= v@);
    s
}

/// Appends the characters of `src` to `dst`.
pub fn push_chars(dst: &mut Vec<char>, src: &Vec<char>)
    ensures
        final(dst)@ == old(dst)@ + src@,
{
    let ghost start = dst@;
    let mut i: usize = 0;
    while i < src.len()
        invariant
            i <= src.len(),
            dst@ == start + src@.take(i as int),
        decreases src.len() - i,
    {
        dst.push(src[i]);
        assert(start + src@.take(i as int) + seq![src@[i as int]] =~= start + src@.take(i + 1));
        i += 1;
    }
    assert(src@.take(src.len() as int) =~= src@);
}

/// Appends the characters of `s` to `dst`.
pub fn push_str(dst: &mut Vec<char>, s: &str)
    ensures
        final(dst)@ == old(dst)@ + s@,
{
    let v = chars_of(s);
    push_chars(dst, &v);
}

/// The characters of `v` from `a` up to `b`.
pub fn sub_chars(v: &Vec<char>, a: usize, b: usize) -> (r: Vec<char>)
    requires
        a <= b <= v.len(),
    ensures
        r@ == v@.subrange(a as int, b as int),
{
    let mut r: Vec<char> = Vec::new();
    let mut i = a;
    while i < b
        invariant
            a <= i <= b <= v.len(),
            r@ == v@.subrange(a as int, i as int),
        decreases b - i,
    {
        r.push(v[i]);
        assert(v@.subrange(a as int, i as int).push(v@[i as int]) =~= v@.subrange(
            a as int,
            i + 1,
        ));
        i += 1;
    }
    r
}

/// Whether `c` belongs to `set`.
pub fn in_set_exec(set: &CharSet, c: char) -> (b: bool)
    ensures
        b == in_set(*set, c),
{
    match set {
        CharSet::Whitespace => is_ws_char(c),
        CharSet::FencePadding => c == '\n' || c == ' ' || c == '\t' || c == '\r',
    }
}

/// The number of leading characters of `v` that belong to `set`.
pub fn leading_in(v: &Vec<char>, set: &CharSet) -> (i: usize)
    ensures
        i <= v.len(),
        v@.subrange(i as int, v.len() as int) == trim_start_in(v@, *set),
{
    let n = v.len();
    let mut i: usize = 0;
    while i < n && in_set_exec(set, v[i])
        invariant
            i <= n == v.len(),
            forall|k: int| 0 <= k < i ==> in_set(*set, #[trigger] v@[k]),
        decreases n - i,
    {
        i += 1;
    }
    proof {
        lemma_trim_start_skip(v@, i as int, *set);
        let t = v@.subrange(i as int, n as int);
        if t.len() > 0 {
            assert(t[0] == v@[i as int]);
        }
        assert(trim_start_in(t, *set) == t);
    }
    i
}

/// Index bounds of `trim_in(v, set)` inside `v`.
pub fn trim_bounds_in(v: &Vec<char>, set: &CharSet) -> (r: (usize, usize))
    ensures
        r.0 <= r.1 <= v.len(),
        v@.subrange(r.0 as int, r.1 as int) == trim_in(v@, *set),
{
    let n = v.len();
    let i = leading_in(v, set);
    let mut j: usize = n;
    while j > i && in_set_exec(set, v[j - 1])
        invariant
            i <= j <= n == v.len(),
            forall|k: int| j <= k < n ==> in_set(*set, #[trigger] v@[k]),
        decreases j,
    {
        j -= 1;
    }
    proof {
        let t = v@.subrange(i as int, n as int);
        assert forall|k: int| j - i <= k < t.len() implies in_set(*set, #[trigger] t[k]) by {
            assert(t[k] == v@[k + i]);
        }
        lemma_trim_end_cut(t, j - i, *set);
        let u = t.subrange(0, j - i);
        assert(u =~= v@.subrange(i as int, j as int));
        if u.len() > 0 {
            assert(u.last() == v@[j - 1]);
        }
        assert(trim_end_in(u, *set) == u);
    }
    (i, j)
}

/// Index bounds of `trim(v)` inside `v`.
pub fn trim_bounds(v: &Vec<char>) -> (r: (usize, usize))
    ensures
        r.0 <= r.1 <= v.len(),
        v@.subrange(r.0 as int, r.1 as int) == trim(v@),
{
    trim_bounds_in(v, &CharSet::Whitespace)
}

/// `trim_in(v, set)`.
pub fn trimmed_in(v: &Vec<char>, set: &CharSet) -> (r: Vec<char>)
    ensures
        r@ == trim_in(v@, *set),
{
    let (a, b) = trim_bounds_in(v, set);
    sub_chars(v, a, b)
}

/// `trim_start(v)`.
pub fn trimmed_start(v: &Vec<char>) -> (r: Vec<char>)
    ensures
        r@ == trim_start(v@),
{
    let i = leading_in(v, &CharSet::Whitespace);
    sub_chars(v, i, v.len())
}

/// `trim(v)`.
pub fn trimmed(v: &Vec<char>) -> (r: Vec<char>)
    ensures
        r@ == trim(v@),
{
    trimmed_in(v, &CharSet::Whitespace)
}

/// Whether the trimmed text is empty, that is, whether `v` is all whitespace.
pub fn is_blank(v: &Vec<char>) -> (b: bool)
    ensures
        b == (trim(v@).len() == 0),
{
    let (a, b) = trim_bounds(v);
    a == b
}

/// Whether two character vectors are equal.
pub fn chars_eq(a: &Vec<char>, b: &Vec<char>) -> (r: bool)
    ensures
        r == (a@ == b@),
{
    if a.len() != b.len() {
        return false;
    }
    let mut i: usize = 0;
    while i < a.len()
        invariant
            i <= a.len() == b.len(),
            forall|k: int| 0 <= k < i ==> a@[k] == b@[k],
        decreases a.len() - i,
    {
        if a[i] != b[i] {
            return false;
        }
        i += 1;
    }
    assert(a@ =~= b@);
    true
}

/// Whether `v` equals the string `s`.
pub fn chars_eq_str(v: &Vec<char>, s: &str) -> (r: bool)
    ensures
        r == (v@ == s@),
{
    let w = chars_of(s);
    chars_eq(v, &w)
}

/// Whether two strings are equal.
pub fn str_eq(a: &str, b: &str) -> (r: bool)
    ensures
        r == (a@ == b@),
{
    let v = chars_of(a);
    chars_eq_str(&v, b)
}

/// Whether `p` occurs in `v` at index `i`.
pub fn occurs_at_exec(v: &Vec<char>, p: &Vec<char>, i: usize) -> (r: bool)
    ensures
        r == occurs_at(v@, p@, i as int),
{
    if i > v.len() || p.len() > v.len() - i {
        return false;
    }
    let mut k: usize = 0;
    while k < p.len()
        invariant
            i + p.len() <= v.len(),
            k <= p.len(),
            forall|m: int| 0 <= m < k ==> v@[i + m] == p@[m],
        decreases p.len() - k,
    {
        if v[i + k] != p[k] {
            assert(v@.subrange(i as int, i + p.len())[k as int] != p@[k as int]);
            return false;
        }
        k += 1;
    }
    assert(v@.subrange(i as int, i + p.len()) =~= p@);
    true
}

/// Whether `v` starts with `p`.
pub fn starts_with_exec(v: &Vec<char>, p: &Vec<char>) -> (r: bool)
    ensures
        r == starts_with(v@, p@),
{
    occurs_at_exec(v, p, 0)
}

/// Whether `v` ends with `p`.
pub fn ends_with_exec(v: &Vec<char>, p: &Vec<char>) -> (r: bool)
    ensures
        r == ends_with(v@, p@),
{
    if p.len() > v.len() {
        return false;
    }
    occurs_at_exec(v, p, v.len() - p.len())
}

/// The first index at or after `from` where `p` occurs in `v`.
pub fn find_from(v: &Vec<char>, p: &Vec<char>, from: usize) -> (r: Option<usize>)
    ensures
        match r {
            Some(i) => from <= i && occurs_at(v@, p@, i as int) && forall|k: int|
                from <= k < i ==> !occurs_at(v@, p@, k),
            None => forall|k: int| from <= k ==> !occurs_at(v@, p@, k),
        },
{
    let mut i = from;
    while i <= v.len()
        invariant
            from <= i,
            forall|k: int| from <= k < i ==> !occurs_at(v@, p@, k),
        decreases v.len() + 1 - i,
    {
        if occurs_at_exec(v, p, i) {
            return Some(i);
        }
        if i == v.len() {
            return None;
        }
        i += 1;
    }
    None
}

/// Whether `p` occurs anywhere in `v`.
pub fn contains_exec(v: &Vec<char>, p: &Vec<char>) -> (r: bool)
    ensures
        r == contains(v@, p@),
{
    match find_from(v, p, 0) {
        Some(_) => true,
        None => {
            assert forall|k: int| !occurs_at(v@, p@, k) by {
                if k < 0 {
                }
            }
            false
        },
    }
}

/// Appends `join(items, sep)` to `dst`.
pub fn push_join(dst: &mut Vec<char>, items: &[String], sep: &str)
    ensures
        final(dst)@ == old(dst)@ + join(views(items@), sep@),
{
    let ghost start = dst@;
    let ghost all = views(items@);
    let mut i: usize = 0;
    while i < items.len()
        invariant
            i <= items.len(),
            all == views(items@),
            dst@ == start + join(all.take(i as int), sep@),
        decreases items.len() - i,
    {
        let piece = chars_of(items[i].as_str());
        proof {
            assert(all.take(i + 1).drop_last() =~= all.take(i as int));
            assert(all.take(i + 1).last() == items@[i as int]@);
        }
        if i > 0 {
            push_str(dst, sep);
        } else {
            assert(all.take(0) =~= Seq::<Seq<char>>::empty());
        }
        push_chars(dst, &piece);
        proof {
            if i == 0 {
                assert(join(all.take(1), sep@) == all.take(1)[0]);
            }
            assert(dst@ =~= start + join(all.take(i + 1), sep@));
        }
        i += 1;
    }
    assert(all.take(items.len() as int) =~= all);
}

/// Appends `decimal(n)` to `dst`.
pub fn push_decimal(dst: &mut Vec<char>, n: u64)
    ensures
        final(dst)@ == old(dst)@ + decimal(n as nat),
    decreases n,
{
    if n >= 10 {
        push_decimal(dst, n / 10);
    }
    let d = (n % 10) as u8;
    let c = (48u8 + d) as char;
    assert(c == digit((n % 10) as nat)) by {
        assert((48u8 + d) as u32 == 48 + d);
    }
    dst.push(c);
    proof {
        if n >= 10 {
            assert(decimal(n as nat) == decimal((n / 10) as nat).push(digit((n % 10) as nat)));
        }
    }
}

/// ASCII lower-casing of one character.
pub fn lower_char(c: char) -> (r: char)
    ensures
        r == lower(c),
{
    if 'A' <= c && c <= 'Z' {
        let u = c as u32;
        assert(u + 32 < 128);
        let b = (u + 32) as u8;
        b as char
    } else {
        c
    }
}

/// `str::eq_ignore_ascii_case` on character vectors.
pub fn eq_ic_exec(a: &Vec<char>, b: &Vec<char>) -> (r: bool)
    ensures
        r == eq_ic(a@, b@),
{
    if a.len() != b.len() {
        return false;
    }
    let mut i: usize = 0;
    while i < a.len()
        invariant
            i <= a.len() == b.len(),
            forall|k: int| 0 <= k < i ==> lower(a@[k]) == lower(b@[k]),
        decreases a.len() - i,
    {
        if lower_char(a[i]) != lower_char(b[i]) {
            return false;
        }
        i += 1;
    }
    true
}

/// `replace_all(v, p, r)`.
pub fn replace_all_exec(v: &Vec<char>, p: &Vec<char>, r: &Vec<char>) -> (out: Vec<char>)
    requires
        p.len() > 0,
    ensures
        out@ == replace_all(v@, p@, r@),
{
    let mut out: Vec<char> = Vec::new();
    let mut i: usize = 0;
    assert(v@.subrange(0, v.len() as int) =~= v@);
    while i < v.len() && p.len() <= v.len() - i
        invariant
            i <= v.len(),
            p.len() > 0,
            replace_all(v@, p@, r@) == out@ + replace_all(
                v@.subrange(i as int, v.len() as int),
                p@,
                r@,
            ),
        decreases v.len() - i,
    {
        let ghost t = v@.subrange(i as int, v.len() as int);
        if occurs_at_exec(v, p, i) {
            proof {
                assert(t.subrange(0, p.len() as int) =~= v@.subrange(i as int, i + p.len()));
                assert(t.subrange(p.len() as int, t.len() as int) =~= v@.subrange(
                    i + p.len(),
                    v.len() as int,
                ));
            }
            push_chars(&mut out, r);
            i += p.len();
        } else {
            proof {
                assert(t.subrange(0, p.len() as int) =~= v@.subrange(i as int, i + p.len()));
                assert(t.subrange(1, t.len() as int) =~= v@.subrange(i + 1, v.len() as int));
                assert(t[0] == v@[i as int]);
            }
            out.push(v[i]);
            i += 1;
        }
    }
    let rest = sub_chars(v, i, v.len());
    proof {
        let t = v@.subrange(i as int, v.len() as int);
        assert(rest@ == t);
        assert(replace_all(t, p@, r@) == t);
    }
    push_chars(&mut out, &rest);
    out
}

/// `replace_first(v, p, r)`.
pub fn replace_first_exec(v: &Vec<char>, p: &Vec<char>, r: &Vec<char>) -> (out: Vec<char>)
    requires
        p.len() > 0,
    ensures
        out@ == replace_first(v@, p@, r@),
{
    let mut out: Vec<char> = Vec::new();
    let mut i: usize = 0;
    assert(v@.subrange(0, v.len() as int) =~= v@);
    while i < v.len() && p.len() <= v.len() - i
        invariant
            i <= v.len(),
            p.len() > 0,
            replace_first(v@, p@, r@) == out@ + replace_first(
                v@.subrange(i as int, v.len() as int),
                p@,
                r@,
            ),
        decreases v.len() - i,
    {
        let ghost t = v@.subrange(i as int, v.len() as int);
        if occurs_at_exec(v, p, i) {
            proof {
                assert(t.subrange(0, p.len() as int) =~= v@.subrange(i as int, i + p.len()));
            }
            let rest = sub_chars(v, i + p.len(), v.len());
            proof {
                assert(t.subrange(p.len() as int, t.len() as int) =~= rest@);
            }
            push_chars(&mut out, r);
            push_chars(&mut out, &rest);
            proof {
                assert(out@ =~= replace_first(v@, p@, r@));
            }
            return out;
        } else {
            proof {
                assert(t.subrange(0, p.len() as int) =~= v@.subrange(i as int, i + p.len()));
                assert(t.subrange(1, t.len() as int) =~= v@.subrange(i + 1, v.len() as int));
                assert(t[0] == v@[i as int]);
            }
            out.push(v[i]);
            i += 1;
        }
    }
    let rest = sub_chars(v, i, v.len());
    proof {
        let t = v@.subrange(i as int, v.len() as int);
        assert(replace_first(t, p@, r@) == t);
    }
    push_chars(&mut out, &rest);
    out
}

/// `split_char(v, c)`.
pub fn split_exec(v: &Vec<char>, c: char) -> (parts: Vec<Vec<char>>)
    ensures
        vec_views(parts@) == split_char(v@, c),
{
    let mut done: Vec<Vec<char>> = Vec::new();
    let mut cur: Vec<char> = Vec::new();
    let mut i: usize = 0;
    while i < v.len()
        invariant
            i <= v.len(),
            split_char(v@.take(i as int), c) == vec_views(done@).push(cur@),
        decreases v.len() - i,
    {
        let ghost s = v@.take(i + 1);
        proof {
            assert(s.drop_last() =~= v@.take(i as int));
            assert(s.last() == v@[i as int]);
        }
        if v[i] == c {
            let ghost old_done = done@;
            let ghost old_cur = cur@;
            done.push(cur);
            cur = Vec::new();
            proof {
                assert(vec_views(done@) =~= vec_views(old_done).push(old_cur));
                assert(split_char(s, c) =~= vec_views(done@).push(cur@));
            }
        } else {
            let ghost old_cur = cur@;
            cur.push(v[i]);
            proof {
                assert(split_char(s, c) =~= vec_views(done@).push(cur@));
            }
        }
        i += 1;
    }
    proof {
        assert(v@.take(v.len() as int) =~= v@);
    }
    let ghost old_done = done@;
    done.push(cur);
    proof {
        assert(vec_views(done@) =~= vec_views(old_done).push(cur@));
    }
    done
}


pub proof fn lemma_trim_start_len(s: Seq<char>)
    ensures
        trim_start(s).len() <= s.len(),
    decreases s.len(),
{
    if s.len() > 0 && is_ws(s[0]) {
        lemma_trim_start_len(s.subrange(1, s.len() as int));
    }
}


/// Every character of `s` is whitespace.
pub open spec fn all_ws(s: Seq<char>) -> bool {
    forall|i: int| 0 <= i < s.len() ==> is_ws(#[trigger] s[i])
}

/// Trimming the start leaves a suffix, and keeps everything from a
/// character outside the set on.
proof fn lemma_trim_start_suffix(s: Seq<char>, set: CharSet, i: int)
    requires
        0 <= i < s.len(),
        !in_set(set, s[i]),
    ensures
        trim_start_in(s, set).len() >= s.len() - i,
        trim_start_in(s, set).len() <= s.len(),
        trim_start_in(s, set) == s.subrange(s.len() - trim_start_in(s, set).len(), s.len() as int),
    decreases s.len(),
{
    if in_set(set, s[0]) {
        let t = s.subrange(1, s.len() as int);
        assert(t[i - 1] == s[i]);
        lemma_trim_start_suffix(t, set, i - 1);
        let r = trim_start_in(t, set);
        assert(t.subrange(t.len() - r.len(), t.len() as int) =~= s.subrange(
            s.len() - r.len(),
            s.len() as int,
        ));
    } else {
        assert(s.subrange(0, s.len() as int) =~= s);
    }
}

/// Trimming the end leaves a prefix, and keeps everything up to a
/// character outside the set.
proof fn lemma_trim_end_prefix(s: Seq<char>, set: CharSet, j: int)
    requires
        0 <= j < s.len(),
        !in_set(set, s[j]),
    ensures
        trim_end_in(s, set).len() >= j + 1,
        trim_end_in(s, set).len() <= s.len(),
        trim_end_in(s, set) == s.subrange(0, trim_end_in(s, set).len() as int),
    decreases s.len(),
{
    if in_set(set, s.last()) {
        let t = s.drop_last();
        assert(t[j] == s[j]);
        lemma_trim_end_prefix(t, set, j);
        let r = trim_end_in(t, set);
        assert(t.subrange(0, r.len() as int) =~= s.subrange(0, r.len() as int));
    } else {
        assert(s.subrange(0, s.len() as int) =~= s);
    }
}

/// Trimming keeps the span between two characters that are not whitespace.
pub proof fn lemma_trim_keeps_span(s: Seq<char>, i: int, j: int)
    requires
        0 <= i <= j < s.len(),
        !is_ws(s[i]),
        !is_ws(s[j]),
    ensures
        trim(s).len() >= j - i + 1,
{
    lemma_trim_start_suffix(s, CharSet::Whitespace, i);
    let t = trim_start(s);
    let a = s.len() - t.len();
    assert(t[j - a] == s[j]);
    lemma_trim_end_prefix(t, CharSet::Whitespace, j - a);
}

proof fn lemma_trim_start_append(x: Seq<char>, w: Seq<char>, i: int)
    requires
        0 <= i < x.len(),
        !is_ws(x[i]),
    ensures
        trim_start(x + w) == trim_start(x) + w,
    decreases x.len(),
{
    if is_ws(x[0]) {
        let t = x.subrange(1, x.len() as int);
        assert((x + w)[0] == x[0]);
        assert((x + w).subrange(1, (x + w).len() as int) =~= t + w);
        assert(t[i - 1] == x[i]);
        lemma_trim_start_append(t, w, i - 1);
    } else {
        assert((x + w)[0] == x[0]);
    }
}

/// Whitespace around a text does not change its trimmed form.
pub proof fn lemma_trim_padded(w1: Seq<char>, x: Seq<char>, w2: Seq<char>)
    requires
        all_ws(w1),
        all_ws(w2),
    ensures
        trim(w1 + x + w2) == trim(x),
{
    let s = w1 + x + w2;
    assert forall|k: int| 0 <= k < w1.len() implies in_set(CharSet::Whitespace, #[trigger] s[k]) by {
        assert(s[k] == w1[k]);
    }
    lemma_trim_start_skip(s, w1.len() as int, CharSet::Whitespace);
    assert(s.subrange(w1.len() as int, s.len() as int) =~= x + w2);
    if exists|i: int| 0 <= i < x.len() && !is_ws(x[i]) {
        let i = choose|i: int| 0 <= i < x.len() && !is_ws(x[i]);
        lemma_trim_start_append(x, w2, i);
        let t = trim_start(x);
        let u = t + w2;
        assert forall|k: int| t.len() <= k < u.len() implies in_set(
            CharSet::Whitespace,
            #[trigger] u[k],
        ) by {
            assert(u[k] == w2[k - t.len()]);
        }
        lemma_trim_end_cut(u, t.len() as int, CharSet::Whitespace);
        assert(u.subrange(0, t.len() as int) =~= t);
    } else {
        let y = x + w2;
        assert forall|k: int| 0 <= k < y.len() implies in_set(CharSet::Whitespace, #[trigger] y[k]) by {
            if k < x.len() {
                assert(y[k] == x[k]);
            } else {
                assert(y[k] == w2[k - x.len()]);
            }
        }
        lemma_trim_start_skip(y, y.len() as int, CharSet::Whitespace);
        assert forall|k: int| 0 <= k < x.len() implies in_set(CharSet::Whitespace, #[trigger] x[k]) by {
        }
        lemma_trim_start_skip(x, x.len() as int, CharSet::Whitespace);
        assert(y.subrange(y.len() as int, y.len() as int) =~= Seq::<char>::empty());
        assert(x.subrange(x.len() as int, x.len() as int) =~= Seq::<char>::empty());
    }
}

/// An occurrence stays an occurrence, shifted, once text is put before and
/// after.
pub proof fn lemma_occurs_in_context(a: Seq<char>, s: Seq<char>, b: Seq<char>, p: Seq<char>, i: int)
    requires
        occurs_at(s, p, i),
    ensures
        occurs_at(a + s + b, p, a.len() + i),
{
    let t = a + s + b;
    assert(t.subrange(a.len() + i, a.len() + i + p.len()) =~= s.subrange(i, i + p.len()));
}

/// Every item occurs in the items joined with any separator.
pub proof fn law_join_keeps_items(items: Seq<Seq<char>>, sep: Seq<char>, k: int)
    requires
        0 <= k < items.len(),
    ensures
        contains(join(items, sep), items[k]),
    decreases items.len(),
{
    let j = join(items, sep);
    if items.len() == 1 {
        assert(occurs_at(j, items[k], 0)) by {
            assert(j.subrange(0, items[0].len() as int) =~= items[0]);
        }
    } else {
        let init = items.drop_last();
        let ji = join(init, sep);
        if k == items.len() - 1 {
            let off = (ji.len() + sep.len()) as int;
            assert(occurs_at(j, items[k], off)) by {
                assert(j.subrange(off, off + items[k].len()) =~= items.last());
            }
        } else {
            law_join_keeps_items(init, sep, k);
            assert(init[k] == items[k]);
            let i = choose|i: int| occurs_at(ji, items[k], i);
            lemma_occurs_in_context(Seq::empty(), ji, sep + items.last(), items[k], i);
            assert(Seq::<char>::empty() + ji + (sep + items.last()) =~= j);
            assert(occurs_at(j, items[k], i));
        }
    }
}
} // verus!
