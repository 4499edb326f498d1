//! Character-level text handling: line and field splitting, trimming,
//! integer parsing and decimal rendering, each with the meaning Rust's
//! string methods give it.
use vstd::prelude::*;
use vstd::std_specs::iter::IteratorSpec;

verus! {

broadcast use vstd::string::group_string_axioms;

// ---------------------------------------------------------------------------
// Specifications
// ---------------------------------------------------------------------------
/// Unicode `White_Space`, the set `char::is_whitespace` tests.
pub open spec fn is_ws(c: char) -> bool {
    let u = c as u32;
    ||| 9 <= u <= 13
    ||| u == 32
    ||| u == 0x85
    ||| u == 0xA0
    ||| u == 0x1680
    ||| 0x2000 <= u <= 0x200A
    ||| u == 0x2028
    ||| u == 0x2029
    ||| u == 0x202F
    ||| u == 0x205F
    ||| u == 0x3000
}

/// Length of the longest prefix of `s` whose characters all satisfy `p`.
pub open spec fn prefix_len(s: Seq<char>, p: spec_fn(char) -> bool) -> nat
    decreases s.len(),
{
    if s.len() > 0 && p(s[0]) {
        1 + prefix_len(s.drop_first(), p)
    } else {
        0
    }
}

/// Index of the first `c` in `s`, or `s.len()` when there is none.
pub open spec fn index_of(s: Seq<char>, c: char) -> nat {
    prefix_len(s, not_char(c))
}

pub open spec fn not_char(c: char) -> spec_fn(char) -> bool {
    |x: char| x != c
}

pub open spec fn not_ws() -> spec_fn(char) -> bool {
    |x: char| !is_ws(x)
}

pub open spec fn ws() -> spec_fn(char) -> bool {
    |x: char| is_ws(x)
}

/// `s` with leading whitespace removed (`str::trim_start`).
pub open spec fn trim_start(s: Seq<char>) -> Seq<char> {
    s.skip(prefix_len(s, ws()) as int)
}

/// Number of whitespace characters at the end of `s`.
pub open spec fn trailing_ws(s: Seq<char>) -> nat
    decreases s.len(),
{
    if s.len() > 0 && is_ws(s.last()) {
        1 + trailing_ws(s.drop_last())
    } else {
        0
    }
}

/// `s` with trailing whitespace removed (`str::trim_end`).
pub open spec fn trim_end(s: Seq<char>) -> Seq<char> {
    s.take(s.len() - trailing_ws(s))
}

/// `s` with whitespace removed at both ends (`str::trim`).
pub open spec fn trim_spec(s: Seq<char>) -> Seq<char> {
    trim_end(trim_start(s))
}

/// The pieces of `s` between occurrences of `c` (`str::split` with a char):
/// always at least one piece.
pub open spec fn split_spec(s: Seq<char>, c: char) -> Seq<Seq<char>>
    decreases s.len(),
{
    let i = index_of(s, c);
    if i >= s.len() {
        seq![s]
    } else {
        seq![s.take(i as int)] + split_spec(s.skip(i + 1 as int), c)
    }
}

/// A line without its terminator: a `\r` before the `\n` goes too.
pub open spec fn strip_cr(t: Seq<char>) -> Seq<char> {
    if t.len() > 0 && t.last() == '\r' {
        t.drop_last()
    } else {
        t
    }
}

/// The lines of `s` (`str::lines`): split at `\n`, a `\r` before a `\n`
/// dropped, no final empty line after a trailing `\n`.
pub open spec fn lines_spec(s: Seq<char>) -> Seq<Seq<char>>
    decreases s.len(),
{
    if s.len() == 0 {
        seq![]
    } else {
        let i = index_of(s, '\n');
        if i >= s.len() {
            seq![s]
        } else {
            seq![strip_cr(s.take(i as int))] + lines_spec(s.skip(i + 1 as int))
        }
    }
}

/// The whitespace-separated words of `s` (`str::split_whitespace`).
pub open spec fn words_spec(s: Seq<char>) -> Seq<Seq<char>>
    decreases s.len(),
{
    if s.len() == 0 {
        seq![]
    } else if is_ws(s[0]) {
        words_spec(s.drop_first())
    } else {
        let i = 1 + prefix_len(s.drop_first(), not_ws());
        proof {
            lemma_prefix_len_facts(s.drop_first(), not_ws());
        }
        seq![s.take(i as int)] + words_spec(s.skip(i as int))
    }
}

/// The contents of a list of character vectors.
pub open spec fn views(v: Seq<Vec<char>>) -> Seq<Seq<char>> {
    v.map_values(|x: Vec<char>| x@)
}

/// `p` is a prefix of `s` (`str::starts_with`).
pub open spec fn has_prefix(s: Seq<char>, p: Seq<char>) -> bool {
    p.len() <= s.len() && s.take(p.len() as int) == p
}

/// `p` occurs in `s` (`str::contains` with a string pattern).
pub open spec fn occurs_in(s: Seq<char>, p: Seq<char>) -> bool {
    exists|i: int| 0 <= i && i + p.len() <= s.len() && #[trigger] s.subrange(i, i + p.len()) == p
}

pub open spec fn is_digit(c: char) -> bool {
    '0' <= c && c <= '9'
}

pub open spec fn digit_value(c: char) -> nat {
    (c as u32 - '0' as u32) as nat
}

pub open spec fn all_digits(d: Seq<char>) -> bool {
    forall|i: int| 0 <= i < d.len() ==> is_digit(#[trigger] d[i])
}

/// The number written by the decimal digits `d`.
pub open spec fn digits_value(d: Seq<char>) -> nat
    decreases d.len(),
{
    if d.len() == 0 {
        0
    } else {
        digits_value(d.drop_last()) * 10 + digit_value(d.last())
    }
}

/// `str::parse::<u32>`: an optional `+`, then one or more decimal digits
/// whose value fits.
pub open spec fn parse_u32_spec(s: Seq<char>) -> Option<u32> {
    let d = if s.len() > 0 && s[0] == '+' {
        s.drop_first()
    } else {
        s
    };
    if d.len() > 0 && all_digits(d) && digits_value(d) <= u32::MAX {
        Some(digits_value(d) as u32)
    } else {
        None
    }
}

/// `str::parse::<i32>`: an optional `+` or `-`, then one or more decimal
/// digits whose value fits.
pub open spec fn parse_i32_spec(s: Seq<char>) -> Option<i32> {
    if s.len() > 0 && s[0] == '-' {
        let d = s.drop_first();
        if d.len() > 0 && all_digits(d) && digits_value(d) <= 0x8000_0000 {
            Some((0 - digits_value(d)) as i32)
        } else {
            None
        }
    } else {
        let d = if s.len() > 0 && s[0] == '+' {
            s.drop_first()
        } else {
            s
        };
        if d.len() > 0 && all_digits(d) && digits_value(d) <= 0x7fff_ffff {
            Some(digits_value(d) as i32)
        } else {
            None
        }
    }
}

pub open spec fn digit_char(n: nat) -> char {
    ((n % 10) + 48) as char
}

/// The decimal representation of `n`, as `Display` for integers writes it.
pub open spec fn decimal(n: nat) -> Seq<char>
    decreases n,
{
    if n < 10 {
        seq![digit_char(n)]
    } else {
        decimal(n / 10).push(digit_char(n))
    }
}

/// The decimal representation of a signed number.
pub open spec fn signed_decimal(n: int) -> Seq<char> {
    if n < 0 {
        seq!['-'] + decimal((0 - n) as nat)
    } else {
        decimal(n as nat)
    }
}

// ---------------------------------------------------------------------------
// Lemmas
// ---------------------------------------------------------------------------
/// `prefix_len` is the first position that fails `p`.
pub proof fn lemma_prefix_len(s: Seq<char>, p: spec_fn(char) -> bool, i: int)
    requires
        0 <= i <= s.len(),
        forall|j: int| 0 <= j < i ==> p(#[trigger] s[j]),
        i == s.len() || !p(s[i]),
    ensures
        prefix_len(s, p) == i,
    decreases i,
{
    if i > 0 {
        lemma_prefix_len(s.drop_first(), p, i - 1);
    }
}

/// Every character before `prefix_len` satisfies `p`, and the one there fails it.
pub proof fn lemma_prefix_len_facts(s: Seq<char>, p: spec_fn(char) -> bool)
    ensures
        prefix_len(s, p) <= s.len(),
        forall|j: int| 0 <= j < prefix_len(s, p) ==> p(#[trigger] s[j]),
        prefix_len(s, p) < s.len() ==> !p(s[prefix_len(s, p) as int]),
    decreases s.len(),
{
    if s.len() > 0 && p(s[0]) {
        lemma_prefix_len_facts(s.drop_first(), p);
        assert forall|j: int| 0 <= j < prefix_len(s, p) implies p(#[trigger] s[j]) by {
            if j > 0 {
                assert(s[j] == s.drop_first()[j - 1]);
            }
        }
    }
}

pub proof fn lemma_trailing_ws(s: Seq<char>, k: int)
    requires
        0 <= k <= s.len(),
        forall|j: int| s.len() - k <= j < s.len() ==> is_ws(#[trigger] s[j]),
        k == s.len() || !is_ws(s[s.len() - k - 1]),
    ensures
        trailing_ws(s) == k,
    decreases k,
{
    if k > 0 {
        let t = s.drop_last();
        assert forall|j: int| t.len() - (k - 1) <= j < t.len() implies is_ws(#[trigger] t[j]) by {
            assert(t[j] == s[j]);
        }
        lemma_trailing_ws(t, k - 1);
    }
}

/// Prefixes of a digit string are worth no more than the whole.
pub proof fn lemma_digits_value_mono(d: Seq<char>, k: int)
    requires
        0 <= k <= d.len(),
    ensures
        digits_value(d.take(k)) <= digits_value(d),
    decreases d.len() - k,
{
    if k < d.len() {
        assert(d.drop_last().take(k) =~= d.take(k));
        lemma_digits_value_mono(d.drop_last(), k);
    } else {
        assert(d.take(k) =~= d);
    }
}

// ---------------------------------------------------------------------------
// Executable helpers
// ---------------------------------------------------------------------------
/// The characters of a string, in order.
pub fn chars_of(s: &str) -> (v: Vec<char>)
    ensures
        v@ == s@,
{
    let mut v: Vec<char> = Vec::new();
    let mut it = s.chars();
    loop
        invariant
            it.obeys_prophetic_iter_laws(),
            it.decrease() is Some,
            v@ + it.remaining() == s@,
        decreases it.decrease()->0,
    {
        match it.next() {
            Some(c) => {
                v.push(c);
            },
            None => {
                return v;
            },
        }
    }
}

/// Appends one character to a string (`String::push`).
#[verifier::external_body]
pub(crate) fn push_char(s: &mut String, c: char)
    ensures
        final(s)@ == old(s)@.push(c),
{
    s.push(c);
}

/// A string holding exactly the given characters.
pub fn string_of(v: &[char]) -> (s: String)
    ensures
        s@ == v@,
{
    let mut s = String::new();
    let mut i: usize = 0;
    while i < v.len()
        invariant
            i <= v.len(),
            s@ == v@.take(i as int),
        decreases v.len() - i,
    {
        push_char(&mut s, v[i]);
        i = i + 1;
        assert(s@ =~= v@.take(i as int));
    }
    assert(v@.take(v.len() as int) =~= v@);
    s
}

/// Appends the characters of `v` to `s`.
pub fn push_chars(s: &mut String, v: &[char])
    ensures
        final(s)@ == old(s)@ + v@,
{
    let mut i: usize = 0;
    while i < v.len()
        invariant
            i <= v.len(),
            s@ == old(s)@ + v@.take(i as int),
        decreases v.len() - i,
    {
        push_char(s, v[i]);
        i = i + 1;
        assert(s@ =~= old(s)@ + v@.take(i as int));
    }
    assert(v@.take(v.len() as int) =~= v@);
}

/// Copy of `s[from..to]`.
pub fn copy_range(s: &[char], from: usize, to: usize) -> (v: Vec<char>)
    requires
        from <= to <= s.len(),
    ensures
        v@ == s@.subrange(from as int, to as int),
{
    let mut v: Vec<char> = Vec::new();
    let mut i = from;
    while i < to
        invariant
            from <= i <= to <= s.len(),
            v@ == s@.subrange(from as int, i as int),
        decreases to - i,
    {
        v.push(s[i]);
        i = i + 1;
        assert(v@ =~= s@.subrange(from as int, i as int));
    }
    v
}

/// `char::is_whitespace`.
pub fn char_is_ws(c: char) -> (b: bool)
    ensures
        b == is_ws(c),
{
    let u = c as u32;
    (9 <= u && u <= 13) || u == 32 || u == 0x85 || u == 0xA0 || u == 0x1680 || (0x2000 <= u && u
        <= 0x200A) || u == 0x2028 || u == 0x2029 || u == 0x202F || u == 0x205F || u == 0x3000
}

/// Equality of two character sequences.
pub fn chars_eq(a: &[char], b: &[char]) -> (r: bool)
    ensures
        r == (a@ == b@),
{
    if a.len() != b.len() {
        return false;
    }
    let mut i: usize = 0;
    while i < a.len()
        invariant
            a.len() == b.len(),
            i <= a.len(),
            a@.take(i as int) == b@.take(i as int),
        decreases a.len() - i,
    {
        if a[i] != b[i] {
            return false;
        }
        i = i + 1;
        assert(a@.take(i as int) =~= a@.take(i - 1).push(a@[i - 1]));
        assert(b@.take(i as int) =~= b@.take(i - 1).push(b@[i - 1]));
    }
    assert(a@ =~= a@.take(a.len() as int));
    assert(b@ =~= b@.take(b.len() as int));
    true
}

/// `s.starts_with(p)`.
pub fn starts_with(s: &[char], p: &[char]) -> (r: bool)
    ensures
        r == has_prefix(s@, p@),
{
    if p.len() > s.len() {
        return false;
    }
    let head = copy_range(s, 0, p.len());
    chars_eq(head.as_slice(), p)
}

/// Whether `p` occurs at position `at` of `s`.
fn matches_at(s: &[char], p: &[char], at: usize) -> (r: bool)
    requires
        at + p.len() <= s.len(),
    ensures
        r == (s@.subrange(at as int, at + p.len()) == p@),
{
    let mut j: usize = 0;
    while j < p.len()
        invariant
            at + p.len() <= s.len(),
            j <= p.len(),
            forall|k: int| 0 <= k < j ==> s@[at + k] == p@[k],
        decreases p.len() - j,
    {
        if s[at + j] != p[j] {
            assert(s@.subrange(at as int, at + p.len())[j as int] != p@[j as int]);
            return false;
        }
        j = j + 1;
    }
    assert(s@.subrange(at as int, at + p.len()) =~= p@);
    true
}

/// `s.contains(p)`.
pub fn contains(s: &[char], p: &[char]) -> (r: bool)
    ensures
        r == occurs_in(s@, p@),
{
    if p.len() > s.len() {
        return false;
    }
    let last = s.len() - p.len();
    let mut i: usize = 0;
    while i < last
        invariant
            p.len() <= s.len(),
            last == s.len() - p.len(),
            i <= last,
            forall|k: int| 0 <= k < i ==> #[trigger] s@.subrange(k, k + p.len()) != p@,
        decreases last - i,
    {
        if matches_at(s, p, i) {
            return true;
        }
        i = i + 1;
    }
    if matches_at(s, p, last) {
        return true;
    }
    assert forall|k: int| 0 <= k && k + p.len() <= s.len() implies #[trigger] s@.subrange(
        k,
        k + p.len(),
    ) != p@ by {}
    false
}

/// `s.trim()`.
pub fn trim(s: &[char]) -> (t: Vec<char>)
    ensures
        t@ == trim_spec(s@),
{
    let mut a: usize = 0;
    while a < s.len() && char_is_ws(s[a])
        invariant
            a <= s.len(),
            forall|j: int| 0 <= j < a ==> is_ws(#[trigger] s@[j]),
        decreases s.len() - a,
    {
        a = a + 1;
    }
    proof {
        lemma_prefix_len(s@, ws(), a as int);
    }
    let ghost st = s@.skip(a as int);
    assert(st == trim_start(s@));
    let mut b: usize = s.len();
    while b > a && char_is_ws(s[b - 1])
        invariant
            a <= b <= s.len(),
            forall|j: int| b <= j < s.len() ==> is_ws(#[trigger] s@[j]),
        decreases b,
    {
        b = b - 1;
    }
    proof {
        let k = (s.len() - b) as int;
        assert forall|j: int| st.len() - k <= j < st.len() implies is_ws(#[trigger] st[j]) by {
            assert(st[j] == s@[a + j]);
        }
        if k != st.len() {
            assert(st[st.len() - k - 1] == s@[b - 1]);
        }
        lemma_trailing_ws(st, k);
        assert(trim_spec(s@) =~= s@.subrange(a as int, b as int));
    }
    copy_range(s, a, b)
}

/// `s.split(c)`.
pub fn split(s: &[char], c: char) -> (parts: Vec<Vec<char>>)
    ensures
        views(parts@) == split_spec(s@, c),
        parts@.len() >= 1,
{
    let mut parts: Vec<Vec<char>> = Vec::new();
    let mut start: usize = 0;
    let mut i: usize = 0;
    assert(s@.skip(0) =~= s@);
    assert(views(parts@) =~= Seq::<Seq<char>>::empty());
    while i < s.len()
        invariant
            start <= i <= s.len(),
            forall|j: int| start <= j < i ==> #[trigger] s@[j] != c,
            views(parts@) + split_spec(s@.skip(start as int), c) == split_spec(s@, c),
        decreases s.len() - i,
    {
        if s[i] == c {
            let ghost rest = s@.skip(start as int);
            proof {
                assert forall|j: int| 0 <= j < i - start implies #[trigger] rest[j] != c by {
                    assert(rest[j] == s@[start + j]);
                }
                lemma_prefix_len(rest, not_char(c), (i - start) as int);
                assert(rest.take((i - start) as int) =~= s@.subrange(start as int, i as int));
                assert(rest.skip((i - start) + 1 as int) =~= s@.skip(i + 1));
            }
            let piece = copy_range(s, start, i);
            let ghost before = views(parts@);
            parts.push(piece);
            assert(views(parts@) =~= before.push(piece@));
            start = i + 1;
            i = i + 1;
        } else {
            i = i + 1;
        }
    }
    let ghost rest = s@.skip(start as int);
    proof {
        assert forall|j: int| 0 <= j < rest.len() implies #[trigger] rest[j] != c by {
            assert(rest[j] == s@[start + j]);
        }
        lemma_prefix_len(rest, not_char(c), rest.len() as int);
        assert(rest =~= s@.subrange(start as int, s.len() as int));
    }
    let piece = copy_range(s, start, s.len());
    let ghost before = views(parts@);
    parts.push(piece);
    assert(views(parts@) =~= before.push(piece@));
    parts
}

/// `s.lines()`.
pub fn lines(s: &[char]) -> (out: Vec<Vec<char>>)
    ensures
        views(out@) == lines_spec(s@),
{
    let mut out: Vec<Vec<char>> = Vec::new();
    let mut start: usize = 0;
    let mut i: usize = 0;
    assert(s@.skip(0) =~= s@);
    assert(views(out@) =~= Seq::<Seq<char>>::empty());
    while i < s.len()
        invariant
            start <= i <= s.len(),
            forall|j: int| start <= j < i ==> #[trigger] s@[j] != '\n',
            views(out@) + lines_spec(s@.skip(start as int)) == lines_spec(s@),
        decreases s.len() - i,
    {
        if s[i] == '\n' {
            let ghost rest = s@.skip(start as int);
            proof {
                assert forall|j: int| 0 <= j < i - start implies #[trigger] rest[j] != '\n' by {
                    assert(rest[j] == s@[start + j]);
                }
                lemma_prefix_len(rest, not_char('\n'), (i - start) as int);
                assert(rest.take((i - start) as int) =~= s@.subrange(start as int, i as int));
                assert(rest.skip((i - start) + 1 as int) =~= s@.skip(i + 1));
            }
            let end = if i > start && s[i - 1] == '\r' {
                i - 1
            } else {
                i
            };
            let piece = copy_range(s, start, end);
            assert(piece@ =~= strip_cr(s@.subrange(start as int, i as int)));
            let ghost before = views(out@);
            out.push(piece);
            assert(views(out@) =~= before.push(piece@));
            start = i + 1;
            i = i + 1;
        } else {
            i = i + 1;
        }
    }
    if start < s.len() {
        let ghost rest = s@.skip(start as int);
        proof {
            assert forall|j: int| 0 <= j < rest.len() implies #[trigger] rest[j] != '\n' by {
                assert(rest[j] == s@[start + j]);
            }
            lemma_prefix_len(rest, not_char('\n'), rest.len() as int);
            assert(rest =~= s@.subrange(start as int, s.len() as int));
        }
        let piece = copy_range(s, start, s.len());
        let ghost before = views(out@);
        out.push(piece);
        assert(views(out@) =~= before.push(piece@));
    } else {
        assert(s@.skip(start as int).len() == 0);
        assert(views(out@) =~= views(out@) + lines_spec(s@.skip(start as int)));
    }
    out
}

/// `s.split_whitespace()`.
pub fn words(s: &[char]) -> (out: Vec<Vec<char>>)
    ensures
        views(out@) == words_spec(s@),
{
    let mut out: Vec<Vec<char>> = Vec::new();
    let mut i: usize = 0;
    assert(s@.skip(0) =~= s@);
    assert(views(out@) =~= Seq::<Seq<char>>::empty());
    loop
        invariant
            i <= s.len(),
            views(out@) + words_spec(s@.skip(i as int)) == words_spec(s@),
        decreases s.len() - i,
    {
        let ghost i0 = i;
        while i < s.len() && char_is_ws(s[i])
            invariant
                i0 <= i <= s.len(),
                views(out@) + words_spec(s@.skip(i as int)) == words_spec(s@),
            decreases s.len() - i,
        {
            assert(s@.skip(i as int).drop_first() =~= s@.skip(i + 1));
            i = i + 1;
        }
        if i == s.len() {
            assert(s@.skip(i as int).len() == 0);
            assert(views(out@) =~= views(out@) + words_spec(s@.skip(i as int)));
            return out;
        }
        let start = i;
        while i < s.len() && !char_is_ws(s[i])
            invariant
                i0 <= start <= i <= s.len(),
                start < s.len(),
                !is_ws(s@[start as int]),
                i == start || i > start,
                forall|j: int| start <= j < i ==> !is_ws(#[trigger] s@[j]),
            decreases s.len() - i,
        {
            i = i + 1;
        }
        assert(i > start);
        let ghost rest = s@.skip(start as int);
        proof {
            assert forall|j: int| 0 <= j < i - start implies (not_ws())(#[trigger] rest[j]) by {
                assert(rest[j] == s@[start + j]);
            }
            if i < s.len() {
                assert(rest[i - start] == s@[i as int]);
            }
            lemma_prefix_len(rest, not_ws(), (i - start) as int);
            assert(rest.take((i - start) as int) =~= s@.subrange(start as int, i as int));
            assert(rest.skip((i - start) as int) =~= s@.skip(i as int));
        }
        let piece = copy_range(s, start, i);
        let ghost before = views(out@);
        out.push(piece);
        assert(views(out@) =~= before.push(piece@));
    }
}

/// Parses decimal digits `d` (`d.len() > 0`) as a number of at most `bound`.
fn parse_digits(d: &[char], bound: u64) -> (r: Option<u64>)
    requires
        bound <= 0x1_0000_0000,
    ensures
        r == (if d@.len() > 0 && all_digits(d@) && digits_value(d@) <= bound {
            Some(digits_value(d@) as u64)
        } else {
            None::<u64>
        }),
{
    if d.len() == 0 {
        return None;
    }
    let mut acc: u64 = 0;
    let mut i: usize = 0;
    while i < d.len()
        invariant
            bound <= 0x1_0000_0000,
            i <= d.len(),
            all_digits(d@.take(i as int)),
            acc == digits_value(d@.take(i as int)),
            acc <= bound,
        decreases d.len() - i,
    {
        let c = d[i];
        if !('0' <= c && c <= '9') {
            assert(!is_digit(d@[i as int]));
            return None;
        }
        let v = (c as u32 - '0' as u32) as u64;
        proof {
            assert(d@.take(i + 1).drop_last() =~= d@.take(i as int));
        }
        let next = acc * 10 + v;
        i = i + 1;
        assert(all_digits(d@.take(i as int))) by {
            assert forall|j: int| 0 <= j < i implies is_digit(#[trigger] d@.take(i as int)[j]) by {
                if j < i - 1 {
                    assert(d@.take(i as int)[j] == d@.take(i - 1)[j]);
                }
            }
        }
        if next > bound {
            proof {
                lemma_digits_value_mono(d@, i as int);
            }
            return None;
        }
        acc = next;
    }
    assert(d@.take(d.len() as int) =~= d@);
    Some(acc)
}

/// `s.parse::<u32>().ok()`.
pub fn parse_u32(s: &[char]) -> (r: Option<u32>)
    ensures
        r == parse_u32_spec(s@),
{
    let from: usize = if s.len() > 0 && s[0] == '+' {
        1
    } else {
        0
    };
    let d = copy_range(s, from, s.len());
    assert(d@ =~= (if s@.len() > 0 && s@[0] == '+' {
        s@.drop_first()
    } else {
        s@
    }));
    match parse_digits(d.as_slice(), 0xffff_ffff) {
        Some(v) => Some(v as u32),
        None => None,
    }
}

/// `s.parse::<i32>().ok()`.
pub fn parse_i32(s: &[char]) -> (r: Option<i32>)
    ensures
        r == parse_i32_spec(s@),
{
    if s.len() > 0 && s[0] == '-' {
        let d = copy_range(s, 1, s.len());
        assert(d@ =~= s@.drop_first());
        match parse_digits(d.as_slice(), 0x8000_0000) {
            Some(v) => Some((0 - (v as i64)) as i32),
            None => None,
        }
    } else {
        let from: usize = if s.len() > 0 && s[0] == '+' {
            1
        } else {
            0
        };
        let d = copy_range(s, from, s.len());
        assert(d@ =~= (if s@.len() > 0 && s@[0] == '+' {
            s@.drop_first()
        } else {
            s@
        }));
        match parse_digits(d.as_slice(), 0x7fff_ffff) {
            Some(v) => Some(v as i32),
            None => None,
        }
    }
}

/// Appends the decimal representation of `n` to `s`.
pub fn push_decimal(s: &mut String, n: u64)
    ensures
        final(s)@ == old(s)@ + decimal(n as nat),
    decreases n,
{
    if n >= 10 {
        push_decimal(s, n / 10);
    }
    let d = (n % 10) as u8;
    let c = (d + 48) as char;
    assert(c == digit_char(n as nat));
    push_char(s, c);
    assert(s@ =~= old(s)@ + decimal(n as nat));
}

/// Appends the decimal representation of the signed `n` to `s`.
pub fn push_signed(s: &mut String, n: i64)
    ensures
        final(s)@ == old(s)@ + signed_decimal(n as int),
{
    if n < 0 {
        push_char(s, '-');
        let m: u64 = if n == i64::MIN {
            0x8000_0000_0000_0000u64
        } else {
            (0 - n) as u64
        };
        push_decimal(s, m);
        assert(s@ =~= old(s)@ + signed_decimal(n as int));
    } else {
        push_decimal(s, n as u64);
    }
}

/// The decimal representation of `n` (`n.to_string()`).
pub fn decimal_string(n: u64) -> (s: String)
    ensures
        s@ == decimal(n as nat),
{
    let mut s = String::new();
    push_decimal(&mut s, n);
    assert(s@ =~= decimal(n as nat));
    s
}

} // verus!

verus! {

/// What `str::to_lowercase` returns for a string.
pub uninterp spec fn lowercase(s: Seq<char>) -> Seq<char>;

/// `str::to_lowercase`: the string with every character mapped to its
/// Unicode lowercase form.
#[verifier::external_body]
pub(crate) fn to_lowercase(s: &str) -> (r: String)
    ensures
        r@ == lowercase(s@),
{
    s.to_lowercase()
}

} // verus!

verus! {

/// Appends a string to `s`.
pub fn push_str(s: &mut String, t: &str)
    ensures
        final(s)@ == old(s)@ + t@,
{
    s.append(t);
}

/// Copies `src[from..to]` onto the end of `dst`.
pub fn append_range<T: Copy>(dst: &mut Vec<T>, src: &[T], from: usize, to: usize)
    requires
        from <= to <= src.len(),
    ensures
        final(dst)@ == old(dst)@ + src@.subrange(from as int, to as int),
{
    let mut i = from;
    while i < to
        invariant
            from <= i <= to <= src.len(),
            dst@ == old(dst)@ + src@.subrange(from as int, i as int),
        decreases to - i,
    {
        dst.push(src[i]);
        i = i + 1;
        assert(dst@ =~= old(dst)@ + src@.subrange(from as int, i as int));
    }
}

} // verus!

verus! {

/// What `format!("{:?}", s)` renders for a string: quoted, with escapes.
pub uninterp spec fn debug_quoted(s: Seq<char>) -> Seq<char>;

/// `format!("{:?}", s)`: the string quoted, with special characters escaped
/// as `Debug` for `str` escapes them.
#[verifier::external_body]
pub(crate) fn debug_str(s: &str) -> (r: String)
    ensures
        r@ == debug_quoted(s@),
{
    format!("{:?}", s)
}

} // verus!
