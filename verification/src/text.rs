//! Character-level helpers for the text the pipeline reads and writes.
//!
//! Text is modelled as `Seq<char>`. The executable functions work on
//! `Vec<char>` and convert from and to `str` at their edges.

use vstd::prelude::*;

verus! {

/// `String::push` appends one character to the end of the string.
pub assume_specification[ String::push ](s: &mut String, ch: char)
    ensures
        final(s)@ == old(s)@.push(ch),
;

/// The characters of each of `items`.
pub open spec fn texts(items: Seq<String>) -> Seq<Seq<char>> {
    items.map_values(|s: String| s@)
}

/// The characters of a text that may be absent.
pub open spec fn opt_text(text: Option<String>) -> Option<Seq<char>> {
    match text {
        Some(t) => Some(t@),
        None => None,
    }
}

/// Whether `c` has the Unicode property `White_Space`.
pub open spec fn is_space(c: char) -> bool {
    let u = c as u32;
    ||| 0x09 <= u <= 0x0D
    ||| u == 0x20
    ||| u == 0x85
    ||| u == 0xA0
    ||| u == 0x1680
    ||| 0x2000 <= u <= 0x200A
    ||| u == 0x2028
    ||| u == 0x2029
    ||| u == 0x202F
    ||| u == 0x205F
    ||| u == 0x3000
}

/// Whether `needle` stands in `hay` at index `at`.
pub open spec fn occurs_at(hay: Seq<char>, needle: Seq<char>, at: int) -> bool {
    &&& 0 <= at
    &&& at + needle.len() <= hay.len()
    &&& hay.subrange(at, at + needle.len()) =~= needle
}

/// The first index at or after `from` at which `needle` stands in `hay`.
pub open spec fn find_from(hay: Seq<char>, needle: Seq<char>, from: int) -> Option<int>
    decreases hay.len() - from,
{
    if from < 0 || from + needle.len() > hay.len() {
        None
    } else if occurs_at(hay, needle, from) {
        Some(from)
    } else {
        find_from(hay, needle, from + 1)
    }
}

/// The first index at which `needle` stands in `hay`.
pub open spec fn find(hay: Seq<char>, needle: Seq<char>) -> Option<int> {
    find_from(hay, needle, 0)
}

/// What follows the first occurrence of `marker` in `line`.
pub open spec fn after_first(line: Seq<char>, marker: Seq<char>) -> Option<Seq<char>> {
    match find(line, marker) {
        Some(at) => Some(line.subrange(at + marker.len(), line.len() as int)),
        None => None,
    }
}

/// How many characters at the start of `s` are whitespace (`spaces` true)
/// or are not (`spaces` false).
pub open spec fn run_len(s: Seq<char>, spaces: bool) -> nat
    decreases s.len(),
{
    if s.len() > 0 && is_space(s[0]) == spaces {
        1 + run_len(s.drop_first(), spaces)
    } else {
        0
    }
}

/// How many characters at the end of `s` are whitespace.
pub open spec fn trailing_spaces(s: Seq<char>) -> nat
    decreases s.len(),
{
    if s.len() > 0 && is_space(s.last()) {
        1 + trailing_spaces(s.drop_last())
    } else {
        0
    }
}

/// The characters of `s` up to its first whitespace character.
pub open spec fn first_word(s: Seq<char>) -> Seq<char> {
    s.subrange(0, run_len(s, false) as int)
}

/// `s` without the whitespace at its start.
pub open spec fn trimmed_start(s: Seq<char>) -> Seq<char> {
    s.subrange(run_len(s, true) as int, s.len() as int)
}

/// `s` without the whitespace at its start and at its end.
pub open spec fn trimmed(s: Seq<char>) -> Seq<char> {
    let rest = trimmed_start(s);
    rest.subrange(0, rest.len() - trailing_spaces(rest))
}

/// The lower-case form of an ASCII letter; any other character unchanged.
pub open spec fn ascii_lower(c: char) -> char {
    if 'A' <= c <= 'Z' {
        ((c as u8) + 32) as char
    } else {
        c
    }
}

/// Whether `a` and `b` are equal up to the case of ASCII letters.
pub open spec fn eq_ignoring_ascii_case(a: Seq<char>, b: Seq<char>) -> bool {
    a.map_values(|c: char| ascii_lower(c)) =~= b.map_values(|c: char| ascii_lower(c))
}

/// The decimal digit `d` as a character.
pub open spec fn digit(d: nat) -> char
    recommends
        d < 10,
{
    (('0' as u8) + d) as char
}

/// The decimal numeral of `n`, without leading zeros.
pub open spec fn decimal(n: nat) -> Seq<char>
    decreases n,
{
    if n < 10 {
        seq![digit(n)]
    } else {
        decimal(n / 10).push(digit(n % 10))
    }
}

/// The decimal numeral of `n`, with a minus sign where it is negative.
pub open spec fn signed_decimal(n: int) -> Seq<char> {
    if n < 0 {
        seq!['-'] + decimal((-n) as nat)
    } else {
        decimal(n as nat)
    }
}

/// The index of the first `c` in `s`.
pub open spec fn index_of(s: Seq<char>, c: char) -> Option<int>
    decreases s.len(),
{
    if s.len() == 0 {
        None
    } else if s[0] == c {
        Some(0)
    } else {
        match index_of(s.drop_first(), c) {
            Some(i) => Some(i + 1),
            None => None,
        }
    }
}

/// The parts of `s` between the occurrences of `separator`. A text
/// without the separator is one part; an empty text is one empty part.
pub open spec fn split(s: Seq<char>, separator: char) -> Seq<Seq<char>>
    decreases s.len(),
{
    match index_of(s, separator) {
        Some(i) => if 0 <= i < s.len() {
            seq![s.subrange(0, i)] + split(s.subrange(i + 1, s.len() as int), separator)
        } else {
            seq![s]
        },
        None => seq![s],
    }
}

/// Whether `c` is one of the digits `0` to `9`.
pub open spec fn is_digit(c: char) -> bool {
    '0' <= c <= '9'
}

/// Whether `s` is made of digits only.
pub open spec fn all_digits(s: Seq<char>) -> bool {
    forall|i: int| 0 <= i < s.len() ==> is_digit(#[trigger] s[i])
}

/// The number that the digits `s` write in base ten.
pub open spec fn digits_value(s: Seq<char>) -> nat
    decreases s.len(),
{
    if s.len() == 0 {
        0
    } else {
        (digits_value(s.drop_last()) * 10 + (s.last() as u32 - '0' as u32)) as nat
    }
}

/// The number that `s` writes, as `str::parse` reads an unsigned integer
/// that may be at most `max`: digits, at least one, after an optional plus
/// sign. `None` for any other text and for a number above `max`.
pub open spec fn parsed_unsigned(s: Seq<char>, max: nat) -> Option<nat> {
    let digits = if s.len() > 0 && s[0] == '+' {
        s.drop_first()
    } else {
        s
    };
    if digits.len() > 0 && all_digits(digits) && digits_value(digits) <= max {
        Some(digits_value(digits))
    } else {
        None
    }
}

/// `index_of` returns the least index at which the character stands, and
/// `None` exactly when it stands nowhere.
pub proof fn lemma_index_of_first(s: Seq<char>, c: char)
    ensures
        match index_of(s, c) {
            Some(i) => 0 <= i < s.len() && s[i] == c && forall|j: int|
                0 <= j < i ==> s[j] != c,
            None => forall|j: int| 0 <= j < s.len() ==> s[j] != c,
        },
    decreases s.len(),
{
    if s.len() > 0 && s[0] != c {
        let t = s.drop_first();
        lemma_index_of_first(t, c);
        match index_of(t, c) {
            Some(i) => {
                assert forall|j: int| 0 <= j < i + 1 implies s[j] != c by {
                    if j > 0 {
                        assert(s[j] == t[j - 1]);
                    }
                }
            },
            None => {
                assert forall|j: int| 0 <= j < s.len() implies s[j] != c by {
                    if j > 0 {
                        assert(s[j] == t[j - 1]);
                    }
                }
            },
        }
    }
}

/// The index at which a character stands first is its `index_of`.
pub proof fn lemma_index_of_is(s: Seq<char>, c: char, at: int)
    requires
        0 <= at <= s.len(),
        forall|j: int| 0 <= j < at ==> s[j] != c,
        at < s.len() ==> s[at] == c,
    ensures
        index_of(s, c) == if at < s.len() {
            Some(at)
        } else {
            None
        },
{
    lemma_index_of_first(s, c);
}

/// A split has at least one part.
pub proof fn lemma_split_has_parts(s: Seq<char>, separator: char)
    ensures
        split(s, separator).len() >= 1,
{
}

/// The number written by digits does not shrink when digits are added at
/// the end.
pub proof fn lemma_digits_value_grows(s: Seq<char>, k: int)
    requires
        0 <= k <= s.len(),
        all_digits(s),
    ensures
        digits_value(s.subrange(0, k)) <= digits_value(s),
    decreases s.len() - k,
{
    if k < s.len() {
        let front = s.drop_last();
        assert(all_digits(front)) by {
            assert forall|i: int| 0 <= i < front.len() implies is_digit(#[trigger] front[i]) by {
                assert(front[i] == s[i]);
            }
        }
        lemma_digits_value_grows(front, k);
        assert(front.subrange(0, k) =~= s.subrange(0, k));
        assert(is_digit(s.last()));
    } else {
        assert(s.subrange(0, k) =~= s);
    }
}

/// A run that is known to cover the first `k` characters and to stop at
/// index `k` has length `k`.
pub proof fn lemma_run_len_is(s: Seq<char>, spaces: bool, k: int)
    requires
        0 <= k <= s.len(),
        forall|i: int| 0 <= i < k ==> is_space(#[trigger] s[i]) == spaces,
        k < s.len() ==> is_space(s[k]) != spaces,
    ensures
        run_len(s, spaces) == k,
    decreases k,
{
    if k > 0 {
        let t = s.drop_first();
        assert forall|i: int| 0 <= i < k - 1 implies is_space(#[trigger] t[i]) == spaces by {
            assert(t[i] == s[i + 1]);
        }
        if k - 1 < t.len() {
            assert(t[k - 1] == s[k]);
        }
        lemma_run_len_is(t, spaces, k - 1);
    }
}

/// Trailing whitespace that is known to cover the last `k` characters and
/// to stop before them has length `k`.
pub proof fn lemma_trailing_spaces_is(s: Seq<char>, k: int)
    requires
        0 <= k <= s.len(),
        forall|i: int| s.len() - k <= i < s.len() ==> is_space(#[trigger] s[i]),
        k < s.len() ==> !is_space(s[s.len() - k - 1]),
    ensures
        trailing_spaces(s) == k,
    decreases k,
{
    if k > 0 {
        let t = s.drop_last();
        assert forall|i: int| t.len() - (k - 1) <= i < t.len() implies is_space(
            #[trigger] t[i],
        ) by {
            assert(t[i] == s[i]);
        }
        if k - 1 < t.len() {
            assert(t[t.len() - (k - 1) - 1] == s[s.len() - k - 1]);
        }
        lemma_trailing_spaces_is(t, k - 1);
    }
}

/// `find_from` returns the least index at or after `from` where the needle
/// stands, and `None` exactly when there is none.
pub proof fn lemma_find_from_first(hay: Seq<char>, needle: Seq<char>, from: int)
    requires
        0 <= from,
    ensures
        match find_from(hay, needle, from) {
            Some(at) => {
                &&& from <= at
                &&& occurs_at(hay, needle, at)
                &&& forall|j: int| from <= j < at ==> !occurs_at(hay, needle, j)
            },
            None => forall|j: int| from <= j ==> !occurs_at(hay, needle, j),
        },
    decreases hay.len() - from,
{
    if from + needle.len() > hay.len() {
    } else if occurs_at(hay, needle, from) {
    } else {
        lemma_find_from_first(hay, needle, from + 1);
    }
}

/// Whether `c` is a whitespace character.
pub fn is_space_char(c: char) -> (b: bool)
    ensures
        b == is_space(c),
{
    let u: u32 = c as u32;
    (0x09 <= u && u <= 0x0D) || u == 0x20 || u == 0x85 || u == 0xA0 || u == 0x1680 || (0x2000 <= u
        && u <= 0x200A) || u == 0x2028 || u == 0x2029 || u == 0x202F || u == 0x205F || u == 0x3000
}

/// The characters of `s`, in order.
pub fn chars_of(s: &str) -> (out: Vec<char>)
    ensures
        out@ == s@,
{
    broadcast use vstd::string::group_string_axioms;

    let mut out: Vec<char> = Vec::new();
    for c in it: s.chars()
        invariant
            it.seq() == s@,
            out@ == s@.subrange(0, it.index()),
    {
        out.push(c);
    }
    out
}

/// Appends the characters `v[from..to]` to `out`.
pub fn push_chars(out: &mut String, v: &Vec<char>, from: usize, to: usize)
    requires
        from <= to <= v.len(),
    ensures
        final(out)@ == old(out)@ + v@.subrange(from as int, to as int),
{
    let mut i: usize = from;
    while i < to
        invariant
            from <= i <= to <= v.len(),
            out@ == old(out)@ + v@.subrange(from as int, i as int),
        decreases to - i,
    {
        out.push(v[i]);
        i += 1;
    }
}

/// The string made of the characters `v[from..to]`.
pub fn string_of(v: &Vec<char>, from: usize, to: usize) -> (out: String)
    requires
        from <= to <= v.len(),
    ensures
        out@ == v@.subrange(from as int, to as int),
{
    let mut out = String::new();
    push_chars(&mut out, v, from, to);
    out
}

/// Whether `needle` stands in `hay` at index `at`.
pub fn matches_at(hay: &Vec<char>, needle: &Vec<char>, at: usize) -> (b: bool)
    ensures
        b == occurs_at(hay@, needle@, at as int),
{
    if needle.len() > hay.len() || at > hay.len() - needle.len() {
        return false;
    }
    let mut k: usize = 0;
    while k < needle.len()
        invariant
            at + needle.len() <= hay.len(),
            k <= needle.len(),
            forall|j: int| 0 <= j < k ==> hay@[at + j] == needle@[j],
        decreases needle.len() - k,
    {
        if hay[at + k] != needle[k] {
            assert(hay@.subrange(at as int, at + needle.len())[k as int] == hay@[at + k]);
            return false;
        }
        k += 1;
    }
    true
}

/// The first index at or after `from` at which `needle` stands in `hay`.
pub fn find_in_from(hay: &Vec<char>, needle: &Vec<char>, from: usize) -> (at: Option<usize>)
    ensures
        match at {
            Some(i) => {
                &&& find_from(hay@, needle@, from as int) == Some(i as int)
                &&& from <= i
                &&& i + needle.len() <= hay.len()
            },
            None => find_from(hay@, needle@, from as int) is None,
        },
{
    if needle.len() > hay.len() {
        return None;
    }
    let last: usize = hay.len() - needle.len();
    let mut i: usize = from;
    while i <= last
        invariant
            last == hay.len() - needle.len(),
            from <= i,
            find_from(hay@, needle@, from as int) == find_from(hay@, needle@, i as int),
        decreases last + 1 - i,
    {
        if matches_at(hay, needle, i) {
            return Some(i);
        }
        i += 1;
    }
    None
}

/// The first index at which `needle` stands in `hay`.
pub fn find_in(hay: &Vec<char>, needle: &Vec<char>) -> (at: Option<usize>)
    ensures
        match at {
            Some(i) => find(hay@, needle@) == Some(i as int) && i + needle.len() <= hay.len(),
            None => find(hay@, needle@) is None,
        },
{
    find_in_from(hay, needle, 0)
}

/// The number of characters from index `from` on that are whitespace
/// (`spaces` true) or are not (`spaces` false).
pub fn run_from(v: &Vec<char>, from: usize, spaces: bool) -> (n: usize)
    requires
        from <= v.len(),
    ensures
        n == run_len(v@.subrange(from as int, v.len() as int), spaces),
        from + n <= v.len(),
{
    let mut i: usize = from;
    while i < v.len() && is_space_char(v[i]) == spaces
        invariant
            from <= i <= v.len(),
            forall|j: int| from <= j < i ==> is_space(#[trigger] v@[j]) == spaces,
        decreases v.len() - i,
    {
        i += 1;
    }
    proof {
        let s = v@.subrange(from as int, v.len() as int);
        assert forall|j: int| 0 <= j < i - from implies is_space(#[trigger] s[j]) == spaces by {
            assert(s[j] == v@[from + j]);
        }
        lemma_run_len_is(s, spaces, i - from);
    }
    i - from
}

/// The bounds `(from, to)` of `v` without the whitespace at its two ends.
pub fn trim_bounds(v: &Vec<char>) -> (b: (usize, usize))
    ensures
        b.0 <= b.1 <= v.len(),
        v@.subrange(b.0 as int, b.1 as int) == trimmed(v@),
{
    let from: usize = run_from(v, 0, true);
    assert(v@.subrange(0, v.len() as int) =~= v@);
    let mut to: usize = v.len();
    while to > from && is_space_char(v[to - 1])
        invariant
            from <= to <= v.len(),
            forall|j: int| to <= j < v.len() ==> is_space(#[trigger] v@[j]),
        decreases to,
    {
        to -= 1;
    }
    proof {
        let rest = trimmed_start(v@);
        assert(rest.len() == v.len() - from);
        let k = v.len() - to;
        assert forall|j: int| rest.len() - k <= j < rest.len() implies is_space(
            #[trigger] rest[j],
        ) by {
            assert(rest[j] == v@[from + j]);
        }
        if k < rest.len() {
            assert(rest[rest.len() - k - 1] == v@[to - 1]);
        }
        lemma_trailing_spaces_is(rest, k);
        assert(rest.subrange(0, rest.len() - k) =~= v@.subrange(from as int, to as int));
    }
    (from, to)
}

/// The lower-case form of an ASCII letter; any other character unchanged.
pub fn to_ascii_lower(c: char) -> (l: char)
    ensures
        l == ascii_lower(c),
{
    if 'A' <= c && c <= 'Z' {
        ((c as u8) + 32) as char
    } else {
        c
    }
}

/// Whether `a[from..]` equals `b` up to the case of ASCII letters.
pub fn tail_eq_ignoring_case(a: &Vec<char>, from: usize, b: &Vec<char>) -> (same: bool)
    requires
        from <= a.len(),
    ensures
        same == eq_ignoring_ascii_case(a@.subrange(from as int, a.len() as int), b@),
{
    let ghost tail = a@.subrange(from as int, a.len() as int);
    let ghost la = tail.map_values(|c: char| ascii_lower(c));
    let ghost lb = b@.map_values(|c: char| ascii_lower(c));
    if a.len() - from != b.len() {
        assert(la.len() != lb.len());
        return false;
    }
    let mut k: usize = 0;
    while k < b.len()
        invariant
            from + b.len() == a.len(),
            k <= b.len(),
            tail == a@.subrange(from as int, a.len() as int),
            la == tail.map_values(|c: char| ascii_lower(c)),
            lb == b@.map_values(|c: char| ascii_lower(c)),
            forall|j: int| 0 <= j < k ==> la[j] == lb[j],
        decreases b.len() - k,
    {
        if to_ascii_lower(a[from + k]) != to_ascii_lower(b[k]) {
            assert(la[k as int] != lb[k as int]);
            return false;
        }
        k += 1;
    }
    true
}

/// The decimal digits of `n`, least significant first.
spec fn digits_reversed(n: nat) -> Seq<char>
    decreases n,
{
    if n < 10 {
        seq![digit(n)]
    } else {
        seq![digit(n % 10)] + digits_reversed(n / 10)
    }
}

proof fn lemma_digits_reversed(n: nat)
    ensures
        digits_reversed(n).reverse() == decimal(n),
    decreases n,
{
    if n < 10 {
        assert(seq![digit(n)].reverse() =~= seq![digit(n)]);
    } else {
        lemma_digits_reversed(n / 10);
        let head = seq![digit(n % 10)];
        let rest = digits_reversed(n / 10);
        assert((head + rest).reverse() =~= rest.reverse().push(digit(n % 10)));
    }
}

/// Appends the decimal numeral of `n` to `out`.
pub fn push_decimal(out: &mut String, n: u64)
    ensures
        final(out)@ == old(out)@ + decimal(n as nat),
{
    let mut rev: Vec<char> = Vec::new();
    let mut rest: u64 = n;
    while rest >= 10
        invariant
            rev@ + digits_reversed(rest as nat) == digits_reversed(n as nat),
        decreases rest,
    {
        let d: u8 = (rest % 10) as u8;
        assert(rev@.push(digit((rest % 10) as nat)) + digits_reversed((rest / 10) as nat) =~= rev@
            + digits_reversed(rest as nat));
        rev.push((48u8 + d) as char);
        rest = rest / 10;
    }
    let d: u8 = rest as u8;
    rev.push((48u8 + d) as char);
    assert(rev@ =~= digits_reversed(n as nat));
    proof {
        lemma_digits_reversed(n as nat);
    }
    let mut i: usize = rev.len();
    while i > 0
        invariant
            i <= rev.len(),
            out@ == old(out)@ + rev@.reverse().subrange(0, rev.len() - i),
        decreases i,
    {
        i -= 1;
        assert(rev@.reverse()[rev.len() - 1 - i] == rev@[i as int]);
        assert(rev@.reverse().subrange(0, rev.len() - i) =~= rev@.reverse().subrange(
            0,
            rev.len() - i - 1,
        ).push(rev@[i as int]));
        out.push(rev[i]);
    }
    assert(rev@.reverse().subrange(0, rev.len() as int) =~= rev@.reverse());
}

/// Appends the decimal numeral of `n`, with its sign, to `out`.
pub fn push_signed_decimal(out: &mut String, n: i32)
    ensures
        final(out)@ == old(out)@ + signed_decimal(n as int),
{
    if n < 0 {
        out.push('-');
        let magnitude: u64 = (-(n as i64)) as u64;
        push_decimal(out, magnitude);
        assert(out@ =~= old(out)@ + (seq!['-'] + decimal((-n) as nat)));
    } else {
        push_decimal(out, n as u64);
    }
}

/// Whether two texts are the same.
pub fn same_text(a: &str, b: &str) -> (same: bool)
    ensures
        same == (a@ == b@),
{
    let x = chars_of(a);
    let y = chars_of(b);
    assert(x@.subrange(0, x.len() as int) =~= x@);
    x.len() == y.len() && matches_at(&x, &y, 0)
}

/// The index of the first `c` at or after `from`.
pub fn index_from(v: &Vec<char>, from: usize, c: char) -> (at: Option<usize>)
    requires
        from <= v.len(),
    ensures
        match at {
            Some(i) => from <= i < v.len() && index_of(
                v@.subrange(from as int, v.len() as int),
                c,
            ) == Some(i - from),
            None => index_of(v@.subrange(from as int, v.len() as int), c) is None,
        },
{
    let ghost rest = v@.subrange(from as int, v.len() as int);
    let mut i: usize = from;
    while i < v.len() && v[i] != c
        invariant
            from <= i <= v.len(),
            rest == v@.subrange(from as int, v.len() as int),
            forall|j: int| 0 <= j < i - from ==> rest[j] != c,
        decreases v.len() - i,
    {
        i += 1;
    }
    proof {
        if i < v.len() {
            assert(rest[i - from] == v@[i as int]);
        }
        lemma_index_of_is(rest, c, i - from);
    }
    if i < v.len() {
        Some(i)
    } else {
        None
    }
}

/// The parts of `v` between the occurrences of `separator`.
pub fn split_at_char(v: &Vec<char>, separator: char) -> (parts: Vec<String>)
    ensures
        texts(parts@) == split(v@, separator),
{
    let mut parts: Vec<String> = Vec::new();
    let mut start: usize = 0;
    assert(v@.subrange(0, v.len() as int) =~= v@);
    loop
        invariant_except_break
            start <= v.len(),
            split(v@, separator) == texts(parts@) + split(
                v@.subrange(start as int, v.len() as int),
                separator,
            ),
        ensures
            texts(parts@) == split(v@, separator),
        decreases v.len() - start,
    {
        let ghost rest = v@.subrange(start as int, v.len() as int);
        let ghost before = texts(parts@);
        match index_from(v, start, separator) {
            Some(i) => {
                parts.push(string_of(v, start, i));
                proof {
                    assert(rest.subrange(0, i - start) =~= v@.subrange(start as int, i as int));
                    assert(rest.subrange(i - start + 1, rest.len() as int) =~= v@.subrange(
                        i + 1,
                        v.len() as int,
                    ));
                    assert(texts(parts@) =~= before.push(v@.subrange(start as int, i as int)));
                    assert(before + (seq![rest.subrange(0, i - start)] + split(
                        rest.subrange(i - start + 1, rest.len() as int),
                        separator,
                    )) =~= before.push(rest.subrange(0, i - start)) + split(
                        rest.subrange(i - start + 1, rest.len() as int),
                        separator,
                    ));
                }
                start = i + 1;
            },
            None => {
                parts.push(string_of(v, start, v.len()));
                proof {
                    assert(texts(parts@) =~= before.push(rest));
                    assert(before + seq![rest] =~= before.push(rest));
                }
                break ;
            },
        }
    }
    parts
}

/// Reads an unsigned integer of at most `max` as `str::parse` reads one.
pub fn parse_unsigned(v: &Vec<char>, max: u64) -> (n: Option<u64>)
    ensures
        match n {
            Some(value) => parsed_unsigned(v@, max as nat) == Some(value as nat),
            None => parsed_unsigned(v@, max as nat) is None,
        },
{
    let first: usize = if v.len() > 0 && v[0] == '+' {
        1
    } else {
        0
    };
    let ghost digits = v@.subrange(first as int, v.len() as int);
    let ghost unsigned = if v@.len() > 0 && v@[0] == '+' {
        v@.drop_first()
    } else {
        v@
    };
    assert(digits =~= unsigned);
    if first == v.len() {
        return None;
    }
    let mut value: u64 = 0;
    let mut i: usize = first;
    assert(digits.subrange(0, 0) =~= Seq::<char>::empty());
    while i < v.len()
        invariant
            first <= i <= v.len(),
            digits == v@.subrange(first as int, v.len() as int),
            digits == if v@.len() > 0 && v@[0] == '+' {
                v@.drop_first()
            } else {
                v@
            },
            all_digits(digits.subrange(0, i - first)),
            value == digits_value(digits.subrange(0, i - first)),
            value <= max,
        decreases v.len() - i,
    {
        let c = v[i];
        let ghost seen = digits.subrange(0, i - first);
        let ghost next = digits.subrange(0, i - first + 1);
        assert(next.drop_last() =~= seen);
        assert(next.last() == c);
        if !('0' <= c && c <= '9') {
            assert(!is_digit(digits[i - first]));
            return None;
        }
        let d: u64 = (c as u32 - '0' as u32) as u64;
        assert(all_digits(next)) by {
            assert forall|j: int| 0 <= j < next.len() implies is_digit(#[trigger] next[j]) by {
                if j < seen.len() {
                    assert(next[j] == seen[j]);
                }
            }
        }
        if d > max || value > (max - d) / 10 {
            proof {
                assert(digits_value(next) > max);
                if all_digits(digits) {
                    lemma_digits_value_grows(digits, i - first + 1);
                }
            }
            return None;
        }
        value = value * 10 + d;
        i += 1;
    }
    assert(digits.subrange(0, i - first) =~= digits);
    Some(value)
}

/// Copies a list of strings.
pub fn copy_texts(items: &Vec<String>) -> (copy: Vec<String>)
    ensures
        texts(copy@) == texts(items@),
{
    let mut copy: Vec<String> = Vec::new();
    let mut i: usize = 0;
    while i < items.len()
        invariant
            i <= items.len(),
            copy@.len() == i,
            forall|j: int| 0 <= j < i ==> (#[trigger] copy@[j])@ == items@[j]@,
        decreases items.len() - i,
    {
        copy.push(items[i].clone());
        i += 1;
    }
    assert(texts(copy@) =~= texts(items@));
    copy
}

} // verus!
