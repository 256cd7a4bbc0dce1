//! Strings as sequences of characters: searching, trimming, and decimal
//! numbers.

use vstd::prelude::*;
use vstd::string::*;
use vstd::utf8::*;

verus! {

/// `part` occurs in `s` as a run of consecutive characters.
pub open spec fn has_part(s: Seq<char>, part: Seq<char>) -> bool {
    exists|at: int| #[trigger] part_at(s, part, at)
}

/// `part` stands in `s` from position `at` on.
pub open spec fn part_at(s: Seq<char>, part: Seq<char>, at: int) -> bool {
    0 <= at <= s.len() - part.len() && s.subrange(at, at + part.len()) == part
}

/// The characters with the Unicode property `White_Space`.
pub open spec fn is_white_space(c: char) -> bool {
    ||| '\u{9}' <= c <= '\u{d}'
    ||| c == '\u{20}'
    ||| c == '\u{85}'
    ||| c == '\u{a0}'
    ||| c == '\u{1680}'
    ||| '\u{2000}' <= c <= '\u{200a}'
    ||| c == '\u{2028}'
    ||| c == '\u{2029}'
    ||| c == '\u{202f}'
    ||| c == '\u{205f}'
    ||| c == '\u{3000}'
}

/// A class of characters that is cut off at the ends of a string.
#[derive(Clone, Copy)]
pub enum CharClass {
    /// Unicode white space.
    WhiteSpace,
    /// `/`.
    Slash,
    /// Line feed and carriage return.
    LineEnd,
}

impl CharClass {
    pub open spec fn has(self, c: char) -> bool {
        match self {
            CharClass::WhiteSpace => is_white_space(c),
            CharClass::Slash => c == '/',
            CharClass::LineEnd => c == '\n' || c == '\r',
        }
    }

    /// Whether `c` belongs to the class.
    pub fn contains(self, c: char) -> (r: bool)
        ensures
            r == self.has(c),
    {
        match self {
            CharClass::WhiteSpace => {
                ('\u{9}' <= c && c <= '\u{d}') || c == '\u{20}' || c == '\u{85}' || c == '\u{a0}'
                    || c == '\u{1680}' || ('\u{2000}' <= c && c <= '\u{200a}') || c == '\u{2028}'
                    || c == '\u{2029}' || c == '\u{202f}' || c == '\u{205f}' || c == '\u{3000}'
            },
            CharClass::Slash => c == '/',
            CharClass::LineEnd => c == '\n' || c == '\r',
        }
    }
}

/// `s` without the characters of `class` at its end.
pub open spec fn cut_end(s: Seq<char>, class: CharClass) -> Seq<char>
    decreases s.len(),
{
    if s.len() > 0 && class.has(s.last()) {
        cut_end(s.drop_last(), class)
    } else {
        s
    }
}

/// `s` without the characters of `class` at its start.
pub open spec fn cut_start(s: Seq<char>, class: CharClass) -> Seq<char>
    decreases s.len(),
{
    if s.len() > 0 && class.has(s.first()) {
        cut_start(s.drop_first(), class)
    } else {
        s
    }
}

/// `s` without the white space at its two ends.
pub open spec fn trimmed(s: Seq<char>) -> Seq<char> {
    cut_end(cut_start(s, CharClass::WhiteSpace), CharClass::WhiteSpace)
}

/// An optional string as an optional character sequence.
pub open spec fn opt_text(s: Option<String>) -> Option<Seq<char>> {
    match s {
        Some(s) => Some(s@),
        None => None,
    }
}

/// Whether two strings hold the same characters.
pub fn same(a: &str, b: &str) -> (r: bool)
    ensures
        r == (a@ == b@),
{
    a.to_owned() == b.to_owned()
}

/// The characters of a string, in order.
pub fn chars_of(s: &str) -> (v: Vec<char>)
    ensures
        v@ == s@,
{
    let mut v: Vec<char> = Vec::new();
    for c in it: s.chars()
        invariant
            v@ == it.seq().take(it.index() as int),
            it.seq() == s@,
    {
        v.push(c);
        assert(v@ == it.seq().take(it.index() + 1));
    }
    assert(s@.take(s@.len() as int) == s@);
    v
}

/// Whether `part` occurs in `s`.
pub fn contains(s: &str, part: &str) -> (r: bool)
    ensures
        r == has_part(s@, part@),
{
    let n: usize = s.unicode_len();
    let m: usize = part.unicode_len();
    if m > n {
        return false;
    }
    let mut at: usize = 0;
    while at <= n - m
        invariant
            n == s@.len(),
            m == part@.len(),
            m <= n,
            at <= n - m + 1,
            forall|k: int| 0 <= k < at ==> !part_at(s@, part@, k),
        decreases n - m + 1 - at,
    {
        if same(s.substring_char(at, at + m), part) {
            assert(part_at(s@, part@, at as int));
            return true;
        }
        if at == n - m {
            assert(forall|k: int| !part_at(s@, part@, k));
            return false;
        }
        at = at + 1;
    }
    false
}

/// Cuts the characters of `class` off the end of `s`.
pub fn trim_end<'a>(s: &'a str, class: CharClass) -> (r: &'a str)
    ensures
        r@ == cut_end(s@, class),
{
    let v = chars_of(s);
    let mut end: usize = v.len();
    assert(s@.take(end as int) == s@);
    while end > 0 && class.contains(v[end - 1])
        invariant
            v@ == s@,
            end <= v.len(),
            cut_end(s@, class) == cut_end(s@.take(end as int), class),
        decreases end,
    {
        assert(s@.take(end as int).drop_last() == s@.take(end - 1));
        end = end - 1;
    }
    s.substring_char(0, end)
}

/// Cuts the white space off both ends of `s`.
pub fn trim<'a>(s: &'a str) -> (r: &'a str)
    ensures
        r@ == trimmed(s@),
{
    let v = chars_of(s);
    let class = CharClass::WhiteSpace;
    let mut start: usize = 0;
    assert(s@.skip(0) == s@);
    while start < v.len() && class.contains(v[start])
        invariant
            v@ == s@,
            start <= v.len(),
            cut_start(s@, class) == cut_start(s@.skip(start as int), class),
        decreases v.len() - start,
    {
        assert(s@.skip(start as int).drop_first() == s@.skip(start + 1));
        start = start + 1;
    }
    let rest = s.substring_char(start, v.len());
    assert(rest@ == s@.skip(start as int));
    trim_end(rest, class)
}

/// A letter of ASCII in upper case.
pub open spec fn ascii_upper(c: char) -> char {
    if 'a' <= c <= 'z' {
        (c as u8 - 32) as char
    } else {
        c
    }
}

/// A letter of ASCII in lower case.
pub open spec fn ascii_lower(c: char) -> char {
    if 'A' <= c <= 'Z' {
        (c as u8 + 32) as char
    } else {
        c
    }
}

/// What `str::to_uppercase` makes of a string that is not in ASCII.
pub uninterp spec fn uppercase_of(s: Seq<char>) -> Seq<char>;

/// What `str::to_lowercase` makes of a string that is not in ASCII.
pub uninterp spec fn lowercase_of(s: Seq<char>) -> Seq<char>;

/// A string in upper case: of one in ASCII each letter, of another what the rules of
/// Unicode say.
pub open spec fn in_upper_case(s: Seq<char>) -> Seq<char> {
    if is_ascii_chars(s) {
        s.map_values(|c: char| ascii_upper(c))
    } else {
        uppercase_of(s)
    }
}

/// A string in lower case: of one in ASCII each letter, of another what the rules of
/// Unicode say.
pub open spec fn in_lower_case(s: Seq<char>) -> Seq<char> {
    if is_ascii_chars(s) {
        s.map_values(|c: char| ascii_lower(c))
    } else {
        lowercase_of(s)
    }
}

/// Calls `str::to_uppercase`. Claimed: of a string in ASCII each letter is put in
/// upper case, and of another the result depends on the string alone. The rules of
/// Unicode are not stated.
#[verifier::external_body]
pub(crate) fn uppercase(s: &str) -> (r: String)
    ensures
        is_ascii_chars(s@) ==> r@ == s@.map_values(|c: char| ascii_upper(c)),
        !is_ascii_chars(s@) ==> r@ == uppercase_of(s@),
{
    s.to_uppercase()
}

/// Calls `str::to_lowercase`. Claimed: of a string in ASCII each letter is put in
/// lower case, and of another the result depends on the string alone. The rules of
/// Unicode are not stated.
#[verifier::external_body]
pub(crate) fn lowercase(s: &str) -> (r: String)
    ensures
        is_ascii_chars(s@) ==> r@ == s@.map_values(|c: char| ascii_lower(c)),
        !is_ascii_chars(s@) ==> r@ == lowercase_of(s@),
{
    s.to_lowercase()
}

/// How many characters stand before the first `c` in `s`: all of them where
/// there is none.
pub open spec fn first_index(s: Seq<char>, c: char) -> int
    decreases s.len(),
{
    if s.len() == 0 || s.first() == c {
        0
    } else {
        1 + first_index(s.drop_first(), c)
    }
}

/// The second of the parts into which `c` splits `s`.
pub open spec fn second_part(s: Seq<char>, c: char) -> Option<Seq<char>> {
    let cut = first_index(s, c);
    if cut < s.len() {
        let rest = s.skip(cut + 1);
        Some(rest.take(first_index(rest, c)))
    } else {
        None
    }
}

fn index_of(v: &Vec<char>, from: usize, c: char) -> (r: usize)
    requires
        from <= v.len(),
    ensures
        from <= r <= v.len(),
        r - from == first_index(v@.skip(from as int), c),
{
    let mut at: usize = from;
    while at < v.len() && v[at] != c
        invariant
            from <= at <= v.len(),
            first_index(v@.skip(from as int), c) == at - from + first_index(v@.skip(at as int), c),
        decreases v.len() - at,
    {
        assert(v@.skip(at as int).drop_first() == v@.skip(at + 1));
        at = at + 1;
    }
    at
}

/// The second of the parts into which `c` splits `s`, where `c` occurs in it.
pub fn second_segment<'a>(s: &'a str, c: char) -> (r: Option<&'a str>)
    ensures
        r is Some <==> second_part(s@, c) is Some,
        r matches Some(part) ==> part@ == second_part(s@, c)->0,
{
    let v = chars_of(s);
    let cut = index_of(&v, 0, c);
    assert(v@.skip(0) == s@);
    if cut < v.len() {
        let end = index_of(&v, cut + 1, c);
        let part = s.substring_char(cut + 1, end);
        assert(part@ == second_part(s@, c)->0);
        Some(part)
    } else {
        None
    }
}

/// The character that stands for one decimal digit.
pub open spec fn digit_char(d: nat) -> char {
    if d == 0 {
        '0'
    } else if d == 1 {
        '1'
    } else if d == 2 {
        '2'
    } else if d == 3 {
        '3'
    } else if d == 4 {
        '4'
    } else if d == 5 {
        '5'
    } else if d == 6 {
        '6'
    } else if d == 7 {
        '7'
    } else if d == 8 {
        '8'
    } else {
        '9'
    }
}

/// A natural number in decimal, without leading zeros.
pub open spec fn nat_decimal(n: nat) -> Seq<char>
    decreases n,
{
    if n < 10 {
        seq![digit_char(n)]
    } else {
        nat_decimal(n / 10).push(digit_char(n % 10))
    }
}

/// An integer in decimal, a minus sign in front where it is negative.
pub open spec fn int_decimal(n: int) -> Seq<char> {
    if n < 0 {
        seq!['-'] + nat_decimal((-n) as nat)
    } else {
        nat_decimal(n as nat)
    }
}

fn digit_str(d: u64) -> (r: &'static str)
    requires
        d < 10,
    ensures
        r@ == seq![digit_char(d as nat)],
{
    proof {
        reveal_strlit("0");
        reveal_strlit("1");
        reveal_strlit("2");
        reveal_strlit("3");
        reveal_strlit("4");
        reveal_strlit("5");
        reveal_strlit("6");
        reveal_strlit("7");
        reveal_strlit("8");
        reveal_strlit("9");
    }
    if d == 0 {
        "0"
    } else if d == 1 {
        "1"
    } else if d == 2 {
        "2"
    } else if d == 3 {
        "3"
    } else if d == 4 {
        "4"
    } else if d == 5 {
        "5"
    } else if d == 6 {
        "6"
    } else if d == 7 {
        "7"
    } else if d == 8 {
        "8"
    } else {
        "9"
    }
}

fn nat_text(n: u64) -> (r: String)
    ensures
        r@ == nat_decimal(n as nat),
    decreases n,
{
    if n < 10 {
        digit_str(n).to_owned()
    } else {
        let r = nat_text(n / 10).concat(digit_str(n % 10));
        assert(r@ == nat_decimal((n / 10) as nat).push(digit_char((n % 10) as nat)));
        r
    }
}

/// Writes an integer in decimal.
pub fn decimal(n: i32) -> (r: String)
    ensures
        r@ == int_decimal(n as int),
{
    let wide: i64 = n as i64;
    if wide < 0 {
        proof {
            reveal_strlit("-");
        }
        let digits = nat_text((-wide) as u64);
        let r = "-".to_owned().concat(digits.as_str());
        assert(r@ == seq!['-'] + nat_decimal((-n) as nat));
        r
    } else {
        nat_text(wide as u64)
    }
}

/// No character of `s` is `c`.
pub open spec fn free_of(s: Seq<char>, c: char) -> bool {
    forall|i: int| 0 <= i < s.len() ==> s[i] != c
}

proof fn lemma_nat_decimal_digits(n: nat)
    ensures
        nat_decimal(n).len() > 0,
        forall|i: int| 0 <= i < nat_decimal(n).len() ==> '0' <= #[trigger] nat_decimal(n)[i] <= '9',
    decreases n,
{
    if n >= 10 {
        lemma_nat_decimal_digits(n / 10);
    }
}

proof fn lemma_nat_decimal_injective(a: nat, b: nat)
    requires
        nat_decimal(a) == nat_decimal(b),
    ensures
        a == b,
    decreases a,
{
    let x = nat_decimal(a);
    let y = nat_decimal(b);
    if a >= 10 {
        lemma_nat_decimal_digits(a / 10);
    }
    if b >= 10 {
        lemma_nat_decimal_digits(b / 10);
    }
    assert(x.last() == y.last());
    assert(x.last() == digit_char(a % 10));
    assert(y.last() == digit_char(b % 10));
    assert(a % 10 == b % 10);
    if a >= 10 && b >= 10 {
        assert(x.drop_last() == nat_decimal(a / 10));
        assert(y.drop_last() == nat_decimal(b / 10));
        lemma_nat_decimal_injective(a / 10, b / 10);
    }
}

/// A decimal number is not empty, and holds digits after an optional minus
/// sign: no colon occurs in it, and it starts with no letter.
pub proof fn lemma_int_decimal_shape(n: int)
    ensures
        int_decimal(n).len() > 0,
        free_of(int_decimal(n), ':'),
        int_decimal(n)[0] <= '9',
{
    if n < 0 {
        lemma_nat_decimal_digits((-n) as nat);
    } else {
        lemma_nat_decimal_digits(n as nat);
    }
}

/// Different integers have different decimal texts.
pub proof fn lemma_int_decimal_injective(a: int, b: int)
    requires
        int_decimal(a) == int_decimal(b),
    ensures
        a == b,
{
    let x = int_decimal(a);
    let y = int_decimal(b);
    if a < 0 {
        lemma_nat_decimal_digits((-a) as nat);
        assert(x[0] == '-');
    } else {
        lemma_nat_decimal_digits(a as nat);
        assert('0' <= x[0]);
    }
    if b < 0 {
        lemma_nat_decimal_digits((-b) as nat);
        assert(y[0] == '-');
    } else {
        lemma_nat_decimal_digits(b as nat);
        assert('0' <= y[0]);
    }
    assert((a < 0) == (b < 0));
    if a < 0 {
        lemma_prefix_cancels(seq!['-'], nat_decimal((-a) as nat), nat_decimal((-b) as nat));
        lemma_nat_decimal_injective((-a) as nat, (-b) as nat);
    } else {
        lemma_nat_decimal_injective(a as nat, b as nat);
    }
}

/// What stands before the first `c`, and what stands behind it, can be read
/// back from the whole.
pub proof fn lemma_split_unique(a: Seq<char>, x: Seq<char>, b: Seq<char>, y: Seq<char>, c: char)
    requires
        free_of(a, c),
        free_of(b, c),
        a + seq![c] + x == b + seq![c] + y,
    ensures
        a == b,
        x == y,
{
    let l = a + seq![c] + x;
    let r = b + seq![c] + y;
    assert(l[a.len() as int] == c);
    assert(r[b.len() as int] == c);
    if a.len() < b.len() {
        assert(r[a.len() as int] == b[a.len() as int]);
    } else if b.len() < a.len() {
        assert(l[b.len() as int] == a[b.len() as int]);
    }
    assert(a.len() == b.len());
    assert(a == l.take(a.len() as int));
    assert(b == r.take(b.len() as int));
    assert(x == l.skip(a.len() as int + 1));
    assert(y == r.skip(b.len() as int + 1));
}

/// A common prefix can be taken away from two equal strings.
pub proof fn lemma_prefix_cancels(p: Seq<char>, x: Seq<char>, y: Seq<char>)
    requires
        p + x == p + y,
    ensures
        x == y,
{
    assert(x == (p + x).skip(p.len() as int));
    assert(y == (p + y).skip(p.len() as int));
}

// ------------------------------------------------------------------
// Laws
// ------------------------------------------------------------------

/// What each class of characters holds.
pub proof fn law_classes_hold(c: char)
    ensures
        CharClass::Slash.has(c) <==> c == '/',
        CharClass::LineEnd.has(c) <==> c == '\n' || c == '\r',
        CharClass::WhiteSpace.has(c) <==> is_white_space(c),
        c == ' ' || c == '\t' || c == '\n' || c == '\r' ==> is_white_space(c),
        '!' <= c <= '~' ==> !is_white_space(c),
{
}

/// Cutting the end of a string keeps its start, up to the last character that is not
/// of the class.
pub proof fn law_ends_are_cut(s: Seq<char>, class: CharClass)
    ensures
        cut_end(s, class).len() <= s.len(),
        cut_end(s, class) == s.take(cut_end(s, class).len() as int),
        cut_end(s, class).len() > 0 ==> !class.has(cut_end(s, class).last()),
        forall|i: int| cut_end(s, class).len() <= i < s.len() ==> class.has(#[trigger] s[i]),
    decreases s.len(),
{
    if s.len() > 0 && class.has(s.last()) {
        let front = s.drop_last();
        law_ends_are_cut(front, class);
        let n = cut_end(front, class).len() as int;
        assert(front.take(n) =~= s.take(n));
        assert forall|i: int| n <= i < s.len() implies class.has(#[trigger] s[i]) by {
            if i < front.len() {
                assert(front[i] == s[i]);
            }
        }
    } else {
        assert(s.take(s.len() as int) =~= s);
    }
}

/// Cutting the start of a string keeps its end, from the first character that is not
/// of the class.
pub proof fn law_starts_are_cut(s: Seq<char>, class: CharClass)
    ensures
        cut_start(s, class).len() <= s.len(),
        cut_start(s, class) == s.skip(s.len() - cut_start(s, class).len()),
        cut_start(s, class).len() > 0 ==> !class.has(cut_start(s, class).first()),
        forall|i: int|
            0 <= i < s.len() - cut_start(s, class).len() ==> class.has(#[trigger] s[i]),
    decreases s.len(),
{
    if s.len() > 0 && class.has(s.first()) {
        let back = s.drop_first();
        law_starts_are_cut(back, class);
        let n = back.len() - cut_start(back, class).len();
        assert(back.skip(n) =~= s.skip(n + 1));
        assert forall|i: int| 0 <= i < n + 1 implies class.has(#[trigger] s[i]) by {
            if i > 0 {
                assert(back[i - 1] == s[i]);
            }
        }
    } else {
        assert(s.skip(0) =~= s);
    }
}

/// Trimming takes away white space at both ends and nothing else: what is left
/// stands in the string, with white space alone before and after it, and neither
/// starts nor ends with white space.
pub proof fn law_trimming_takes_white_space_only(s: Seq<char>) -> (start: int)
    ensures
        0 <= start,
        start + trimmed(s).len() <= s.len(),
        trimmed(s) == s.subrange(start, start + trimmed(s).len()),
        forall|i: int| 0 <= i < start ==> is_white_space(#[trigger] s[i]),
        forall|i: int| start + trimmed(s).len() <= i < s.len() ==> is_white_space(#[trigger] s[i]),
        trimmed(s).len() > 0 ==> !is_white_space(trimmed(s).first()) && !is_white_space(
            trimmed(s).last(),
        ),
{
    let class = CharClass::WhiteSpace;
    let rest = cut_start(s, class);
    law_starts_are_cut(s, class);
    law_ends_are_cut(rest, class);
    let start = s.len() - rest.len();
    let n = trimmed(s).len() as int;
    assert(rest.take(n) =~= s.subrange(start, start + n));
    assert forall|i: int| start + n <= i < s.len() implies is_white_space(#[trigger] s[i]) by {
        assert(rest[i - start] == s[i]);
    }
    if n > 0 {
        assert(trimmed(s).first() == rest.first());
    }
    start
}

proof fn lemma_first_index(a: Seq<char>, c: char, b: Seq<char>)
    requires
        free_of(a, c),
    ensures
        first_index(a + seq![c] + b, c) == a.len(),
        first_index(a, c) == a.len(),
    decreases a.len(),
{
    let s = a + seq![c] + b;
    if a.len() > 0 {
        let rest = a.drop_first();
        assert forall|i: int| 0 <= i < rest.len() implies #[trigger] rest[i] != c by {
            assert(rest[i] == a[i + 1]);
        }
        assert(s.drop_first() =~= rest + seq![c] + b);
        assert(s.first() == a[0]);
        lemma_first_index(rest, c, b);
    } else {
        assert(s.first() == c);
    }
}

/// The second part of a string is what stands behind the first separator, up to the
/// second one or the end; without a separator there is none.
pub proof fn law_second_parts(a: Seq<char>, b: Seq<char>, c: char, rest: Seq<char>)
    requires
        free_of(a, c),
        free_of(b, c),
    ensures
        second_part(a, c) is None,
        second_part(a + seq![c] + b, c) == Some(b),
        second_part(a + seq![c] + b + seq![c] + rest, c) == Some(b),
{
    lemma_first_index(a, c, b);
    lemma_first_index(a, c, b + seq![c] + rest);
    lemma_first_index(b, c, rest);
    let n = a.len() as int;
    let s = a + seq![c] + b;
    let t = a + seq![c] + b + seq![c] + rest;
    assert(t =~= a + seq![c] + (b + seq![c] + rest));
    assert(s.skip(n + 1) =~= b);
    assert(t.skip(n + 1) =~= b + seq![c] + rest);
    assert(b.take(b.len() as int) =~= b);
    assert((b + seq![c] + rest).take(b.len() as int) =~= b);
}

/// The number that a series of decimal digits stands for.
pub open spec fn value_of(digits: Seq<char>) -> int
    decreases digits.len(),
{
    if digits.len() == 0 {
        0
    } else {
        10 * value_of(digits.drop_last()) + (digits.last() as int - '0' as int)
    }
}

/// The decimal text of a number is made of digits, after a minus sign where it is
/// negative, and stands for the number.
pub proof fn law_decimals_stand_for_their_number(n: int)
    ensures
        n >= 0 ==> value_of(int_decimal(n)) == n && forall|i: int|
            0 <= i < int_decimal(n).len() ==> '0' <= #[trigger] int_decimal(n)[i] <= '9',
        n < 0 ==> int_decimal(n).len() > 1 && int_decimal(n)[0] == '-' && value_of(
            int_decimal(n).skip(1),
        ) == -n,
{
    if n >= 0 {
        lemma_nat_value(n as nat);
    } else {
        lemma_nat_value((-n) as nat);
        assert(int_decimal(n).skip(1) =~= nat_decimal((-n) as nat));
    }
}

proof fn lemma_nat_value(n: nat)
    ensures
        nat_decimal(n).len() > 0,
        value_of(nat_decimal(n)) == n,
        forall|i: int| 0 <= i < nat_decimal(n).len() ==> '0' <= #[trigger] nat_decimal(n)[i] <= '9',
    decreases n,
{
    if n < 10 {
        let one = seq![digit_char(n)];
        assert(one.drop_last() =~= Seq::empty());
        assert(value_of(one.drop_last()) == 0);
    } else {
        lemma_nat_value(n / 10);
        let all = nat_decimal(n);
        assert(all.drop_last() =~= nat_decimal(n / 10));
        assert forall|i: int| 0 <= i < all.len() implies '0' <= #[trigger] all[i] <= '9' by {
            if i < all.len() - 1 {
                assert(all[i] == nat_decimal(n / 10)[i]);
            }
        }
    }
}

/// A part occurs in a string exactly where the string can be cut before and behind
/// it.
pub proof fn law_parts_can_be_cut_out(
    s: Seq<char>,
    before: Seq<char>,
    part: Seq<char>,
    behind: Seq<char>,
)
    ensures
        has_part(before + part + behind, part),
        has_part(s, part) ==> exists|a: Seq<char>, b: Seq<char>| s == #[trigger] (a + part + b),
{
    let whole = before + part + behind;
    let n = before.len() as int;
    assert(whole.subrange(n, n + part.len()) =~= part);
    assert(part_at(whole, part, n));
    if has_part(s, part) {
        let at = choose|at: int| part_at(s, part, at);
        let a = s.take(at);
        let b = s.skip(at + part.len());
        assert(s =~= a + part + b);
    }
}

/// Of a string in ASCII, the letters alone change with the case, each to its
/// counterpart.
pub proof fn law_case_changes_letters_only(s: Seq<char>, i: int)
    requires
        is_ascii_chars(s),
        0 <= i < s.len(),
    ensures
        in_upper_case(s).len() == s.len(),
        in_lower_case(s).len() == s.len(),
        'a' <= s[i] <= 'z' ==> in_upper_case(s)[i] as int == s[i] as int - 32,
        !('a' <= s[i] <= 'z') ==> in_upper_case(s)[i] == s[i],
        'A' <= s[i] <= 'Z' ==> in_lower_case(s)[i] as int == s[i] as int + 32,
        !('A' <= s[i] <= 'Z') ==> in_lower_case(s)[i] == s[i],
{
}

} // verus!
