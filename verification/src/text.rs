//! Primitives on text. Strings are modelled by their view, a `Seq<char>`;
//! every function here states its result over that model.

use vstd::prelude::*;

verus! {

/// The characters of `s`, in order.
pub fn chars_of(s: &str) -> (v: Vec<char>)
    ensures
        v@ == s@,
{
    let mut v: Vec<char> = Vec::new();
    for c in it: s.chars()
        invariant
            v@ == it.seq().take(it.index() as int),
            it.seq() == s@,
    {
        v.push(c);
    }
    v
}

/// Whether two strings hold the same characters.
pub fn same_text(a: &str, b: &str) -> (r: bool)
    ensures
        r == (a@ == b@),
{
    let x = chars_of(a);
    let y = chars_of(b);
    if x.len() != y.len() {
        return false;
    }
    let mut i: usize = 0;
    while i < x.len()
        invariant
            i <= x.len(),
            x.len() == y.len(),
            x@ == a@,
            y@ == b@,
            forall|j: int| 0 <= j < i ==> x@[j] == y@[j],
        decreases x.len() - i,
    {
        if x[i] != y[i] {
            return false;
        }
        i += 1;
    }
    assert(x@ =~= y@);
    true
}

/// Whether `s` begins with the characters of `prefix`.
pub fn starts_with(s: &str, prefix: &str) -> (r: bool)
    ensures
        r == prefix@.is_prefix_of(s@),
{
    let x = chars_of(s);
    let p = chars_of(prefix);
    if p.len() > x.len() {
        return false;
    }
    let mut i: usize = 0;
    while i < p.len()
        invariant
            i <= p.len() <= x.len(),
            x@ == s@,
            p@ == prefix@,
            forall|j: int| 0 <= j < i ==> x@[j] == p@[j],
        decreases p.len() - i,
    {
        if x[i] != p[i] {
            return false;
        }
        i += 1;
    }
    true
}

/// Whether the values of `list` are those that `views` shows, one for one
/// and in order.
pub open spec fn holds<T: View>(list: Seq<T>, views: Seq<T::V>) -> bool {
    list.len() == views.len() && forall|i: int|
        0 <= i < list.len() ==> (#[trigger] list[i])@ == views[i]
}

/// Control codes: the code points U+0000 to U+001F and U+007F to U+009F.
pub open spec fn is_control(c: char) -> bool {
    c as u32 <= 0x1f || (0x7f <= c as u32 && c as u32 <= 0x9f)
}

/// Whether `c` is a control code.
pub fn is_control_char(c: char) -> (b: bool)
    ensures
        b == is_control(c),
{
    let n: u32 = c as u32;
    n <= 0x1f || (0x7f <= n && n <= 0x9f)
}

/// White space: the code points with the Unicode property `White_Space`.
pub open spec fn is_space(c: char) -> bool {
    let n = c as u32;
    ||| (0x09 <= n && n <= 0x0d)
    ||| n == 0x20
    ||| n == 0x85
    ||| n == 0xa0
    ||| n == 0x1680
    ||| (0x2000 <= n && n <= 0x200a)
    ||| n == 0x2028
    ||| n == 0x2029
    ||| n == 0x202f
    ||| n == 0x205f
    ||| n == 0x3000
}

/// Whether `c` is white space.
pub fn is_space_char(c: char) -> (b: bool)
    ensures
        b == is_space(c),
{
    let n: u32 = c as u32;
    (0x09 <= n && n <= 0x0d) || n == 0x20 || n == 0x85 || n == 0xa0 || n == 0x1680 || (0x2000 <= n
        && n <= 0x200a) || n == 0x2028 || n == 0x2029 || n == 0x202f || n == 0x205f || n == 0x3000
}

/// Decimal digits, `'0'` to `'9'`.
pub open spec fn is_digit(c: char) -> bool {
    0x30 <= c as u32 && c as u32 <= 0x39
}

/// The number that a decimal digit stands for.
pub open spec fn digit_value(c: char) -> nat {
    (c as u32 - 0x30) as nat
}

/// The digit that stands for `d`, for `d` below ten.
pub open spec fn digit(d: nat) -> char {
    (0x30 + d) as char
}

/// The decimal numeral of `n`, without sign or leading zeros.
pub open spec fn decimal(n: nat) -> Seq<char>
    decreases n,
{
    if n < 10 {
        seq![digit(n)]
    } else {
        decimal(n / 10).push(digit(n % 10))
    }
}

/// Whether every character of `s` is a decimal digit.
pub open spec fn all_digits(s: Seq<char>) -> bool {
    forall|i: int| 0 <= i < s.len() ==> is_digit(#[trigger] s[i])
}

/// The number that a run of decimal digits denotes, most significant first.
pub open spec fn digits_value(s: Seq<char>) -> nat
    decreases s.len(),
{
    if s.len() == 0 {
        0
    } else {
        digits_value(s.drop_last()) * 10 + digit_value(s.last())
    }
}

/// The digits of an unsigned numeral: one leading `'+'` is allowed and
/// taken off.
pub open spec fn unsigned_body(s: Seq<char>) -> Seq<char> {
    if s.len() > 0 && s[0] == '+' {
        s.skip(1)
    } else {
        s
    }
}

/// The value of `s` read as an unsigned decimal numeral that fits in 64
/// bits: an optional `'+'`, then one or more digits and nothing else.
pub open spec fn parse_u64(s: Seq<char>) -> Option<u64> {
    let body = unsigned_body(s);
    if body.len() > 0 && all_digits(body) && digits_value(body) <= u64::MAX {
        Some(digits_value(body) as u64)
    } else {
        None
    }
}

/// A numeral that continues a run of digits denotes no less than the run.
pub proof fn lemma_digits_value_grows(s: Seq<char>, k: int)
    requires
        0 <= k <= s.len(),
    ensures
        digits_value(s.take(k)) <= digits_value(s),
    decreases s.len(),
{
    if k == s.len() {
        assert(s.take(k) =~= s);
    } else {
        assert(s.drop_last().take(k) =~= s.take(k));
        lemma_digits_value_grows(s.drop_last(), k);
    }
}

/// Reads an unsigned decimal numeral.
pub fn parse_unsigned(s: &Vec<char>) -> (r: Option<u64>)
    ensures
        r == parse_u64(s@),
{
    let start: usize = if s.len() > 0 && s[0] == '+' {
        1
    } else {
        0
    };
    let ghost body = unsigned_body(s@);
    if start == s.len() {
        return None;
    }
    let mut acc: u64 = 0;
    let mut i: usize = start;
    while i < s.len()
        invariant
            start <= i <= s.len(),
            body == unsigned_body(s@),
            body == s@.skip(start as int),
            body.len() > 0,
            all_digits(body.take(i - start)),
            acc == digits_value(body.take(i - start)),
        decreases s.len() - i,
    {
        let c: char = s[i];
        let n: u32 = c as u32;
        let ghost next = body.take(i - start + 1);
        assert(next.drop_last() =~= body.take(i - start));
        if n < 0x30 || n > 0x39 {
            assert(!is_digit(body[i - start]));
            return None;
        }
        let d: u64 = (n - 0x30) as u64;
        let scaled: u64 = match acc.checked_mul(10) {
            Some(v) => v,
            None => {
                proof {
                    lemma_digits_value_grows(body, i - start + 1);
                }
                return None;
            },
        };
        acc = match scaled.checked_add(d) {
            Some(v) => v,
            None => {
                proof {
                    lemma_digits_value_grows(body, i - start + 1);
                }
                return None;
            },
        };
        i += 1;
    }
    assert(body.take(i - start) =~= body);
    Some(acc)
}

/// The text of one decimal digit.
fn digit_text(d: u64) -> (r: &'static str)
    requires
        d < 10,
    ensures
        r@ == seq![digit(d as nat)],
{
    proof {
        reveal_strlit("0");
        reveal_strlit("1");
        reveal_strlit("2");
        reveal_strlit("3");
        reveal_strlit("4");
        reveal_strlit("5");
        reveal_strlit("6");
        reveal_strlit("7");
        reveal_strlit("8");
        reveal_strlit("9");
    }
    let r = if d == 0 {
        "0"
    } else if d == 1 {
        "1"
    } else if d == 2 {
        "2"
    } else if d == 3 {
        "3"
    } else if d == 4 {
        "4"
    } else if d == 5 {
        "5"
    } else if d == 6 {
        "6"
    } else if d == 7 {
        "7"
    } else if d == 8 {
        "8"
    } else {
        "9"
    };
    r
}

/// Writes `n` as a decimal numeral.
pub fn decimal_text(n: u64) -> (r: String)
    ensures
        r@ == decimal(n as nat),
    decreases n,
{
    if n < 10 {
        String::from_str(digit_text(n))
    } else {
        let mut r = decimal_text(n / 10);
        r.append(digit_text(n % 10));
        r
    }
}

/// A numeral made by `decimal` is made of digits only, and is not empty.
pub proof fn lemma_decimal_digits(n: nat)
    ensures
        decimal(n).len() > 0,
        all_digits(decimal(n)),
        digits_value(decimal(n)) == n,
    decreases n,
{
    if n < 10 {
        assert(digits_value(decimal(n).drop_last()) == 0);
    } else {
        lemma_decimal_digits(n / 10);
        let head = decimal(n / 10);
        let whole = decimal(n);
        assert(whole.drop_last() =~= head);
    }
}

/// Reading a numeral that `decimal` wrote gives the number back.
pub proof fn lemma_parse_decimal(n: u64)
    ensures
        parse_u64(decimal(n as nat)) == Some(n),
{
    lemma_decimal_digits(n as nat);
    let s = decimal(n as nat);
}

/// Where the run that starts at `from` ends: the run of white space when
/// `space` is set, of other characters when it is not.
pub open spec fn run_end(s: Seq<char>, from: int, space: bool) -> int
    decreases s.len() - from,
{
    if 0 <= from < s.len() && is_space(s[from]) == space {
        run_end(s, from + 1, space)
    } else {
        from
    }
}

/// The first word of `s`: what stands between the leading white space and
/// the next white space, or the end. Empty when `s` holds no word.
pub open spec fn first_token(s: Seq<char>) -> Seq<char> {
    let start = run_end(s, 0, true);
    s.subrange(start, run_end(s, start, false))
}

/// The end of the run that starts at `from`.
fn scan_run(s: &Vec<char>, from: usize, space: bool) -> (end: usize)
    requires
        from <= s.len(),
    ensures
        end == run_end(s@, from as int, space),
        from <= end <= s.len(),
{
    let mut i: usize = from;
    while i < s.len() && is_space_char(s[i]) == space
        invariant
            from <= i <= s.len(),
            run_end(s@, from as int, space) == run_end(s@, i as int, space),
        decreases s.len() - i,
    {
        i += 1;
    }
    i
}

/// The first word of `s`.
pub fn first_word(s: &Vec<char>) -> (word: Vec<char>)
    ensures
        word@ == first_token(s@),
{
    let start = scan_run(s, 0, true);
    let end = scan_run(s, start, false);
    let mut word: Vec<char> = Vec::new();
    let mut i: usize = start;
    while i < end
        invariant
            start <= i <= end <= s.len(),
            word@ == s@.subrange(start as int, i as int),
        decreases end - i,
    {
        word.push(s[i]);
        i += 1;
    }
    word
}

/// A word followed by a space is the first word of the line, whatever
/// comes after: here for words without white space that are not empty.
pub proof fn lemma_first_token_of_prefixed(word: Seq<char>, rest: Seq<char>)
    requires
        word.len() > 0,
        forall|i: int| 0 <= i < word.len() ==> !is_space(#[trigger] word[i]),
    ensures
        first_token(word + seq![' '] + rest) == word,
{
    lemma_word_run(word, rest, 0);
}

proof fn lemma_word_run(word: Seq<char>, rest: Seq<char>, from: int)
    requires
        0 <= from <= word.len(),
        forall|i: int| 0 <= i < word.len() ==> !is_space(#[trigger] word[i]),
    ensures
        run_end(word + seq![' '] + rest, from, false) == word.len(),
    decreases word.len() - from,
{
    if from < word.len() {
        lemma_word_run(word, rest, from + 1);
    }
}

/// The parts of a list written one after the other, with `sep` between
/// each two.
pub open spec fn join(parts: Seq<Seq<char>>, sep: Seq<char>) -> Seq<char>
    decreases parts.len(),
{
    if parts.len() == 0 {
        Seq::empty()
    } else if parts.len() == 1 {
        parts[0]
    } else {
        join(parts.drop_last(), sep) + sep + parts.last()
    }
}

/// The texts of a list of strings.
pub open spec fn texts(parts: Seq<String>) -> Seq<Seq<char>> {
    Seq::new(parts.len(), |i: int| parts[i]@)
}

/// The texts of a list of strings are what the list holds.
pub proof fn lemma_texts_held(parts: Seq<String>, views: Seq<Seq<char>>)
    requires
        holds(parts, views),
    ensures
        texts(parts) == views,
{
}

/// Joins the strings of `parts` with `sep` between them.
pub fn join_text(parts: &Vec<String>, sep: &str) -> (r: String)
    ensures
        r@ == join(texts(parts@), sep@),
{
    let mut r = String::new();
    let mut i: usize = 0;
    while i < parts.len()
        invariant
            i <= parts.len(),
            r@ == join(texts(parts@).take(i as int), sep@),
        decreases parts.len() - i,
    {
        let ghost before = texts(parts@).take(i as int);
        let ghost after = texts(parts@).take(i + 1);
        assert(after.drop_last() =~= before);
        if i > 0 {
            r.append(sep);
        }
        r.append(parts[i].as_str());
        i += 1;
    }
    assert(texts(parts@).take(i as int) =~= texts(parts@));
    r
}

/// The code point of `c`, with the capital letters of ASCII taken for
/// their small ones.
pub open spec fn ascii_lower(c: char) -> u32 {
    if 0x41 <= c as u32 && c as u32 <= 0x5a {
        (c as u32 + 0x20) as u32
    } else {
        c as u32
    }
}

/// Whether two texts are the same but for the case of ASCII letters.
pub open spec fn same_ignoring_case(a: Seq<char>, b: Seq<char>) -> bool {
    a.len() == b.len() && forall|i: int|
        0 <= i < a.len() ==> ascii_lower(#[trigger] a[i]) == ascii_lower(b[i])
}

fn lower_code(c: char) -> (r: u32)
    ensures
        r == ascii_lower(c),
{
    let n: u32 = c as u32;
    if 0x41 <= n && n <= 0x5a {
        n + 0x20
    } else {
        n
    }
}

/// Whether two strings are the same but for the case of ASCII letters.
pub fn same_text_ignoring_case(a: &str, b: &str) -> (r: bool)
    ensures
        r == same_ignoring_case(a@, b@),
{
    let x = chars_of(a);
    let y = chars_of(b);
    if x.len() != y.len() {
        return false;
    }
    let mut i: usize = 0;
    while i < x.len()
        invariant
            i <= x.len(),
            x.len() == y.len(),
            x@ == a@,
            y@ == b@,
            forall|j: int| 0 <= j < i ==> ascii_lower(#[trigger] x@[j]) == ascii_lower(y@[j]),
        decreases x.len() - i,
    {
        if lower_code(x[i]) != lower_code(y[i]) {
            return false;
        }
        i += 1;
    }
    true
}

} // verus!
