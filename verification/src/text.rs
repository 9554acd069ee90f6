//! Character-level text handling shared by the parsers: whitespace classes,
//! trimming, tokens, lines and decimal numbers, each with a model over
//! `Seq<char>`.

use vstd::prelude::*;
use vstd::std_specs::iter::IteratorSpec;
use vstd::string::*;

verus! {

/// Why a piece of text from the controller, or from a counter file, was
/// rejected.
#[derive(Debug, Clone, Copy, PartialEq, Eq)]
pub enum ParseError {
    /// A value that should start with a number holds no token at all.
    MissingNumber,
    /// The first token of a value is not an unsigned 64-bit decimal number.
    InvalidNumber,
    /// The key of a power-reading line holds no token.
    EmptyKey,
    /// The value of the timestamp line is not a timestamp.
    InvalidTimestamp,
    /// The name of a counter directory holds no colon, so no domain.
    MissingDomain,
    /// The counter files read are not two for each domain.
    WrongCounterCount,
}

/// The five characters that separate ASCII-whitespace tokens.
pub open spec fn is_ascii_space(c: char) -> bool {
    c == ' ' || c == '\t' || c == '\n' || c == '\x0C' || c == '\r'
}

/// The characters with the Unicode property `White_Space`.
pub open spec fn is_space(c: char) -> bool {
    let n = c as u32;
    ||| (0x09 <= n <= 0x0D)
    ||| n == 0x20
    ||| n == 0x85
    ||| n == 0xA0
    ||| n == 0x1680
    ||| (0x2000 <= n <= 0x200A)
    ||| n == 0x2028
    ||| n == 0x2029
    ||| n == 0x202F
    ||| n == 0x205F
    ||| n == 0x3000
}

/// Whether `c` separates tokens: by the ASCII class when `ascii` is set, by
/// the Unicode class otherwise.
pub open spec fn is_sep(c: char, ascii: bool) -> bool {
    if ascii {
        is_ascii_space(c)
    } else {
        is_space(c)
    }
}

/// The first index at or after `i` that holds no separator, or the length.
pub open spec fn skip_seps(s: Seq<char>, i: int, ascii: bool) -> int
    decreases s.len() - i,
{
    if 0 <= i < s.len() && is_sep(s[i], ascii) {
        skip_seps(s, i + 1, ascii)
    } else {
        i
    }
}

/// The first index at or after `i` that holds a separator, or the length.
pub open spec fn word_end(s: Seq<char>, i: int, ascii: bool) -> int
    decreases s.len() - i,
{
    if 0 <= i < s.len() && !is_sep(s[i], ascii) {
        word_end(s, i + 1, ascii)
    } else {
        i
    }
}

/// The end of the text before `j` once trailing whitespace is dropped.
pub open spec fn trimmed_end(s: Seq<char>, j: int) -> int
    decreases j,
{
    if 0 < j <= s.len() && is_space(s[j - 1]) {
        trimmed_end(s, j - 1)
    } else {
        j
    }
}

/// `s` without its leading and trailing Unicode whitespace.
pub open spec fn trim(s: Seq<char>) -> Seq<char> {
    let a = skip_seps(s, 0, false);
    let b = trimmed_end(s, s.len() as int);
    if a < b {
        s.subrange(a, b)
    } else {
        Seq::empty()
    }
}

/// The first token of `s`: its first maximal run of characters that are
/// not separators, if it has one.
pub open spec fn first_token(s: Seq<char>, ascii: bool) -> Option<Seq<char>> {
    let a = skip_seps(s, 0, ascii);
    if a < s.len() {
        Some(s.subrange(a, word_end(s, a, ascii)))
    } else {
        None
    }
}

/// The tokens of `s` that start at or after `i`, in order.
pub open spec fn tokens_from(s: Seq<char>, i: int, ascii: bool) -> Seq<Seq<char>>
    decreases s.len() - i,
{
    let a = skip_seps(s, i, ascii);
    let b = word_end(s, a, ascii);
    if 0 <= i <= a < b <= s.len() {
        seq![s.subrange(a, b)] + tokens_from(s, b, ascii)
    } else {
        Seq::empty()
    }
}

/// The tokens of `s`.
pub open spec fn tokens(s: Seq<char>, ascii: bool) -> Seq<Seq<char>> {
    tokens_from(s, 0, ascii)
}

/// The first index at or after `i` that holds `c`, or the length.
pub open spec fn find_char(s: Seq<char>, i: int, c: char) -> int
    decreases s.len() - i,
{
    if 0 <= i < s.len() && s[i] != c {
        find_char(s, i + 1, c)
    } else {
        i
    }
}

/// The first index at or after `i` where a colon is followed by a space,
/// or the length.
pub open spec fn find_colon_space(s: Seq<char>, i: int) -> int
    decreases s.len() - i,
{
    if 0 <= i < s.len() && !(s[i] == ':' && i + 1 < s.len() && s[i + 1] == ' ') {
        find_colon_space(s, i + 1)
    } else {
        i
    }
}

/// The lines of `s` that start at or after `i`: the pieces between line
/// feeds. A final line feed starts no further line.
pub open spec fn lines_from(s: Seq<char>, i: int) -> Seq<Seq<char>>
    decreases s.len() - i,
{
    let e = find_char(s, i, '\n');
    if 0 <= i <= e < s.len() {
        seq![s.subrange(i, e)] + lines_from(s, e + 1)
    } else if 0 <= i < s.len() {
        seq![s.subrange(i, s.len() as int)]
    } else {
        Seq::empty()
    }
}

/// The lines of `s`.
pub open spec fn lines(s: Seq<char>) -> Seq<Seq<char>> {
    lines_from(s, 0)
}

/// Whether `c` is one of `0` to `9`.
pub open spec fn is_digit(c: char) -> bool {
    '0' <= c <= '9'
}

/// The value of the decimal digits `s[0..k]`, the first the most significant.
pub open spec fn digits_value(s: Seq<char>, k: int) -> nat
    decreases k,
{
    if 0 < k <= s.len() {
        digits_value(s, k - 1) * 10 + (s[k - 1] as u32 - '0' as u32) as nat
    } else {
        0
    }
}

/// Whether every character of `s` is a digit.
pub open spec fn all_digits(s: Seq<char>) -> bool {
    forall|i: int| 0 <= i < s.len() ==> is_digit(#[trigger] s[i])
}

/// The unsigned number that `s` spells: an optional `+`, then one or more
/// decimal digits whose value fits in 64 bits. Anything else spells none.
pub open spec fn parse_u64(s: Seq<char>) -> Option<u64> {
    let body = if s.len() > 0 && s[0] == '+' {
        s.skip(1)
    } else {
        s
    };
    if body.len() > 0 && all_digits(body) && digits_value(body, body.len() as int) <= u64::MAX {
        Some(digits_value(body, body.len() as int) as u64)
    } else {
        None
    }
}

/// The character of the digit `d`.
pub open spec fn digit_char(d: nat) -> char {
    ('0' as u32 + d) as char
}

/// The decimal digits of `n`, without leading zeros.
pub open spec fn decimal(n: nat) -> Seq<char>
    decreases n,
{
    if n < 10 {
        seq![digit_char(n)]
    } else {
        decimal(n / 10).push(digit_char(n % 10))
    }
}

/// The views of the strings in `v`, in order.
pub open spec fn views(v: Seq<String>) -> Seq<Seq<char>> {
    Seq::new(v.len(), |i: int| v[i]@)
}

/// Tells whether `c` has the Unicode property `White_Space`.
pub fn char_is_space(c: char) -> (b: bool)
    ensures
        b == is_space(c),
{
    let n: u32 = c as u32;
    (0x09 <= n && n <= 0x0D) || n == 0x20 || n == 0x85 || n == 0xA0 || n == 0x1680 || (0x2000 <= n
        && n <= 0x200A) || n == 0x2028 || n == 0x2029 || n == 0x202F || n == 0x205F || n == 0x3000
}

/// Tells whether `c` separates tokens.
pub fn char_is_sep(c: char, ascii: bool) -> (b: bool)
    ensures
        b == is_sep(c, ascii),
{
    if ascii {
        c == ' ' || c == '\t' || c == '\n' || c == '\x0C' || c == '\r'
    } else {
        char_is_space(c)
    }
}

/// The characters of `s`, one by one.
pub fn chars_of(s: &str) -> (v: Vec<char>)
    ensures
        v@ == s@,
{
    broadcast use {axiom_spec_iter, next_postcondition};

    let mut rest = s.chars();
    let mut v: Vec<char> = Vec::new();
    assert(v@ + rest.remaining() =~= s@);
    loop
        invariant
            v@ + rest.remaining() == s@,
        ensures
            rest.remaining().len() == 0,
        decreases s@.len() - v@.len(),
    {
        let ghost before = rest.remaining();
        match rest.next() {
            Some(c) => {
                v.push(c);
                assert(v@ + rest.remaining() =~= s@) by {
                    assert(before =~= seq![c] + before.drop_first());
                }
            },
            None => {
                break ;
            },
        }
    }
    assert(v@ + rest.remaining() =~= v@);
    v
}

/// Tells whether `v` spells exactly the text `lit`.
pub fn equals_str(v: &Vec<char>, lit: &str) -> (b: bool)
    ensures
        b == (v@ == lit@),
{
    let w: Vec<char> = chars_of(lit);
    if v.len() != w.len() {
        return false;
    }
    let mut i: usize = 0;
    while i < v.len()
        invariant
            w@ == lit@,
            v.len() == w.len(),
            i <= v.len(),
            forall|j: int| 0 <= j < i ==> v@[j] == w@[j],
        decreases v.len() - i,
    {
        if v[i] != w[i] {
            return false;
        }
        i += 1;
    }
    assert(v@ =~= w@);
    true
}

/// The index of the first character at or after `i` that is no separator.
pub fn scan_seps(v: &Vec<char>, i: usize, ascii: bool) -> (r: usize)
    requires
        i <= v.len(),
    ensures
        r == skip_seps(v@, i as int, ascii),
        i <= r <= v.len(),
        r < v.len() ==> !is_sep(v@[r as int], ascii),
{
    let mut k: usize = i;
    while k < v.len() && char_is_sep(v[k], ascii)
        invariant
            i <= k <= v.len(),
            skip_seps(v@, k as int, ascii) == skip_seps(v@, i as int, ascii),
        decreases v.len() - k,
    {
        k += 1;
    }
    k
}

/// The index of the first separator at or after `i`.
pub fn scan_word(v: &Vec<char>, i: usize, ascii: bool) -> (r: usize)
    requires
        i <= v.len(),
    ensures
        r == word_end(v@, i as int, ascii),
        i <= r <= v.len(),
        i < v.len() && !is_sep(v@[i as int], ascii) ==> i < r,
{
    let mut k: usize = i;
    while k < v.len() && !char_is_sep(v[k], ascii)
        invariant
            i <= k <= v.len(),
            word_end(v@, k as int, ascii) == word_end(v@, i as int, ascii),
        decreases v.len() - k,
    {
        k += 1;
    }
    k
}

/// The index of the first `c` at or after `i`, or the length.
pub fn scan_char(v: &Vec<char>, i: usize, c: char) -> (r: usize)
    requires
        i <= v.len(),
    ensures
        r == find_char(v@, i as int, c),
        i <= r <= v.len(),
        r < v.len() ==> v@[r as int] == c,
{
    let mut k: usize = i;
    while k < v.len() && v[k] != c
        invariant
            i <= k <= v.len(),
            find_char(v@, k as int, c) == find_char(v@, i as int, c),
        decreases v.len() - k,
    {
        k += 1;
    }
    k
}

/// The index of the first colon at or after `i` that a space follows, or
/// the length.
pub fn scan_colon_space(v: &Vec<char>, i: usize) -> (r: usize)
    requires
        i <= v.len(),
    ensures
        r == find_colon_space(v@, i as int),
        i <= r <= v.len(),
        r < v.len() ==> r + 1 < v.len(),
{
    let mut k: usize = i;
    while k < v.len() && !(v[k] == ':' && k + 1 < v.len() && v[k + 1] == ' ')
        invariant
            i <= k <= v.len(),
            find_colon_space(v@, k as int) == find_colon_space(v@, i as int),
        decreases v.len() - k,
    {
        k += 1;
    }
    k
}

/// `s` without its leading and trailing Unicode whitespace.
pub fn trim_str<'a>(s: &'a str) -> (r: &'a str)
    ensures
        r@ == trim(s@),
{
    let v: Vec<char> = chars_of(s);
    let a: usize = scan_seps(&v, 0, false);
    let mut b: usize = v.len();
    while b > 0 && char_is_space(v[b - 1])
        invariant
            b <= v.len(),
            trimmed_end(v@, b as int) == trimmed_end(v@, v@.len() as int),
        decreases b,
    {
        b -= 1;
    }
    if a < b {
        s.substring_char(a, b)
    } else {
        let r: &'a str = s.substring_char(0, 0);
        assert(r@ =~= Seq::<char>::empty());
        r
    }
}

/// The first token of `s`, if it has one.
pub fn first_token_str<'a>(s: &'a str, ascii: bool) -> (r: Option<&'a str>)
    ensures
        r.is_some() == first_token(s@, ascii).is_some(),
        r.is_some() ==> r.unwrap()@ == first_token(s@, ascii).unwrap(),
{
    let v: Vec<char> = chars_of(s);
    let a: usize = scan_seps(&v, 0, ascii);
    if a < v.len() {
        let b: usize = scan_word(&v, a, ascii);
        Some(s.substring_char(a, b))
    } else {
        None
    }
}

/// Tells whether `a` and `b` spell the same text.
pub fn str_equals(a: &str, b: &str) -> (r: bool)
    ensures
        r == (a@ == b@),
{
    let v: Vec<char> = chars_of(a);
    equals_str(&v, b)
}

/// The number that `s` spells, if it spells one.
pub fn parse_decimal_str(s: &str) -> (r: Option<u64>)
    ensures
        r == parse_u64(s@),
{
    let v: Vec<char> = chars_of(s);
    parse_decimal(&v)
}

/// Monotonicity of `digits_value` in the number of digits read.
pub proof fn lemma_digits_value_grows(s: Seq<char>, j: int, k: int)
    requires
        0 <= j <= k <= s.len(),
        all_digits(s),
    ensures
        digits_value(s, j) <= digits_value(s, k),
    decreases k - j,
{
    if j < k {
        lemma_digits_value_grows(s, j, k - 1);
        assert(is_digit(s[k - 1]));
    }
}

/// The number that `v` spells, if it spells one.
pub fn parse_decimal(v: &Vec<char>) -> (r: Option<u64>)
    ensures
        r == parse_u64(v@),
{
    let start: usize = if v.len() > 0 && v[0] == '+' {
        1
    } else {
        0
    };
    let ghost body = v@.skip(start as int);
    let ghost spelled = if v@.len() > 0 && v@[0] == '+' {
        v@.skip(1)
    } else {
        v@
    };
    assert(body =~= spelled);
    if start == v.len() {
        return None;
    }
    let mut acc: u64 = 0;
    let mut i: usize = start;
    while i < v.len()
        invariant
            start <= i <= v.len(),
            body == v@.skip(start as int),
            body == spelled,
            spelled == (if v@.len() > 0 && v@[0] == '+' {
                v@.skip(1)
            } else {
                v@
            }),
            forall|j: int| 0 <= j < i - start ==> is_digit(#[trigger] body[j]),
            acc == digits_value(body, i - start),
        decreases v.len() - i,
    {
        let c: char = v[i];
        assert(body[i - start] == c);
        if !('0' <= c && c <= '9') {
            assert(!all_digits(body));
            return None;
        }
        let d: u64 = (c as u32 - '0' as u32) as u64;
        assert(digits_value(body, i - start + 1) == acc * 10 + d);
        if acc > (u64::MAX - d) / 10 {
            proof {
                if all_digits(body) {
                    lemma_digits_value_grows(body, i - start + 1, body.len() as int);
                }
            }
            return None;
        }
        acc = acc * 10 + d;
        i += 1;
    }
    assert(all_digits(body));
    Some(acc)
}

/// The one-character text of the digit `d`.
pub fn digit_str(d: u64) -> (s: &'static str)
    requires
        d < 10,
    ensures
        s@ == seq![digit_char(d as nat)],
{
    proof {
        reveal_strlit("0");
        reveal_strlit("1");
        reveal_strlit("2");
        reveal_strlit("3");
        reveal_strlit("4");
        reveal_strlit("5");
        reveal_strlit("6");
        reveal_strlit("7");
        reveal_strlit("8");
        reveal_strlit("9");
    }
    let s: &'static str = if d == 0 {
        "0"
    } else if d == 1 {
        "1"
    } else if d == 2 {
        "2"
    } else if d == 3 {
        "3"
    } else if d == 4 {
        "4"
    } else if d == 5 {
        "5"
    } else if d == 6 {
        "6"
    } else if d == 7 {
        "7"
    } else if d == 8 {
        "8"
    } else {
        "9"
    };
    assert(s@ =~= seq![digit_char(d as nat)]);
    s
}

/// Appends the decimal digits of `n` to `out`.
pub fn push_decimal(out: &mut String, n: u64)
    ensures
        final(out)@ == old(out)@ + decimal(n as nat),
    decreases n,
{
    if n >= 10 {
        push_decimal(out, n / 10);
    }
    out.append(digit_str(n % 10));
    proof {
        if n >= 10 {
            assert(old(out)@ + decimal((n / 10) as nat) + seq![digit_char((n % 10) as nat)]
                =~= old(out)@ + decimal(n as nat));
        }
    }
}

/// The decimal digits of `n` as a string.
pub fn decimal_string(n: u64) -> (s: String)
    ensures
        s@ == decimal(n as nat),
{
    let mut s: String = String::new();
    push_decimal(&mut s, n);
    assert(Seq::<char>::empty() + decimal(n as nat) =~= decimal(n as nat));
    s
}

/// The tokens of `text`, each as a string of its own.
pub fn split_tokens(text: &str, ascii: bool) -> (r: Vec<String>)
    ensures
        views(r@) == tokens(text@, ascii),
{
    let v: Vec<char> = chars_of(text);
    let mut r: Vec<String> = Vec::new();
    let mut i: usize = 0;
    assert(views(r@) + tokens_from(v@, 0, ascii) =~= tokens(v@, ascii));
    loop
        invariant
            v@ == text@,
            i <= v.len(),
            views(r@) + tokens_from(v@, i as int, ascii) == tokens(v@, ascii),
        ensures
            tokens_from(v@, i as int, ascii).len() == 0,
        decreases v.len() - i,
    {
        let a: usize = scan_seps(&v, i, ascii);
        if a >= v.len() {
            break ;
        }
        let b: usize = scan_word(&v, a, ascii);
        let ghost before = views(r@);
        let piece: &str = text.substring_char(a, b);
        r.push(String::from_str(piece));
        assert(views(r@) =~= before.push(v@.subrange(a as int, b as int)));
        assert(before.push(v@.subrange(a as int, b as int)) + tokens_from(v@, b as int, ascii)
            =~= before + tokens_from(v@, i as int, ascii));
        i = b;
    }
    assert(views(r@) + tokens_from(v@, i as int, ascii) =~= views(r@));
    r
}

} // verus!
