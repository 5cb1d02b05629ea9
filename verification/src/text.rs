//! Character-level helpers shared by the protocol and message modules.
//!
//! Every contract here is stated over `Seq<char>`, the view of `str` and
//! `String`. Octet counts are the length of the UTF-8 encoding of a text.

use vstd::prelude::*;
use vstd::string::*;
use vstd::utf8::{decode_utf8, encode_utf8, valid_utf8};

verus! {

/// Number of octets a text occupies on the wire, as `str::len` reports it.
pub open spec fn octet_len(s: Seq<char>) -> usize {
    encode_utf8(s).len() as usize
}

/// The views of a sequence of strings, in order.
pub open spec fn texts(v: Seq<String>) -> Seq<Seq<char>> {
    Seq::new(v.len(), |i: int| v[i]@)
}

/// `std::string::String::push`: the string afterwards is the string before
/// followed by `c`. Trusted; the body is the single std call.
#[verifier::external_body]
pub(crate) fn push_char(s: &mut String, c: char)
    ensures
        final(s)@ == old(s)@.push(c),
{
    s.push(c);
}

/// The text that `String::from_utf8_lossy` makes of octets.
pub uninterp spec fn lossy_text(octets: Seq<u8>) -> Seq<char>;

/// `std::string::String::from_utf8_lossy`: the text that the octets
/// encode, with U+FFFD in place of what is no UTF-8. Trusted: the result
/// is a function of the octets alone, `lossy_text` is its name, and for
/// valid UTF-8 it is the text that the octets encode.
#[verifier::external_body]
pub(crate) fn decode_lossy(octets: &[u8]) -> (r: String)
    ensures
        r@ == lossy_text(octets@),
        valid_utf8(octets@) ==> r@ == decode_utf8(octets@),
{
    String::from_utf8_lossy(octets).into_owned()
}

/// The characters of `s`, one vector element per `char`.
pub fn chars_of(s: &str) -> (v: Vec<char>)
    ensures
        v@ == s@,
{
    let mut v: Vec<char> = Vec::new();
    for c in it: s.chars()
        invariant
            it.seq() == s@,
            v@ == it.seq().take(it.index() as int),
    {
        v.push(c);
    }
    v
}

/// Appends `v[from..to]` to `out`.
pub fn push_range(out: &mut String, v: &Vec<char>, from: usize, to: usize)
    requires
        from <= to <= v.len(),
    ensures
        final(out)@ == old(out)@ + v@.subrange(from as int, to as int),
{
    let mut i: usize = from;
    while i < to
        invariant
            from <= i <= to <= v.len(),
            out@ == old(out)@ + v@.subrange(from as int, i as int),
        decreases to - i,
    {
        push_char(out, v[i]);
        i = i + 1;
    }
}

/// The text `v[from..to]` as an owned string.
pub fn substring(v: &Vec<char>, from: usize, to: usize) -> (s: String)
    requires
        from <= to <= v.len(),
    ensures
        s@ == v@.subrange(from as int, to as int),
{
    let mut s = String::new();
    push_range(&mut s, v, from, to);
    s
}

/// Whether two texts hold the same characters.
pub fn text_eq(a: &str, b: &str) -> (r: bool)
    ensures
        r == (a@ == b@),
{
    let x = chars_of(a);
    let y = chars_of(b);
    assert(x@.subrange(0, x.len() as int) =~= x@);
    chars_eq(&x, 0, x.len(), &y)
}

/// Whether `v[from..to]` holds exactly the characters of `w`.
pub fn chars_eq(v: &Vec<char>, from: usize, to: usize, w: &Vec<char>) -> (r: bool)
    requires
        from <= to <= v.len(),
    ensures
        r == (v@.subrange(from as int, to as int) == w@),
{
    if to - from != w.len() {
        return false;
    }
    let mut i: usize = 0;
    while i < w.len()
        invariant
            from <= to <= v.len(),
            to - from == w.len(),
            i <= w.len(),
            forall|j: int| 0 <= j < i ==> v@[from + j] == w@[j],
        decreases w.len() - i,
    {
        if v[from + i] != w[i] {
            assert(v@.subrange(from as int, to as int)[i as int] != w@[i as int]);
            return false;
        }
        i = i + 1;
    }
    assert(v@.subrange(from as int, to as int) =~= w@);
    true
}

/// The decimal digit for `d < 10`.
pub open spec fn digit_char(d: nat) -> char {
    if d == 0 {
        '0'
    } else if d == 1 {
        '1'
    } else if d == 2 {
        '2'
    } else if d == 3 {
        '3'
    } else if d == 4 {
        '4'
    } else if d == 5 {
        '5'
    } else if d == 6 {
        '6'
    } else if d == 7 {
        '7'
    } else if d == 8 {
        '8'
    } else {
        '9'
    }
}

/// The shortest decimal numeral of `n`.
pub open spec fn decimal(n: nat) -> Seq<char>
    decreases n,
{
    if n < 10 {
        seq![digit_char(n)]
    } else {
        decimal(n / 10).push(digit_char(n % 10))
    }
}

fn digit(d: usize) -> (c: char)
    requires
        d < 10,
    ensures
        c == digit_char(d as nat),
{
    if d == 0 {
        '0'
    } else if d == 1 {
        '1'
    } else if d == 2 {
        '2'
    } else if d == 3 {
        '3'
    } else if d == 4 {
        '4'
    } else if d == 5 {
        '5'
    } else if d == 6 {
        '6'
    } else if d == 7 {
        '7'
    } else if d == 8 {
        '8'
    } else {
        '9'
    }
}

/// Appends the decimal numeral of `n` to `out`.
pub fn push_decimal(out: &mut String, n: usize)
    ensures
        final(out)@ == old(out)@ + decimal(n as nat),
    decreases n,
{
    if n >= 10 {
        push_decimal(out, n / 10);
    }
    push_char(out, digit(n % 10));
    assert(out@ =~= old(out)@ + decimal(n as nat));
}


/// Whether `c` has the Unicode `White_Space` property.
pub open spec fn is_space(c: char) -> bool {
    let n = c as u32;
    ||| 0x09 <= n <= 0x0D
    ||| n == 0x20
    ||| n == 0x85
    ||| n == 0xA0
    ||| n == 0x1680
    ||| 0x2000 <= n <= 0x200A
    ||| n == 0x2028
    ||| n == 0x2029
    ||| n == 0x202F
    ||| n == 0x205F
    ||| n == 0x3000
}

/// Whether `c` is white space.
pub fn char_is_space(c: char) -> (b: bool)
    ensures
        b == is_space(c),
{
    let n: u32 = c as u32;
    (0x09 <= n && n <= 0x0D) || n == 0x20 || n == 0x85 || n == 0xA0 || n == 0x1680 || (0x2000 <= n
        && n <= 0x200A) || n == 0x2028 || n == 0x2029 || n == 0x202F || n == 0x205F || n == 0x3000
}

/// The first position at or after `from` that holds no white space, or the
/// end of `s`.
pub open spec fn skip_spaces(s: Seq<char>, from: int) -> int
    decreases s.len() - from,
{
    if 0 <= from < s.len() && is_space(s[from]) {
        skip_spaces(s, from + 1)
    } else {
        from
    }
}

/// The first position at or after `from` that holds white space, or the end
/// of `s`.
pub open spec fn skip_word(s: Seq<char>, from: int) -> int
    decreases s.len() - from,
{
    if 0 <= from < s.len() && !is_space(s[from]) {
        skip_word(s, from + 1)
    } else {
        from
    }
}

/// Where the `k`-th white-space separated word of `s` starts (counting from
/// zero), or the end of `s` if there are fewer words.
pub open spec fn word_start(s: Seq<char>, k: nat) -> int
    decreases k,
{
    if k == 0 {
        skip_spaces(s, 0)
    } else {
        skip_spaces(s, skip_word(s, word_start(s, (k - 1) as nat)))
    }
}

/// The `k`-th white-space separated word of `s`, if there is one.
pub open spec fn word(s: Seq<char>, k: nat) -> Option<Seq<char>> {
    let a = word_start(s, k);
    if 0 <= a < s.len() {
        Some(s.subrange(a, skip_word(s, a)))
    } else {
        None
    }
}

/// The first position at or after `from` that holds no white space.
pub fn scan_spaces(v: &Vec<char>, from: usize) -> (to: usize)
    requires
        from <= v.len(),
    ensures
        to == skip_spaces(v@, from as int),
        from <= to <= v.len(),
{
    let mut i: usize = from;
    while i < v.len() && char_is_space(v[i])
        invariant
            from <= i <= v.len(),
            skip_spaces(v@, from as int) == skip_spaces(v@, i as int),
        decreases v.len() - i,
    {
        i = i + 1;
    }
    i
}

/// The first position at or after `from` that holds white space.
pub fn scan_word(v: &Vec<char>, from: usize) -> (to: usize)
    requires
        from <= v.len(),
    ensures
        to == skip_word(v@, from as int),
        from <= to <= v.len(),
{
    let mut i: usize = from;
    while i < v.len() && !char_is_space(v[i])
        invariant
            from <= i <= v.len(),
            skip_word(v@, from as int) == skip_word(v@, i as int),
        decreases v.len() - i,
    {
        i = i + 1;
    }
    i
}

/// Whether `c` is one of `0` to `9`.
pub open spec fn is_digit(c: char) -> bool {
    '0' <= c <= '9'
}

/// The value of the decimal digit `c`.
pub open spec fn digit_value(c: char) -> nat {
    (c as u32 - '0' as u32) as nat
}

/// The number that a run of decimal digits denotes.
pub open spec fn digits_value(s: Seq<char>) -> nat
    decreases s.len(),
{
    if s.len() == 0 {
        0
    } else {
        digits_value(s.drop_last()) * 10 + digit_value(s.last())
    }
}

/// Whether `s` is a non-empty run of decimal digits.
pub open spec fn is_numeral(s: Seq<char>) -> bool {
    s.len() > 0 && forall|i: int| 0 <= i < s.len() ==> is_digit(#[trigger] s[i])
}

/// The message number that an argument denotes: an optional `+`, then
/// decimal digits whose value fits 32 bits. Anything else counts as 0.
pub open spec fn number_arg(s: Seq<char>) -> u32 {
    let body = if s.len() > 0 && s[0] == '+' {
        s.skip(1)
    } else {
        s
    };
    if is_numeral(body) && digits_value(body) <= u32::MAX {
        digits_value(body) as u32
    } else {
        0
    }
}

/// A longer run of digits never denotes less than its prefix.
pub proof fn lemma_digits_value_prefix(s: Seq<char>, n: int)
    requires
        0 <= n <= s.len(),
    ensures
        digits_value(s.take(n)) <= digits_value(s),
    decreases s.len() - n,
{
    if n == s.len() {
        assert(s.take(n) =~= s);
    } else {
        lemma_digits_value_prefix(s, n + 1);
        assert(s.take(n + 1).drop_last() =~= s.take(n));
    }
}

/// Reads `v[from..to]` as a message number.
pub fn parse_number(v: &Vec<char>, from: usize, to: usize) -> (n: u32)
    requires
        from <= to <= v.len(),
    ensures
        n == number_arg(v@.subrange(from as int, to as int)),
{
    let ghost arg = v@.subrange(from as int, to as int);
    let start: usize = if from < to && v[from] == '+' {
        from + 1
    } else {
        from
    };
    let ghost body = v@.subrange(start as int, to as int);
    assert(body =~= if arg.len() > 0 && arg[0] == '+' {
        arg.skip(1)
    } else {
        arg
    });
    if start == to {
        return 0;
    }
    let mut acc: u64 = 0;
    let mut i: usize = start;
    while i < to
        invariant
            start <= i <= to <= v.len(),
            start < to,
            arg == v@.subrange(from as int, to as int),
            body == v@.subrange(start as int, to as int),
            body == if arg.len() > 0 && arg[0] == '+' {
                arg.skip(1)
            } else {
                arg
            },
            forall|j: int| 0 <= j < i - start ==> is_digit(#[trigger] body[j]),
            acc == digits_value(body.take(i - start)),
            acc <= u32::MAX,
        decreases to - i,
    {
        let c: char = v[i];
        if !('0' <= c && c <= '9') {
            assert(!is_digit(body[i - start]));
            return 0;
        }
        let d: u64 = (c as u32 - '0' as u32) as u64;
        let next: u64 = acc * 10 + d;
        proof {
            assert(body.take(i - start + 1).drop_last() =~= body.take(i - start));
            assert(body.take(i - start + 1).last() == c);
            assert(next == digits_value(body.take(i - start + 1)));
        }
        if next > 0xffff_ffff {
            proof {
                lemma_digits_value_prefix(body, i - start + 1);
            }
            return 0;
        }
        acc = next;
        i = i + 1;
    }
    assert(body.take(to - start) =~= body);
    acc as u32
}

/// How many characters stand between `from` and the next line feed (or
/// the end of `s`).
pub open spec fn line_len(s: Seq<char>, from: int) -> nat
    decreases s.len() - from,
{
    if 0 <= from < s.len() && s[from] != '\n' {
        1 + line_len(s, from + 1)
    } else {
        0
    }
}

/// The line that starts at `from`, without its line ending: a line feed,
/// or a carriage return and a line feed.
pub open spec fn line_at(s: Seq<char>, from: int) -> Seq<char> {
    let e = from + line_len(s, from);
    if e < s.len() && from < e && s[e - 1] == '\r' {
        s.subrange(from, e - 1)
    } else {
        s.subrange(from, e)
    }
}

/// The lines of `s` from position `from` on.
pub open spec fn lines_from(s: Seq<char>, from: int) -> Seq<Seq<char>>
    decreases s.len() - from,
{
    if from < 0 || from >= s.len() {
        Seq::empty()
    } else {
        let e = from + line_len(s, from);
        if e < s.len() {
            seq![line_at(s, from)] + lines_from(s, e + 1)
        } else {
            seq![line_at(s, from)]
        }
    }
}

/// The lines of `s`. A final line ending is optional and adds no empty line.
pub open spec fn lines(s: Seq<char>) -> Seq<Seq<char>> {
    lines_from(s, 0)
}

/// The views of a vector of character vectors.
pub open spec fn line_views(ls: Seq<Vec<char>>) -> Seq<Seq<char>> {
    Seq::new(ls.len(), |i: int| ls[i]@)
}

/// Splits `v` into its lines.
pub fn split_lines(v: &Vec<char>) -> (ls: Vec<Vec<char>>)
    ensures
        line_views(ls@) == lines(v@),
{
    let mut ls: Vec<Vec<char>> = Vec::new();
    let mut start: usize = 0;
    assert(line_views(ls@) =~= Seq::<Seq<char>>::empty());
    while start < v.len()
        invariant
            start <= v.len(),
            lines(v@) == line_views(ls@) + lines_from(v@, start as int),
        decreases v.len() - start,
    {
        let mut e: usize = start;
        while e < v.len() && v[e] != '\n'
            invariant
                start <= e <= v.len(),
                line_len(v@, start as int) == (e - start) + line_len(v@, e as int),
            decreases v.len() - e,
        {
            e = e + 1;
        }
        let cut: usize = if e < v.len() && start < e && v[e - 1] == '\r' {
            (e - 1) as usize
        } else {
            e
        };
        let mut line: Vec<char> = Vec::new();
        let mut i: usize = start;
        while i < cut
            invariant
                start <= i <= cut <= v.len(),
                line@ == v@.subrange(start as int, i as int),
            decreases cut - i,
        {
            line.push(v[i]);
            assert(line@ =~= v@.subrange(start as int, i + 1));
            i = i + 1;
        }
        assert(line@ == line_at(v@, start as int));
        let ghost before = line_views(ls@);
        ls.push(line);
        assert(line_views(ls@) =~= before + seq![line_at(v@, start as int)]);
        assert(lines(v@) =~= line_views(ls@) + lines_from(v@, e + 1));
        start = if e < v.len() {
            e + 1
        } else {
            e
        };
    }
    assert(lines(v@) =~= line_views(ls@));
    ls
}

/// The largest position below `upto` that holds `c`, or -1.
pub open spec fn last_index(s: Seq<char>, c: char, upto: int) -> int
    decreases upto,
{
    if upto <= 0 {
        -1
    } else if s[upto - 1] == c {
        upto - 1
    } else {
        last_index(s, c, upto - 1)
    }
}

/// What `last_index` finds: the position holds `c` and no later one below
/// `upto` does; -1 means that `c` does not occur below `upto`.
pub proof fn lemma_last_index(s: Seq<char>, c: char, upto: int)
    requires
        0 <= upto <= s.len(),
    ensures
        -1 <= last_index(s, c, upto) < upto,
        last_index(s, c, upto) >= 0 ==> s[last_index(s, c, upto)] == c,
        forall|j: int| last_index(s, c, upto) < j < upto ==> s[j] != c,
    decreases upto,
{
    if upto > 0 && s[upto - 1] != c {
        lemma_last_index(s, c, upto - 1);
    }
}

/// The position of the last `c` in `v`, if `c` occurs.
pub fn find_last(v: &Vec<char>, c: char) -> (r: Option<usize>)
    ensures
        match r {
            Some(i) => i < v.len() && i == last_index(v@, c, v.len() as int),
            None => last_index(v@, c, v.len() as int) == -1,
        },
{
    let mut i: usize = v.len();
    while i > 0
        invariant
            i <= v.len(),
            last_index(v@, c, v.len() as int) == last_index(v@, c, i as int),
        decreases i,
    {
        if v[i - 1] == c {
            return Some(i - 1);
        }
        i = i - 1;
    }
    None
}

/// Whether `needle` stands in `hay` at position `i`.
pub open spec fn occurs_at(hay: Seq<char>, needle: Seq<char>, i: int) -> bool {
    0 <= i && i + needle.len() <= hay.len() && hay.subrange(i, i + needle.len()) == needle
}

/// Whether `needle` stands somewhere in `hay`.
pub open spec fn contains(hay: Seq<char>, needle: Seq<char>) -> bool {
    exists|i: int| occurs_at(hay, needle, i)
}

/// Whether `needle` stands somewhere in `hay`.
pub fn contains_chars(hay: &Vec<char>, needle: &Vec<char>) -> (r: bool)
    ensures
        r == contains(hay@, needle@),
{
    if needle.len() > hay.len() {
        return false;
    }
    let last: usize = hay.len() - needle.len();
    let mut i: usize = 0;
    loop
        invariant
            needle.len() <= hay.len(),
            last == hay.len() - needle.len(),
            i <= last,
            forall|j: int| 0 <= j < i ==> !occurs_at(hay@, needle@, j),
        decreases last - i,
    {
        if chars_eq(hay, i, i + needle.len(), needle) {
            assert(occurs_at(hay@, needle@, i as int));
            return true;
        }
        if i == last {
            return false;
        }
        i = i + 1;
    }
}

} // verus!
