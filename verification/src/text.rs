//! Text: trimming, lengths in bytes, searching, splitting and decimal numbers.
//!
//! A `str` and a `String` are modelled by their `Seq<char>`.

use vstd::prelude::*;
use vstd::string::*;
use vstd::utf8::*;

verus! {

/// The number of bytes of the UTF-8 encoding of `s`.
pub open spec fn byte_count(s: Seq<char>) -> nat {
    encode_utf8(s).len()
}

/// Unicode's `White_Space` property.
pub open spec fn is_white(c: char) -> bool {
    let u = c as u32;
    ||| 0x9 <= u <= 0xD
    ||| u == 0x20
    ||| u == 0x85
    ||| u == 0xA0
    ||| u == 0x1680
    ||| 0x2000 <= u <= 0x200A
    ||| u == 0x2028
    ||| u == 0x2029
    ||| u == 0x202F
    ||| u == 0x205F
    ||| u == 0x3000
}

/// `s` without its leading white space.
pub open spec fn without_leading_white(s: Seq<char>) -> Seq<char>
    decreases s.len(),
{
    if s.len() > 0 && is_white(s[0]) {
        without_leading_white(s.drop_first())
    } else {
        s
    }
}

/// `s` without its trailing white space.
pub open spec fn without_trailing_white(s: Seq<char>) -> Seq<char>
    decreases s.len(),
{
    if s.len() > 0 && is_white(s.last()) {
        without_trailing_white(s.drop_last())
    } else {
        s
    }
}

/// `s` without white space at either end.
pub open spec fn trimmed(s: Seq<char>) -> Seq<char> {
    without_trailing_white(without_leading_white(s))
}

fn white(c: char) -> (res: bool)
    ensures
        res == is_white(c),
{
    let u: u32 = c as u32;
    (0x9 <= u && u <= 0xD) || u == 0x20 || u == 0x85 || u == 0xA0 || u == 0x1680 || (0x2000 <= u && u
        <= 0x200A) || u == 0x2028 || u == 0x2029 || u == 0x202F || u == 0x205F || u == 0x3000
}

/// The text without white space at either end.
pub fn trim(s: &str) -> (res: String)
    ensures
        res@ == trimmed(s@),
{
    let chars = chars_of(s);
    let n: usize = chars.len();
    let mut from: usize = 0;
    assert(s@.skip(0) =~= s@);
    while from < n && white(chars[from])
        invariant
            from <= n == s@.len(),
            chars@ == s@,
            without_leading_white(s@) == without_leading_white(s@.skip(from as int)),
        decreases n - from,
    {
        assert(s@.skip(from as int).drop_first() =~= s@.skip(from + 1));
        from += 1;
    }
    let mut to: usize = n;
    assert(s@.subrange(from as int, n as int) =~= s@.skip(from as int));
    while to > from && white(chars[to - 1])
        invariant
            from <= to <= n == s@.len(),
            chars@ == s@,
            trimmed(s@) == without_trailing_white(s@.subrange(from as int, to as int)),
        decreases to,
    {
        assert(s@.subrange(from as int, to as int).drop_last() =~= s@.subrange(from as int, to - 1));
        to -= 1;
    }
    text_of(&chars, from, to)
}

/// Trimming removes from the ends only: what is left starts and ends with
/// something that is not white space.
pub proof fn trimmed_has_no_white_ends(s: Seq<char>)
    ensures
        trimmed(s).len() > 0 ==> !is_white(trimmed(s)[0]) && !is_white(trimmed(s).last()),
        trimmed(s).len() <= s.len(),
{
    lemma_without_leading(s);
    lemma_without_trailing(without_leading_white(s));
}

proof fn lemma_without_leading(s: Seq<char>)
    ensures
        without_leading_white(s).len() > 0 ==> !is_white(without_leading_white(s)[0]),
        without_leading_white(s).len() <= s.len(),
    decreases s.len(),
{
    if s.len() > 0 && is_white(s[0]) {
        lemma_without_leading(s.drop_first());
    }
}

proof fn lemma_without_trailing(s: Seq<char>)
    ensures
        without_trailing_white(s).len() > 0 ==> !is_white(without_trailing_white(s).last())
            && without_trailing_white(s)[0] == s[0],
        without_trailing_white(s).len() <= s.len(),
    decreases s.len(),
{
    if s.len() > 0 && is_white(s.last()) {
        lemma_without_trailing(s.drop_last());
    }
}

/// Trimming twice is trimming once.
pub proof fn trimming_is_idempotent(s: Seq<char>)
    ensures
        trimmed(trimmed(s)) == trimmed(s),
{
    trimmed_has_no_white_ends(s);
}

/// The number of bytes of the UTF-8 encoding.
pub fn byte_len(s: &str) -> (res: usize)
    ensures
        res == byte_count(s@),
{
    s.as_bytes().len()
}

/// Whether two texts are equal.
pub fn same(a: &str, b: &str) -> (res: bool)
    ensures
        res == (a@ == b@),
{
    let x = a.as_bytes();
    let y = b.as_bytes();
    if x.len() != y.len() {
        return false;
    }
    let mut i: usize = 0;
    while i < x.len()
        invariant
            i <= x@.len(),
            x@.len() == y@.len(),
            x@ == encode_utf8(a@),
            y@ == encode_utf8(b@),
            forall|j: int| 0 <= j < i ==> x@[j] == y@[j],
        decreases x@.len() - i,
    {
        if x[i] != y[i] {
            return false;
        }
        i += 1;
    }
    proof {
        assert(x@ =~= y@);
        encode_utf8_decode_utf8(a@);
        encode_utf8_decode_utf8(b@);
    }
    true
}

/// `String::push`: the text with one more character at its end.
pub assume_specification[ String::push ](s: &mut String, c: char)
    ensures
        final(s)@ == old(s)@.push(c),
;

/// The characters of a text.
pub fn chars_of(s: &str) -> (res: Vec<char>)
    ensures
        res@ == s@,
{
    let mut v: Vec<char> = Vec::new();
    for c in it: s.chars()
        invariant
            it.seq() == s@,
            v@ == s@.take(it.index()),
    {
        v.push(c);
        assert(v@ =~= s@.take(it.index() + 1));
    }
    assert(s@.take(s@.len() as int) =~= s@);
    v
}

/// The text made of `chars[from..to]`.
pub fn text_of(chars: &Vec<char>, from: usize, to: usize) -> (res: String)
    requires
        from <= to <= chars@.len(),
    ensures
        res@ == chars@.subrange(from as int, to as int),
{
    let mut out = String::new();
    let mut i: usize = from;
    while i < to
        invariant
            from <= i <= to <= chars@.len(),
            out@ == chars@.subrange(from as int, i as int),
        decreases to - i,
    {
        out.push(chars[i]);
        i += 1;
        assert(out@ =~= chars@.subrange(from as int, i as int));
    }
    out
}

/// `a` followed by `b`.
pub fn glue(a: &str, b: &str) -> (res: String)
    ensures
        res@ == a@ + b@,
{
    a.to_owned().concat(b)
}

/// `a` followed by `b` and `c`.
pub fn glue3(a: &str, b: &str, c: &str) -> (res: String)
    ensures
        res@ == a@ + b@ + c@,
{
    a.to_owned().concat(b).concat(c)
}

/// Whether `p` stands in `s` at position `i`.
pub open spec fn stands_at(s: Seq<char>, p: Seq<char>, i: int) -> bool {
    0 <= i && i + p.len() <= s.len() && s.subrange(i, i + p.len()) == p
}

/// Whether `p` stands anywhere in `s`.
pub open spec fn contains_text(s: Seq<char>, p: Seq<char>) -> bool {
    exists|i: int| stands_at(s, p, i)
}

/// Whether `s` starts with `p`.
pub open spec fn starts(s: Seq<char>, p: Seq<char>) -> bool {
    stands_at(s, p, 0)
}

/// Whether `s` ends with `p`.
pub open spec fn ends(s: Seq<char>, p: Seq<char>) -> bool {
    stands_at(s, p, s.len() - p.len())
}

fn chars_stand_at(s: &Vec<char>, p: &Vec<char>, i: usize) -> (res: bool)
    ensures
        res == stands_at(s@, p@, i as int),
{
    if i > s.len() || p.len() > s.len() - i {
        return false;
    }
    let n: usize = s.len();
    let mut j: usize = 0;
    while j < p.len()
        invariant
            j <= p@.len(),
            i + p@.len() <= s@.len() == n,
            forall|k: int| 0 <= k < j ==> p@[k] == s@[i + k],
        decreases p@.len() - j,
    {
        if s[i + j] != p[j] {
            assert(s@.subrange(i as int, i + p@.len())[j as int] != p@[j as int]);
            return false;
        }
        j += 1;
    }
    assert(s@.subrange(i as int, i + p@.len()) =~= p@);
    true
}

/// Whether a text starts with another.
pub fn starts_with(s: &str, p: &str) -> (res: bool)
    ensures
        res == starts(s@, p@),
{
    chars_stand_at(&chars_of(s), &chars_of(p), 0)
}

/// Whether a text ends with another.
pub fn ends_with(s: &str, p: &str) -> (res: bool)
    ensures
        res == ends(s@, p@),
{
    let a = chars_of(s);
    let b = chars_of(p);
    if b.len() > a.len() {
        return false;
    }
    chars_stand_at(&a, &b, a.len() - b.len())
}

/// Whether a text holds another.
pub fn contains(s: &str, p: &str) -> (res: bool)
    ensures
        res == contains_text(s@, p@),
{
    let a = chars_of(s);
    let b = chars_of(p);
    let mut i: usize = 0;
    while i < a.len()
        invariant
            i <= a@.len(),
            a@ == s@,
            b@ == p@,
            forall|k: int| 0 <= k < i ==> !stands_at(s@, p@, k),
        decreases a@.len() - i,
    {
        if chars_stand_at(&a, &b, i) {
            return true;
        }
        i += 1;
    }
    chars_stand_at(&a, &b, i)
}

/// Whether a text holds a character.
pub fn contains_char(s: &str, c: char) -> (res: bool)
    ensures
        res == s@.contains(c),
{
    let a = chars_of(s);
    let mut i: usize = 0;
    while i < a.len()
        invariant
            i <= a@.len(),
            a@ == s@,
            forall|k: int| 0 <= k < i ==> s@[k] != c,
        decreases a@.len() - i,
    {
        if a[i] == c {
            return true;
        }
        i += 1;
    }
    false
}

/// What follows the prefix `p`, where the text has it.
pub fn strip_prefix(s: &str, p: &str) -> (res: Option<String>)
    ensures
        res is Some <==> starts(s@, p@),
        res matches Some(rest) ==> rest@ == s@.skip(p@.len() as int),
{
    let a = chars_of(s);
    let b = chars_of(p);
    if chars_stand_at(&a, &b, 0) {
        let rest = text_of(&a, b.len(), a.len());
        assert(rest@ =~= s@.skip(p@.len() as int));
        Some(rest)
    } else {
        None
    }
}

/// `s` without any number of `p` at its end.
pub open spec fn without_suffixes(s: Seq<char>, p: Seq<char>) -> Seq<char>
    decreases s.len(),
{
    if p.len() > 0 && ends(s, p) {
        without_suffixes(s.take(s.len() - p.len()), p)
    } else {
        s
    }
}

/// The text without any number of `p` at its end.
pub fn trim_end_matches(s: &str, p: &str) -> (res: String)
    requires
        p@.len() > 0,
    ensures
        res@ == without_suffixes(s@, p@),
{
    let a = chars_of(s);
    let b = chars_of(p);
    let mut n: usize = a.len();
    assert(s@.take(n as int) =~= s@);
    while n >= b.len() && chars_stand_at(&a, &b, n - b.len())
        invariant
            n <= a@.len(),
            a@ == s@,
            b@ == p@,
            p@.len() > 0,
            without_suffixes(s@, p@) == without_suffixes(s@.take(n as int), p@),
        decreases n,
    {
        proof {
            let t = s@.take(n as int);
            assert(t.subrange(n - p@.len(), n as int) =~= s@.subrange(n - p@.len(), n as int));
            assert(ends(t, p@));
            assert(t.take(n - p@.len()) =~= s@.take(n - p@.len()));
        }
        n = n - b.len();
    }
    proof {
        let t = s@.take(n as int);
        if ends(t, p@) {
            assert(t.subrange(n - p@.len(), n as int) =~= s@.subrange(n - p@.len(), n as int));
            assert(stands_at(a@, b@, n - p@.len()));
        }
    }
    let out = text_of(&a, 0, n);
    assert(out@ =~= s@.take(n as int));
    out
}

/// The pieces between the separators `c`: one more than there are separators.
pub open spec fn pieces(s: Seq<char>, c: char) -> Seq<Seq<char>>
    decreases s.len(),
{
    if s.len() == 0 {
        seq![Seq::<char>::empty()]
    } else if s.last() == c {
        pieces(s.drop_last(), c).push(Seq::<char>::empty())
    } else {
        let front = pieces(s.drop_last(), c);
        front.update(front.len() - 1, front.last().push(s.last()))
    }
}

/// The views of some texts.
pub open spec fn texts(v: Seq<String>) -> Seq<Seq<char>> {
    v.map_values(|s: String| s@)
}

proof fn lemma_pieces_nonempty(s: Seq<char>, c: char)
    ensures
        pieces(s, c).len() > 0,
    decreases s.len(),
{
    if s.len() > 0 {
        lemma_pieces_nonempty(s.drop_last(), c);
    }
}

/// The pieces of a text between the separators `c`.
pub fn split(s: &str, c: char) -> (res: Vec<String>)
    ensures
        texts(res@) == pieces(s@, c),
        res@.len() > 0,
{
    let a = chars_of(s);
    let mut done: Vec<String> = Vec::new();
    let mut start: usize = 0;
    let mut i: usize = 0;
    assert(s@.take(0) =~= Seq::<char>::empty());
    assert(texts(done@).push(s@.subrange(0, 0)) =~= pieces(s@.take(0), c));
    while i < a.len()
        invariant
            start <= i <= a@.len(),
            a@ == s@,
            texts(done@).push(s@.subrange(start as int, i as int)) == pieces(s@.take(i as int), c),
        decreases a@.len() - i,
    {
        proof {
            lemma_pieces_nonempty(s@.take(i as int), c);
            assert(s@.take(i + 1).drop_last() =~= s@.take(i as int));
            assert(s@.take(i + 1).last() == s@[i as int]);
        }
        let ghost before = texts(done@);
        if a[i] == c {
            let piece = text_of(&a, start, i);
            done.push(piece);
            start = i + 1;
            proof {
                assert(texts(done@) =~= before.push(piece@));
                assert(s@.subrange(i + 1, i + 1) =~= Seq::<char>::empty());
            }
        } else {
            proof {
                let grown = s@.subrange(start as int, i + 1);
                assert(grown =~= s@.subrange(start as int, i as int).push(s@[i as int]));
                let front = pieces(s@.take(i as int), c);
                assert(before.push(grown) =~= front.update(front.len() - 1, front.last().push(s@[i as int])));
            }
        }
        i += 1;
    }
    let last = text_of(&a, start, i);
    let ghost before = texts(done@);
    done.push(last);
    proof {
        assert(texts(done@) =~= before.push(last@));
        assert(s@.take(i as int) =~= s@);
    }
    done
}

/// The lowercase equivalent of a text.
pub uninterp spec fn lowercase(s: Seq<char>) -> Seq<char>;

/// The lowercase equivalent of an ASCII character.
pub open spec fn ascii_lower(c: char) -> char {
    if 'A' <= c <= 'Z' {
        (c as u32 + 32) as char
    } else {
        c
    }
}

/// `str::to_lowercase`: the lowercase equivalent by Unicode's rules, which on
/// ASCII turns the letters A to Z into a to z and leaves the rest.
#[verifier::external_body]
pub(crate) fn to_lowercase(s: &str) -> (res: String)
    ensures
        res@ == lowercase(s@),
        (forall|i: int| 0 <= i < s@.len() ==> #[trigger] s@[i] as u32 <= 127) ==> res@ == s@.map_values(
            |c: char| ascii_lower(c),
        ),
{
    s.to_lowercase()
}

/// Whether Unicode counts a character among the letters and numbers.
pub uninterp spec fn alphanumeric(c: char) -> bool;

/// `char::is_alphanumeric`: whether Unicode counts the character among the
/// letters and numbers. Of the ASCII characters these are the letters and the
/// digits.
#[verifier::external_body]
pub(crate) fn is_alphanumeric(c: char) -> (res: bool)
    ensures
        res == alphanumeric(c),
        c as u32 <= 127 ==> res == ('0' <= c <= '9' || 'a' <= c <= 'z' || 'A' <= c <= 'Z'),
{
    c.is_alphanumeric()
}

/// Whether a text is in a list.
pub fn is_among(list: &Vec<String>, s: &str) -> (res: bool)
    ensures
        res == texts(list@).contains(s@),
{
    let mut i: usize = 0;
    while i < list.len()
        invariant
            i <= list@.len(),
            forall|j: int| 0 <= j < i ==> #[trigger] texts(list@)[j] != s@,
        decreases list@.len() - i,
    {
        if same(list[i].as_str(), s) {
            assert(texts(list@)[i as int] == s@);
            return true;
        }
        i += 1;
    }
    false
}

/// The decimal digit `d`.
pub open spec fn digit(d: nat) -> char {
    if d == 0 { '0' } else if d == 1 { '1' } else if d == 2 { '2' } else if d == 3 { '3' }
    else if d == 4 { '4' } else if d == 5 { '5' } else if d == 6 { '6' }
    else if d == 7 { '7' } else if d == 8 { '8' } else { '9' }
}

/// The decimal digits of a number, the most significant first.
pub open spec fn decimal(n: nat) -> Seq<char>
    decreases n,
{
    if n < 10 {
        seq![digit(n)]
    } else {
        decimal(n / 10).push(digit(n % 10))
    }
}

/// The decimal digits of a number, after a minus sign where it is negative.
pub open spec fn signed_decimal(n: int) -> Seq<char> {
    if n < 0 {
        seq!['-'] + decimal((-n) as nat)
    } else {
        decimal(n as nat)
    }
}

fn digit_char(d: u64) -> (res: char)
    requires
        d < 10,
    ensures
        res == digit(d as nat),
{
    if d == 0 { '0' } else if d == 1 { '1' } else if d == 2 { '2' } else if d == 3 { '3' }
    else if d == 4 { '4' } else if d == 5 { '5' } else if d == 6 { '6' }
    else if d == 7 { '7' } else if d == 8 { '8' } else { '9' }
}

/// A number in decimal.
pub fn show_u64(n: u64) -> (res: String)
    ensures
        res@ == decimal(n as nat),
    decreases n,
{
    if n < 10 {
        let mut out = String::new();
        out.push(digit_char(n));
        assert(out@ =~= seq![digit(n as nat)]);
        out
    } else {
        let mut out = show_u64(n / 10);
        out.push(digit_char(n % 10));
        out
    }
}

/// A signed number in decimal.
pub fn show_i64(n: i64) -> (res: String)
    ensures
        res@ == signed_decimal(n as int),
{
    if n < 0 {
        let magnitude: u64 = (-(n + 1)) as u64 + 1;
        let mut out = String::new();
        out.push('-');
        assert(out@ =~= seq!['-']);
        out.concat(show_u64(magnitude).as_str())
    } else {
        show_u64(n as u64)
    }
}

/// The value of a decimal digit.
pub open spec fn digit_value(c: char) -> Option<nat> {
    if '0' <= c <= '9' {
        Some((c as u32 - 48) as nat)
    } else {
        None
    }
}

/// The number that a run of decimal digits stands for.
pub open spec fn digits_value(s: Seq<char>) -> Option<nat>
    decreases s.len(),
{
    if s.len() == 0 {
        Some(0)
    } else {
        match (digits_value(s.drop_last()), digit_value(s.last())) {
            (Some(front), Some(d)) => Some(front * 10 + d),
            _ => None,
        }
    }
}

/// What a text says as a `u32`: one digit or more, after an optional plus sign,
/// with a value that fits.
pub open spec fn u32_value(s: Seq<char>) -> Option<u32> {
    let digits = if s.len() > 0 && s[0] == '+' { s.drop_first() } else { s };
    match digits_value(digits) {
        Some(n) if digits.len() > 0 && n <= u32::MAX => Some(n as u32),
        _ => None,
    }
}

proof fn lemma_digits_grow(s: Seq<char>, i: int)
    requires
        0 <= i <= s.len(),
    ensures
        digits_value(s.take(i)) is None ==> digits_value(s) is None,
        digits_value(s.take(i)) matches Some(a) ==> (digits_value(s) matches Some(b) ==> a <= b),
    decreases s.len() - i,
{
    if i < s.len() {
        lemma_digits_grow(s, i + 1);
        assert(s.take(i + 1).drop_last() =~= s.take(i));
    } else {
        assert(s.take(i) =~= s);
    }
}

/// The `u32` that a text says, if it says one.
pub fn parse_u32(s: &str) -> (res: Option<u32>)
    ensures
        res == u32_value(s@),
{
    let a = chars_of(s);
    let start: usize = if a.len() > 0 && a[0] == '+' { 1 } else { 0 };
    let ghost digits = s@.skip(start as int);
    assert(start == 1 ==> digits =~= s@.drop_first());
    assert(start == 0 ==> digits =~= s@);
    if start == a.len() {
        return None;
    }
    let mut value: u64 = 0;
    let mut i: usize = start;
    assert(digits.take(0) =~= Seq::<char>::empty());
    while i < a.len()
        invariant
            start <= i <= a@.len(),
            start <= 1,
            a@ == s@,
            digits == s@.skip(start as int),
            digits == if s@.len() > 0 && s@[0] == '+' { s@.drop_first() } else { s@ },
            digits_value(digits.take(i - start)) == Some(value as nat),
            value <= u32::MAX,
        decreases a@.len() - i,
    {
        let c = a[i];
        proof {
            assert(digits.take(i - start + 1).drop_last() =~= digits.take(i - start));
            assert(digits.take(i - start + 1).last() == c);
            lemma_digits_grow(digits, i - start + 1);
        }
        if c < '0' || c > '9' {
            return None;
        }
        let d: u64 = (c as u32 - 48) as u64;
        value = value * 10 + d;
        if value > u32::MAX as u64 {
            return None;
        }
        i += 1;
    }
    assert(digits.take(i - start) =~= digits);
    Some(value as u32)
}

proof fn leading_is_white(s: Seq<char>) -> (i: int)
    ensures
        0 <= i <= s.len(),
        without_leading_white(s) == s.skip(i),
        forall|k: int| 0 <= k < i ==> is_white(#[trigger] s[k]),
    decreases s.len(),
{
    if s.len() > 0 && is_white(s[0]) {
        let rest = s.drop_first();
        let i = leading_is_white(rest);
        assert(s.skip(i + 1) =~= rest.skip(i));
        assert forall|k: int| 0 <= k < i + 1 implies is_white(#[trigger] s[k]) by {
            if k > 0 {
                assert(rest[k - 1] == s[k]);
            }
        }
        i + 1
    } else {
        assert(s.skip(0) =~= s);
        0
    }
}

proof fn trailing_is_white(s: Seq<char>) -> (j: int)
    ensures
        0 <= j <= s.len(),
        without_trailing_white(s) == s.take(j),
        forall|k: int| j <= k < s.len() ==> is_white(#[trigger] s[k]),
    decreases s.len(),
{
    if s.len() > 0 && is_white(s.last()) {
        let rest = s.drop_last();
        let j = trailing_is_white(rest);
        assert(s.take(j) =~= rest.take(j));
        assert forall|k: int| j <= k < s.len() implies is_white(#[trigger] s[k]) by {
            if k < rest.len() {
                assert(rest[k] == s[k]);
            }
        }
        j
    } else {
        assert(s.take(s.len() as int) =~= s);
        s.len() as int
    }
}

/// Trimming leaves a part of the text, all of it that lies between the first and
/// the last character that is not white space: what goes is white space.
pub proof fn trimming_removes_white_space_only(s: Seq<char>)
    ensures
        exists|i: int, j: int|
            {
                &&& 0 <= i <= j <= s.len()
                &&& trimmed(s) == #[trigger] s.subrange(i, j)
                &&& forall|k: int| 0 <= k < i || j <= k < s.len() ==> is_white(#[trigger] s[k])
            },
        s.len() > 0 && !is_white(s[0]) && !is_white(s.last()) ==> trimmed(s) == s,
{
    let i = leading_is_white(s);
    let rest = without_leading_white(s);
    let j = trailing_is_white(rest);
    assert(trimmed(s) =~= s.subrange(i, i + j));
    assert forall|k: int| 0 <= k < i || i + j <= k < s.len() implies is_white(#[trigger] s[k]) by {
        if k >= i {
            assert(rest[k - i] == s[k]);
        }
    }
}

/// Taking suffixes off takes all of them off, and nothing else.
pub proof fn suffixes_are_taken_off(s: Seq<char>, p: Seq<char>)
    requires
        p.len() > 0,
    ensures
        without_suffixes(s + p, p) == without_suffixes(s, p),
        !ends(without_suffixes(s, p), p),
        !ends(s, p) ==> without_suffixes(s, p) == s,
    decreases s.len(),
{
    assert((s + p).subrange(s.len() as int, (s + p).len() as int) =~= p);
    assert((s + p).take(s.len() as int) =~= s);
    if ends(s, p) {
        suffixes_are_taken_off(s.take(s.len() - p.len()), p);
    }
}

/// The pieces of a text put together again.
pub open spec fn joined_with(parts: Seq<Seq<char>>, c: char) -> Seq<char>
    decreases parts.len(),
{
    if parts.len() == 0 {
        Seq::empty()
    } else if parts.len() == 1 {
        parts[0]
    } else {
        joined_with(parts.drop_last(), c).push(c) + parts.last()
    }
}

/// No piece of a text holds the separator, and with the separator between them the
/// pieces are the text again.
pub proof fn pieces_make_up_the_text(s: Seq<char>, c: char)
    ensures
        pieces(s, c).len() > 0,
        forall|i: int| 0 <= i < pieces(s, c).len() ==> !(#[trigger] pieces(s, c)[i]).contains(c),
        joined_with(pieces(s, c), c) == s,
    decreases s.len(),
{
    reveal_with_fuel(joined_with, 2);
    if s.len() > 0 {
        let front = pieces(s.drop_last(), c);
        let all = pieces(s, c);
        pieces_make_up_the_text(s.drop_last(), c);
        assert(s.drop_last().push(s.last()) =~= s);
        if s.last() == c {
            assert(all.drop_last() =~= front);
            assert(s.drop_last().push(c) + Seq::<char>::empty() =~= s);
        } else {
            let last = front.last().push(s.last());
            assert(all.last() == last);
            assert(all.drop_last() =~= front.drop_last());
            assert forall|k: int| 0 <= k < last.len() implies last[k] != c by {
                if k < front.last().len() {
                    assert(front[front.len() - 1].contains(front.last()[k]));
                }
            }
            assert forall|i: int| 0 <= i < all.len() implies !(#[trigger] all[i]).contains(c) by {
                if i < front.len() - 1 {
                    assert(all[i] == front[i]);
                }
            }
            if front.len() == 1 {
                assert(joined_with(all, c) =~= s);
            } else {
                assert(joined_with(front, c) == joined_with(front.drop_last(), c).push(c) + front.last());
                assert(joined_with(all, c) =~= s);
            }
        }
    }
}

} // verus!
