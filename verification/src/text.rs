//! Text operations that the runtime needs: comparing, joining, splitting, trimming, and reading
//! and writing decimal numbers.

use vstd::prelude::*;

verus! {

/// The contents of a list of strings.
pub open spec fn texts(parts: Seq<String>) -> Seq<Seq<char>> {
    parts.map_values(|s: String| s@)
}

/// Whether two texts hold the same characters.
pub fn same_text(a: &str, b: &str) -> (r: bool)
    ensures
        r == (a@ == b@),
{
    a.to_owned() == b.to_owned()
}

/// The parts one behind the other, with `sep` between neighbours.
pub open spec fn joined(parts: Seq<Seq<char>>, sep: Seq<char>) -> Seq<char>
    decreases parts.len(),
{
    if parts.len() == 0 {
        Seq::empty()
    } else if parts.len() == 1 {
        parts[0]
    } else {
        joined(parts.drop_last(), sep) + sep + parts.last()
    }
}

/// Joins the parts with `sep` between neighbours.
pub fn join_texts(parts: &Vec<String>, sep: &str) -> (r: String)
    ensures
        r@ == joined(texts(parts@), sep@),
{
    let mut out = String::new();
    let mut i: usize = 0;
    while i < parts.len()
        invariant
            i <= parts.len(),
            out@ == joined(texts(parts@.take(i as int)), sep@),
        decreases parts.len() - i,
    {
        proof {
            let done = texts(parts@.take(i as int));
            let next = texts(parts@.take(i as int + 1));
            assert(next.drop_last() =~= done);
            assert(next.last() == parts@[i as int]@);
        }
        if i > 0 {
            out.append(sep);
        }
        out.append(parts[i].as_str());
        i = i + 1;
    }
    proof {
        assert(parts@.take(parts@.len() as int) =~= parts@);
    }
    out
}

/// The pieces of `s` between the occurrences of `sep`; a text without `sep` is one piece.
pub open spec fn split_pieces(s: Seq<char>, sep: char) -> Seq<Seq<char>>
    decreases s.len(),
{
    if s.len() == 0 {
        seq![Seq::empty()]
    } else {
        let before = split_pieces(s.drop_last(), sep);
        if s.last() == sep {
            before.push(Seq::empty())
        } else {
            before.drop_last().push(before.last().push(s.last()))
        }
    }
}

/// There is always at least one piece.
pub proof fn lemma_split_nonempty(s: Seq<char>, sep: char)
    ensures
        split_pieces(s, sep).len() >= 1,
    decreases s.len(),
{
    if s.len() > 0 {
        lemma_split_nonempty(s.drop_last(), sep);
    }
}

/// No piece holds the separator, and joining the pieces with the separator gives the text back.
pub proof fn lemma_split_joins_back(s: Seq<char>, sep: char)
    ensures
        joined(split_pieces(s, sep), seq![sep]) == s,
        forall|i: int| 0 <= i < split_pieces(s, sep).len() ==> !(#[trigger] split_pieces(s, sep)[i]).contains(sep),
    decreases s.len(),
{
    if s.len() == 0 {
        assert(split_pieces(s, sep).len() == 1);
        assert(joined(split_pieces(s, sep), seq![sep]) =~= s);
    } else {
        let init = s.drop_last();
        lemma_split_nonempty(init, sep);
        lemma_split_joins_back(init, sep);
        let before = split_pieces(init, sep);
        let now = split_pieces(s, sep);
        assert(init.push(s.last()) =~= s);
        if s.last() == sep {
            assert(now.drop_last() =~= before);
            assert(joined(now, seq![sep]) =~= joined(before, seq![sep]) + seq![sep]);
        } else {
            let grown = before.last().push(s.last());
            assert(now.last() == grown);
            assert(now.drop_last() =~= before.drop_last());
            if before.len() == 1 {
                assert(joined(now, seq![sep]) =~= s);
            } else {
                let rest = joined(before.drop_last(), seq![sep]);
                assert(joined(before, seq![sep]) == rest + seq![sep] + before.last());
                assert(joined(now, seq![sep]) == rest + seq![sep] + grown);
                assert(rest + seq![sep] + grown =~= (rest + seq![sep] + before.last()).push(s.last()));
            }
            assert forall|i: int| 0 <= i < now.len() implies !(#[trigger] now[i]).contains(sep) by {
                if i < now.len() - 1 {
                    assert(now[i] == before[i]);
                } else {
                    if grown.contains(sep) {
                        let k = choose|k: int| 0 <= k < grown.len() && grown[k] == sep;
                        if k < before.last().len() {
                            assert(before.last()[k] == sep);
                            assert(before[before.len() - 1].contains(sep));
                        }
                    }
                }
            }
        }
    }
}

/// Splits `s` at every occurrence of `sep`.
pub fn split_on(s: &str, sep: char) -> (r: Vec<String>)
    ensures
        texts(r@) == split_pieces(s@, sep),
{
    let mut out: Vec<String> = Vec::new();
    let mut piece = String::new();
    let n: usize = s.unicode_len();
    let mut i: usize = 0;
    while i < n
        invariant
            i <= n,
            n == s@.len(),
            texts(out@).push(piece@) == split_pieces(s@.take(i as int), sep),
        decreases n - i,
    {
        let c: char = s.get_char(i);
        let ghost before = texts(out@).push(piece@);
        proof {
            assert(s@.take(i as int + 1).drop_last() =~= s@.take(i as int));
            assert(before.drop_last() =~= texts(out@));
        }
        if c == sep {
            let full = piece;
            proof {
                assert(texts(out@.push(full)) =~= texts(out@).push(full@));
            }
            out.push(full);
            piece = String::new();
        } else {
            piece.append(s.substring_char(i, i + 1));
            proof {
                assert(piece@ =~= before.last().push(c));
            }
        }
        i = i + 1;
    }
    proof {
        assert(s@.take(n as int) =~= s@);
        assert(texts(out@.push(piece)) =~= texts(out@).push(piece@));
    }
    out.push(piece);
    out
}

/// Whether the text holds the character.
pub fn has_char(s: &str, c: char) -> (r: bool)
    ensures
        r == s@.contains(c),
{
    let n: usize = s.unicode_len();
    let mut i: usize = 0;
    while i < n
        invariant
            i <= n,
            n == s@.len(),
            forall|k: int| 0 <= k < i ==> s@[k] != c,
        decreases n - i,
    {
        if s.get_char(i) == c {
            proof {
                assert(s@[i as int] == c);
            }
            return true;
        }
        i = i + 1;
    }
    false
}

/// The character of a decimal digit.
pub open spec fn digit_char(d: nat) -> char {
    (48 + d) as char
}

/// The decimal form of a natural number, without leading zeros.
pub open spec fn decimal(n: nat) -> Seq<char>
    decreases n,
{
    if n < 10 {
        seq![digit_char(n)]
    } else {
        decimal(n / 10).push(digit_char(n % 10))
    }
}

fn digit_text(d: u64) -> (r: &'static str)
    requires
        d < 10,
    ensures
        r@ == seq![digit_char(d as nat)],
{
    proof {
        reveal_strlit("0");
        reveal_strlit("1");
        reveal_strlit("2");
        reveal_strlit("3");
        reveal_strlit("4");
        reveal_strlit("5");
        reveal_strlit("6");
        reveal_strlit("7");
        reveal_strlit("8");
        reveal_strlit("9");
    }
    let r: &'static str = match d {
        0 => "0",
        1 => "1",
        2 => "2",
        3 => "3",
        4 => "4",
        5 => "5",
        6 => "6",
        7 => "7",
        8 => "8",
        _ => "9",
    };
    proof {
        assert(r@ =~= seq![digit_char(d as nat)]);
    }
    r
}

/// Writes a number in decimal.
pub fn decimal_text(n: u64) -> (r: String)
    ensures
        r@ == decimal(n as nat),
    decreases n,
{
    if n < 10 {
        digit_text(n).to_owned()
    } else {
        let mut r = decimal_text(n / 10);
        r.append(digit_text(n % 10));
        proof {
            assert(r@ =~= decimal((n / 10) as nat).push(digit_char((n % 10) as nat)));
        }
        r
    }
}

/// `true` or `false`, as text.
pub open spec fn bool_chars(b: bool) -> Seq<char> {
    if b {
        "true"@
    } else {
        "false"@
    }
}

/// Writes a truth value.
pub fn bool_text(b: bool) -> (r: String)
    ensures
        r@ == bool_chars(b),
{
    if b {
        "true".to_owned()
    } else {
        "false".to_owned()
    }
}

/// A decimal digit.
pub open spec fn is_digit(c: char) -> bool {
    '0' <= c <= '9'
}

/// The value of a decimal digit.
pub open spec fn digit_value(c: char) -> int {
    c as int - 48
}

/// Why a text is no 64-bit signed integer.
#[derive(Clone, Copy, Debug, PartialEq, Eq, Structural)]
pub enum IntegerFault {
    Empty,
    InvalidDigit,
    TooLarge,
    TooSmall,
}

impl IntegerFault {
    /// The description of the fault.
    pub open spec fn spec_message(self) -> Seq<char> {
        match self {
            IntegerFault::Empty => "cannot parse integer from empty string"@,
            IntegerFault::InvalidDigit => "invalid digit found in string"@,
            IntegerFault::TooLarge => "number too large to fit in target type"@,
            IntegerFault::TooSmall => "number too small to fit in target type"@,
        }
    }

    /// The description of the fault.
    pub fn message(&self) -> (r: String)
        ensures
            r@ == self.spec_message(),
    {
        match self {
            IntegerFault::Empty => "cannot parse integer from empty string".to_owned(),
            IntegerFault::InvalidDigit => "invalid digit found in string".to_owned(),
            IntegerFault::TooLarge => "number too large to fit in target type".to_owned(),
            IntegerFault::TooSmall => "number too small to fit in target type".to_owned(),
        }
    }
}

/// Reads digits from the left; the first fault met decides, a bad digit before an overflow at the
/// same place.
pub open spec fn scanned(body: Seq<char>, negative: bool) -> Result<int, IntegerFault>
    decreases body.len(),
{
    if body.len() == 0 {
        Ok(0)
    } else {
        match scanned(body.drop_last(), negative) {
            Err(e) => Err(e),
            Ok(v) => if !is_digit(body.last()) {
                Err(IntegerFault::InvalidDigit)
            } else {
                let n = if negative {
                    v * 10 - digit_value(body.last())
                } else {
                    v * 10 + digit_value(body.last())
                };
                if n > i64::MAX {
                    Err(IntegerFault::TooLarge)
                } else if n < i64::MIN {
                    Err(IntegerFault::TooSmall)
                } else {
                    Ok(n)
                }
            },
        }
    }
}

/// The integer that a text writes: an optional sign and at least one digit, nothing else.
pub open spec fn parsed_i64(s: Seq<char>) -> Result<int, IntegerFault> {
    if s.len() == 0 {
        Err(IntegerFault::Empty)
    } else if s[0] == '+' || s[0] == '-' {
        if s.len() == 1 {
            Err(IntegerFault::InvalidDigit)
        } else {
            scanned(s.skip(1), s[0] == '-')
        }
    } else {
        scanned(s, false)
    }
}

proof fn lemma_scan_stops(body: Seq<char>, upto: int, negative: bool)
    requires
        0 <= upto <= body.len(),
        scanned(body.take(upto), negative) is Err,
    ensures
        scanned(body, negative) == scanned(body.take(upto), negative),
    decreases body.len() - upto,
{
    if upto < body.len() {
        assert(body.take(upto + 1).drop_last() =~= body.take(upto));
        lemma_scan_stops(body, upto + 1, negative);
    } else {
        assert(body.take(upto) =~= body);
    }
}

/// Reads a 64-bit signed integer in decimal.
pub fn parse_i64(s: &str) -> (r: Result<i64, IntegerFault>)
    ensures
        match r {
            Ok(v) => parsed_i64(s@) == Ok::<int, IntegerFault>(v as int),
            Err(e) => parsed_i64(s@) == Err::<int, IntegerFault>(e),
        },
{
    let n: usize = s.unicode_len();
    if n == 0 {
        return Err(IntegerFault::Empty);
    }
    let first: char = s.get_char(0);
    let signed: bool = first == '+' || first == '-';
    let negative: bool = first == '-';
    if signed && n == 1 {
        return Err(IntegerFault::InvalidDigit);
    }
    let start: usize = if signed {
        1
    } else {
        0
    };
    let ghost body = s@.skip(start as int);
    proof {
        assert(s@.skip(0) =~= s@);
    }
    let mut value: i128 = 0;
    let mut i: usize = start;
    while i < n
        invariant
            start <= i <= n,
            n == s@.len(),
            body == s@.skip(start as int),
            parsed_i64(s@) == scanned(body, negative),
            i64::MIN <= value <= i64::MAX,
            scanned(body.take(i - start), negative) == Ok::<int, IntegerFault>(value as int),
        decreases n - i,
    {
        let c: char = s.get_char(i);
        proof {
            assert(body.take(i - start + 1).drop_last() =~= body.take(i - start));
            assert(body.take(i - start + 1).last() == c);
        }
        if !('0' <= c && c <= '9') {
            proof {
                lemma_scan_stops(body, i - start + 1, negative);
            }
            return Err(IntegerFault::InvalidDigit);
        }
        let digit: i128 = (c as u32 - 48) as i128;
        let next: i128 = if negative {
            value * 10 - digit
        } else {
            value * 10 + digit
        };
        if next > 9223372036854775807 {
            proof {
                lemma_scan_stops(body, i - start + 1, negative);
            }
            return Err(IntegerFault::TooLarge);
        }
        if next < -9223372036854775808 {
            proof {
                lemma_scan_stops(body, i - start + 1, negative);
            }
            return Err(IntegerFault::TooSmall);
        }
        value = next;
        i = i + 1;
    }
    proof {
        assert(body.take(n - start) =~= body);
    }
    Ok(value as i64)
}

/// The number that the digits write.
pub open spec fn digits_number(s: Seq<char>) -> nat
    decreases s.len(),
{
    if s.len() == 0 {
        0
    } else {
        (digits_number(s.drop_last()) * 10 + digit_value(s.last())) as nat
    }
}

/// The text behind an optional plus sign.
pub open spec fn unsigned_body(s: Seq<char>) -> Seq<char> {
    if s.len() > 0 && s[0] == '+' {
        s.skip(1)
    } else {
        s
    }
}

/// Whether the text holds decimal digits only.
pub open spec fn all_digits(s: Seq<char>) -> bool {
    forall|i: int| 0 <= i < s.len() ==> is_digit(#[trigger] s[i])
}

/// The 32-bit unsigned integer that a text writes: an optional plus sign and at least one digit.
pub open spec fn parsed_u32(s: Seq<char>) -> Option<u32> {
    let body = unsigned_body(s);
    if body.len() > 0 && all_digits(body) && digits_number(body) <= u32::MAX {
        Some(digits_number(body) as u32)
    } else {
        None
    }
}

proof fn lemma_decimal_digits(n: nat)
    ensures
        decimal(n).len() > 0,
        all_digits(decimal(n)),
        digits_number(decimal(n)) == n,
    decreases n,
{
    let s = decimal(n);
    if n < 10 {
        assert(s.drop_last() =~= Seq::<char>::empty());
        assert(digits_number(s.drop_last()) == 0);
    } else {
        lemma_decimal_digits(n / 10);
        assert(s.drop_last() =~= decimal(n / 10));
    }
}

/// A 32-bit unsigned integer that is written out reads back as itself.
pub proof fn law_number_survives_writing(n: u32)
    ensures
        parsed_u32(decimal(n as nat)) == Some(n),
{
    lemma_decimal_digits(n as nat);
    assert(is_digit(decimal(n as nat)[0]));
}

proof fn lemma_digits_grow(s: Seq<char>, upto: int)
    requires
        0 <= upto <= s.len(),
        all_digits(s),
    ensures
        digits_number(s.take(upto)) <= digits_number(s),
    decreases s.len() - upto,
{
    if upto < s.len() {
        assert(s.take(upto + 1).drop_last() =~= s.take(upto));
        assert(is_digit(s[upto]));
        assert(digits_number(s.take(upto + 1)) >= digits_number(s.take(upto)));
        lemma_digits_grow(s, upto + 1);
    } else {
        assert(s.take(upto) =~= s);
    }
}

/// Reads a 32-bit unsigned integer in decimal.
pub fn parse_u32(s: &str) -> (r: Option<u32>)
    ensures
        r == parsed_u32(s@),
{
    let n: usize = s.unicode_len();
    if n == 0 {
        return None;
    }
    let start: usize = if s.get_char(0) == '+' {
        1
    } else {
        0
    };
    let ghost body = s@.skip(start as int);
    proof {
        assert(s@.skip(0) =~= s@);
    }
    let mut value: u64 = 0;
    let mut i: usize = start;
    while i < n
        invariant
            start <= i <= n,
            n == s@.len(),
            start <= 1,
            body == s@.skip(start as int),
            body == unsigned_body(s@),
            value <= u32::MAX,
            forall|k: int| 0 <= k < i - start ==> is_digit(#[trigger] body[k]),
            digits_number(body.take(i - start)) == value,
        decreases n - i,
    {
        let c: char = s.get_char(i);
        proof {
            assert(body[i - start] == c);
            assert(body.take(i - start + 1).drop_last() =~= body.take(i - start));
        }
        if !('0' <= c && c <= '9') {
            proof {
                assert(!is_digit(body[i - start]));
            }
            return None;
        }
        let next: u64 = value * 10 + (c as u32 - 48) as u64;
        if next > 4294967295 {
            proof {
                if all_digits(body) {
                    lemma_digits_grow(body, i - start + 1);
                    assert(digits_number(body) > u32::MAX);
                }
            }
            return None;
        }
        value = next;
        i = i + 1;
    }
    proof {
        assert(body.take(n - start) =~= body);
    }
    if n == start {
        return None;
    }
    Some(value as u32)
}

/// The characters with the Unicode property White_Space.
pub open spec fn is_white(c: char) -> bool {
    let v = c as u32;
    ||| 9 <= v <= 13
    ||| v == 0x20
    ||| v == 0x85
    ||| v == 0xa0
    ||| v == 0x1680
    ||| 0x2000 <= v <= 0x200a
    ||| v == 0x2028
    ||| v == 0x2029
    ||| v == 0x202f
    ||| v == 0x205f
    ||| v == 0x3000
}

/// The text without the white space at its start.
pub open spec fn trimmed_start(s: Seq<char>) -> Seq<char>
    decreases s.len(),
{
    if s.len() > 0 && is_white(s[0]) {
        trimmed_start(s.skip(1))
    } else {
        s
    }
}

/// The text without the white space at its end.
pub open spec fn trimmed_end(s: Seq<char>) -> Seq<char>
    decreases s.len(),
{
    if s.len() > 0 && is_white(s.last()) {
        trimmed_end(s.drop_last())
    } else {
        s
    }
}

/// The text without the white space at its two ends.
pub open spec fn trimmed(s: Seq<char>) -> Seq<char> {
    trimmed_end(trimmed_start(s))
}

fn white(c: char) -> (r: bool)
    ensures
        r == is_white(c),
{
    let v: u32 = c as u32;
    (9 <= v && v <= 13) || v == 0x20 || v == 0x85 || v == 0xa0 || v == 0x1680 || (0x2000 <= v && v
        <= 0x200a) || v == 0x2028 || v == 0x2029 || v == 0x202f || v == 0x205f || v == 0x3000
}

/// Removes the white space at the two ends of a text.
pub fn trim_text(s: &str) -> (r: String)
    ensures
        r@ == trimmed(s@),
{
    let n: usize = s.unicode_len();
    let mut from: usize = 0;
    proof {
        assert(s@.skip(0) =~= s@);
    }
    while from < n && white(s.get_char(from))
        invariant
            from <= n,
            n == s@.len(),
            trimmed_start(s@) == trimmed_start(s@.skip(from as int)),
        decreases n - from,
    {
        proof {
            assert(s@.skip(from as int).skip(1) =~= s@.skip(from as int + 1));
        }
        from = from + 1;
    }
    let ghost front = s@.skip(from as int);
    proof {
        assert(trimmed_start(s@) == front);
    }
    let mut to: usize = n;
    proof {
        assert(front =~= s@.subrange(from as int, n as int));
    }
    while to > from && white(s.get_char(to - 1))
        invariant
            from <= to <= n,
            n == s@.len(),
            trimmed_end(front) == trimmed_end(s@.subrange(from as int, to as int)),
        decreases to - from,
    {
        proof {
            assert(s@.subrange(from as int, to as int).drop_last() =~= s@.subrange(
                from as int,
                to - 1,
            ));
        }
        to = to - 1;
    }
    s.substring_char(from, to).to_owned()
}

/// The text that `String::from_utf8_lossy` makes of the bytes.
pub uninterp spec fn lossy_utf8(bytes: Seq<u8>) -> Seq<char>;

/// Calls `String::from_utf8_lossy`. Its result depends on the bytes alone; bytes that are valid
/// UTF-8 are decoded as they stand.
#[verifier::external_body]
pub(crate) fn read_utf8_lossy(bytes: &Vec<u8>) -> (r: String)
    ensures
        r@ == lossy_utf8(bytes@),
        vstd::utf8::valid_utf8(bytes@) ==> r@ == vstd::utf8::decode_utf8(bytes@),
{
    String::from_utf8_lossy(bytes).into_owned()
}

/// Whether a text is made of ASCII characters.
pub open spec fn is_ascii_text(s: Seq<char>) -> bool {
    forall|i: int| 0 <= i < s.len() ==> (#[trigger] s[i]) as u32 <= 0x7f
}

/// An ASCII character in upper case.
pub open spec fn ascii_upper(c: char) -> char {
    if 'a' <= c && c <= 'z' {
        (c as u32 - 32) as char
    } else {
        c
    }
}

/// An ASCII character in lower case.
pub open spec fn ascii_lower(c: char) -> char {
    if 'A' <= c && c <= 'Z' {
        (c as u32 + 32) as char
    } else {
        c
    }
}

/// The text that `str::to_uppercase` makes of a text.
pub uninterp spec fn uppercase(s: Seq<char>) -> Seq<char>;

/// A text in upper case.
pub open spec fn in_upper_case(s: Seq<char>) -> Seq<char> {
    if is_ascii_text(s) {
        s.map_values(|c: char| ascii_upper(c))
    } else {
        uppercase(s)
    }
}

/// Calls `str::to_uppercase`. Its result depends on the text alone. Of ASCII text, the letters `a`
/// to `z` become `A` to `Z` and the other characters stay.
#[verifier::external_body]
pub(crate) fn to_upper(s: &str) -> (r: String)
    ensures
        r@ == uppercase(s@),
        is_ascii_text(s@) ==> r@ == s@.map_values(|c: char| ascii_upper(c)),
{
    s.to_uppercase()
}

/// The text that `str::to_lowercase` makes of a text.
pub uninterp spec fn lowercase(s: Seq<char>) -> Seq<char>;

/// A text in lower case.
pub open spec fn in_lower_case(s: Seq<char>) -> Seq<char> {
    if is_ascii_text(s) {
        s.map_values(|c: char| ascii_lower(c))
    } else {
        lowercase(s)
    }
}

/// Calls `str::to_lowercase`. Its result depends on the text alone. Of ASCII text, the letters `A`
/// to `Z` become `a` to `z` and the other characters stay.
#[verifier::external_body]
pub(crate) fn to_lower(s: &str) -> (r: String)
    ensures
        r@ == lowercase(s@),
        is_ascii_text(s@) ==> r@ == s@.map_values(|c: char| ascii_lower(c)),
{
    s.to_lowercase()
}

/// A truth value that is written out says yes or no in lower case as it did.
pub proof fn lemma_bool_is_lower_case(b: bool)
    ensures
        in_lower_case(bool_chars(b)) == bool_chars(b),
{
    reveal_strlit("true");
    reveal_strlit("false");
    assert(is_ascii_text(bool_chars(b)));
    assert(in_lower_case(bool_chars(b)) =~= bool_chars(b));
}

/// Joining undoes splitting: no piece holds the separator, the pieces joined by it are the text, and
/// a text without it is one piece.
pub proof fn law_joining_undoes_splitting(s: Seq<char>, sep: char)
    ensures
        joined(split_pieces(s, sep), seq![sep]) == s,
        split_pieces(s, sep).len() >= 1,
        forall|i: int|
            0 <= i < split_pieces(s, sep).len() ==> !(#[trigger] split_pieces(s, sep)[i]).contains(
                sep,
            ),
        !s.contains(sep) ==> split_pieces(s, sep) == seq![s],
{
    lemma_split_nonempty(s, sep);
    lemma_split_joins_back(s, sep);
    if !s.contains(sep) {
        lemma_split_without_separator(s, sep);
    }
}

proof fn lemma_split_without_separator(s: Seq<char>, sep: char)
    requires
        !s.contains(sep),
    ensures
        split_pieces(s, sep) == seq![s],
    decreases s.len(),
{
    if s.len() > 0 {
        let init = s.drop_last();
        assert(s.last() != sep) by {
            assert(s[s.len() - 1] == s.last());
        }
        assert(!init.contains(sep)) by {
            if init.contains(sep) {
                let k = choose|k: int| 0 <= k < init.len() && init[k] == sep;
                assert(s[k] == sep);
            }
        }
        lemma_split_without_separator(init, sep);
        let before = split_pieces(init, sep);
        assert(before == seq![init]);
        assert(before.last() == init);
        assert(init.push(s.last()) =~= s);
        assert(before.drop_last() =~= Seq::<Seq<char>>::empty());
        assert(split_pieces(s, sep) =~= seq![s]);
    } else {
        assert(s =~= Seq::<char>::empty());
        assert(split_pieces(s, sep) =~= seq![s]);
    }
}

/// A text that is put together of two with a separator between them splits there: into the pieces of
/// the first and then those of the second.
pub proof fn law_texts_split_at_the_separator(a: Seq<char>, sep: char, b: Seq<char>)
    ensures
        split_pieces(a + seq![sep] + b, sep) == split_pieces(a, sep) + split_pieces(b, sep),
    decreases b.len(),
{
    let s = a + seq![sep] + b;
    lemma_split_nonempty(b, sep);
    if b.len() == 0 {
        assert(s.drop_last() =~= a);
        assert(s.last() == sep);
        assert(split_pieces(s, sep) =~= split_pieces(a, sep) + split_pieces(b, sep));
    } else {
        law_texts_split_at_the_separator(a, sep, b.drop_last());
        assert(s.drop_last() =~= a + seq![sep] + b.drop_last());
        assert(s.last() == b.last());
        lemma_split_nonempty(b.drop_last(), sep);
        let before = split_pieces(b.drop_last(), sep);
        let whole = split_pieces(a, sep) + before;
        assert(whole.last() == before.last());
        assert(whole.drop_last() =~= split_pieces(a, sep) + before.drop_last());
        assert(split_pieces(s, sep) =~= split_pieces(a, sep) + split_pieces(b, sep));
    }
}

/// A list joins as its parts do, with the separator between neighbours and nowhere else.
pub proof fn law_lists_join_part_by_part(a: Seq<Seq<char>>, b: Seq<Seq<char>>, sep: Seq<char>)
    ensures
        a.len() == 0 ==> joined(a, sep) == Seq::<char>::empty(),
        a.len() == 1 ==> joined(a, sep) == a[0],
        a.len() == 2 ==> joined(a, sep) == a[0] + sep + a[1],
        a.len() > 0 && b.len() > 0 ==> joined(a + b, sep) == joined(a, sep) + sep + joined(b, sep),
    decreases b.len(),
{
    if a.len() == 2 {
        assert(a.drop_last().len() == 1);
        assert(joined(a.drop_last(), sep) == a[0]);
    }
    if a.len() > 0 && b.len() > 0 {
        let all = a + b;
        assert(all.last() == b.last());
        if b.len() == 1 {
            assert(all.drop_last() =~= a);
        } else {
            law_lists_join_part_by_part(a, b.drop_last(), sep);
            assert(all.drop_last() =~= a + b.drop_last());
            assert(joined(all, sep) =~= joined(a, sep) + sep + joined(b, sep));
        }
    }
}

/// The contents of a list are those of its texts, in order.
pub proof fn law_contents_keep_their_order(parts: Seq<String>, i: int)
    ensures
        texts(parts).len() == parts.len(),
        0 <= i < parts.len() ==> texts(parts)[i] == parts[i]@,
{
}

/// The decimal form of a number consists of digits that write it, without a leading zero.
pub proof fn law_decimals_write_their_number(n: nat)
    ensures
        decimal(n).len() > 0,
        all_digits(decimal(n)),
        digits_number(decimal(n)) == n,
        n > 0 ==> decimal(n)[0] != '0',
        n < 10 ==> decimal(n).len() == 1,
        n >= 10 ==> decimal(n).len() == decimal(n / 10).len() + 1,
    decreases n,
{
    lemma_decimal_digits(n);
    if n >= 10 {
        law_decimals_write_their_number(n / 10);
        assert(decimal(n)[0] == decimal(n / 10)[0]);
    }
}

proof fn lemma_scanned_digits(s: Seq<char>, negative: bool)
    requires
        all_digits(s),
    ensures
        !negative && digits_number(s) <= i64::MAX ==> scanned(s, negative) == Ok::<
            int,
            IntegerFault,
        >(digits_number(s) as int),
        negative && digits_number(s) <= -(i64::MIN as int) ==> scanned(s, negative) == Ok::<
            int,
            IntegerFault,
        >(-digits_number(s)),
        !negative && digits_number(s) > i64::MAX ==> scanned(s, negative) == Err::<
            int,
            IntegerFault,
        >(IntegerFault::TooLarge),
        negative && digits_number(s) > -(i64::MIN as int) ==> scanned(s, negative) == Err::<
            int,
            IntegerFault,
        >(IntegerFault::TooSmall),
    decreases s.len(),
{
    if s.len() > 0 {
        let init = s.drop_last();
        assert(all_digits(init)) by {
            assert forall|i: int| 0 <= i < init.len() implies is_digit(#[trigger] init[i]) by {
                assert(is_digit(s[i]));
            }
        }
        lemma_scanned_digits(init, negative);
        assert(is_digit(s[s.len() - 1]));
    }
}

proof fn lemma_scanned_ok(s: Seq<char>, negative: bool)
    ensures
        scanned(s, negative) matches Ok(v) ==> all_digits(s) && i64::MIN <= v <= i64::MAX,
    decreases s.len(),
{
    if s.len() > 0 {
        let init = s.drop_last();
        lemma_scanned_ok(init, negative);
        if scanned(s, negative) is Ok {
            assert forall|i: int| 0 <= i < s.len() implies is_digit(#[trigger] s[i]) by {
                if i < init.len() {
                    assert(is_digit(init[i]));
                }
            }
        }
    }
}

/// Digits, with a sign or without, read as the number that they write, as far as it fits. What does
/// not fit is told to be too large or too small, and what has anything but digits behind its sign
/// does not read at all.
pub proof fn law_integers_read_as_written(s: Seq<char>)
    ensures
        s.len() == 0 ==> parsed_i64(s) == Err::<int, IntegerFault>(IntegerFault::Empty),
        s.len() > 0 && all_digits(s) && digits_number(s) <= i64::MAX ==> parsed_i64(s) == Ok::<
            int,
            IntegerFault,
        >(digits_number(s) as int),
        s.len() > 0 && all_digits(s) && digits_number(s) > i64::MAX ==> parsed_i64(s) == Err::<
            int,
            IntegerFault,
        >(IntegerFault::TooLarge),
        s.len() > 1 && s[0] == '+' && all_digits(s.skip(1)) ==> parsed_i64(s) == parsed_i64(s.skip(1)),
        s.len() > 1 && s[0] == '-' && all_digits(s.skip(1)) && digits_number(s.skip(1)) <= -(
        i64::MIN as int) ==> parsed_i64(s) == Ok::<int, IntegerFault>(-digits_number(s.skip(1))),
        s.len() > 1 && s[0] == '-' && all_digits(s.skip(1)) && digits_number(s.skip(1)) > -(
        i64::MIN as int) ==> parsed_i64(s) == Err::<int, IntegerFault>(IntegerFault::TooSmall),
        s.len() == 1 && (s[0] == '+' || s[0] == '-') ==> parsed_i64(s) == Err::<int, IntegerFault>(
            IntegerFault::InvalidDigit,
        ),
        parsed_i64(s) matches Ok(v) ==> i64::MIN <= v <= i64::MAX && (all_digits(s) || ((s[0] == '+'
            || s[0] == '-') && s.len() > 1 && all_digits(s.skip(1)))),
{
    if s.len() > 0 {
        lemma_scanned_ok(s, false);
        lemma_scanned_ok(s.skip(1), s[0] == '-');
        if all_digits(s) {
            assert(is_digit(s[0]));
            lemma_scanned_digits(s, false);
        }
        if s.len() > 1 && all_digits(s.skip(1)) {
            assert(is_digit(s.skip(1)[0]));
            lemma_scanned_digits(s.skip(1), s[0] == '-');
        }
    }
}

/// A number that is written out reads back as itself, with a minus before it as its negative.
pub proof fn law_integer_survives_writing(n: nat)
    requires
        n <= i64::MAX,
    ensures
        parsed_i64(decimal(n)) == Ok::<int, IntegerFault>(n as int),
        parsed_i64(seq!['-'] + decimal(n)) == Ok::<int, IntegerFault>(-(n as int)),
        parsed_i64(seq!['+'] + decimal(n)) == Ok::<int, IntegerFault>(n as int),
{
    lemma_decimal_digits(n);
    law_integers_read_as_written(decimal(n));
    let minus = seq!['-'] + decimal(n);
    let plus = seq!['+'] + decimal(n);
    assert(minus.skip(1) =~= decimal(n));
    assert(plus.skip(1) =~= decimal(n));
    law_integers_read_as_written(minus);
    law_integers_read_as_written(plus);
}

/// Digits that write a number of 32 bits read as that number, with a plus before them or without;
/// nothing else reads.
pub proof fn law_only_digits_read_as_numbers(s: Seq<char>)
    ensures
        s.len() > 0 && all_digits(s) && digits_number(s) <= u32::MAX ==> parsed_u32(s) == Some(
            digits_number(s) as u32,
        ),
        s.len() > 0 && all_digits(s) ==> parsed_u32(seq!['+'] + s) == parsed_u32(s),
        parsed_u32(s) is Some ==> s.len() > 0 && (all_digits(s) || (s[0] == '+' && s.len() > 1
            && all_digits(s.skip(1)))),
        s.len() > 0 && all_digits(s) && digits_number(s) > u32::MAX ==> parsed_u32(s) is None,
{
    let plus = seq!['+'] + s;
    assert(plus.skip(1) =~= s);
    if s.len() > 0 && all_digits(s) {
        assert(is_digit(s[0]));
    }
}

/// A decimal digit has its own value, and digits write numbers place by place.
pub proof fn law_digits_count_place_by_place(s: Seq<char>, c: char, d: nat)
    ensures
        is_digit(c) <==> c == '0' || c == '1' || c == '2' || c == '3' || c == '4' || c == '5' || c
            == '6' || c == '7' || c == '8' || c == '9',
        digit_value('0') == 0 && digit_value('1') == 1 && digit_value('9') == 9,
        d < 10 ==> is_digit(digit_char(d)) && digit_value(digit_char(d)) == d,
        is_digit(c) ==> digits_number(s.push(c)) == digits_number(s) * 10 + digit_value(c),
{
    assert(s.push(c).drop_last() =~= s);
}

proof fn lemma_trimmed_start(s: Seq<char>)
    ensures
        ({
            let kept = trimmed_start(s);
            &&& kept.len() <= s.len()
            &&& kept.len() > 0 ==> !is_white(kept[0])
            &&& kept == s.skip(s.len() - kept.len())
            &&& forall|i: int| 0 <= i < s.len() - kept.len() ==> is_white(#[trigger] s[i])
        }),
    decreases s.len(),
{
    if s.len() > 0 && is_white(s[0]) {
        let rest = s.skip(1);
        lemma_trimmed_start(rest);
        let kept = trimmed_start(rest);
        assert(s.skip(s.len() - kept.len()) =~= rest.skip(rest.len() - kept.len()));
        assert forall|i: int| 0 <= i < s.len() - kept.len() implies is_white(#[trigger] s[i]) by {
            if i > 0 {
                assert(is_white(rest[i - 1]));
            }
        }
    } else {
        assert(s.skip(0) =~= s);
    }
}

proof fn lemma_trimmed_end(s: Seq<char>)
    ensures
        ({
            let kept = trimmed_end(s);
            &&& kept.len() <= s.len()
            &&& kept.len() > 0 ==> !is_white(kept.last())
            &&& kept == s.take(kept.len() as int)
            &&& forall|i: int| kept.len() <= i < s.len() ==> is_white(#[trigger] s[i])
        }),
    decreases s.len(),
{
    if s.len() > 0 && is_white(s.last()) {
        let init = s.drop_last();
        lemma_trimmed_end(init);
        let kept = trimmed_end(init);
        assert(s.take(kept.len() as int) =~= init.take(kept.len() as int));
        assert forall|i: int| kept.len() <= i < s.len() implies is_white(#[trigger] s[i]) by {
            if i < init.len() {
                assert(is_white(init[i]));
            }
        }
    } else {
        assert(s.take(s.len() as int) =~= s);
    }
}

/// Trimming drops white space at the two ends and nothing else: what is left starts and ends with
/// other characters, and what stood before and behind it is white.
pub proof fn law_only_white_space_is_trimmed(s: Seq<char>)
    ensures
        ({
            let kept = trimmed(s);
            let from = s.len() - trimmed_start(s).len();
            &&& kept.len() > 0 ==> !is_white(kept[0]) && !is_white(kept.last())
            &&& 0 <= from && from + kept.len() <= s.len()
            &&& kept == s.subrange(from, from + kept.len())
            &&& forall|i: int|
                0 <= i < s.len() && (i < from || i >= from + kept.len()) ==> is_white(#[trigger] s[i])
        }),
{
    let front = trimmed_start(s);
    let kept = trimmed(s);
    let from = s.len() - front.len();
    lemma_trimmed_start(s);
    lemma_trimmed_end(front);
    assert(kept =~= s.subrange(from, from + kept.len()));
    if kept.len() > 0 {
        assert(kept[0] == front[0]);
    }
    assert forall|i: int|
        0 <= i < s.len() && (i < from || i >= from + kept.len()) implies is_white(#[trigger] s[i]) by {
        if i >= from + kept.len() {
            assert(s[i] == front[i - from]);
        }
    }
}

/// Spaces, tabs and line ends are white; letters, digits and signs are not.
pub proof fn law_letters_are_not_white(c: char)
    ensures
        is_white(' ') && is_white('\t') && is_white('\n') && is_white('\r'),
        0x21 <= c as u32 <= 0x7e ==> !is_white(c),
        is_white(c) ==> c as u32 == 0x20 || 9 <= c as u32 <= 13 || c as u32 >= 0x85,
{
}

/// What truth values and faults are called.
pub proof fn law_words_for_truth_and_faults()
    ensures
        bool_chars(true) == "true"@,
        bool_chars(false) == "false"@,
        IntegerFault::Empty.spec_message() == "cannot parse integer from empty string"@,
        IntegerFault::InvalidDigit.spec_message() == "invalid digit found in string"@,
        IntegerFault::TooLarge.spec_message() == "number too large to fit in target type"@,
        IntegerFault::TooSmall.spec_message() == "number too small to fit in target type"@,
{
}

} // verus!
