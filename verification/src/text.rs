//! Text helpers over `Seq<char>` models: decimal numbers, padding,
//! clipping, trimming, number parsing and line splitting.

use vstd::prelude::*;

verus! {

/// `String::push` of the standard library appends one character to the end
/// of the string and changes nothing else.
pub assume_specification[ String::push ](s: &mut String, c: char)
    ensures
        final(s)@ == old(s)@.push(c),
;

/// The character that writes the decimal digit `d`.
pub open spec fn digit_char(d: nat) -> char
    recommends
        d < 10,
{
    (48 + d) as u8 as char
}

/// The decimal notation of `n`, without sign or leading zeros.
pub open spec fn decimal_text(n: nat) -> Seq<char>
    decreases n,
{
    if n < 10 {
        seq![digit_char(n)]
    } else {
        decimal_text(n / 10).push(digit_char(n % 10))
    }
}

/// `n` blanks.
pub open spec fn spaces(n: nat) -> Seq<char> {
    Seq::new(n, |i: int| ' ')
}

/// The first `max` characters of `s`, or all of `s` when it is shorter.
pub open spec fn clipped(s: Seq<char>, max: nat) -> Seq<char> {
    if s.len() <= max {
        s
    } else {
        s.take(max as int)
    }
}

/// How many blanks bring a text of `len` characters to `width`.
pub open spec fn fill_len(len: nat, width: nat) -> nat {
    if len < width {
        (width - len) as nat
    } else {
        0
    }
}

/// `s` followed by the blanks that bring it to `width` characters.
pub open spec fn left_aligned(s: Seq<char>, width: nat) -> Seq<char> {
    s + spaces(fill_len(s.len(), width))
}

/// `s` preceded by the blanks that bring it to `width` characters.
pub open spec fn right_aligned(s: Seq<char>, width: nat) -> Seq<char> {
    spaces(fill_len(s.len(), width)) + s
}

/// The characters of `s`, one element each.
pub(crate) fn chars_of(s: &str) -> (v: Vec<char>)
    ensures
        v@ == s@,
{
    let mut v: Vec<char> = Vec::new();
    for c in it: s.chars()
        invariant
            it.seq() == s@,
            v@ == s@.take(it.index() as int),
    {
        v.push(c);
        assert(v@ =~= s@.take(it.index() + 1));
    }
    assert(v@ =~= s@);
    v
}

/// Appends `chars[from..to]` to `out`.
pub(crate) fn push_range(out: &mut String, chars: &Vec<char>, from: usize, to: usize)
    requires
        from <= to <= chars.len(),
    ensures
        final(out)@ == old(out)@ + chars@.subrange(from as int, to as int),
{
    let mut i: usize = from;
    while i < to
        invariant
            from <= i <= to <= chars.len(),
            out@ == old(out)@ + chars@.subrange(from as int, i as int),
        decreases to - i,
    {
        out.push(chars[i]);
        i += 1;
        assert(out@ =~= old(out)@ + chars@.subrange(from as int, i as int));
    }
}

/// Appends `n` blanks to `out`.
pub(crate) fn push_spaces(out: &mut String, n: usize)
    ensures
        final(out)@ == old(out)@ + spaces(n as nat),
{
    let mut i: usize = 0;
    while i < n
        invariant
            i <= n,
            out@ == old(out)@ + spaces(i as nat),
        decreases n - i,
    {
        out.push(' ');
        i += 1;
        assert(out@ =~= old(out)@ + spaces(i as nat));
    }
}

/// Appends the decimal notation of `n` to `out`.
pub(crate) fn push_decimal(out: &mut String, n: u64)
    ensures
        final(out)@ == old(out)@ + decimal_text(n as nat),
    decreases n,
{
    if n >= 10 {
        push_decimal(out, n / 10);
    }
    let d: u8 = (n % 10) as u8;
    out.push((48u8 + d) as char);
    assert(final(out)@ =~= old(out)@ + decimal_text(n as nat));
}

/// The decimal notation of `n` as a string.
pub fn decimal(n: u64) -> (s: String)
    ensures
        s@ == decimal_text(n as nat),
{
    let mut s = String::new();
    push_decimal(&mut s, n);
    assert(s@ =~= decimal_text(n as nat));
    s
}

/// Appends `text`, cut to `width` characters and filled to `width` with
/// blanks after it: a left-aligned table cell.
pub(crate) fn push_left_cell(out: &mut String, text: &str, width: usize)
    ensures
        final(out)@ == old(out)@ + left_aligned(clipped(text@, width as nat), width as nat),
{
    let chars = chars_of(text);
    let shown: usize = if chars.len() <= width {
        chars.len()
    } else {
        width
    };
    push_range(out, &chars, 0, shown);
    push_spaces(out, width - shown);
    assert(chars@.subrange(0, shown as int) =~= clipped(text@, width as nat));
    assert(final(out)@ =~= old(out)@ + left_aligned(clipped(text@, width as nat), width as nat));
}

/// Appends `text`, never cut, and filled to `width` with blanks after it.
pub(crate) fn push_left_padded(out: &mut String, text: &str, width: usize)
    ensures
        final(out)@ == old(out)@ + left_aligned(text@, width as nat),
{
    let chars = chars_of(text);
    let fill: usize = if chars.len() < width {
        width - chars.len()
    } else {
        0
    };
    push_range(out, &chars, 0, chars.len());
    push_spaces(out, fill);
    assert(chars@.subrange(0, chars.len() as int) =~= text@);
    assert(final(out)@ =~= old(out)@ + left_aligned(text@, width as nat));
}

/// Appends `text`, cut to `width` characters and filled to `width` with
/// blanks before it: a right-aligned table cell.
pub(crate) fn push_right_cell(out: &mut String, text: &str, width: usize)
    ensures
        final(out)@ == old(out)@ + right_aligned(clipped(text@, width as nat), width as nat),
{
    let chars = chars_of(text);
    let shown: usize = if chars.len() <= width {
        chars.len()
    } else {
        width
    };
    push_spaces(out, width - shown);
    push_range(out, &chars, 0, shown);
    assert(chars@.subrange(0, shown as int) =~= clipped(text@, width as nat));
    assert(final(out)@ =~= old(out)@ + right_aligned(clipped(text@, width as nat), width as nat));
}

/// Appends the decimal notation of `n`, filled to `width` with blanks
/// before it and never cut: a right-aligned number cell.
pub(crate) fn push_number_cell(out: &mut String, n: u64, width: usize)
    ensures
        final(out)@ == old(out)@ + right_aligned(decimal_text(n as nat), width as nat),
{
    let digits = decimal(n);
    let chars = chars_of(digits.as_str());
    let fill: usize = if chars.len() < width {
        width - chars.len()
    } else {
        0
    };
    push_spaces(out, fill);
    push_range(out, &chars, 0, chars.len());
    assert(chars@.subrange(0, chars.len() as int) =~= decimal_text(n as nat));
    assert(final(out)@ =~= old(out)@ + right_aligned(decimal_text(n as nat), width as nat));
}

/// The number of characters before the first line feed of `s`; the
/// length of `s` when it holds none.
pub open spec fn line_len(s: Seq<char>) -> nat
    decreases s.len(),
{
    if s.len() == 0 || s[0] == '\n' {
        0
    } else {
        1 + line_len(s.drop_first())
    }
}

/// The first line of `s`: everything before its first line feed.
pub open spec fn head_line(s: Seq<char>) -> Seq<char> {
    s.take(line_len(s) as int)
}

/// The first line holds no line feed, and it ends where the text ends or
/// where its first line feed stands.
pub proof fn first_line_has_no_line_feed(s: Seq<char>)
    ensures
        line_len(s) <= s.len(),
        forall|i: int| 0 <= i < line_len(s) ==> s[i] != '\n',
        line_len(s) < s.len() ==> s[line_len(s) as int] == '\n',
    decreases s.len(),
{
    if s.len() > 0 && s[0] != '\n' {
        let rest = s.drop_first();
        first_line_has_no_line_feed(rest);
        assert forall|i: int| 0 <= i < line_len(s) implies s[i] != '\n' by {
            if i > 0 {
                assert(s[i] == rest[i - 1]);
            }
        }
        if line_len(s) < s.len() {
            assert(s[line_len(s) as int] == rest[line_len(rest) as int]);
        }
    }
}

/// A position `n` that is reached without meeting a line feed and stands at
/// a line feed or at the end is the length of the first line.
proof fn line_len_is(s: Seq<char>, n: int)
    requires
        0 <= n <= s.len(),
        forall|i: int| 0 <= i < n ==> s[i] != '\n',
        n < s.len() ==> s[n] == '\n',
    ensures
        line_len(s) == n,
    decreases s.len(),
{
    if n > 0 {
        let rest = s.drop_first();
        assert(s[0] != '\n');
        assert forall|i: int| 0 <= i < n - 1 implies rest[i] != '\n' by {
            assert(rest[i] == s[i + 1]);
        }
        line_len_is(rest, n - 1);
    }
}

/// The first line of `s`.
pub fn first_line_of(s: &str) -> (line: String)
    ensures
        line@ == head_line(s@),
{
    let chars = chars_of(s);
    let mut n: usize = 0;
    while n < chars.len() && chars[n] != '\n'
        invariant
            n <= chars.len(),
            forall|i: int| 0 <= i < n ==> chars@[i] != '\n',
        decreases chars.len() - n,
    {
        n += 1;
    }
    proof {
        line_len_is(chars@, n as int);
    }
    let mut line = String::new();
    push_range(&mut line, &chars, 0, n);
    assert(line@ =~= head_line(s@));
    line
}

/// Whether `c` is white space: a character with the Unicode property
/// `White_Space`.
pub open spec fn is_space(c: char) -> bool {
    let n = c as u32;
    ||| 0x09 <= n <= 0x0d
    ||| n == 0x20
    ||| n == 0x85
    ||| n == 0xa0
    ||| n == 0x1680
    ||| 0x2000 <= n <= 0x200a
    ||| n == 0x2028
    ||| n == 0x2029
    ||| n == 0x202f
    ||| n == 0x205f
    ||| n == 0x3000
}

/// Tells whether `c` is white space.
fn space(c: char) -> (b: bool)
    ensures
        b == is_space(c),
{
    let n: u32 = c as u32;
    (0x09 <= n && n <= 0x0d) || n == 0x20 || n == 0x85 || n == 0xa0 || n == 0x1680 || (0x2000 <= n
        && n <= 0x200a) || n == 0x2028 || n == 0x2029 || n == 0x202f || n == 0x205f || n == 0x3000
}

/// `s` without the white space at its start.
pub open spec fn trim_front(s: Seq<char>) -> Seq<char>
    decreases s.len(),
{
    if s.len() > 0 && is_space(s.first()) {
        trim_front(s.drop_first())
    } else {
        s
    }
}

/// `s` without the white space at its end.
pub open spec fn trim_back(s: Seq<char>) -> Seq<char>
    decreases s.len(),
{
    if s.len() > 0 && is_space(s.last()) {
        trim_back(s.drop_last())
    } else {
        s
    }
}

/// `s` without the white space at either end.
pub open spec fn trimmed(s: Seq<char>) -> Seq<char> {
    trim_back(trim_front(s))
}

/// `s` without the white space at either end.
pub fn trim(s: &str) -> (t: String)
    ensures
        t@ == trimmed(s@),
{
    let chars = chars_of(s);
    let mut start: usize = 0;
    assert(chars@.skip(0) =~= chars@);
    while start < chars.len() && space(chars[start])
        invariant
            start <= chars.len(),
            trim_front(chars@) == trim_front(chars@.skip(start as int)),
        decreases chars.len() - start,
    {
        assert(chars@.skip(start as int).drop_first() =~= chars@.skip(start + 1));
        start += 1;
    }
    assert(trim_front(chars@) == chars@.skip(start as int));
    let mut end: usize = chars.len();
    assert(chars@.skip(start as int) =~= chars@.subrange(start as int, end as int));
    while end > start && space(chars[end - 1])
        invariant
            start <= end <= chars.len(),
            trim_back(chars@.skip(start as int)) == trim_back(
                chars@.subrange(start as int, end as int),
            ),
        decreases end - start,
    {
        assert(chars@.subrange(start as int, end as int).drop_last() =~= chars@.subrange(
            start as int,
            end - 1,
        ));
        end -= 1;
    }
    assert(trim_back(chars@.skip(start as int)) == chars@.subrange(start as int, end as int));
    let mut t = String::new();
    push_range(&mut t, &chars, start, end);
    assert(t@ =~= trimmed(s@));
    t
}

/// Whether `c` occurs in `s`.
pub fn contains_char(s: &str, c: char) -> (b: bool)
    ensures
        b == s@.contains(c),
{
    let chars = chars_of(s);
    let mut i: usize = 0;
    while i < chars.len()
        invariant
            i <= chars.len(),
            chars@ == s@,
            forall|j: int| 0 <= j < i ==> chars@[j] != c,
        decreases chars.len() - i,
    {
        if chars[i] == c {
            return true;
        }
        i += 1;
    }
    false
}

/// The texts of `words`, each after the first preceded by one blank.
pub open spec fn joined(words: Seq<Seq<char>>) -> Seq<char>
    decreases words.len(),
{
    if words.len() == 0 {
        Seq::empty()
    } else if words.len() == 1 {
        words[0]
    } else {
        joined(words.drop_last()) + seq![' '] + words.last()
    }
}

/// The view of each string of `words`.
pub open spec fn views(words: Seq<String>) -> Seq<Seq<char>> {
    Seq::new(words.len(), |i: int| words[i]@)
}

/// Joins `words` with single blanks.
pub fn join(words: &Vec<String>) -> (line: String)
    ensures
        line@ == joined(views(words@)),
{
    let mut line = String::new();
    let mut i: usize = 0;
    while i < words.len()
        invariant
            i <= words.len(),
            line@ == joined(views(words@).take(i as int)),
        decreases words.len() - i,
    {
        if i > 0 {
            line.push(' ');
        }
        line.append(words[i].as_str());
        proof {
            let all = views(words@);
            assert(all.take(i + 1).drop_last() =~= all.take(i as int));
            assert(all.take(i + 1).last() == words@[i as int]@);
            assert(line@ =~= joined(all.take(i + 1)));
        }
        i += 1;
    }
    assert(views(words@).take(words.len() as int) =~= views(words@));
    line
}

/// Why a text is not the decimal notation of a number that fits the
/// machine word.
#[derive(Debug, Clone, Copy, PartialEq, Eq, Structural)]
pub enum NumberError {
    /// The text is empty.
    Empty,
    /// A character is no decimal digit, or digits are missing after the sign.
    InvalidDigit,
    /// The number is larger than the machine word holds.
    TooLarge,
}

impl NumberError {
    /// What is said of the error.
    pub open spec fn message_text(self) -> Seq<char> {
        match self {
            NumberError::Empty => "cannot parse integer from empty string"@,
            NumberError::InvalidDigit => "invalid digit found in string"@,
            NumberError::TooLarge => "number too large to fit in target type"@,
        }
    }

    /// What is said of the error.
    pub fn message(&self) -> (text: &'static str)
        ensures
            text@ == self.message_text(),
    {
        match self {
            NumberError::Empty => "cannot parse integer from empty string",
            NumberError::InvalidDigit => "invalid digit found in string",
            NumberError::TooLarge => "number too large to fit in target type",
        }
    }
}

/// Whether `c` is one of the ten decimal digits.
pub open spec fn is_digit(c: char) -> bool {
    48 <= c as u32 <= 57
}

/// The value of the decimal digit `c`.
pub open spec fn digit_value(c: char) -> nat
    recommends
        is_digit(c),
{
    (c as u32 - 48) as nat
}

/// Reads the digits of `s` from left to right onto `acc`. The first
/// character that is no digit, or the first digit that takes the number
/// over `max`, ends the reading with its error.
pub open spec fn number_from(s: Seq<char>, acc: nat, max: nat) -> Result<nat, NumberError>
    decreases s.len(),
{
    if s.len() == 0 {
        Ok(acc)
    } else if !is_digit(s[0]) {
        Err(NumberError::InvalidDigit)
    } else if acc * 10 + digit_value(s[0]) > max {
        Err(NumberError::TooLarge)
    } else {
        number_from(s.drop_first(), acc * 10 + digit_value(s[0]), max)
    }
}

/// The number that `s` writes: decimal digits, after an optional `+`.
pub open spec fn parsed_number(s: Seq<char>) -> Result<nat, NumberError> {
    if s.len() == 0 {
        Err(NumberError::Empty)
    } else {
        let digits = if s[0] == '+' {
            s.drop_first()
        } else {
            s
        };
        if digits.len() == 0 {
            Err(NumberError::InvalidDigit)
        } else {
            number_from(digits, 0, usize::MAX as nat)
        }
    }
}

/// Reading one more character after `s` goes on from what `s` gave.
proof fn number_from_push(s: Seq<char>, c: char, acc: nat, max: nat)
    ensures
        number_from(s.push(c), acc, max) == match number_from(s, acc, max) {
            Ok(value) => if !is_digit(c) {
                Err(NumberError::InvalidDigit)
            } else if value * 10 + digit_value(c) > max {
                Err(NumberError::TooLarge)
            } else {
                Ok(value * 10 + digit_value(c))
            },
            Err(error) => Err(error),
        },
    decreases s.len(),
{
    let longer = s.push(c);
    if s.len() == 0 {
        assert(longer[0] == c);
        assert(longer.drop_first() =~= Seq::<char>::empty());
        assert(number_from(s, acc, max) == Ok::<nat, NumberError>(acc));
        if is_digit(c) && acc * 10 + digit_value(c) <= max {
            assert(number_from(longer.drop_first(), acc * 10 + digit_value(c), max) == Ok::<
                nat,
                NumberError,
            >(acc * 10 + digit_value(c)));
        }
    } else {
        assert(longer[0] == s[0]);
        assert(longer.drop_first() =~= s.drop_first().push(c));
        if is_digit(s[0]) && acc * 10 + digit_value(s[0]) <= max {
            number_from_push(s.drop_first(), c, acc * 10 + digit_value(s[0]), max);
        }
    }
}

/// The decimal notation of a number is made of digits, the first of which
/// is no sign and the last of which is no white space.
proof fn decimal_text_is_digits(n: nat)
    ensures
        decimal_text(n).len() > 0,
        forall|i: int| 0 <= i < decimal_text(n).len() ==> is_digit(#[trigger] decimal_text(n)[i]),
    decreases n,
{
    if n >= 10 {
        decimal_text_is_digits(n / 10);
    }
}

/// What `decimal` writes, `parse_number` reads: the decimal notation of a
/// number that fits the machine word is read as that number, with or
/// without white space around it.
pub proof fn decimal_text_is_read_back(n: nat)
    requires
        n <= usize::MAX,
    ensures
        parsed_number(decimal_text(n)) == Ok::<nat, NumberError>(n),
        trimmed(decimal_text(n)) == decimal_text(n),
    decreases n,
{
    let text = decimal_text(n);
    decimal_text_is_digits(n);
    assert(is_digit(text[0]));
    assert(is_digit(text[text.len() - 1]));
    assert(text[0] != '+');
    assert(!is_space(text.first()));
    assert(!is_space(text.last()));
    if n < 10 {
        assert(text =~= Seq::<char>::empty().push(digit_char(n)));
        number_from_push(Seq::<char>::empty(), digit_char(n), 0, usize::MAX as nat);
    } else {
        decimal_text_is_read_back(n / 10);
        decimal_text_is_digits(n / 10);
        assert(decimal_text(n / 10)[0] != '+');
        number_from_push(decimal_text(n / 10), digit_char(n % 10), 0, usize::MAX as nat);
    }
}

/// Reads `s` as a decimal number.
pub fn parse_number(s: &str) -> (r: Result<usize, NumberError>)
    ensures
        match r {
            Ok(n) => parsed_number(s@) == Ok::<nat, NumberError>(n as nat),
            Err(e) => parsed_number(s@) == Err::<nat, NumberError>(e),
        },
{
    let chars = chars_of(s);
    if chars.len() == 0 {
        return Err(NumberError::Empty);
    }
    let first: usize = if chars[0] == '+' {
        1
    } else {
        0
    };
    if first == chars.len() {
        return Err(NumberError::InvalidDigit);
    }
    let ghost digits = chars@.skip(first as int);
    assert(digits =~= if chars@[0] == '+' {
        chars@.drop_first()
    } else {
        chars@
    });
    assert(parsed_number(s@) == number_from(digits, 0, usize::MAX as nat));
    let mut acc: usize = 0;
    let mut i: usize = first;
    while i < chars.len()
        invariant
            first <= i <= chars.len(),
            parsed_number(s@) == number_from(
                chars@.skip(i as int),
                acc as nat,
                usize::MAX as nat,
            ),
        decreases chars.len() - i,
    {
        let c = chars[i];
        let n: u32 = c as u32;
        assert(chars@.skip(i as int)[0] == c);
        if n < 48 || n > 57 {
            return Err(NumberError::InvalidDigit);
        }
        let d: usize = (n - 48) as usize;
        if acc > (usize::MAX - d) / 10 {
            return Err(NumberError::TooLarge);
        }
        assert(chars@.skip(i as int).drop_first() =~= chars@.skip(i + 1));
        acc = acc * 10 + d;
        i += 1;
    }
    Ok(acc)
}

/// Whether `a` and `b` are the same text.
pub fn same(a: &str, b: &str) -> (equal: bool)
    ensures
        equal == (a@ == b@),
{
    let left = chars_of(a);
    let right = chars_of(b);
    if left.len() != right.len() {
        return false;
    }
    let mut i: usize = 0;
    while i < left.len()
        invariant
            i <= left.len(),
            left.len() == right.len(),
            left@ == a@,
            right@ == b@,
            forall|j: int| 0 <= j < i ==> left@[j] == right@[j],
        decreases left.len() - i,
    {
        if left[i] != right[i] {
            return false;
        }
        i += 1;
    }
    assert(a@ =~= b@);
    true
}

/// The view of an optional text.
pub open spec fn text_view(value: Option<&str>) -> Option<Seq<char>> {
    match value {
        Some(text) => Some(text@),
        None => None,
    }
}

/// The view of an optional string.
pub open spec fn string_view(value: Option<String>) -> Option<Seq<char>> {
    match value {
        Some(text) => Some(text@),
        None => None,
    }
}

/// The views of a list of pairs of strings.
pub open spec fn pair_views(pairs: Seq<(String, String)>) -> Seq<(Seq<char>, Seq<char>)> {
    Seq::new(pairs.len(), |i: int| (pairs[i].0@, pairs[i].1@))
}

/// Borrows the text of an optional string.
pub(crate) fn as_text(value: &Option<String>) -> (text: Option<&str>)
    ensures
        text_view(text) == string_view(*value),
{
    match value {
        Some(text) => Some(text.as_str()),
        None => None,
    }
}

} // verus!
