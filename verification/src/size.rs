//! Sizes in bytes, as texts such as `40000000` or `40MB` say them.

use vstd::arithmetic::power;
use vstd::prelude::*;
use vstd::string::*;

verus! {

/// A kind of characters that stand in a row in a size.
#[derive(Clone, Copy, Debug, PartialEq, Eq, Structural)]
pub enum CharKind {
    /// What may stand around a size: any white space.
    Space,
    /// What may stand between number and unit.
    Blank,
    /// A decimal digit.
    Digit,
}

impl CharKind {
    /// Whether the character is of this kind.
    pub open spec fn has(self, c: char) -> bool {
        match self {
            CharKind::Space => {
                ||| '\u{9}' <= c <= '\u{d}'
                ||| c == ' '
                ||| c == '\u{85}'
                ||| c == '\u{a0}'
                ||| c == '\u{1680}'
                ||| '\u{2000}' <= c <= '\u{200a}'
                ||| c == '\u{2028}'
                ||| c == '\u{2029}'
                ||| c == '\u{202f}'
                ||| c == '\u{205f}'
                ||| c == '\u{3000}'
            },
            CharKind::Blank => c == ' ',
            CharKind::Digit => is_digit(c),
        }
    }

    /// Whether the character is of this kind.
    fn matches(&self, c: char) -> (yes: bool)
        ensures
            yes == self.has(c),
    {
        match self {
            CharKind::Space => {
                ('\u{9}' <= c && c <= '\u{d}') || c == ' ' || c == '\u{85}' || c == '\u{a0}' || c
                    == '\u{1680}' || ('\u{2000}' <= c && c <= '\u{200a}') || c == '\u{2028}' || c
                    == '\u{2029}' || c == '\u{202f}' || c == '\u{205f}' || c == '\u{3000}'
            },
            CharKind::Blank => c == ' ',
            CharKind::Digit => '0' <= c && c <= '9',
        }
    }
}

pub open spec fn is_digit(c: char) -> bool {
    '0' <= c <= '9'
}

/// The number that a row of digits makes.
pub open spec fn decimal(digits: Seq<char>) -> nat
    decreases digits.len(),
{
    if digits.len() == 0 {
        0
    } else {
        decimal(digits.drop_last()) * 10 + (digits.last() as nat - '0' as nat) as nat
    }
}

/// Whether the text is a decimal number and nothing else.
pub open spec fn is_decimal(text: Seq<char>) -> bool {
    text.len() > 0 && forall|i: int| 0 <= i < text.len() ==> is_digit(#[trigger] text[i])
}

/// The number of megabytes, where the text is a decimal number of them, such as
/// `40MB`.
pub open spec fn megabytes(text: Seq<char>) -> Option<nat> {
    if text.len() > 2 && is_decimal(text.take(text.len() - 2)) && text[text.len() - 2] == 'M'
        && text[text.len() - 1] == 'B' {
        Some(decimal(text.take(text.len() - 2)))
    } else {
        None
    }
}

/// Where a row of characters of that kind ends that begins at an index.
pub open spec fn past(text: Seq<char>, kind: CharKind, from: nat) -> nat
    decreases text.len() - from,
{
    if from < text.len() && kind.has(text[from as int]) {
        past(text, kind, from + 1)
    } else {
        from
    }
}

/// The text without the white space at its end.
pub open spec fn trimmed_end(text: Seq<char>) -> Seq<char>
    decreases text.len(),
{
    if text.len() > 0 && CharKind::Space.has(text.last()) {
        trimmed_end(text.drop_last())
    } else {
        text
    }
}

/// The text without the white space around it.
pub open spec fn trimmed(text: Seq<char>) -> Seq<char> {
    trimmed_end(text.skip(past(text, CharKind::Space, 0) as int))
}

/// Where the unit of a size begins: behind the number, which may have digits
/// after a point, and the blanks that follow it. A text that does not begin with
/// a number is no size.
pub open spec fn unit_begin(size: Seq<char>) -> Option<nat> {
    let whole = past(size, CharKind::Digit, 0);
    if whole == 0 {
        None
    } else if whole < size.len() && size[whole as int] == '.' {
        let fraction = past(size, CharKind::Digit, whole + 1);
        if fraction == whole + 1 {
            None
        } else {
            Some(past(size, CharKind::Blank, fraction))
        }
    } else {
        Some(past(size, CharKind::Blank, whole))
    }
}

/// A unit: its bytes, and whether they are a power of ten other than one.
#[derive(Clone, Copy, Debug, PartialEq, Eq, Structural)]
pub struct Unit {
    pub bytes: u128,
    pub decimal: bool,
}

/// The unit that begins with this letter.
pub open spec fn unit_of_letter(letter: char, binary: bool) -> Option<Unit> {
    if letter == 'K' || letter == 'k' {
        Some(Unit { bytes: if binary { 0x400 } else { 1_000 }, decimal: !binary })
    } else if letter == 'M' || letter == 'm' {
        Some(Unit { bytes: if binary { 0x10_0000 } else { 1_000_000 }, decimal: !binary })
    } else if letter == 'G' || letter == 'g' {
        Some(Unit { bytes: if binary { 0x4000_0000 } else { 1_000_000_000 }, decimal: !binary })
    } else if letter == 'T' || letter == 't' {
        Some(Unit { bytes: if binary { 0x100_0000_0000 } else { 1_000_000_000_000 }, decimal: !binary })
    } else if letter == 'P' || letter == 'p' {
        Some(Unit { bytes: if binary { 0x4_0000_0000_0000 } else { 1_000_000_000_000_000 }, decimal: !binary })
    } else if letter == 'E' || letter == 'e' {
        Some(Unit { bytes: if binary { 0x1000_0000_0000_0000 } else { 1_000_000_000_000_000_000 }, decimal: !binary })
    } else if letter == 'Z' || letter == 'z' {
        Some(Unit { bytes: if binary { 0x40_0000_0000_0000_0000 } else { 1_000_000_000_000_000_000_000 }, decimal: !binary })
    } else {
        None
    }
}

/// The unit that stands at an index of a size: nothing or `B`; a letter, alone
/// or followed by `B`; or a letter and `i`, alone or followed by `B` and then by
/// anything.
pub open spec fn unit_at(size: Seq<char>, at: nat) -> Option<Unit> {
    let left = size.len() - at;
    if left < 1 || (left == 1 && is_b(size[at as int])) {
        Some(Unit { bytes: 1, decimal: false })
    } else if left == 1 || (left == 2 && is_b(size[at as int + 1])) {
        unit_of_letter(size[at as int], false)
    } else if is_i(size[at as int + 1]) && (left == 2 || is_b(size[at as int + 2])) {
        unit_of_letter(size[at as int], true)
    } else {
        None
    }
}

pub open spec fn is_b(c: char) -> bool {
    c == 'B' || c == 'b'
}

pub open spec fn is_i(c: char) -> bool {
    c == 'I' || c == 'i'
}

/// The unit of the size that a text is, if it is one.
pub open spec fn size_unit(text: Seq<char>) -> Option<Unit> {
    match unit_begin(trimmed(text)) {
        Some(at) => unit_at(trimmed(text), at),
        None => None,
    }
}

/// The number that a size begins with, up to a point.
pub open spec fn size_number(text: Seq<char>) -> nat {
    let size = trimmed(text);
    decimal(size.take(past(size, CharKind::Digit, 0) as int))
}

/// Whether a point follows that number.
pub open spec fn has_point(text: Seq<char>) -> bool {
    let size = trimmed(text);
    let whole = past(size, CharKind::Digit, 0) as int;
    whole < size.len() && size[whole] == '.'
}

/// Up to here a double holds every integer.
pub const EXACT_LIMIT: u64 = 0x20_0000_0000_0000;

/// A million, less the twos in it.
pub const ODD_MILLION: u64 = 15_625;

/// The bytes that a size without a point says, where doubles hold its number,
/// and its millionfold too if the unit is a decimal one.
pub open spec fn exact_size(text: Seq<char>) -> Option<nat> {
    match size_unit(text) {
        Some(unit) => {
            let number = size_number(text);
            if !has_point(text) && number <= EXACT_LIMIT && (unit.decimal ==> number * ODD_MILLION
                <= EXACT_LIMIT) {
                Some(number * unit.bytes as nat)
            } else {
                None
            }
        },
        None => None,
    }
}

/// Whether a size says at least twice as many bytes as there are numbers in a
/// `u64`.
pub open spec fn far_beyond_u64(text: Seq<char>) -> bool {
    size_unit(text) matches Some(unit) && size_number(text) * unit.bytes >= 0x2_0000_0000_0000_0000
}

/// The units from here on are the large ones.
pub const GIGABYTE: u128 = 1_000_000_000;

/// The numbers that a `u128` holds, less those that a size could reach only by
/// the rounding to doubles, which comes with each of the number's digits: one
/// part in 2^48.
pub const SIZE_LIMIT: u128 = 0xffff_ffff_ffff_0000_0000_0000_0000_0000;

/// Whether the size says fewer bytes than `SIZE_LIMIT`, digits after a point
/// aside, or has a unit below a gigabyte, or is no size at all.
pub open spec fn size_bounded(text: Seq<char>) -> bool {
    size_unit(text) matches Some(unit) ==> unit.bytes < GIGABYTE || size_number(text) * unit.bytes
        < SIZE_LIMIT
}

/// A row ends within the text, and where it began or later.
proof fn past_bounds(text: Seq<char>, kind: CharKind, from: nat)
    requires
        from <= text.len(),
    ensures
        from <= past(text, kind, from) <= text.len(),
        forall|i: int| from <= i < past(text, kind, from) ==> kind.has(#[trigger] text[i]),
    decreases text.len() - from,
{
    if from < text.len() && kind.has(text[from as int]) {
        past_bounds(text, kind, from + 1);
    }
}

/// A row of one kind ends where the first character of another kind stands.
proof fn past_ends(text: Seq<char>, kind: CharKind, from: nat, end: nat)
    requires
        from <= end <= text.len(),
        forall|i: int| from <= i < end ==> kind.has(#[trigger] text[i]),
        end == text.len() || !kind.has(text[end as int]),
    ensures
        past(text, kind, from) == end,
    decreases end - from,
{
    if from < end {
        past_ends(text, kind, from + 1, end);
    }
}

/// Where a row of characters of that kind ends.
fn find_past(text: &Vec<char>, kind: CharKind, from: usize) -> (end: usize)
    requires
        from <= text@.len(),
    ensures
        end == past(text@, kind, from as nat),
        from <= end <= text@.len(),
{
    let mut i: usize = from;
    while i < text.len() && kind.matches(text[i])
        invariant
            from <= i <= text@.len(),
            past(text@, kind, i as nat) == past(text@, kind, from as nat),
        decreases text@.len() - i,
    {
        i = i + 1;
    }
    i
}

/// The characters of a text without the white space around it.
fn trim(text: &str) -> (size: Vec<char>)
    ensures
        size@ == trimmed(text@),
{
    let length: usize = text.unicode_len();
    let mut start: usize = 0;
    while start < length && CharKind::Space.matches(text.get_char(start))
        invariant
            start <= length,
            length == text@.len(),
            past(text@, CharKind::Space, start as nat) == past(text@, CharKind::Space, 0),
        decreases length - start,
    {
        start = start + 1;
    }
    let mut size: Vec<char> = Vec::new();
    let mut i: usize = start;
    while i < length
        invariant
            start <= i <= length,
            length == text@.len(),
            size@ == text@.subrange(start as int, i as int),
        decreases length - i,
    {
        size.push(text.get_char(i));
        i = i + 1;
    }
    assert(size@ == text@.skip(start as int));
    while size.len() > 0 && CharKind::Space.matches(size[size.len() - 1])
        invariant
            trimmed_end(size@) == trimmed(text@),
        decreases size@.len(),
    {
        let ghost before = size@;
        let _ = size.pop();
        assert(size@ == before.drop_last());
    }
    size
}

/// The number that the first so many digits make, or `SIZE_LIMIT` if that is
/// less.
fn number_of(size: &Vec<char>, digits: usize) -> (number: u128)
    requires
        digits <= size@.len(),
        forall|i: int| 0 <= i < digits ==> is_digit(#[trigger] size@[i]),
    ensures
        number <= SIZE_LIMIT,
        number == SIZE_LIMIT ==> decimal(size@.take(digits as int)) >= SIZE_LIMIT,
        number < SIZE_LIMIT ==> decimal(size@.take(digits as int)) == number,
{
    let mut number: u128 = 0;
    let mut i: usize = 0;
    while i < digits
        invariant
            i <= digits <= size@.len(),
            forall|k: int| 0 <= k < digits ==> is_digit(#[trigger] size@[k]),
            number <= SIZE_LIMIT,
            number == SIZE_LIMIT ==> decimal(size@.take(i as int)) >= SIZE_LIMIT,
            number < SIZE_LIMIT ==> decimal(size@.take(i as int)) == number,
        decreases digits - i,
    {
        let c = size[i];
        assert(is_digit(size@[i as int]));
        assert(size@.take(i + 1).drop_last() == size@.take(i as int));
        let digit: u128 = c as u128 - '0' as u128;
        number = if number < SIZE_LIMIT / 10 {
            number * 10 + digit
        } else if number == SIZE_LIMIT / 10 && digit < SIZE_LIMIT % 10 {
            number * 10 + digit
        } else {
            SIZE_LIMIT
        };
        i = i + 1;
    }
    number
}

/// What `unit_of_letter` says.
fn find_letter(letter: char, binary: bool) -> (unit: Option<Unit>)
    ensures
        unit == unit_of_letter(letter, binary),
{
    if letter == 'K' || letter == 'k' {
        Some(Unit { bytes: if binary { 0x400 } else { 1_000 }, decimal: !binary })
    } else if letter == 'M' || letter == 'm' {
        Some(Unit { bytes: if binary { 0x10_0000 } else { 1_000_000 }, decimal: !binary })
    } else if letter == 'G' || letter == 'g' {
        Some(Unit { bytes: if binary { 0x4000_0000 } else { 1_000_000_000 }, decimal: !binary })
    } else if letter == 'T' || letter == 't' {
        Some(Unit { bytes: if binary { 0x100_0000_0000 } else { 1_000_000_000_000 }, decimal: !binary })
    } else if letter == 'P' || letter == 'p' {
        Some(Unit { bytes: if binary { 0x4_0000_0000_0000 } else { 1_000_000_000_000_000 }, decimal: !binary })
    } else if letter == 'E' || letter == 'e' {
        Some(Unit { bytes: if binary { 0x1000_0000_0000_0000 } else { 1_000_000_000_000_000_000 }, decimal: !binary })
    } else if letter == 'Z' || letter == 'z' {
        Some(Unit { bytes: if binary { 0x40_0000_0000_0000_0000 } else { 1_000_000_000_000_000_000_000 }, decimal: !binary })
    } else {
        None
    }
}

/// What `unit_begin` says.
fn find_unit(size: &Vec<char>) -> (at: Option<usize>)
    ensures
        match at {
            Some(index) => unit_begin(size@) == Some(index as nat) && index <= size@.len(),
            None => unit_begin(size@) is None,
        },
{
    let whole: usize = find_past(size, CharKind::Digit, 0);
    if whole == 0 {
        None
    } else if whole < size.len() && size[whole] == '.' {
        let fraction: usize = find_past(size, CharKind::Digit, whole + 1);
        if fraction == whole + 1 {
            None
        } else {
            Some(find_past(size, CharKind::Blank, fraction))
        }
    } else {
        Some(find_past(size, CharKind::Blank, whole))
    }
}

/// What `unit_at` says.
fn read_unit(size: &Vec<char>, at: usize) -> (unit: Option<Unit>)
    requires
        at <= size@.len(),
    ensures
        unit == unit_at(size@, at as nat),
{
    let left: usize = size.len() - at;
    if left < 1 || (left == 1 && (size[at] == 'B' || size[at] == 'b')) {
        Some(Unit { bytes: 1, decimal: false })
    } else if left == 1 || (left == 2 && (size[at + 1] == 'B' || size[at + 1] == 'b')) {
        find_letter(size[at], false)
    } else if (size[at + 1] == 'I' || size[at + 1] == 'i') && (left == 2 || size[at + 2] == 'B'
        || size[at + 2] == 'b') {
        find_letter(size[at], true)
    } else {
        None
    }
}

/// Whether the size says few enough bytes for `parse_bytes` to take it.
pub fn size_is_bounded(text: &str) -> (bounded: bool)
    ensures
        bounded == size_bounded(text@),
{
    let size = trim(text);
    let unit = match find_unit(&size) {
        Some(at) => read_unit(&size, at),
        None => None,
    };
    match unit {
        Some(Unit { bytes, .. }) => {
            let digits: usize = find_past(&size, CharKind::Digit, 0);
            proof {
                past_bounds(size@, CharKind::Digit, 0);
            }
            let number: u128 = number_of(&size, digits);
            let ghost said = size_number(text@);
            proof {
                assert(said >= SIZE_LIMIT && bytes > 0 ==> said * bytes >= SIZE_LIMIT)
                    by (nonlinear_arith);
                assert(number == SIZE_LIMIT && bytes > 0 ==> number * bytes >= SIZE_LIMIT)
                    by (nonlinear_arith);
                assert(number < SIZE_LIMIT ==> said * bytes == number * bytes);
            }
            bytes < GIGABYTE || match number.checked_mul(bytes) {
                Some(product) => product < SIZE_LIMIT,
                None => false,
            }
        },
        None => true,
    }
}

/// What a text says as a number of bytes, in whatever unit: the number, or the
/// words of the error.
pub uninterp spec fn size(text: Seq<char>) -> Result<u128, Seq<char>>;

/// Whether the text is a decimal number of megabytes, of no more bytes than
/// `EXACT_LIMIT`.
pub open spec fn says_megabytes(text: Seq<char>) -> bool {
    megabytes(text) matches Some(number) && number * 1_000_000 <= EXACT_LIMIT
}

/// Whether the result is the number, if there is one.
pub open spec fn is_size(result: Result<u128, String>, number: Option<nat>) -> bool {
    number matches Some(expected) ==> (result matches Ok(bytes) && bytes == expected)
}

/// Whether the result is a number that no `u64` holds.
pub open spec fn is_beyond_u64(result: Result<u128, String>) -> bool {
    result matches Ok(bytes) && bytes > u64::MAX
}

/// `byte_unit::Byte::from_str`, with the bytes as a number and the error turned
/// into its words. It succeeds just on the texts that are sizes: a number and a
/// unit, with white space around them. A whole number times its unit comes out
/// exactly as far as the doubles that are used on the way hold it; a decimal
/// unit is reached through millions. Rounding takes no size of twice what a
/// `u64` holds back into its range. What else a number with a point, or a larger
/// one, is rounded to is left to the name. From a gigabyte on, a size of more
/// bytes than a `u128` holds overflows.
#[verifier::external_body]
fn read_size(text: &str) -> (result: Result<u128, String>)
    requires
        size_bounded(text@),
    ensures
        match result {
            Ok(bytes) => size(text@) matches Ok(number) && number == bytes,
            Err(words) => size(text@) matches Err(said) && said == words@,
        },
        result is Ok <==> size_unit(text@) is Some,
        is_size(result, exact_size(text@)),
        far_beyond_u64(text@) ==> is_beyond_u64(result),
{
    match byte_unit::Byte::from_str(text) {
        Ok(byte) => Ok(byte.get_bytes()),
        Err(error) => Err(error.to_string()),
    }
}

/// Whether a result is the value, or an error in the words, that are expected.
pub open spec fn says<T>(result: Result<T, String>, expected: Result<T, Seq<char>>) -> bool {
    match expected {
        Ok(value) => result matches Ok(found) && found == value,
        Err(words) => result matches Err(found) && found@ == words,
    }
}

/// A size in bytes, refused where it is more than a `u64` holds.
pub open spec fn byte_count(size: Result<u128, Seq<char>>) -> Result<u64, Seq<char>> {
    match size {
        Ok(bytes) => if bytes <= u64::MAX {
            Ok(bytes as u64)
        } else {
            Err("value exceeds u64"@)
        },
        Err(words) => Err(words),
    }
}

/// A number of bytes, refused where it is more than a `usize` holds.
pub open spec fn chunk_size(bytes: Result<u64, Seq<char>>) -> Result<usize, Seq<char>> {
    match bytes {
        Ok(bytes) => if bytes <= usize::MAX {
            Ok(bytes as usize)
        } else {
            Err("chunk_bytes too large for usize"@)
        },
        Err(words) => Err(words),
    }
}

/// A result with the words of its error as characters.
pub open spec fn in_words<T>(result: Result<T, String>) -> Result<T, Seq<char>> {
    match result {
        Ok(value) => Ok(value),
        Err(words) => Err(words@),
    }
}

/// The size in bytes, if a `u64` holds it.
pub fn to_byte_count(size: Result<u128, String>) -> (result: Result<u64, String>)
    ensures
        says(result, byte_count(in_words(size))),
{
    match size {
        Ok(bytes) => if bytes <= u64::MAX as u128 {
            Ok(bytes as u64)
        } else {
            Err("value exceeds u64".to_owned())
        },
        Err(words) => Err(words),
    }
}

/// The number of bytes, if a `usize` holds it.
pub fn to_chunk_size(bytes: Result<u64, String>) -> (result: Result<usize, String>)
    ensures
        says(result, chunk_size(in_words(bytes))),
{
    match bytes {
        Ok(bytes) => if bytes <= usize::MAX as u64 {
            Ok(bytes as usize)
        } else {
            Err("chunk_bytes too large for usize".to_owned())
        },
        Err(words) => Err(words),
    }
}

/// The number of bytes that a text such as `40000000` or `40MB` says.
pub fn parse_bytes(s: &str) -> (result: Result<u64, String>)
    requires
        size_bounded(s@),
    ensures
        says(result, byte_count(size(s@))),
        size_unit(s@) is None ==> result is Err,
        far_beyond_u64(s@) ==> (result matches Err(words) && words@ == "value exceeds u64"@),
        exact_size(s@) matches Some(number) ==> if number <= u64::MAX {
            result matches Ok(bytes) && bytes == number
        } else {
            result matches Err(words) && words@ == "value exceeds u64"@
        },
        is_decimal(s@) && decimal(s@) <= EXACT_LIMIT ==> (result matches Ok(bytes) && bytes
            == decimal(s@)),
        says_megabytes(s@) ==> (result matches Ok(bytes) && bytes == megabytes(s@)->0
            * 1_000_000),
{
    proof {
        if is_decimal(s@) {
            decimal_is_size(s@);
        }
        if megabytes(s@) is Some {
            megabytes_are_size(s@);
        }
    }
    to_byte_count(read_size(s))
}

/// The size of a chunk that a text such as `65536` says.
pub fn parse_chunk_bytes(s: &str) -> (result: Result<usize, String>)
    requires
        size_bounded(s@),
    ensures
        says(result, chunk_size(byte_count(size(s@)))),
        size_unit(s@) is None ==> result is Err,
        far_beyond_u64(s@) ==> (result matches Err(words) && words@ == "value exceeds u64"@),
        exact_size(s@) matches Some(number) ==> if number <= usize::MAX {
            result matches Ok(bytes) && bytes == number
        } else if number <= u64::MAX {
            result matches Err(words) && words@ == "chunk_bytes too large for usize"@
        } else {
            result matches Err(words) && words@ == "value exceeds u64"@
        },
        is_decimal(s@) && decimal(s@) <= EXACT_LIMIT && decimal(s@) <= usize::MAX ==> (
        result matches Ok(bytes) && bytes == decimal(s@)),
        says_megabytes(s@) && megabytes(s@)->0 * 1_000_000 <= usize::MAX ==> (
        result matches Ok(bytes) && bytes == megabytes(s@)->0 * 1_000_000),
{
    to_chunk_size(parse_bytes(s))
}

/// A text that begins and ends with no white space is trimmed already.
proof fn trimmed_already(text: Seq<char>)
    requires
        text.len() > 0,
        !CharKind::Space.has(text[0]),
        !CharKind::Space.has(text.last()),
    ensures
        trimmed(text) == text,
{
    assert(text.skip(0) == text);
}

/// A decimal number without a unit is a size in bytes, and always taken.
pub proof fn decimal_is_size(text: Seq<char>)
    requires
        is_decimal(text),
    ensures
        size_bounded(text),
        size_unit(text) == Some(Unit { bytes: 1, decimal: false }),
        size_number(text) == decimal(text),
        !has_point(text),
{
    assert(is_digit(text[0]) && is_digit(text[text.len() - 1]));
    trimmed_already(text);
    past_ends(text, CharKind::Digit, 0, text.len());
    assert(text.take(text.len() as int) == text);
}

/// A decimal number of megabytes is a size, and always taken.
pub proof fn megabytes_are_size(text: Seq<char>)
    requires
        megabytes(text) is Some,
    ensures
        size_bounded(text),
        size_unit(text) == Some(Unit { bytes: 1_000_000, decimal: true }),
        megabytes(text) == Some(size_number(text)),
        !has_point(text),
{
    let digits = text.take(text.len() - 2);
    assert forall|i: int| 0 <= i < digits.len() implies is_digit(#[trigger] text[i]) by {
        assert(is_digit(digits[i]));
    }
    assert(text[text.len() - 1] == 'B');
    trimmed_already(text);
    past_ends(text, CharKind::Digit, 0, digits.len());
}

/// A size of a chunk is accepted just where the same text says a number of
/// bytes that a `usize` holds, and then as that number. A text that says no
/// number of bytes is refused in the same words. Where a `usize` holds every
/// number of bytes, none is refused as too large.
pub proof fn chunk_size_is_byte_count(size: Result<u128, Seq<char>>)
    ensures
        match byte_count(size) {
            Ok(bytes) => if bytes <= usize::MAX {
                chunk_size(byte_count(size)) matches Ok(chunk) && chunk == bytes
            } else {
                chunk_size(byte_count(size)) == Err::<usize, Seq<char>>(
                    "chunk_bytes too large for usize"@,
                )
            },
            Err(words) => chunk_size(byte_count(size)) == Err::<usize, Seq<char>>(words),
        },
        usize::MAX == u64::MAX && byte_count(size) is Ok ==> chunk_size(byte_count(size)) is Ok,
{
}

/// Every number of bytes that a `u64` holds is kept as it is, and every other is
/// refused as too large; words of refusal are handed on.
pub proof fn byte_counts_are_kept(bytes: u128, words: Seq<char>)
    ensures
        bytes <= 0xffff_ffff_ffff_ffff ==> (byte_count(Ok(bytes)) matches Ok(kept) && kept
            == bytes),
        bytes > 0xffff_ffff_ffff_ffff ==> byte_count(Ok(bytes)) == Err::<u64, Seq<char>>(
            "value exceeds u64"@,
        ),
        byte_count(Err(words)) == Err::<u64, Seq<char>>(words),
{
}

/// Every number of bytes that a `usize` holds is kept as the size of a chunk, and
/// every other is refused as too large; words of refusal are handed on.
pub proof fn chunk_sizes_are_kept(bytes: u64, words: Seq<char>)
    ensures
        bytes <= usize::MAX ==> (chunk_size(Ok(bytes)) matches Ok(kept) && kept == bytes),
        bytes > usize::MAX ==> chunk_size(Ok(bytes)) == Err::<usize, Seq<char>>(
            "chunk_bytes too large for usize"@,
        ),
        chunk_size(Err(words)) == Err::<usize, Seq<char>>(words),
{
}

/// A further digit makes the number ten times what it was, and adds itself.
pub proof fn digits_are_decimal(digits: Seq<char>, digit: char)
    requires
        '0' <= digit <= '9',
    ensures
        decimal(Seq::<char>::empty()) == 0,
        decimal(digits.push(digit)) == 10 * decimal(digits) + (digit as int - 48),
{
    assert(digits.push(digit).drop_last() == digits);
}

/// Whether the letter stands for that power of a thousand.
pub open spec fn letter_of_power(letter: char, power: nat) -> bool {
    ||| power == 1 && (letter == 'K' || letter == 'k')
    ||| power == 2 && (letter == 'M' || letter == 'm')
    ||| power == 3 && (letter == 'G' || letter == 'g')
    ||| power == 4 && (letter == 'T' || letter == 't')
    ||| power == 5 && (letter == 'P' || letter == 'p')
    ||| power == 6 && (letter == 'E' || letter == 'e')
    ||| power == 7 && (letter == 'Z' || letter == 'z')
}

/// Whether the text names a power of a thousand, or of 1024: with its letter, an
/// `i` for the latter, and a `B` that may be left out. Bytes need not be named.
pub open spec fn names_unit(unit: Seq<char>, power: nat, binary: bool) -> bool {
    if power == 0 {
        !binary && (unit.len() == 0 || (unit.len() == 1 && (unit[0] == 'B' || unit[0] == 'b')))
    } else if binary {
        &&& unit.len() == 2 || (unit.len() == 3 && (unit[2] == 'B' || unit[2] == 'b'))
        &&& letter_of_power(unit[0], power)
        &&& unit[1] == 'I' || unit[1] == 'i'
    } else {
        &&& unit.len() == 1 || (unit.len() == 2 && (unit[1] == 'B' || unit[1] == 'b'))
        &&& letter_of_power(unit[0], power)
    }
}

/// White space at the end is trimmed.
proof fn trimmed_end_of(text: Seq<char>, after: Seq<char>)
    requires
        forall|i: int| 0 <= i < after.len() ==> CharKind::Space.has(#[trigger] after[i]),
    ensures
        trimmed_end(text + after) == trimmed_end(text),
    decreases after.len(),
{
    if after.len() == 0 {
        assert(text + after == text);
    } else {
        assert(CharKind::Space.has(after[after.len() - 1]));
        assert((text + after).drop_last() == text + after.drop_last());
        trimmed_end_of(text, after.drop_last());
    }
}

/// What is trimmed at its end keeps everything up to its last character that is
/// not white space.
proof fn trimmed_end_keeps(text: Seq<char>, after: Seq<char>)
    requires
        text.len() > 0,
        !CharKind::Space.has(text.last()),
    ensures
        text.is_prefix_of(trimmed_end(text + after)),
    decreases after.len(),
{
    if after.len() == 0 {
        assert(text + after == text);
    } else if CharKind::Space.has(after.last()) {
        assert((text + after).drop_last() == text + after.drop_last());
        trimmed_end_keeps(text, after.drop_last());
    }
}

/// Whether the text is empty, or a point with digits after it.
pub open spec fn is_fraction(text: Seq<char>) -> bool {
    text.len() == 0 || (text.len() > 1 && text[0] == '.' && forall|i: int|
        1 <= i < text.len() ==> '0' <= #[trigger] text[i] <= '9')
}

/// A number, blanks and the name of a unit, with white space around them, are a
/// size of that number of the unit's bytes, which are a power of 1000 or of 1024.
/// Behind `iB` anything may follow. The size is taken unless it is too large by
/// far, and without a point it is exact as far as doubles go.
pub proof fn size_of_its_parts(
    before: Seq<char>,
    digits: Seq<char>,
    fraction: Seq<char>,
    blanks: Seq<char>,
    unit: Seq<char>,
    after: Seq<char>,
    power: nat,
    binary: bool,
)
    requires
        forall|i: int| 0 <= i < before.len() ==> CharKind::Space.has(#[trigger] before[i]),
        digits.len() > 0,
        forall|i: int| 0 <= i < digits.len() ==> '0' <= #[trigger] digits[i] <= '9',
        is_fraction(fraction),
        forall|i: int| 0 <= i < blanks.len() ==> #[trigger] blanks[i] == ' ',
        names_unit(unit, power, binary),
        unit.len() == 0 ==> blanks.len() == 0,
        unit.len() == 3 || forall|i: int|
            0 <= i < after.len() ==> CharKind::Space.has(#[trigger] after[i]),
    ensures
        ({
            let text = before + digits + fraction + blanks + unit + after;
            let bytes = power::pow(
                if binary {
                    1024
                } else {
                    1000
                },
                power,
            );
            let number = decimal(digits);
            &&& size_unit(text) matches Some(found) && found.bytes == bytes && (found.decimal
                <==> power > 0 && !binary)
            &&& size_number(text) == number
            &&& has_point(text) <==> fraction.len() > 0
            &&& size_bounded(text) <==> power < 3 || number * bytes
                < 0xffff_ffff_ffff_0000_0000_0000_0000_0000
            &&& fraction.len() == 0 && number <= 0x20_0000_0000_0000 && (power > 0 && !binary
                ==> number * 15_625 <= 0x20_0000_0000_0000) ==> (exact_size(text) matches Some(said)
                && said == number * bytes)
        }),
{
    let text = before + digits + fraction + blanks + unit + after;
    let core = digits + fraction + blanks + unit;
    assert forall|i: int| 0 <= i < before.len() implies CharKind::Space.has(#[trigger] text[i]) by {
        assert(text[i] == before[i]);
    }
    assert(text[before.len() as int] == digits[0]);
    past_ends(text, CharKind::Space, 0, before.len());
    assert(text.skip(before.len() as int) == core + after);
    assert(!CharKind::Space.has(core.last())) by {
        if unit.len() > 0 {
            assert(core.last() == unit[unit.len() - 1]);
        } else if fraction.len() > 0 {
            assert(core.last() == fraction[fraction.len() - 1]);
        } else {
            assert(core.last() == digits[digits.len() - 1]);
        }
    }
    let size = trimmed(text);
    trimmed_end_keeps(core, after);
    if unit.len() != 3 {
        trimmed_end_of(core, after);
        assert(size == core);
    }
    assert forall|i: int| 0 <= i < core.len() implies size[i] == #[trigger] core[i] by {
        assert(size.take(core.len() as int)[i] == core[i]);
    }
    assert forall|i: int| 0 <= i < digits.len() implies CharKind::Digit.has(#[trigger] size[i]) by {
        assert(core[i] == digits[i]);
    }
    let whole = digits.len();
    let number = whole + fraction.len();
    let at = number + blanks.len();
    if fraction.len() > 0 {
        assert(core[whole as int] == fraction[0]);
    }
    if blanks.len() > 0 {
        assert(core[number as int] == blanks[0]);
    } else if unit.len() > 0 {
        assert(core[number as int] == unit[0]);
    }
    past_ends(size, CharKind::Digit, 0, whole);
    if fraction.len() > 0 {
        assert forall|i: int| whole + 1 <= i < number implies CharKind::Digit.has(
            #[trigger] size[i],
        ) by {
            assert(core[i] == fraction[i - whole]);
        }
        past_ends(size, CharKind::Digit, whole + 1, number);
    }
    assert forall|i: int| number <= i < at implies CharKind::Blank.has(#[trigger] size[i]) by {
        assert(core[i] == blanks[i - number]);
    }
    if unit.len() > 0 {
        assert(core[at as int] == unit[0]);
    }
    past_ends(size, CharKind::Blank, number, at);
    assert(size.take(whole as int) == digits) by {
        assert forall|i: int| 0 <= i < whole implies size[i] == #[trigger] digits[i] by {
            assert(core[i] == digits[i]);
        }
    }
    assert(unit.len() > 1 ==> core[at as int + 1] == unit[1]);
    assert(unit.len() > 2 ==> core[at as int + 2] == unit[2]);
    powers();
}

/// The powers of 1000 and of 1024 that have a letter.
proof fn powers()
    ensures
        power::pow(1000, 0) == 1 && power::pow(1024, 0) == 1,
        power::pow(1000, 1) == 1_000 && power::pow(1024, 1) == 0x400,
        power::pow(1000, 2) == 1_000_000 && power::pow(1024, 2) == 0x10_0000,
        power::pow(1000, 3) == 1_000_000_000 && power::pow(1024, 3) == 0x4000_0000,
        power::pow(1000, 4) == 1_000_000_000_000 && power::pow(1024, 4) == 0x100_0000_0000,
        power::pow(1000, 5) == 1_000_000_000_000_000 && power::pow(1024, 5) == 0x4_0000_0000_0000,
        power::pow(1000, 6) == 1_000_000_000_000_000_000 && power::pow(1024, 6) == 0x1000_0000_0000_0000,
        power::pow(1000, 7) == 1_000_000_000_000_000_000_000 && power::pow(1024, 7)
            == 0x40_0000_0000_0000_0000,
{
    reveal_with_fuel(power::pow, 8);
}

/// A text that does not begin with a digit, white space aside, is no size, and
/// neither is white space alone.
pub proof fn no_size_without_a_number(before: Seq<char>, rest: Seq<char>)
    requires
        forall|i: int| 0 <= i < before.len() ==> CharKind::Space.has(#[trigger] before[i]),
        rest.len() > 0 ==> !CharKind::Space.has(rest[0]) && !('0' <= rest[0] <= '9'),
    ensures
        size_unit(before + rest) is None,
        size_bounded(before + rest),
{
    let text = before + rest;
    assert forall|i: int| 0 <= i < before.len() implies CharKind::Space.has(#[trigger] text[i]) by {
        assert(text[i] == before[i]);
    }
    if rest.len() > 0 {
        assert(text[before.len() as int] == rest[0]);
        assert(rest.take(1) + rest.skip(1) == rest);
        trimmed_end_keeps(rest.take(1), rest.skip(1));
        assert(trimmed_end(rest).take(1)[0] == rest[0]);
    }
    past_ends(text, CharKind::Space, 0, before.len());
    assert(text.skip(before.len() as int) == rest);
}

} // verus!
