//! The grammar of a PLY header, written as functions on bytes.
//!
//! A header is `ply`, a `format` statement, then elements, each an `element` statement followed
//! by at least one `property` statement, and finally `end_header`; `comment` statements may
//! stand before the format statement, before each element and before each property. Keywords
//! are matched as byte prefixes and every statement is followed by any amount of whitespace.
//!
//! Each parser at a position either succeeds, giving a value and the position after it, or
//! fails. A failure is *committed* when the parser had already read past its first byte; a
//! sequence of alternatives moves on to the next alternative only after a failure that is not
//! committed, and a repetition stops after such a failure but fails altogether after a
//! committed one. Repetitions marked as *tentative* treat every failure as not committed.

use vstd::prelude::*;
use super::types::{CountType, DataType, Element, Format, FormatType, Header, Property};

verus! {

/// The outcome of a parser at a position, in specifications: a value and the position after
/// it, a failure that read nothing, or a committed failure.
pub enum Parsed<V> {
    Done(V, int),
    Empty,
    Committed,
}

/// The outcome of a parser at a position: a value and the position after it, a failure that
/// read nothing, or a committed failure.
pub enum Outcome<T> {
    Done(T, usize),
    Empty,
    Committed,
}

impl<T: View> View for Outcome<T> {
    type V = Parsed<T::V>;

    open spec fn view(&self) -> Parsed<T::V> {
        match self {
            Outcome::Done(t, n) => Parsed::Done(t@, *n as int),
            Outcome::Empty => Parsed::Empty,
            Outcome::Committed => Parsed::Committed,
        }
    }
}

impl View for FormatType {
    type V = FormatType;

    open spec fn view(&self) -> FormatType {
        *self
    }
}

impl View for DataType {
    type V = DataType;

    open spec fn view(&self) -> DataType {
        *self
    }
}

impl View for CountType {
    type V = CountType;

    open spec fn view(&self) -> CountType {
        *self
    }
}

impl View for Property {
    type V = (Seq<char>, Option<CountType>, DataType);

    open spec fn view(&self) -> (Seq<char>, Option<CountType>, DataType) {
        (self.name@, self.count_data_type, self.data_type)
    }
}

impl View for Element {
    type V = (Seq<char>, usize, Seq<(Seq<char>, Option<CountType>, DataType)>);

    open spec fn view(&self) -> Self::V {
        (self.name@, self.count, property_views(self.properties@))
    }
}

impl View for Header {
    type V = (FormatType, Seq<usize>, Seq<(Seq<char>, usize, Seq<(Seq<char>, Option<CountType>, DataType)>)>);

    open spec fn view(&self) -> Self::V {
        (self.format.format, self.format.version@, element_views(self.elements@))
    }
}

/// The keywords of the header grammar.
#[derive(Clone, Copy)]
pub enum Word {
    /// `ply`
    Ply,
    /// `end_header`
    EndHeader,
    /// `format`
    Format,
    /// `comment`
    Comment,
    /// `element`
    Element,
    /// `property`
    Property,
    /// `list`
    List,
    /// `ascii`
    Ascii,
    /// `binary_big_endian`
    BinaryBigEndian,
    /// `binary_little_endian`
    BinaryLittleEndian,
    /// `1.0`
    VersionOne,
    /// `int8`
    Int8,
    /// `char`
    Char,
    /// `uint8`
    Uint8,
    /// `uchar`
    Uchar,
    /// `int16`
    Int16,
    /// `short`
    Short,
    /// `uint16`
    Uint16,
    /// `ushort`
    Ushort,
    /// `int32`
    Int32,
    /// `int`
    Int,
    /// `uint32`
    Uint32,
    /// `uint`
    Uint,
    /// `float32`
    Float32,
    /// `float`
    Float,
    /// `float64`
    Float64,
    /// `double`
    Double,
}

impl Word {
    /// The bytes of the keyword.
    pub open spec fn spelling(self) -> Seq<u8> {
        match self {
            Word::Ply => seq![112u8, 108, 121],
            Word::EndHeader => seq![101u8, 110, 100, 95, 104, 101, 97, 100, 101, 114],
            Word::Format => seq![102u8, 111, 114, 109, 97, 116],
            Word::Comment => seq![99u8, 111, 109, 109, 101, 110, 116],
            Word::Element => seq![101u8, 108, 101, 109, 101, 110, 116],
            Word::Property => seq![112u8, 114, 111, 112, 101, 114, 116, 121],
            Word::List => seq![108u8, 105, 115, 116],
            Word::Ascii => seq![97u8, 115, 99, 105, 105],
            Word::BinaryBigEndian => seq![98u8, 105, 110, 97, 114, 121, 95, 98, 105, 103, 95, 101, 110, 100, 105, 97, 110],
            Word::BinaryLittleEndian => seq![98u8, 105, 110, 97, 114, 121, 95, 108, 105, 116, 116, 108, 101, 95, 101, 110, 100, 105, 97, 110],
            Word::VersionOne => seq![49u8, 46, 48],
            Word::Int8 => seq![105u8, 110, 116, 56],
            Word::Char => seq![99u8, 104, 97, 114],
            Word::Uint8 => seq![117u8, 105, 110, 116, 56],
            Word::Uchar => seq![117u8, 99, 104, 97, 114],
            Word::Int16 => seq![105u8, 110, 116, 49, 54],
            Word::Short => seq![115u8, 104, 111, 114, 116],
            Word::Uint16 => seq![117u8, 105, 110, 116, 49, 54],
            Word::Ushort => seq![117u8, 115, 104, 111, 114, 116],
            Word::Int32 => seq![105u8, 110, 116, 51, 50],
            Word::Int => seq![105u8, 110, 116],
            Word::Uint32 => seq![117u8, 105, 110, 116, 51, 50],
            Word::Uint => seq![117u8, 105, 110, 116],
            Word::Float32 => seq![102u8, 108, 111, 97, 116, 51, 50],
            Word::Float => seq![102u8, 108, 111, 97, 116],
            Word::Float64 => seq![102u8, 108, 111, 97, 116, 54, 52],
            Word::Double => seq![100u8, 111, 117, 98, 108, 101],
        }
    }

    /// The bytes of the keyword.
    fn bytes(self) -> (r: Vec<u8>)
        ensures
            r@ == self.spelling(),
    {
        match self {
            Word::Ply => vec![112, 108, 121],
            Word::EndHeader => vec![101, 110, 100, 95, 104, 101, 97, 100, 101, 114],
            Word::Format => vec![102, 111, 114, 109, 97, 116],
            Word::Comment => vec![99, 111, 109, 109, 101, 110, 116],
            Word::Element => vec![101, 108, 101, 109, 101, 110, 116],
            Word::Property => vec![112, 114, 111, 112, 101, 114, 116, 121],
            Word::List => vec![108, 105, 115, 116],
            Word::Ascii => vec![97, 115, 99, 105, 105],
            Word::BinaryBigEndian => vec![98, 105, 110, 97, 114, 121, 95, 98, 105, 103, 95, 101, 110, 100, 105, 97, 110],
            Word::BinaryLittleEndian => vec![98, 105, 110, 97, 114, 121, 95, 108, 105, 116, 116, 108, 101, 95, 101, 110, 100, 105, 97, 110],
            Word::VersionOne => vec![49, 46, 48],
            Word::Int8 => vec![105, 110, 116, 56],
            Word::Char => vec![99, 104, 97, 114],
            Word::Uint8 => vec![117, 105, 110, 116, 56],
            Word::Uchar => vec![117, 99, 104, 97, 114],
            Word::Int16 => vec![105, 110, 116, 49, 54],
            Word::Short => vec![115, 104, 111, 114, 116],
            Word::Uint16 => vec![117, 105, 110, 116, 49, 54],
            Word::Ushort => vec![117, 115, 104, 111, 114, 116],
            Word::Int32 => vec![105, 110, 116, 51, 50],
            Word::Int => vec![105, 110, 116],
            Word::Uint32 => vec![117, 105, 110, 116, 51, 50],
            Word::Uint => vec![117, 105, 110, 116],
            Word::Float32 => vec![102, 108, 111, 97, 116, 51, 50],
            Word::Float => vec![102, 108, 111, 97, 116],
            Word::Float64 => vec![102, 108, 111, 97, 116, 54, 52],
            Word::Double => vec![100, 111, 117, 98, 108, 101],
        }
    }
}

/// ASCII whitespace: space, tab, line feed, form feed and carriage return.
pub open spec fn is_space(b: u8) -> bool {
    b == 32 || b == 9 || b == 10 || b == 12 || b == 13
}

/// An ASCII decimal digit.
pub open spec fn is_digit(b: u8) -> bool {
    48 <= b <= 57
}

/// A byte that may stand in a name: an ASCII letter or digit, `.`, `-` or `_`.
pub open spec fn is_name_byte(b: u8) -> bool {
    is_digit(b) || 65 <= b <= 90 || 97 <= b <= 122 || b == 46 || b == 45 || b == 95
}

/// A line break byte: line feed or carriage return.
pub open spec fn is_line_break(b: u8) -> bool {
    b == 10 || b == 13
}

/// The first position at or after `i` whose byte does not satisfy `pred`, or the end.
pub open spec fn skip_while(s: Seq<u8>, i: int, pred: spec_fn(u8) -> bool) -> int
    decreases s.len() - i,
{
    if 0 <= i < s.len() && pred(s[i]) {
        skip_while(s, i + 1, pred)
    } else {
        i
    }
}

/// The first position at or after `i` that is not whitespace.
pub open spec fn skip_spaces(s: Seq<u8>, i: int) -> int {
    skip_while(s, i, |b: u8| is_space(b))
}

/// The first position at or after `i` that cannot stand in a name.
pub open spec fn skip_name(s: Seq<u8>, i: int) -> int {
    skip_while(s, i, |b: u8| is_name_byte(b))
}

/// The first position at or after `i` that is not a digit.
pub open spec fn skip_digits(s: Seq<u8>, i: int) -> int {
    skip_while(s, i, |b: u8| is_digit(b))
}

/// The first position at or after `i` that holds a line break, or the end.
pub open spec fn skip_to_line_break(s: Seq<u8>, i: int) -> int {
    skip_while(s, i, |b: u8| !is_line_break(b))
}

/// `kw` stands at position `i` of `s`.
pub open spec fn has_word(s: Seq<u8>, i: int, kw: Seq<u8>) -> bool {
    0 <= i && i + kw.len() <= s.len() && s.subrange(i, i + kw.len()) == kw
}

/// Matches the keyword `w`: a failure is committed when the first byte matched.
pub open spec fn keyword(s: Seq<u8>, i: int, w: Word) -> Parsed<()> {
    if has_word(s, i, w.spelling()) {
        Parsed::Done((), i + w.spelling().len())
    } else if 0 <= i < s.len() && s[i] == w.spelling()[0] {
        Parsed::Committed
    } else {
        Parsed::Empty
    }
}

/// The keyword `w` followed by whitespace.
pub open spec fn token(s: Seq<u8>, i: int, w: Word) -> Parsed<()> {
    match keyword(s, i, w) {
        Parsed::Done(_, j) => Parsed::Done((), skip_spaces(s, j)),
        Parsed::Empty => Parsed::Empty,
        Parsed::Committed => Parsed::Committed,
    }
}

/// A line termination: carriage return and line feed, or line feed; a carriage return that is
/// not followed by a line feed is a committed failure.
pub open spec fn line_end(s: Seq<u8>, k: int) -> Parsed<()> {
    if 0 <= k < s.len() && s[k] == 13 {
        if k + 1 < s.len() && s[k + 1] == 10 {
            Parsed::Done((), k + 2)
        } else {
            Parsed::Committed
        }
    } else if 0 <= k < s.len() && s[k] == 10 {
        Parsed::Done((), k + 1)
    } else {
        Parsed::Empty
    }
}

/// A comment statement: `comment`, whitespace, then any bytes up to a line termination, and
/// whitespace. The comment must end in a line termination.
pub open spec fn comment(s: Seq<u8>, i: int) -> Parsed<()> {
    match token(s, i, Word::Comment) {
        Parsed::Done(_, j) => {
            let k = skip_to_line_break(s, j);
            match line_end(s, k) {
                Parsed::Done(_, _) => Parsed::Done((), skip_spaces(s, k)),
                _ => Parsed::Committed,
            }
        },
        Parsed::Empty => Parsed::Empty,
        Parsed::Committed => Parsed::Committed,
    }
}

/// The number written by the decimal digits of `s` from `i` up to `e`.
pub open spec fn digits_value(s: Seq<u8>, i: int, e: int) -> int
    decreases e - i,
{
    if e <= i {
        0
    } else {
        digits_value(s, i, e - 1) * 10 + (s[e - 1] - 48)
    }
}

/// An unsigned decimal number; one that does not fit a `usize` is a committed failure.
pub open spec fn unsigned(s: Seq<u8>, i: int) -> Parsed<usize> {
    let e = skip_digits(s, i);
    if e == i {
        Parsed::Empty
    } else if digits_value(s, i, e) <= usize::MAX {
        Parsed::Done(digits_value(s, i, e) as usize, e)
    } else {
        Parsed::Committed
    }
}

/// The characters of ASCII bytes.
pub open spec fn ascii_chars(b: Seq<u8>) -> Seq<char> {
    b.map_values(|x: u8| x as char)
}

/// A name: one or more bytes that may stand in a name.
pub open spec fn name(s: Seq<u8>, i: int) -> Parsed<Seq<char>> {
    let e = skip_name(s, i);
    if e == i {
        Parsed::Empty
    } else {
        Parsed::Done(ascii_chars(s.subrange(i, e)), e)
    }
}

/// A property data type: the first of its spellings, in the order `int8`, `char`, `uint8`,
/// `uchar`, `int16`, `short`, `uint16`, `ushort`, `int32`, `int`, `uint32`, `uint`,
/// `float32`, `float`, `float64`, `double`, that stands at `i` as a prefix. `int` denotes an
/// unsigned 32-bit integer.
pub open spec fn data_type(s: Seq<u8>, i: int) -> Parsed<DataType> {
    if has_word(s, i, Word::Int8.spelling()) {
        Parsed::Done(DataType::Int8, i + Word::Int8.spelling().len())
    } else
    if has_word(s, i, Word::Char.spelling()) {
        Parsed::Done(DataType::Int8, i + Word::Char.spelling().len())
    } else
    if has_word(s, i, Word::Uint8.spelling()) {
        Parsed::Done(DataType::Uint8, i + Word::Uint8.spelling().len())
    } else
    if has_word(s, i, Word::Uchar.spelling()) {
        Parsed::Done(DataType::Uint8, i + Word::Uchar.spelling().len())
    } else
    if has_word(s, i, Word::Int16.spelling()) {
        Parsed::Done(DataType::Int16, i + Word::Int16.spelling().len())
    } else
    if has_word(s, i, Word::Short.spelling()) {
        Parsed::Done(DataType::Int16, i + Word::Short.spelling().len())
    } else
    if has_word(s, i, Word::Uint16.spelling()) {
        Parsed::Done(DataType::Uint16, i + Word::Uint16.spelling().len())
    } else
    if has_word(s, i, Word::Ushort.spelling()) {
        Parsed::Done(DataType::Uint16, i + Word::Ushort.spelling().len())
    } else
    if has_word(s, i, Word::Int32.spelling()) {
        Parsed::Done(DataType::Int32, i + Word::Int32.spelling().len())
    } else
    if has_word(s, i, Word::Int.spelling()) {
        Parsed::Done(DataType::Uint32, i + Word::Int.spelling().len())
    } else
    if has_word(s, i, Word::Uint32.spelling()) {
        Parsed::Done(DataType::Uint32, i + Word::Uint32.spelling().len())
    } else
    if has_word(s, i, Word::Uint.spelling()) {
        Parsed::Done(DataType::Uint32, i + Word::Uint.spelling().len())
    } else
    if has_word(s, i, Word::Float32.spelling()) {
        Parsed::Done(DataType::Float32, i + Word::Float32.spelling().len())
    } else
    if has_word(s, i, Word::Float.spelling()) {
        Parsed::Done(DataType::Float32, i + Word::Float.spelling().len())
    } else
    if has_word(s, i, Word::Float64.spelling()) {
        Parsed::Done(DataType::Float64, i + Word::Float64.spelling().len())
    } else
    if has_word(s, i, Word::Double.spelling()) {
        Parsed::Done(DataType::Float64, i + Word::Double.spelling().len())
    } else {
        Parsed::Empty
    }
}

/// A count data type: the first of `uint8`, `uchar`, `uint16`, `ushort`, `uint32`, `uint` that
/// stands at `i` as a prefix.
pub open spec fn count_type(s: Seq<u8>, i: int) -> Parsed<CountType> {
    if has_word(s, i, Word::Uint8.spelling()) {
        Parsed::Done(CountType::Uint8, i + Word::Uint8.spelling().len())
    } else
    if has_word(s, i, Word::Uchar.spelling()) {
        Parsed::Done(CountType::Uint8, i + Word::Uchar.spelling().len())
    } else
    if has_word(s, i, Word::Uint16.spelling()) {
        Parsed::Done(CountType::Uint16, i + Word::Uint16.spelling().len())
    } else
    if has_word(s, i, Word::Ushort.spelling()) {
        Parsed::Done(CountType::Uint16, i + Word::Ushort.spelling().len())
    } else
    if has_word(s, i, Word::Uint32.spelling()) {
        Parsed::Done(CountType::Uint32, i + Word::Uint32.spelling().len())
    } else
    if has_word(s, i, Word::Uint.spelling()) {
        Parsed::Done(CountType::Uint32, i + Word::Uint.spelling().len())
    } else {
        Parsed::Empty
    }
}

/// A format type: the first of `ascii`, `binary_big_endian`, `binary_little_endian` that stands
/// at `i` as a prefix.
pub open spec fn format_type(s: Seq<u8>, i: int) -> Parsed<FormatType> {
    if has_word(s, i, Word::Ascii.spelling()) {
        Parsed::Done(FormatType::Ascii, i + Word::Ascii.spelling().len())
    } else
    if has_word(s, i, Word::BinaryBigEndian.spelling()) {
        Parsed::Done(FormatType::BinaryBigEndian, i + Word::BinaryBigEndian.spelling().len())
    } else
    if has_word(s, i, Word::BinaryLittleEndian.spelling()) {
        Parsed::Done(FormatType::BinaryLittleEndian, i + Word::BinaryLittleEndian.spelling().len())
    } else {
        Parsed::Empty
    }
}

/// `skip_while` stays within the bytes and does not go back.
pub proof fn lemma_skip_while_bounds(s: Seq<u8>, i: int, pred: spec_fn(u8) -> bool)
    requires
        0 <= i <= s.len(),
    ensures
        i <= skip_while(s, i, pred) <= s.len(),
        forall|k: int| i <= k < skip_while(s, i, pred) ==> pred(#[trigger] s[k]),
    decreases s.len() - i,
{
    if i < s.len() && pred(s[i]) {
        lemma_skip_while_bounds(s, i + 1, pred);
    }
}

/// The value of a longer run of digits is at least that of its prefix.
pub proof fn lemma_digits_value_grows(s: Seq<u8>, i: int, m: int, e: int)
    requires
        i <= m <= e <= s.len(),
        0 <= i,
        forall|k: int| i <= k < e ==> is_digit(#[trigger] s[k]),
    ensures
        0 <= digits_value(s, i, m) <= digits_value(s, i, e),
    decreases e - i,
{
    if e > i {
        if m < e {
            lemma_digits_value_grows(s, i, m, e - 1);
        } else {
            lemma_digits_value_grows(s, i, m - 1, e - 1);
        }
    }
}

/// Finds the first position at or after `i` that is not whitespace.
pub(crate) fn skip_spaces_exec(s: &[u8], i: usize) -> (r: usize)
    requires
        i <= s@.len(),
    ensures
        r == skip_spaces(s@, i as int),
        i <= r <= s@.len(),
{
    proof {
        lemma_skip_while_bounds(s@, i as int, |b: u8| is_space(b));
    }
    let mut k = i;
    while k < s.len()
        invariant
            i <= k <= s@.len(),
            skip_spaces(s@, i as int) == skip_spaces(s@, k as int),
        ensures
            k == skip_spaces(s@, i as int),
        decreases s@.len() - k,
    {
        let b = s[k];
        if !(b == 32 || b == 9 || b == 10 || b == 12 || b == 13) {
            break;
        }
        k = k + 1;
    }
    k
}

/// Finds the first position at or after `i` that cannot stand in a name.
fn skip_name_exec(s: &[u8], i: usize) -> (r: usize)
    requires
        i <= s@.len(),
    ensures
        r == skip_name(s@, i as int),
        i <= r <= s@.len(),
{
    proof {
        lemma_skip_while_bounds(s@, i as int, |b: u8| is_name_byte(b));
    }
    let mut k = i;
    while k < s.len()
        invariant
            i <= k <= s@.len(),
            skip_name(s@, i as int) == skip_name(s@, k as int),
        ensures
            k == skip_name(s@, i as int),
        decreases s@.len() - k,
    {
        let b = s[k];
        if !((48 <= b && b <= 57) || (65 <= b && b <= 90) || (97 <= b && b <= 122) || b == 46 || b == 45 || b == 95) {
            break;
        }
        k = k + 1;
    }
    k
}

/// Finds the first position at or after `i` that is not a digit.
pub(crate) fn skip_digits_exec(s: &[u8], i: usize) -> (r: usize)
    requires
        i <= s@.len(),
    ensures
        r == skip_digits(s@, i as int),
        i <= r <= s@.len(),
{
    proof {
        lemma_skip_while_bounds(s@, i as int, |b: u8| is_digit(b));
    }
    let mut k = i;
    while k < s.len()
        invariant
            i <= k <= s@.len(),
            skip_digits(s@, i as int) == skip_digits(s@, k as int),
        ensures
            k == skip_digits(s@, i as int),
        decreases s@.len() - k,
    {
        let b = s[k];
        if !(48 <= b && b <= 57) {
            break;
        }
        k = k + 1;
    }
    k
}

/// Finds the first position at or after `i` that holds a line break, or the end.
fn skip_to_line_break_exec(s: &[u8], i: usize) -> (r: usize)
    requires
        i <= s@.len(),
    ensures
        r == skip_to_line_break(s@, i as int),
        i <= r <= s@.len(),
{
    proof {
        lemma_skip_while_bounds(s@, i as int, |b: u8| !is_line_break(b));
    }
    let mut k = i;
    while k < s.len()
        invariant
            i <= k <= s@.len(),
            skip_to_line_break(s@, i as int) == skip_to_line_break(s@, k as int),
        ensures
            k == skip_to_line_break(s@, i as int),
        decreases s@.len() - k,
    {
        let b = s[k];
        if b == 10 || b == 13 {
            break;
        }
        k = k + 1;
    }
    k
}

/// Tells whether `kw` stands at position `i` of `s`.
fn has_word_exec(s: &[u8], i: usize, kw: &[u8]) -> (r: bool)
    requires
        i <= s@.len(),
    ensures
        r == has_word(s@, i as int, kw@),
{
    if s.len() - i < kw.len() {
        return false;
    }
    assert(s@.len() == s.len());
    let mut k: usize = 0;
    while k < kw.len()
        invariant
            k <= kw@.len(),
            i + kw@.len() <= s@.len(),
            s@.len() <= usize::MAX,
            forall|j: int| 0 <= j < k ==> s@[i + j] == kw@[j],
        decreases kw@.len() - k,
    {
        if s[i + k] != kw[k] {
            assert(s@.subrange(i as int, i + kw@.len())[k as int] != kw@[k as int]);
            return false;
        }
        k = k + 1;
    }
    assert(s@.subrange(i as int, i + kw@.len()) =~= kw@);
    true
}

/// The position after the keyword `w` where it stands at `i`.
fn word_end(s: &[u8], i: usize, w: Word) -> (r: Option<usize>)
    requires
        i <= s@.len(),
    ensures
        match r {
            Some(j) => has_word(s@, i as int, w.spelling()) && j == i + w.spelling().len() && j <= s@.len(),
            None => !has_word(s@, i as int, w.spelling()),
        },
{
    let kw = w.bytes();
    if has_word_exec(s, i, kw.as_slice()) {
        assert(s@.len() == s.len());
        Some(i + kw.len())
    } else {
        None
    }
}

/// Matches the keyword `w` at `i`.
fn keyword_exec(s: &[u8], i: usize, w: Word) -> (r: Outcome<()>)
    requires
        i <= s@.len(),
        w.spelling().len() > 0,
    ensures
        r@ == keyword(s@, i as int, w),
{
    let kw = w.bytes();
    if let Some(j) = word_end(s, i, w) {
        Outcome::Done((), j)
    } else if i < s.len() && s[i] == kw[0] {
        Outcome::Committed
    } else {
        Outcome::Empty
    }
}

/// Matches the keyword `w` at `i` and the whitespace after it.
fn token_exec(s: &[u8], i: usize, w: Word) -> (r: Outcome<()>)
    requires
        i <= s@.len(),
        w.spelling().len() > 0,
    ensures
        r@ == token(s@, i as int, w),
        r matches Outcome::Done(_, j) ==> i < j <= s@.len(),
{
    match keyword_exec(s, i, w) {
        Outcome::Done(_, j) => Outcome::Done((), skip_spaces_exec(s, j)),
        Outcome::Empty => Outcome::Empty,
        Outcome::Committed => Outcome::Committed,
    }
}

/// Parses a line termination at `k`: a carriage return and a line feed, or a line feed.
pub fn parse_line_end(s: &[u8], k: usize) -> (r: Outcome<()>)
    requires
        k <= s@.len(),
    ensures
        r@ == line_end(s@, k as int),
{
    if k < s.len() && s[k] == 13 {
        if k + 1 < s.len() && s[k + 1] == 10 {
            Outcome::Done((), k + 2)
        } else {
            Outcome::Committed
        }
    } else if k < s.len() && s[k] == 10 {
        Outcome::Done((), k + 1)
    } else {
        Outcome::Empty
    }
}

/// Parses a comment statement at `i`.
fn comment_exec(s: &[u8], i: usize) -> (r: Outcome<()>)
    requires
        i <= s@.len(),
    ensures
        r@ == comment(s@, i as int),
        r matches Outcome::Done(_, j) ==> i < j <= s@.len(),
{
    match token_exec(s, i, Word::Comment) {
        Outcome::Done(_, j) => {
            let k = skip_to_line_break_exec(s, j);
            match parse_line_end(s, k) {
                Outcome::Done(_, _) => Outcome::Done((), skip_spaces_exec(s, k)),
                _ => Outcome::Committed,
            }
        },
        Outcome::Empty => Outcome::Empty,
        Outcome::Committed => Outcome::Committed,
    }
}

/// Where the text of a comment statement at `i` begins: after `comment` and its whitespace.
pub open spec fn comment_text_start(s: Seq<u8>, i: int) -> int {
    match token(s, i, Word::Comment) {
        Parsed::Done(_, j) => j,
        _ => i,
    }
}

/// A comment statement with its text: the bytes from after `comment` and its whitespace up to
/// the line termination, read as UTF-8.
pub open spec fn comment_statement(s: Seq<u8>, i: int) -> Parsed<Seq<char>> {
    match comment(s, i) {
        Parsed::Done(_, e) => {
            let j = comment_text_start(s, i);
            Parsed::Done(utf8_lossy(s.subrange(j, skip_to_line_break(s, j))), e)
        },
        Parsed::Empty => Parsed::Empty,
        Parsed::Committed => Parsed::Committed,
    }
}

/// Parses a comment statement at `i` and gives its text.
pub fn parse_comment_statement(s: &[u8], i: usize) -> (r: Outcome<String>)
    requires
        i <= s@.len(),
    ensures
        r@ == comment_statement(s@, i as int),
{
    match comment_exec(s, i) {
        Outcome::Done(_, e) => {
            let j = match token_exec(s, i, Word::Comment) {
                Outcome::Done(_, j) => j,
                _ => i,
            };
            let k = skip_to_line_break_exec(s, j);
            proof {
                lemma_skip_while_bounds(s@, j as int, |b: u8| !is_line_break(b));
            }
            let text = text_from_bytes(vstd::slice::slice_subrange(s, j, k));
            Outcome::Done(text, e)
        },
        Outcome::Empty => Outcome::Empty,
        Outcome::Committed => Outcome::Committed,
    }
}

/// Parses an unsigned decimal number at `i`.
pub fn parse_unsigned(s: &[u8], i: usize) -> (r: Outcome<usize>)
    requires
        i <= s@.len(),
    ensures
        r@ == unsigned(s@, i as int),
        r matches Outcome::Done(_, j) ==> i < j <= s@.len(),
{
    let e = skip_digits_exec(s, i);
    if e == i {
        return Outcome::Empty;
    }
    proof {
        lemma_skip_while_bounds(s@, i as int, |b: u8| is_digit(b));
    }
    let mut v: usize = 0;
    let mut k: usize = i;
    while k < e
        invariant
            i <= k <= e <= s@.len(),
            e == skip_digits(s@, i as int),
            forall|j: int| i <= j < e ==> is_digit(#[trigger] s@[j]),
            v == digits_value(s@, i as int, k as int),
        decreases e - k,
    {
        let d = (s[k] - 48) as usize;
        proof {
            assert(is_digit(s@[k as int]));
            lemma_digits_value_grows(s@, i as int, k + 1, e as int);
        }
        match v.checked_mul(10) {
            Some(m) => match m.checked_add(d) {
                Some(n) => {
                    v = n;
                },
                None => {
                    return Outcome::Committed;
                },
            },
            None => {
                return Outcome::Committed;
            },
        }
        k = k + 1;
    }
    Outcome::Done(v, e)
}

/// The text that `String::from_utf8_lossy` makes of the bytes `b`.
pub uninterp spec fn utf8_lossy(b: Seq<u8>) -> Seq<char>;

/// The text of bytes read as UTF-8, each invalid sequence replaced by U+FFFD.
///
/// Calls `String::from_utf8_lossy`, whose result is named `utf8_lossy`. On bytes that are valid
/// UTF-8, as ASCII bytes are, it returns them unchanged as a string: each ASCII byte is the
/// character of the same code. What it makes of other bytes is left unsaid here.
#[verifier::external_body]
fn text_from_bytes(b: &[u8]) -> (r: String)
    ensures
        r@ == utf8_lossy(b@),
        (forall|k: int| 0 <= k < b@.len() ==> #[trigger] b@[k] < 128) ==> r@ == ascii_chars(b@),
{
    String::from_utf8_lossy(b).into_owned()
}

/// Parses a name at `i`.
fn name_exec(s: &[u8], i: usize) -> (r: Outcome<String>)
    requires
        i <= s@.len(),
    ensures
        r@ == name(s@, i as int),
        r matches Outcome::Done(_, j) ==> i < j <= s@.len(),
{
    let e = skip_name_exec(s, i);
    if e == i {
        return Outcome::Empty;
    }
    proof {
        lemma_skip_while_bounds(s@, i as int, |b: u8| is_name_byte(b));
    }
    let mut bytes: Vec<u8> = Vec::new();
    let mut k: usize = i;
    while k < e
        invariant
            i <= k <= e <= s@.len(),
            forall|j: int| i <= j < e ==> is_name_byte(#[trigger] s@[j]),
            bytes@ == s@.subrange(i as int, k as int),
        decreases e - k,
    {
        bytes.push(s[k]);
        proof {
            assert(bytes@ =~= s@.subrange(i as int, k + 1));
        }
        k = k + 1;
    }
    proof {
        assert forall|j: int| 0 <= j < bytes@.len() implies #[trigger] bytes@[j] < 128 by {
            assert(is_name_byte(s@[i + j]));
        }
    }
    Outcome::Done(text_from_bytes(bytes.as_slice()), e)
}

/// Parses a property data type at `i`.
fn data_type_exec(s: &[u8], i: usize) -> (r: Outcome<DataType>)
    requires
        i <= s@.len(),
    ensures
        r@ == data_type(s@, i as int),
        r matches Outcome::Done(_, j) ==> i < j <= s@.len(),
{
    if let Some(j) = word_end(s, i, Word::Int8) {
        return Outcome::Done(DataType::Int8, j);
    }
    if let Some(j) = word_end(s, i, Word::Char) {
        return Outcome::Done(DataType::Int8, j);
    }
    if let Some(j) = word_end(s, i, Word::Uint8) {
        return Outcome::Done(DataType::Uint8, j);
    }
    if let Some(j) = word_end(s, i, Word::Uchar) {
        return Outcome::Done(DataType::Uint8, j);
    }
    if let Some(j) = word_end(s, i, Word::Int16) {
        return Outcome::Done(DataType::Int16, j);
    }
    if let Some(j) = word_end(s, i, Word::Short) {
        return Outcome::Done(DataType::Int16, j);
    }
    if let Some(j) = word_end(s, i, Word::Uint16) {
        return Outcome::Done(DataType::Uint16, j);
    }
    if let Some(j) = word_end(s, i, Word::Ushort) {
        return Outcome::Done(DataType::Uint16, j);
    }
    if let Some(j) = word_end(s, i, Word::Int32) {
        return Outcome::Done(DataType::Int32, j);
    }
    if let Some(j) = word_end(s, i, Word::Int) {
        return Outcome::Done(DataType::Uint32, j);
    }
    if let Some(j) = word_end(s, i, Word::Uint32) {
        return Outcome::Done(DataType::Uint32, j);
    }
    if let Some(j) = word_end(s, i, Word::Uint) {
        return Outcome::Done(DataType::Uint32, j);
    }
    if let Some(j) = word_end(s, i, Word::Float32) {
        return Outcome::Done(DataType::Float32, j);
    }
    if let Some(j) = word_end(s, i, Word::Float) {
        return Outcome::Done(DataType::Float32, j);
    }
    if let Some(j) = word_end(s, i, Word::Float64) {
        return Outcome::Done(DataType::Float64, j);
    }
    if let Some(j) = word_end(s, i, Word::Double) {
        return Outcome::Done(DataType::Float64, j);
    }
    Outcome::Empty
}

/// Parses a count data type at `i`.
fn count_type_exec(s: &[u8], i: usize) -> (r: Outcome<CountType>)
    requires
        i <= s@.len(),
    ensures
        r@ == count_type(s@, i as int),
        r matches Outcome::Done(_, j) ==> i < j <= s@.len(),
{
    if let Some(j) = word_end(s, i, Word::Uint8) {
        return Outcome::Done(CountType::Uint8, j);
    }
    if let Some(j) = word_end(s, i, Word::Uchar) {
        return Outcome::Done(CountType::Uint8, j);
    }
    if let Some(j) = word_end(s, i, Word::Uint16) {
        return Outcome::Done(CountType::Uint16, j);
    }
    if let Some(j) = word_end(s, i, Word::Ushort) {
        return Outcome::Done(CountType::Uint16, j);
    }
    if let Some(j) = word_end(s, i, Word::Uint32) {
        return Outcome::Done(CountType::Uint32, j);
    }
    if let Some(j) = word_end(s, i, Word::Uint) {
        return Outcome::Done(CountType::Uint32, j);
    }
    Outcome::Empty
}

/// Parses a format type at `i`.
fn format_type_exec(s: &[u8], i: usize) -> (r: Outcome<FormatType>)
    requires
        i <= s@.len(),
    ensures
        r@ == format_type(s@, i as int),
        r matches Outcome::Done(_, j) ==> i < j <= s@.len(),
{
    if let Some(j) = word_end(s, i, Word::Ascii) {
        return Outcome::Done(FormatType::Ascii, j);
    }
    if let Some(j) = word_end(s, i, Word::BinaryBigEndian) {
        return Outcome::Done(FormatType::BinaryBigEndian, j);
    }
    if let Some(j) = word_end(s, i, Word::BinaryLittleEndian) {
        return Outcome::Done(FormatType::BinaryLittleEndian, j);
    }
    Outcome::Empty
}

/// The optional list marker of a property statement: `list` and a count data type, each
/// followed by whitespace; `None`, reading nothing, where the statement has no `list`.
pub open spec fn list_marker(s: Seq<u8>, i: int) -> Parsed<Option<CountType>> {
    match token(s, i, Word::List) {
        Parsed::Done(_, a) => match count_type(s, a) {
            Parsed::Done(c, b) => Parsed::Done(Some(c), skip_spaces(s, b)),
            _ => Parsed::Committed,
        },
        Parsed::Empty => Parsed::Done(None, i),
        Parsed::Committed => Parsed::Committed,
    }
}

/// A property statement: `property`, the optional list marker, a data type and a name, each
/// followed by whitespace. Its value is the name, the count type and the data type.
pub open spec fn property(s: Seq<u8>, i: int) -> Parsed<(Seq<char>, Option<CountType>, DataType)> {
    match token(s, i, Word::Property) {
        Parsed::Done(_, a) => match list_marker(s, a) {
            Parsed::Done(c, b) => match data_type(s, b) {
                Parsed::Done(t, d) => match name(s, skip_spaces(s, d)) {
                    Parsed::Done(n, e) => Parsed::Done((n, c, t), skip_spaces(s, e)),
                    _ => Parsed::Committed,
                },
                _ => Parsed::Committed,
            },
            _ => Parsed::Committed,
        },
        Parsed::Empty => Parsed::Empty,
        Parsed::Committed => Parsed::Committed,
    }
}

/// An element statement: `element`, a name and the number of occurrences, each followed by
/// whitespace.
pub open spec fn element_statement(s: Seq<u8>, i: int) -> Parsed<(Seq<char>, usize)> {
    match token(s, i, Word::Element) {
        Parsed::Done(_, a) => match name(s, a) {
            Parsed::Done(n, b) => match unsigned(s, skip_spaces(s, b)) {
                Parsed::Done(c, d) => Parsed::Done((n, c), skip_spaces(s, d)),
                _ => Parsed::Committed,
            },
            _ => Parsed::Committed,
        },
        Parsed::Empty => Parsed::Empty,
        Parsed::Committed => Parsed::Committed,
    }
}

/// The position after the comment statements that start at `q`, or `None` where one of them
/// fails committed.
pub open spec fn comments(s: Seq<u8>, q: int) -> Option<int>
    decreases s.len() - q,
{
    match comment(s, q) {
        Parsed::Done(_, r) => if q < r <= s.len() {
            comments(s, r)
        } else {
            None
        },
        Parsed::Empty => Some(q),
        Parsed::Committed => None,
    }
}

/// The position after the comment statements that start at `q`, read tentatively: the first
/// failure ends them.
pub open spec fn tentative_comments(s: Seq<u8>, q: int) -> int
    decreases s.len() - q,
{
    match comment(s, q) {
        Parsed::Done(_, r) => if q < r <= s.len() {
            tentative_comments(s, r)
        } else {
            q
        },
        _ => q,
    }
}

/// Comment statements followed by a property statement; it fails committed where comments
/// were read before a property statement failed.
pub open spec fn commented_property(s: Seq<u8>, q: int) -> Parsed<(Seq<char>, Option<CountType>, DataType)> {
    match comments(s, q) {
        Some(c) => match property(s, c) {
            Parsed::Done(p, r) => Parsed::Done(p, r),
            Parsed::Empty => if c == q {
                Parsed::Empty
            } else {
                Parsed::Committed
            },
            Parsed::Committed => Parsed::Committed,
        },
        None => Parsed::Committed,
    }
}

/// The commented property statements that start at `q`, and the position after them, or
/// `None` where one fails committed.
pub open spec fn properties(s: Seq<u8>, q: int) -> Option<(Seq<(Seq<char>, Option<CountType>, DataType)>, int)>
    decreases s.len() - q,
{
    match commented_property(s, q) {
        Parsed::Done(p, r) => if q < r <= s.len() {
            match properties(s, r) {
                Some((ps, e)) => Some((seq![p] + ps, e)),
                None => None,
            }
        } else {
            None
        },
        Parsed::Empty => Some((seq![], q)),
        Parsed::Committed => None,
    }
}

/// An element: tentative comments, an element statement and at least one commented property
/// statement.
pub open spec fn element_group(s: Seq<u8>, q: int) -> Option<((Seq<char>, usize, Seq<(Seq<char>, Option<CountType>, DataType)>), int)> {
    match element_statement(s, tentative_comments(s, q)) {
        Parsed::Done((n, c), b) => match properties(s, b) {
            Some((ps, e)) => if ps.len() > 0 {
                Some(((n, c, ps), e))
            } else {
                None
            },
            None => None,
        },
        _ => None,
    }
}

/// The elements that start at `q`, read tentatively, and the position after them.
pub open spec fn elements(s: Seq<u8>, q: int) -> (Seq<(Seq<char>, usize, Seq<(Seq<char>, Option<CountType>, DataType)>)>, int)
    decreases s.len() - q,
{
    match element_group(s, q) {
        Some((el, r)) => if q < r <= s.len() {
            let (es, e) = elements(s, r);
            (seq![el] + es, e)
        } else {
            (seq![], q)
        },
        None => (seq![], q),
    }
}

/// The numbers that follow the first one of a version: each is a `.` and an unsigned number.
pub open spec fn version_rest(s: Seq<u8>, j: int) -> Option<(Seq<usize>, int)>
    decreases s.len() - j,
{
    if 0 <= j < s.len() && s[j] == 46 {
        match unsigned(s, j + 1) {
            Parsed::Done(v, k) => if j < k <= s.len() {
                match version_rest(s, k) {
                    Some((vs, e)) => Some((seq![v] + vs, e)),
                    None => None,
                }
            } else {
                None
            },
            _ => None,
        }
    } else {
        Some((seq![], j))
    }
}

/// A format version: it must begin with `1.0`, and is read as unsigned numbers separated by
/// `.`.
pub open spec fn version(s: Seq<u8>, i: int) -> Option<(Seq<usize>, int)> {
    if has_word(s, i, Word::VersionOne.spelling()) {
        match unsigned(s, i) {
            Parsed::Done(v, j) => match version_rest(s, j) {
                Some((vs, e)) => Some((seq![v] + vs, e)),
                None => None,
            },
            _ => None,
        }
    } else {
        None
    }
}

/// A format statement: `format`, a format type and a version, each followed by whitespace.
pub open spec fn format_statement(s: Seq<u8>, i: int) -> Option<((FormatType, Seq<usize>), int)> {
    match token(s, i, Word::Format) {
        Parsed::Done(_, a) => match format_type(s, a) {
            Parsed::Done(f, b) => match version(s, skip_spaces(s, b)) {
                Some((v, c)) => Some(((f, v), skip_spaces(s, c))),
                None => None,
            },
            _ => None,
        },
        _ => None,
    }
}

/// The header that `s` begins with, and the position after it, or `None` where `s` does not
/// begin with a header: `ply`, tentative comments, the format statement, the elements, and
/// `end_header`, each followed by whitespace.
pub open spec fn header_of(s: Seq<u8>) -> Option<((FormatType, Seq<usize>, Seq<(Seq<char>, usize, Seq<(Seq<char>, Option<CountType>, DataType)>)>), int)> {
    match token(s, 0, Word::Ply) {
        Parsed::Done(_, a) => match format_statement(s, tentative_comments(s, a)) {
            Some(((f, v), b)) => {
                let (es, c) = elements(s, b);
                match token(s, c, Word::EndHeader) {
                    Parsed::Done(_, d) => Some(((f, v, es), d)),
                    _ => None,
                }
            },
            None => None,
        },
        _ => None,
    }
}

/// Parses the optional list marker of a property statement at `i`.
fn list_marker_exec(s: &[u8], i: usize) -> (r: Outcome<Option<CountType>>)
    requires
        i <= s@.len(),
    ensures
        r@ == list_marker(s@, i as int),
        r matches Outcome::Done(_, j) ==> i <= j <= s@.len(),
{
    match token_exec(s, i, Word::List) {
        Outcome::Done(_, a) => match count_type_exec(s, a) {
            Outcome::Done(c, b) => Outcome::Done(Some(c), skip_spaces_exec(s, b)),
            _ => Outcome::Committed,
        },
        Outcome::Empty => Outcome::Done(None, i),
        Outcome::Committed => Outcome::Committed,
    }
}

/// Parses a property statement at `i`.
pub fn parse_property(s: &[u8], i: usize) -> (r: Outcome<Property>)
    requires
        i <= s@.len(),
    ensures
        r@ == property(s@, i as int),
        r matches Outcome::Done(_, j) ==> i < j <= s@.len(),
{
    match token_exec(s, i, Word::Property) {
        Outcome::Done(_, a) => match list_marker_exec(s, a) {
            Outcome::Done(c, b) => match data_type_exec(s, b) {
                Outcome::Done(t, d) => match name_exec(s, skip_spaces_exec(s, d)) {
                    Outcome::Done(n, e) => {
                        let p = Property { name: n, count_data_type: c, data_type: t };
                        Outcome::Done(p, skip_spaces_exec(s, e))
                    },
                    _ => Outcome::Committed,
                },
                _ => Outcome::Committed,
            },
            _ => Outcome::Committed,
        },
        Outcome::Empty => Outcome::Empty,
        Outcome::Committed => Outcome::Committed,
    }
}

/// Parses an element statement at `i`.
pub fn parse_element_statement(s: &[u8], i: usize) -> (r: Outcome<(String, usize)>)
    requires
        i <= s@.len(),
    ensures
        r@ == element_statement(s@, i as int),
        r matches Outcome::Done(_, j) ==> i < j <= s@.len(),
{
    match token_exec(s, i, Word::Element) {
        Outcome::Done(_, a) => match name_exec(s, a) {
            Outcome::Done(n, b) => match parse_unsigned(s, skip_spaces_exec(s, b)) {
                Outcome::Done(c, d) => Outcome::Done((n, c), skip_spaces_exec(s, d)),
                _ => Outcome::Committed,
            },
            _ => Outcome::Committed,
        },
        Outcome::Empty => Outcome::Empty,
        Outcome::Committed => Outcome::Committed,
    }
}

/// Skips the comment statements at `q`.
fn comments_exec(s: &[u8], q: usize) -> (r: Option<usize>)
    requires
        q <= s@.len(),
    ensures
        match r {
            Some(k) => comments(s@, q as int) == Some(k as int) && q <= k <= s@.len(),
            None => comments(s@, q as int) is None,
        },
{
    let mut k = q;
    loop
        invariant
            q <= k <= s@.len(),
            comments(s@, q as int) == comments(s@, k as int),
        decreases s@.len() - k,
    {
        match comment_exec(s, k) {
            Outcome::Done(_, r) => {
                k = r;
            },
            Outcome::Empty => {
                return Some(k);
            },
            Outcome::Committed => {
                return None;
            },
        }
    }
}

/// Skips the comment statements at `q`, read tentatively.
fn tentative_comments_exec(s: &[u8], q: usize) -> (r: usize)
    requires
        q <= s@.len(),
    ensures
        r == tentative_comments(s@, q as int),
        q <= r <= s@.len(),
{
    let mut k = q;
    loop
        invariant
            q <= k <= s@.len(),
            tentative_comments(s@, q as int) == tentative_comments(s@, k as int),
        decreases s@.len() - k,
    {
        match comment_exec(s, k) {
            Outcome::Done(_, r) => {
                k = r;
            },
            _ => {
                return k;
            },
        }
    }
}

/// Parses comment statements followed by a property statement at `q`.
fn commented_property_exec(s: &[u8], q: usize) -> (r: Outcome<Property>)
    requires
        q <= s@.len(),
    ensures
        r@ == commented_property(s@, q as int),
        r matches Outcome::Done(_, j) ==> q < j <= s@.len(),
{
    match comments_exec(s, q) {
        Some(c) => match parse_property(s, c) {
            Outcome::Done(p, r) => Outcome::Done(p, r),
            Outcome::Empty => if c == q {
                Outcome::Empty
            } else {
                Outcome::Committed
            },
            Outcome::Committed => Outcome::Committed,
        },
        None => Outcome::Committed,
    }
}

/// The views of properties.
pub open spec fn property_views(ps: Seq<Property>) -> Seq<(Seq<char>, Option<CountType>, DataType)> {
    ps.map_values(|p: Property| p@)
}

/// Parses the commented property statements at `q`.
fn properties_exec(s: &[u8], q: usize) -> (r: Option<(Vec<Property>, usize)>)
    requires
        q <= s@.len(),
    ensures
        match r {
            Some((ps, e)) => properties(s@, q as int) == Some((property_views(ps@), e as int)) && q <= e <= s@.len(),
            None => properties(s@, q as int) is None,
        },
{
    let mut acc: Vec<Property> = Vec::new();
    let mut k = q;
    loop
        invariant
            q <= k <= s@.len(),
            properties(s@, q as int) == (match properties(s@, k as int) {
                Some((ps, e)) => Some((property_views(acc@) + ps, e)),
                None => None,
            }),
        decreases s@.len() - k,
    {
        match commented_property_exec(s, k) {
            Outcome::Done(p, r) => {
                let ghost before = acc@;
                proof {
                    match properties(s@, r as int) {
                        Some((ps, e)) => {
                            assert(property_views(before.push(p)) + ps =~= property_views(before) + (seq![p@] + ps));
                        },
                        None => {},
                    }
                }
                acc.push(p);
                k = r;
            },
            Outcome::Empty => {
                assert(property_views(acc@) + seq![] =~= property_views(acc@));
                return Some((acc, k));
            },
            Outcome::Committed => {
                return None;
            },
        }
    }
}

/// Parses an element at `q`.
fn element_group_exec(s: &[u8], q: usize) -> (r: Option<(Element, usize)>)
    requires
        q <= s@.len(),
    ensures
        match r {
            Some((el, e)) => element_group(s@, q as int) == Some((el@, e as int)) && q < e <= s@.len(),
            None => element_group(s@, q as int) is None,
        },
{
    let a = tentative_comments_exec(s, q);
    match parse_element_statement(s, a) {
        Outcome::Done((n, c), b) => match properties_exec(s, b) {
            Some((ps, e)) => if ps.len() > 0 {
                let el = Element { name: n, count: c, properties: ps };
                Some((el, e))
            } else {
                None
            },
            None => None,
        },
        _ => None,
    }
}

/// The views of elements.
pub open spec fn element_views(es: Seq<Element>) -> Seq<(Seq<char>, usize, Seq<(Seq<char>, Option<CountType>, DataType)>)> {
    es.map_values(|e: Element| e@)
}

/// Parses the elements at `q`, read tentatively.
fn elements_exec(s: &[u8], q: usize) -> (r: (Vec<Element>, usize))
    requires
        q <= s@.len(),
    ensures
        elements(s@, q as int) == (element_views(r.0@), r.1 as int),
        q <= r.1 <= s@.len(),
{
    let mut acc: Vec<Element> = Vec::new();
    let mut k = q;
    loop
        invariant
            q <= k <= s@.len(),
            elements(s@, q as int) == (element_views(acc@) + elements(s@, k as int).0, elements(s@, k as int).1),
        decreases s@.len() - k,
    {
        match element_group_exec(s, k) {
            Some((el, r)) => {
                let ghost before = acc@;
                proof {
                    let (es, e) = elements(s@, r as int);
                    assert(element_views(before.push(el)) + es =~= element_views(before) + (seq![el@] + es));
                }
                acc.push(el);
                k = r;
            },
            None => {
                assert(element_views(acc@) + seq![] =~= element_views(acc@));
                return (acc, k);
            },
        }
    }
}

/// Parses the numbers that follow the first one of a version at `j`.
fn version_rest_exec(s: &[u8], j: usize) -> (r: Option<(Vec<usize>, usize)>)
    requires
        j <= s@.len(),
    ensures
        match r {
            Some((vs, e)) => version_rest(s@, j as int) == Some((vs@, e as int)) && j <= e <= s@.len(),
            None => version_rest(s@, j as int) is None,
        },
{
    let mut acc: Vec<usize> = Vec::new();
    let mut k = j;
    loop
        invariant
            j <= k <= s@.len(),
            version_rest(s@, j as int) == (match version_rest(s@, k as int) {
                Some((vs, e)) => Some((acc@ + vs, e)),
                None => None,
            }),
        decreases s@.len() - k,
    {
        if k < s.len() && s[k] == 46 {
            match parse_unsigned(s, k + 1) {
                Outcome::Done(v, n) => {
                    let ghost before = acc@;
                    proof {
                        match version_rest(s@, n as int) {
                            Some((vs, e)) => {
                                assert(before.push(v) + vs =~= before + (seq![v] + vs));
                            },
                            None => {},
                        }
                    }
                    acc.push(v);
                    k = n;
                },
                _ => {
                    return None;
                },
            }
        } else {
            assert(acc@ + seq![] =~= acc@);
            return Some((acc, k));
        }
    }
}

/// Parses a format version at `i`.
fn version_exec(s: &[u8], i: usize) -> (r: Option<(Vec<usize>, usize)>)
    requires
        i <= s@.len(),
    ensures
        match r {
            Some((vs, e)) => version(s@, i as int) == Some((vs@, e as int)) && i <= e <= s@.len(),
            None => version(s@, i as int) is None,
        },
{
    if word_end(s, i, Word::VersionOne).is_none() {
        return None;
    }
    match parse_unsigned(s, i) {
        Outcome::Done(v, j) => match version_rest_exec(s, j) {
            Some((rest, e)) => {
                let mut vs: Vec<usize> = Vec::new();
                vs.push(v);
                let mut rest = rest;
                let ghost tail = rest@;
                vs.append(&mut rest);
                assert(vs@ =~= seq![v] + tail);
                Some((vs, e))
            },
            None => None,
        },
        _ => None,
    }
}

/// Parses a format statement at `i`.
pub fn parse_format_statement(s: &[u8], i: usize) -> (r: Option<(Format, usize)>)
    requires
        i <= s@.len(),
    ensures
        match r {
            Some((f, e)) => format_statement(s@, i as int) == Some(((f.format, f.version@), e as int)) && i <= e <= s@.len(),
            None => format_statement(s@, i as int) is None,
        },
{
    match token_exec(s, i, Word::Format) {
        Outcome::Done(_, a) => match format_type_exec(s, a) {
            Outcome::Done(f, b) => match version_exec(s, skip_spaces_exec(s, b)) {
                Some((v, c)) => Some((Format { format: f, version: v }, skip_spaces_exec(s, c))),
                None => None,
            },
            _ => None,
        },
        _ => None,
    }
}

/// Parses the header that `input` begins with: returns it with the number of bytes it takes
/// up (the body of the file follows), or `None` where `input` does not begin with a header.
pub fn header(input: &[u8]) -> (r: Option<(Header, usize)>)
    ensures
        match r {
            Some((h, n)) => header_of(input@) == Some((h@, n as int)) && n <= input@.len(),
            None => header_of(input@) is None,
        },
{
    let s = input;
    match token_exec(s, 0, Word::Ply) {
        Outcome::Done(_, a) => {
            let b0 = tentative_comments_exec(s, a);
            match parse_format_statement(s, b0) {
                Some((format, b)) => {
                    let (elements, c) = elements_exec(s, b);
                    match token_exec(s, c, Word::EndHeader) {
                        Outcome::Done(_, d) => {
                            let h = Header { format, elements };
                            assert(h@.2 =~= element_views(h.elements@));
                            Some((h, d))
                        },
                        _ => None,
                    }
                },
                None => None,
            }
        },
        _ => None,
    }
}

} // verus!

verus! {

/// The keyword that names a format in a format statement.
pub open spec fn format_keyword(f: FormatType) -> Seq<u8> {
    match f {
        FormatType::Ascii => seq![97u8, 115, 99, 105, 105],
        FormatType::BinaryBigEndian => seq![98u8, 105, 110, 97, 114, 121, 95, 98, 105, 103, 95, 101, 110, 100, 105, 97, 110],
        FormatType::BinaryLittleEndian => seq![98u8, 105, 110, 97, 114, 121, 95, 108, 105, 116, 116, 108, 101, 95, 101, 110, 100, 105, 97, 110],
    }
}

/// The format read is the format whose keyword stands there: where a format is read at `i`,
/// its keyword (`ascii`, `binary_big_endian` or `binary_little_endian`) stands at `i` and the
/// reading ends right after it; and where a format's keyword stands at `i`, that format is read.
pub proof fn lemma_format_type_is_the_keyword_read(s: Seq<u8>, i: int)
    ensures
        format_type(s, i) matches Parsed::Done(f, j) ==> has_word(s, i, format_keyword(f)) && j == i + format_keyword(f).len(),
        forall|f: FormatType| #[trigger] has_word(s, i, format_keyword(f)) ==> format_type(s, i) == Parsed::Done(f, i + format_keyword(f).len()),
{
    let a = format_keyword(FormatType::Ascii);
    let b = format_keyword(FormatType::BinaryBigEndian);
    let l = format_keyword(FormatType::BinaryLittleEndian);
    assert(Word::Ascii.spelling() == a);
    assert(Word::BinaryBigEndian.spelling() == b);
    assert(Word::BinaryLittleEndian.spelling() == l);
    if has_word(s, i, a) {
        assert(s[i] == s.subrange(i, i + a.len())[0]);
        if has_word(s, i, b) {
            assert(s[i] == s.subrange(i, i + b.len())[0]);
        }
        if has_word(s, i, l) {
            assert(s[i] == s.subrange(i, i + l.len())[0]);
        }
    }
    if has_word(s, i, b) && has_word(s, i, l) {
        assert(s[i + 7] == s.subrange(i, i + b.len())[7]);
        assert(s[i + 7] == s.subrange(i, i + l.len())[7]);
    }
}

} // verus!
