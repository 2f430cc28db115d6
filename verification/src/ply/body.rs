//! The body of a PLY file, read as functions on bytes: for each element of the header in turn,
//! as many records as the element has occurrences, each record holding one value per property.
//!
//! A scalar property has one number; a list property has a count followed by that many
//! numbers. In the ascii format every number is followed by whitespace; in the binary formats
//! numbers take the width of their type, in big- or little-endian byte order. Integers are read
//! exactly; floating-point values are kept as written, as text or as bits, for the caller to
//! turn into floats.

use vstd::prelude::*;
use super::header::{
    digits_value, element_views, header, header_of, property_views, is_digit, lemma_digits_value_grows, lemma_skip_while_bounds, skip_digits,
    skip_digits_exec, skip_spaces, skip_spaces_exec, unsigned, parse_unsigned, Outcome, Parsed,
};
use super::types::{Body, CountType, DataType, Element, ElementData, FormatType, Header, Ply, Property};

verus! {

/// A number read from the body of a PLY file.
#[derive(Debug, Clone, Copy, PartialEq, Eq, Structural)]
pub enum Number {
    /// A value of a signed integer type.
    Signed(i64),
    /// A value of an unsigned integer type.
    Unsigned(u64),
    /// A floating-point value written as text: the position of its first byte and the position
    /// after its last byte.
    FloatText(usize, usize),
    /// A floating-point value in binary: its bits, as an unsigned integer.
    FloatBits(u64),
}

/// The data type is a signed integer type.
pub open spec fn is_signed(t: DataType) -> bool {
    t == DataType::Int8 || t == DataType::Int16 || t == DataType::Int32
}

/// The data type is a floating-point type.
pub open spec fn is_float(t: DataType) -> bool {
    t == DataType::Float32 || t == DataType::Float64
}

/// The largest value of an integer data type.
pub open spec fn max_value(t: DataType) -> int {
    match t {
        DataType::Int8 => 0x7f,
        DataType::Uint8 => 0xff,
        DataType::Int16 => 0x7fff,
        DataType::Uint16 => 0xffff,
        DataType::Int32 => 0x7fff_ffff,
        DataType::Uint32 => 0xffff_ffff,
        _ => 0,
    }
}

/// The number of bytes of a value of the data type in the binary formats.
pub open spec fn width(t: DataType) -> int {
    match t {
        DataType::Int8 | DataType::Uint8 => 1,
        DataType::Int16 | DataType::Uint16 => 2,
        DataType::Int32 | DataType::Uint32 | DataType::Float32 => 4,
        DataType::Float64 => 8,
    }
}

/// The number of bytes of a count of the count type in the binary formats.
pub open spec fn count_width(c: CountType) -> int {
    match c {
        CountType::Uint8 => 1,
        CountType::Uint16 => 2,
        CountType::Uint32 => 4,
    }
}

/// An integer of data type `t` written as text at `i`: a `-` for the signed types, then one or
/// more digits whose value does not exceed the type's largest value, then whitespace.
pub open spec fn text_integer(s: Seq<u8>, i: int, t: DataType) -> Option<(Number, int)> {
    let neg = is_signed(t) && 0 <= i < s.len() && s[i] == 45;
    let d = if neg { i + 1 } else { i };
    let e = skip_digits(s, d);
    if e == d || digits_value(s, d, e) > max_value(t) {
        None
    } else if is_signed(t) {
        let v = digits_value(s, d, e);
        Some((Number::Signed((if neg { -v } else { v }) as i64), skip_spaces(s, e)))
    } else {
        Some((Number::Unsigned(digits_value(s, d, e) as u64), skip_spaces(s, e)))
    }
}

/// The end of a floating-point value written as text at `i`: an optional `-`, one or more
/// digits, then optionally a `.` and any digits.
pub open spec fn float_text_end(s: Seq<u8>, i: int) -> Option<int> {
    let d = if 0 <= i < s.len() && s[i] == 45 { i + 1 } else { i };
    let e = skip_digits(s, d);
    if e == d {
        None
    } else if 0 <= e < s.len() && s[e] == 46 {
        Some(skip_digits(s, e + 1))
    } else {
        Some(e)
    }
}

/// The unsigned value of the `w` bytes at `i`, the first one most significant.
pub open spec fn big_endian(s: Seq<u8>, i: int, w: int) -> int
    decreases w,
{
    if w <= 0 {
        0
    } else {
        big_endian(s, i, w - 1) * 256 + s[i + w - 1]
    }
}

/// The unsigned value of the `w` bytes at `i`, the first one least significant.
pub open spec fn little_endian(s: Seq<u8>, i: int, w: int) -> int
    decreases w,
{
    if w <= 0 {
        0
    } else {
        little_endian(s, i + 1, w - 1) * 256 + s[i]
    }
}

/// The unsigned value of the `w` bytes at `i` in the byte order of the format.
pub open spec fn binary_value(s: Seq<u8>, i: int, w: int, big: bool) -> int {
    if big {
        big_endian(s, i, w)
    } else {
        little_endian(s, i, w)
    }
}

/// The two's complement reading of the unsigned value `v` of `w` bytes.
pub open spec fn twos_complement(v: int, w: int) -> int {
    if w == 1 {
        if v >= 0x80 { v - 0x100 } else { v }
    } else if w == 2 {
        if v >= 0x8000 { v - 0x1_0000 } else { v }
    } else {
        if v >= 0x8000_0000 { v - 0x1_0000_0000 } else { v }
    }
}

/// A number of data type `t` in binary at `i`.
pub open spec fn binary_number(s: Seq<u8>, i: int, t: DataType, big: bool) -> Option<(Number, int)> {
    let w = width(t);
    if i < 0 || i + w > s.len() {
        None
    } else {
        let v = binary_value(s, i, w, big);
        let n = if is_float(t) {
            Number::FloatBits(v as u64)
        } else if is_signed(t) {
            Number::Signed(twos_complement(v, w) as i64)
        } else {
            Number::Unsigned(v as u64)
        };
        Some((n, i + w))
    }
}

/// A number of data type `t` at `i` in the format `f`.
pub open spec fn number(s: Seq<u8>, i: int, f: FormatType, t: DataType) -> Option<(Number, int)> {
    match f {
        FormatType::Ascii => if is_float(t) {
            match float_text_end(s, i) {
                Some(e) => Some((Number::FloatText(i as usize, e as usize), skip_spaces(s, e))),
                None => None,
            }
        } else {
            text_integer(s, i, t)
        },
        FormatType::BinaryBigEndian => binary_number(s, i, t, true),
        FormatType::BinaryLittleEndian => binary_number(s, i, t, false),
    }
}

/// The count of a list property at `i` in the format `f`: in the ascii format an unsigned
/// number and whitespace, whatever the count type; in the binary formats an unsigned integer of
/// the count type.
pub open spec fn list_count(s: Seq<u8>, i: int, f: FormatType, c: CountType) -> Option<(usize, int)> {
    match f {
        FormatType::Ascii => match unsigned(s, i) {
            Parsed::Done(n, e) => Some((n, skip_spaces(s, e))),
            _ => None,
        },
        FormatType::BinaryBigEndian => if i < 0 || i + count_width(c) > s.len() {
            None
        } else {
            Some((big_endian(s, i, count_width(c)) as usize, i + count_width(c)))
        },
        FormatType::BinaryLittleEndian => if i < 0 || i + count_width(c) > s.len() {
            None
        } else {
            Some((little_endian(s, i, count_width(c)) as usize, i + count_width(c)))
        },
    }
}

/// `n` numbers of data type `t` at `i`, one after the other.
pub open spec fn numbers(s: Seq<u8>, i: int, f: FormatType, t: DataType, n: nat) -> Option<(Seq<Number>, int)>
    decreases n,
{
    if n == 0 {
        Some((seq![], i))
    } else {
        match number(s, i, f, t) {
            Some((x, j)) => match numbers(s, j, f, t, (n - 1) as nat) {
                Some((xs, e)) => Some((seq![x] + xs, e)),
                None => None,
            },
            None => None,
        }
    }
}

/// The value of the property `p` at `i`: one number for a scalar property, a count and that
/// many numbers for a list property.
pub open spec fn property_value(s: Seq<u8>, i: int, f: FormatType, p: (Seq<char>, Option<CountType>, DataType)) -> Option<(Seq<Number>, int)> {
    match p.1 {
        None => match number(s, i, f, p.2) {
            Some((x, j)) => Some((seq![x], j)),
            None => None,
        },
        Some(c) => match list_count(s, i, f, c) {
            Some((n, j)) => numbers(s, j, f, p.2, n as nat),
            None => None,
        },
    }
}

/// One record of an element with the properties `ps` at `i`: the value of each property in
/// turn.
pub open spec fn record(s: Seq<u8>, i: int, f: FormatType, ps: Seq<(Seq<char>, Option<CountType>, DataType)>) -> Option<(Seq<Seq<Number>>, int)>
    decreases ps.len(),
{
    if ps.len() == 0 {
        Some((seq![], i))
    } else {
        match property_value(s, i, f, ps[0]) {
            Some((v, j)) => match record(s, j, f, ps.drop_first()) {
                Some((vs, e)) => Some((seq![v] + vs, e)),
                None => None,
            },
            None => None,
        }
    }
}

/// `n` records of an element with the properties `ps` at `i`, one after the other.
pub open spec fn records(s: Seq<u8>, i: int, f: FormatType, ps: Seq<(Seq<char>, Option<CountType>, DataType)>, n: nat) -> Option<(Seq<Seq<Seq<Number>>>, int)>
    decreases n,
{
    if n == 0 {
        Some((seq![], i))
    } else {
        match record(s, i, f, ps) {
            Some((r, j)) => match records(s, j, f, ps, (n - 1) as nat) {
                Some((rs, e)) => Some((seq![r] + rs, e)),
                None => None,
            },
            None => None,
        }
    }
}

/// The records of the elements `es` at `i`: for each element in turn, as many records as it has
/// occurrences.
pub open spec fn body_of(s: Seq<u8>, i: int, f: FormatType, es: Seq<(Seq<char>, usize, Seq<(Seq<char>, Option<CountType>, DataType)>)>) -> Option<(Seq<Seq<Seq<Seq<Number>>>>, int)>
    decreases es.len(),
{
    if es.len() == 0 {
        Some((seq![], i))
    } else {
        match records(s, i, f, es[0].2, es[0].1 as nat) {
            Some((rs, j)) => match body_of(s, j, f, es.drop_first()) {
                Some((b, e)) => Some((seq![rs] + b, e)),
                None => None,
            },
            None => None,
        }
    }
}

/// The number `n` is of the kind of the data type `t`: a float for the floating-point types, a
/// signed integer for the signed types, an unsigned integer for the others.
pub open spec fn number_of_type(n: Number, t: DataType) -> bool {
    if is_float(t) {
        n is FloatText || n is FloatBits
    } else if is_signed(t) {
        n is Signed
    } else {
        n is Unsigned
    }
}

/// The value `v` fits the property `p`: a single number for a scalar property, and every number
/// of the kind of the property's data type.
pub open spec fn value_fits(v: Seq<Number>, p: (Seq<char>, Option<CountType>, DataType)) -> bool {
    &&& p.1 is None ==> v.len() == 1
    &&& forall|x: int| 0 <= x < v.len() ==> number_of_type(#[trigger] v[x], p.2)
}

/// The record `r` fits the properties `ps`: one value for each property, each fitting it.
pub open spec fn record_fits(r: Seq<Seq<Number>>, ps: Seq<(Seq<char>, Option<CountType>, DataType)>) -> bool {
    &&& r.len() == ps.len()
    &&& forall|q: int| 0 <= q < ps.len() ==> #[trigger] value_fits(r[q], ps[q])
}

/// The records `rs` are `n` records that fit the properties `ps`.
pub open spec fn records_fit(rs: Seq<Seq<Seq<Number>>>, ps: Seq<(Seq<char>, Option<CountType>, DataType)>, n: nat) -> bool {
    &&& rs.len() == n
    &&& forall|k: int| 0 <= k < rs.len() ==> #[trigger] record_fits(rs[k], ps)
}

/// The body `b` fits the elements `es`: for each element, as many records as it has
/// occurrences, each fitting its properties.
pub open spec fn body_fits(b: Seq<Seq<Seq<Seq<Number>>>>, es: Seq<(Seq<char>, usize, Seq<(Seq<char>, Option<CountType>, DataType)>)>) -> bool {
    &&& b.len() == es.len()
    &&& forall|m: int| 0 <= m < es.len() ==> #[trigger] records_fit(b[m], es[m].2, es[m].1 as nat)
}

proof fn lemma_number_fits(s: Seq<u8>, i: int, f: FormatType, t: DataType)
    ensures
        number(s, i, f, t) matches Some((n, _)) ==> number_of_type(n, t),
{
}

proof fn lemma_numbers_fit(s: Seq<u8>, i: int, f: FormatType, t: DataType, n: nat)
    ensures
        numbers(s, i, f, t, n) matches Some((v, _)) ==> v.len() == n && forall|x: int| 0 <= x < v.len() ==> number_of_type(#[trigger] v[x], t),
    decreases n,
{
    if n > 0 {
        lemma_number_fits(s, i, f, t);
        if let Some((x, j)) = number(s, i, f, t) {
            lemma_numbers_fit(s, j, f, t, (n - 1) as nat);
            if let Some((xs, e)) = numbers(s, j, f, t, (n - 1) as nat) {
                let v = seq![x] + xs;
                assert forall|y: int| 0 <= y < v.len() implies number_of_type(#[trigger] v[y], t) by {
                    if y > 0 {
                        assert(v[y] == xs[y - 1]);
                    }
                }
            }
        }
    }
}

proof fn lemma_property_value_fits(s: Seq<u8>, i: int, f: FormatType, p: (Seq<char>, Option<CountType>, DataType))
    ensures
        property_value(s, i, f, p) matches Some((v, _)) ==> value_fits(v, p),
{
    match p.1 {
        None => {
            lemma_number_fits(s, i, f, p.2);
            if let Some((x, j)) = number(s, i, f, p.2) {
                let v = seq![x];
                assert forall|y: int| 0 <= y < v.len() implies number_of_type(#[trigger] v[y], p.2) by {}
            }
        },
        Some(c) => {
            if let Some((n, j)) = list_count(s, i, f, c) {
                lemma_numbers_fit(s, j, f, p.2, n as nat);
            }
        },
    }
}

proof fn lemma_record_fits(s: Seq<u8>, i: int, f: FormatType, ps: Seq<(Seq<char>, Option<CountType>, DataType)>)
    ensures
        record(s, i, f, ps) matches Some((r, _)) ==> record_fits(r, ps),
    decreases ps.len(),
{
    if ps.len() > 0 {
        lemma_property_value_fits(s, i, f, ps[0]);
        if let Some((v, j)) = property_value(s, i, f, ps[0]) {
            lemma_record_fits(s, j, f, ps.drop_first());
            if let Some((vs, e)) = record(s, j, f, ps.drop_first()) {
                let r = seq![v] + vs;
                assert forall|q: int| 0 <= q < ps.len() implies #[trigger] value_fits(r[q], ps[q]) by {
                    if q > 0 {
                        assert(r[q] == vs[q - 1]);
                        assert(ps[q] == ps.drop_first()[q - 1]);
                    }
                }
            }
        }
    }
}

proof fn lemma_records_fit(s: Seq<u8>, i: int, f: FormatType, ps: Seq<(Seq<char>, Option<CountType>, DataType)>, n: nat)
    ensures
        records(s, i, f, ps, n) matches Some((rs, _)) ==> records_fit(rs, ps, n),
    decreases n,
{
    if n > 0 {
        lemma_record_fits(s, i, f, ps);
        if let Some((r, j)) = record(s, i, f, ps) {
            lemma_records_fit(s, j, f, ps, (n - 1) as nat);
            if let Some((rest, e)) = records(s, j, f, ps, (n - 1) as nat) {
                let rs = seq![r] + rest;
                assert forall|k: int| 0 <= k < rs.len() implies #[trigger] record_fits(rs[k], ps) by {
                    if k > 0 {
                        assert(rs[k] == rest[k - 1]);
                    }
                }
            }
        }
    }
}

proof fn lemma_body_fits(s: Seq<u8>, i: int, f: FormatType, es: Seq<(Seq<char>, usize, Seq<(Seq<char>, Option<CountType>, DataType)>)>)
    ensures
        body_of(s, i, f, es) matches Some((b, _)) ==> body_fits(b, es),
    decreases es.len(),
{
    if es.len() > 0 {
        lemma_records_fit(s, i, f, es[0].2, es[0].1 as nat);
        if let Some((rs, j)) = records(s, i, f, es[0].2, es[0].1 as nat) {
            lemma_body_fits(s, j, f, es.drop_first());
            if let Some((rest, e)) = body_of(s, j, f, es.drop_first()) {
                let b = seq![rs] + rest;
                assert forall|m: int| 0 <= m < es.len() implies #[trigger] records_fit(b[m], es[m].2, es[m].1 as nat) by {
                    if m > 0 {
                        assert(b[m] == rest[m - 1]);
                        assert(es[m] == es.drop_first()[m - 1]);
                    }
                }
            }
        }
    }
}

/// A file that is read has the shape its header describes: for each element of the header, as
/// many records as the element has occurrences; in each record one value for each property, a
/// single number for a scalar property; and every number of the kind of its property's data
/// type.
pub proof fn lemma_read_file_fits_its_header(s: Seq<u8>)
    ensures
        ply_of(s) matches Some((h, b, _)) ==> body_fits(b, h.2),
{
    if let Some((h, a)) = header_of(s) {
        lemma_body_fits(s, a, h.0, h.2);
    }
}

/// 256 to the power `w`.
pub open spec fn pow256(w: nat) -> int
    decreases w,
{
    if w == 0 {
        1
    } else {
        256 * pow256((w - 1) as nat)
    }
}

/// The value of `w` bytes is below 256 to the power `w`, in both byte orders.
proof fn lemma_binary_value_bound(s: Seq<u8>, i: int, w: int)
    requires
        0 <= i,
        0 <= w,
        i + w <= s.len(),
    ensures
        0 <= big_endian(s, i, w) < pow256(w as nat),
        0 <= little_endian(s, i, w) < pow256(w as nat),
    decreases w,
{
    if w > 0 {
        lemma_binary_value_bound(s, i, w - 1);
        lemma_binary_value_bound(s, i + 1, w - 1);
        let p = pow256((w - 1) as nat);
        let a = big_endian(s, i, w - 1);
        let b = little_endian(s, i + 1, w - 1);
        let x = s[i + w - 1];
        let y = s[i];
        assert(0 <= a * 256 + x < p * 256) by (nonlinear_arith)
            requires
                0 <= a < p,
                0 <= x < 256,
        ;
        assert(0 <= b * 256 + y < p * 256) by (nonlinear_arith)
            requires
                0 <= b < p,
                0 <= y < 256,
        ;
    }
}

/// 256 to the power of at most 8 fits 64 bits.
proof fn lemma_pow256_fits(w: nat)
    requires
        w <= 8,
    ensures
        1 <= pow256(w) <= 0x1_0000_0000_0000_0000,
    decreases w,
{
    if w > 0 {
        lemma_pow256_fits((w - 1) as nat);
        reveal_with_fuel(pow256, 9);
        assert(pow256(w) <= pow256(8)) by {
            lemma_pow256_grows(w, 8);
        }
    }
}

/// 256 to a power grows with the power.
proof fn lemma_pow256_grows(a: nat, b: nat)
    requires
        a <= b,
    ensures
        pow256(a) <= pow256(b),
    decreases b,
{
    if a < b {
        lemma_pow256_grows(a, (b - 1) as nat);
        lemma_pow256_positive((b - 1) as nat);
    }
}

/// 256 to a power is positive.
proof fn lemma_pow256_positive(a: nat)
    ensures
        pow256(a) >= 1,
    decreases a,
{
    if a > 0 {
        lemma_pow256_positive((a - 1) as nat);
    }
}

/// Reads the unsigned value of the `w` bytes at `i`, the first one most significant.
fn big_endian_exec(s: &[u8], i: usize, w: usize) -> (r: u64)
    requires
        i + w <= s@.len(),
        w <= 8,
    ensures
        r == big_endian(s@, i as int, w as int),
{
    let n = s.len();
    let mut v: u64 = 0;
    let mut k: usize = 0;
    while k < w
        invariant
            k <= w <= 8,
            i + w <= s@.len(),
            n == s@.len(),
            v == big_endian(s@, i as int, k as int),
        decreases w - k,
    {
        proof {
            lemma_binary_value_bound(s@, i as int, k + 1);
            lemma_pow256_grows((k + 1) as nat, 8);
            lemma_pow256_fits(8);
            assert(big_endian(s@, i as int, k + 1) == v * 256 + s@[i + k]);
        }
        v = v * 256 + s[i + k] as u64;
        k = k + 1;
    }
    v
}

/// Reads the unsigned value of the `w` bytes at `i`, the first one least significant.
fn little_endian_exec(s: &[u8], i: usize, w: usize) -> (r: u64)
    requires
        i + w <= s@.len(),
        w <= 8,
    ensures
        r == little_endian(s@, i as int, w as int),
{
    let n = s.len();
    let mut v: u64 = 0;
    let mut k: usize = w;
    while k > 0
        invariant
            k <= w <= 8,
            i + w <= s@.len(),
            n == s@.len(),
            v == little_endian(s@, i + k, (w - k) as int),
        decreases k,
    {
        proof {
            lemma_binary_value_bound(s@, i + k - 1, (w - k + 1) as int);
            lemma_pow256_grows((w - k + 1) as nat, 8);
            lemma_pow256_fits(8);
            assert(little_endian(s@, i + k - 1, (w - k + 1) as int) == v * 256 + s@[i + k - 1]);
        }
        k = k - 1;
        v = v * 256 + s[i + k] as u64;
    }
    v
}

/// Reads the unsigned value of the `w` bytes at `i` in the byte order of the format.
fn binary_value_exec(s: &[u8], i: usize, w: usize, big: bool) -> (r: u64)
    requires
        i + w <= s@.len(),
        w <= 8,
    ensures
        r == binary_value(s@, i as int, w as int, big),
{
    if big {
        big_endian_exec(s, i, w)
    } else {
        little_endian_exec(s, i, w)
    }
}

/// The number of bytes of a value of the data type in the binary formats.
fn width_exec(t: DataType) -> (r: usize)
    ensures
        r == width(t),
{
    match t {
        DataType::Int8 | DataType::Uint8 => 1,
        DataType::Int16 | DataType::Uint16 => 2,
        DataType::Int32 | DataType::Uint32 | DataType::Float32 => 4,
        DataType::Float64 => 8,
    }
}

/// Reads a number of data type `t` in binary at `i`.
fn binary_number_exec(s: &[u8], i: usize, t: DataType, big: bool) -> (r: Option<(Number, usize)>)
    requires
        i <= s@.len(),
    ensures
        match r {
            Some((n, e)) => binary_number(s@, i as int, t, big) == Some((n, e as int)) && i <= e <= s@.len(),
            None => binary_number(s@, i as int, t, big) is None,
        },
{
    let w = width_exec(t);
    if s.len() - i < w {
        return None;
    }
    let v = binary_value_exec(s, i, w, big);
    proof {
        lemma_binary_value_bound(s@, i as int, w as int);
        reveal_with_fuel(pow256, 9);
    }
    let n = match t {
        DataType::Float32 | DataType::Float64 => Number::FloatBits(v),
        DataType::Int8 => Number::Signed(if v >= 0x80 { v as i64 - 0x100 } else { v as i64 }),
        DataType::Int16 => Number::Signed(if v >= 0x8000 { v as i64 - 0x1_0000 } else { v as i64 }),
        DataType::Int32 => Number::Signed(if v >= 0x8000_0000 { v as i64 - 0x1_0000_0000 } else { v as i64 }),
        _ => Number::Unsigned(v),
    };
    Some((n, i + w))
}

/// Reads an integer of data type `t` written as text at `i`.
fn text_integer_exec(s: &[u8], i: usize, t: DataType) -> (r: Option<(Number, usize)>)
    requires
        i <= s@.len(),
        !is_float(t),
    ensures
        match r {
            Some((n, e)) => text_integer(s@, i as int, t) == Some((n, e as int)) && i <= e <= s@.len(),
            None => text_integer(s@, i as int, t) is None,
        },
{
    let signed = match t {
        DataType::Int8 | DataType::Int16 | DataType::Int32 => true,
        _ => false,
    };
    let limit: u64 = match t {
        DataType::Int8 => 0x7f,
        DataType::Uint8 => 0xff,
        DataType::Int16 => 0x7fff,
        DataType::Uint16 => 0xffff,
        DataType::Int32 => 0x7fff_ffff,
        _ => 0xffff_ffff,
    };
    let neg = signed && i < s.len() && s[i] == 45;
    let d = if neg { i + 1 } else { i };
    let e = skip_digits_exec(s, d);
    if e == d {
        return None;
    }
    proof {
        lemma_skip_while_bounds(s@, d as int, |b: u8| is_digit(b));
    }
    let mut v: u64 = 0;
    let mut k: usize = d;
    while k < e
        invariant
            d <= k <= e <= s@.len(),
            e == skip_digits(s@, d as int),
            forall|j: int| d <= j < e ==> is_digit(#[trigger] s@[j]),
            v == digits_value(s@, d as int, k as int),
            v <= limit,
            limit <= 0xffff_ffff,
            limit == max_value(t),
            signed == is_signed(t),
            neg == (is_signed(t) && 0 <= i < s@.len() && s@[i as int] == 45),
            d == (if neg { i + 1 } else { i as int }),
            i <= s@.len(),
        decreases e - k,
    {
        proof {
            assert(is_digit(s@[k as int]));
            lemma_digits_value_grows(s@, d as int, k + 1, e as int);
        }
        v = v * 10 + (s[k] - 48) as u64;
        if v > limit {
            return None;
        }
        k = k + 1;
    }
    let n = if signed {
        Number::Signed(if neg { -(v as i64) } else { v as i64 })
    } else {
        Number::Unsigned(v)
    };
    Some((n, skip_spaces_exec(s, e)))
}

/// Finds the end of a floating-point value written as text at `i`.
fn float_text_end_exec(s: &[u8], i: usize) -> (r: Option<usize>)
    requires
        i <= s@.len(),
    ensures
        match r {
            Some(e) => float_text_end(s@, i as int) == Some(e as int) && i <= e <= s@.len(),
            None => float_text_end(s@, i as int) is None,
        },
{
    let d = if i < s.len() && s[i] == 45 { i + 1 } else { i };
    let e = skip_digits_exec(s, d);
    if e == d {
        None
    } else if e < s.len() && s[e] == 46 {
        Some(skip_digits_exec(s, e + 1))
    } else {
        Some(e)
    }
}

/// Reads a number of data type `t` at `i` in the format `f`.
fn number_exec(s: &[u8], i: usize, f: FormatType, t: DataType) -> (r: Option<(Number, usize)>)
    requires
        i <= s@.len(),
    ensures
        match r {
            Some((n, e)) => number(s@, i as int, f, t) == Some((n, e as int)) && i <= e <= s@.len(),
            None => number(s@, i as int, f, t) is None,
        },
{
    match f {
        FormatType::Ascii => match t {
            DataType::Float32 | DataType::Float64 => match float_text_end_exec(s, i) {
                Some(e) => Some((Number::FloatText(i, e), skip_spaces_exec(s, e))),
                None => None,
            },
            _ => text_integer_exec(s, i, t),
        },
        FormatType::BinaryBigEndian => binary_number_exec(s, i, t, true),
        FormatType::BinaryLittleEndian => binary_number_exec(s, i, t, false),
    }
}

/// Reads the count of a list property at `i` in the format `f`.
fn list_count_exec(s: &[u8], i: usize, f: FormatType, c: CountType) -> (r: Option<(usize, usize)>)
    requires
        i <= s@.len(),
    ensures
        match r {
            Some((n, e)) => list_count(s@, i as int, f, c) == Some((n, e as int)) && i <= e <= s@.len(),
            None => list_count(s@, i as int, f, c) is None,
        },
{
    let w: usize = match c {
        CountType::Uint8 => 1,
        CountType::Uint16 => 2,
        CountType::Uint32 => 4,
    };
    match f {
        FormatType::Ascii => match parse_unsigned(s, i) {
            Outcome::Done(n, e) => Some((n, skip_spaces_exec(s, e))),
            _ => None,
        },
        _ => {
            if s.len() - i < w {
                return None;
            }
            let big = match f {
                FormatType::BinaryBigEndian => true,
                _ => false,
            };
            let v = binary_value_exec(s, i, w, big);
            proof {
                lemma_binary_value_bound(s@, i as int, w as int);
                reveal_with_fuel(pow256, 5);
            }
            Some((v as usize, i + w))
        },
    }
}

/// Reads `n` numbers of data type `t` at `i`, one after the other.
fn numbers_exec(s: &[u8], i: usize, f: FormatType, t: DataType, n: usize) -> (r: Option<(Vec<Number>, usize)>)
    requires
        i <= s@.len(),
    ensures
        match r {
            Some((xs, e)) => numbers(s@, i as int, f, t, n as nat) == Some((xs@, e as int)) && i <= e <= s@.len(),
            None => numbers(s@, i as int, f, t, n as nat) is None,
        },
{
    let mut acc: Vec<Number> = Vec::new();
    let mut pos = i;
    let mut k: usize = 0;
    while k < n
        invariant
            k <= n,
            i <= pos <= s@.len(),
            numbers(s@, i as int, f, t, n as nat) == (match numbers(s@, pos as int, f, t, (n - k) as nat) {
                Some((xs, e)) => Some((acc@ + xs, e)),
                None => None,
            }),
        decreases n - k,
    {
        match number_exec(s, pos, f, t) {
            Some((x, j)) => {
                proof {
                    match numbers(s@, j as int, f, t, (n - k - 1) as nat) {
                        Some((xs, e)) => {
                            assert(acc@.push(x) + xs =~= acc@ + (seq![x] + xs));
                        },
                        None => {},
                    }
                }
                acc.push(x);
                pos = j;
            },
            None => {
                return None;
            },
        }
        k = k + 1;
    }
    assert(acc@ + seq![] =~= acc@);
    Some((acc, pos))
}

/// Reads the value of the property `p` at `i`.
pub fn parse_property_value(s: &[u8], i: usize, f: FormatType, p: &Property) -> (r: Option<(Vec<Number>, usize)>)
    requires
        i <= s@.len(),
    ensures
        match r {
            Some((xs, e)) => property_value(s@, i as int, f, p@) == Some((xs@, e as int)) && i <= e <= s@.len(),
            None => property_value(s@, i as int, f, p@) is None,
        },
{
    match p.count_data_type {
        None => match number_exec(s, i, f, p.data_type) {
            Some((x, j)) => {
                let mut xs: Vec<Number> = Vec::new();
                xs.push(x);
                assert(xs@ =~= seq![x]);
                Some((xs, j))
            },
            None => None,
        },
        Some(c) => match list_count_exec(s, i, f, c) {
            Some((n, j)) => numbers_exec(s, j, f, p.data_type, n),
            None => None,
        },
    }
}

/// The values of a record, property by property.
pub open spec fn record_view(ed: ElementData<Vec<Number>>) -> Seq<Seq<Number>> {
    ed.properties@.map_values(|v: Vec<Number>| v@)
}

/// The values of records, record by record.
pub open spec fn records_view(rs: Seq<ElementData<Vec<Number>>>) -> Seq<Seq<Seq<Number>>> {
    rs.map_values(|ed: ElementData<Vec<Number>>| record_view(ed))
}

/// The values of a body, element by element.
pub open spec fn body_view(b: Body<Vec<Number>>) -> Seq<Seq<Seq<Seq<Number>>>> {
    occurrences_view(b.elements@)
}

/// Reads one record of an element with the properties `ps` at `i`.
fn record_exec(s: &[u8], i: usize, f: FormatType, ps: &Vec<Property>) -> (r: Option<(ElementData<Vec<Number>>, usize)>)
    requires
        i <= s@.len(),
    ensures
        match r {
            Some((ed, e)) => record(s@, i as int, f, property_views(ps@)) == Some((record_view(ed), e as int)) && i <= e <= s@.len(),
            None => record(s@, i as int, f, property_views(ps@)) is None,
        },
{
    let ghost pv = property_views(ps@);
    let mut acc: Vec<Vec<Number>> = Vec::new();
    let mut pos = i;
    let mut m: usize = 0;
    proof {
        assert(pv.subrange(0, pv.len() as int) =~= pv);
        match record(s@, i as int, f, pv) {
            Some((vs, e)) => {
                assert(acc@.map_values(|v: Vec<Number>| v@) + vs =~= vs);
            },
            None => {},
        }
    }
    while m < ps.len()
        invariant
            m <= ps@.len(),
            pv == property_views(ps@),
            i <= pos <= s@.len(),
            record(s@, i as int, f, pv) == (match record(s@, pos as int, f, pv.subrange(m as int, pv.len() as int)) {
                Some((vs, e)) => Some((acc@.map_values(|v: Vec<Number>| v@) + vs, e)),
                None => None,
            }),
        decreases ps@.len() - m,
    {
        let ghost rest = pv.subrange(m as int, pv.len() as int);
        assert(rest[0] == ps@[m as int]@);
        assert(rest.drop_first() =~= pv.subrange(m + 1, pv.len() as int));
        match parse_property_value(s, pos, f, &ps[m]) {
            Some((xs, j)) => {
                proof {
                    match record(s@, j as int, f, pv.subrange(m + 1, pv.len() as int)) {
                        Some((vs, e)) => {
                            assert(acc@.push(xs).map_values(|v: Vec<Number>| v@) + vs =~= acc@.map_values(|v: Vec<Number>| v@) + (seq![xs@] + vs));
                        },
                        None => {},
                    }
                }
                acc.push(xs);
                pos = j;
            },
            None => {
                return None;
            },
        }
        m = m + 1;
    }
    let ed = ElementData { properties: acc };
    assert(pv.subrange(m as int, pv.len() as int) =~= seq![]);
    assert(record_view(ed) =~= acc@.map_values(|v: Vec<Number>| v@) + seq![]);
    Some((ed, pos))
}

/// Reads the records of the element `el` at `i`: as many as it has occurrences.
pub fn parse_element_data(s: &[u8], i: usize, f: FormatType, el: &Element) -> (r: Option<(Vec<ElementData<Vec<Number>>>, usize)>)
    requires
        i <= s@.len(),
    ensures
        match r {
            Some((rs, e)) => records(s@, i as int, f, property_views(el.properties@), el.count as nat) == Some((records_view(rs@), e as int)) && i <= e <= s@.len(),
            None => records(s@, i as int, f, property_views(el.properties@), el.count as nat) is None,
        },
{
    let ghost pv = property_views(el.properties@);
    let n = el.count;
    let mut acc: Vec<ElementData<Vec<Number>>> = Vec::new();
    let mut pos = i;
    let mut k: usize = 0;
    while k < n
        invariant
            k <= n,
            n == el.count,
            pv == property_views(el.properties@),
            i <= pos <= s@.len(),
            records(s@, i as int, f, pv, n as nat) == (match records(s@, pos as int, f, pv, (n - k) as nat) {
                Some((rs, e)) => Some((records_view(acc@) + rs, e)),
                None => None,
            }),
        decreases n - k,
    {
        match record_exec(s, pos, f, &el.properties) {
            Some((ed, j)) => {
                proof {
                    match records(s@, j as int, f, pv, (n - k - 1) as nat) {
                        Some((rs, e)) => {
                            assert(records_view(acc@.push(ed)) + rs =~= records_view(acc@) + (seq![record_view(ed)] + rs));
                        },
                        None => {},
                    }
                }
                acc.push(ed);
                pos = j;
            },
            None => {
                return None;
            },
        }
        k = k + 1;
    }
    assert(records_view(acc@) + seq![] =~= records_view(acc@));
    Some((acc, pos))
}

/// The values of the records of each element in `occs`.
pub open spec fn occurrences_view(occs: Seq<Vec<ElementData<Vec<Number>>>>) -> Seq<Seq<Seq<Seq<Number>>>> {
    occs.map_values(|occ: Vec<ElementData<Vec<Number>>>| records_view(occ@))
}

/// Reads the body of a file with the header `h` from position `i` of `input`: for each element
/// of the header in turn, as many records as it has occurrences. Returns the body with the
/// position after it, or `None` where the bytes do not hold such a body.
#[verifier::rlimit(40)]
pub fn body(input: &[u8], i: usize, h: &Header) -> (r: Option<(Body<Vec<Number>>, usize)>)
    requires
        i <= input@.len(),
    ensures
        match r {
            Some((b, e)) => body_of(input@, i as int, h.format.format, element_views(h.elements@)) == Some((body_view(b), e as int)) && i <= e <= input@.len(),
            None => body_of(input@, i as int, h.format.format, element_views(h.elements@)) is None,
        },
{
    let s = input;
    let f = h.format.format;
    let ghost ev = element_views(h.elements@);
    let mut acc: Vec<Vec<ElementData<Vec<Number>>>> = Vec::new();
    let mut pos = i;
    let mut m: usize = 0;
    proof {
        assert(ev.subrange(0, ev.len() as int) =~= ev);
        match body_of(s@, i as int, f, ev) {
            Some((b, e)) => {
                assert(occurrences_view(acc@) + b =~= b);
            },
            None => {},
        }
    }
    while m < h.elements.len()
        invariant
            m <= h.elements@.len(),
            s@ == input@,
            f == h.format.format,
            ev == element_views(h.elements@),
            i <= pos <= s@.len(),
            body_of(s@, i as int, f, ev) == (match body_of(s@, pos as int, f, ev.subrange(m as int, ev.len() as int)) {
                Some((b, e)) => Some((occurrences_view(acc@) + b, e)),
                None => None,
            }),
        decreases h.elements@.len() - m,
    {
        let ghost rest = ev.subrange(m as int, ev.len() as int);
        assert(rest[0] == h.elements@[m as int]@);
        assert(rest.drop_first() =~= ev.subrange(m + 1, ev.len() as int));
        match parse_element_data(s, pos, f, &h.elements[m]) {
            Some((rs, j)) => {
                proof {
                    match body_of(s@, j as int, f, ev.subrange(m + 1, ev.len() as int)) {
                        Some((b, e)) => {
                            assert(occurrences_view(acc@.push(rs)) + b
                                =~= occurrences_view(acc@) + (seq![records_view(rs@)] + b));
                        },
                        None => {},
                    }
                }
                acc.push(rs);
                pos = j;
            },
            None => {
                assert(rest[0].2 == property_views(h.elements@[m as int].properties@));
                assert(rest[0].1 == h.elements@[m as int].count);
                assert(body_of(s@, pos as int, f, rest) is None);
                return None;
            },
        }
        m = m + 1;
    }
    let b = Body { elements: acc };
    assert(ev.subrange(m as int, ev.len() as int) =~= seq![]);
    assert(body_view(b) =~= occurrences_view(acc@) + seq![]);
    Some((b, pos))
}

/// The header and body that `s` begins with, and the position after them, or `None` where `s`
/// does not begin with a header followed by a body that fits it.
pub open spec fn ply_of(s: Seq<u8>) -> Option<(
    (FormatType, Seq<usize>, Seq<(Seq<char>, usize, Seq<(Seq<char>, Option<CountType>, DataType)>)>),
    Seq<Seq<Seq<Seq<Number>>>>,
    int,
)> {
    match header_of(s) {
        Some((h, a)) => match body_of(s, a, h.0, h.2) {
            Some((b, e)) => Some((h, b, e)),
            None => None,
        },
        None => None,
    }
}

/// Reads a PLY file: its header, then the body that the header describes. Returns the file
/// with the number of bytes it takes up, or `None` where `input` does not begin with a header
/// followed by a body that fits it.
pub fn ply(input: &[u8]) -> (r: Option<(Ply<Vec<Number>>, usize)>)
    ensures
        match r {
            Some((p, n)) => ply_of(input@) == Some((p.header@, body_view(p.body), n as int)),
            None => ply_of(input@) is None,
        },
        r matches Some((p, _)) ==> body_fits(body_view(p.body), p.header@.2),
{
    proof {
        lemma_read_file_fits_its_header(input@);
    }
    match header(input) {
        Some((h, a)) => match body(input, a, &h) {
            Some((b, e)) => Some((Ply { header: h, body: b }, e)),
            None => None,
        },
        None => None,
    }
}

} // verus!

verus! {

/// In the binary formats the count of a list property takes as many bytes as the unsigned
/// integer type it names (1 for `uint8`, 2 for `uint16`, 4 for `uint32`): it is the unsigned
/// number those bytes spell in the file's byte order, the list's values start right after them,
/// and the count is read wherever that many bytes remain.
pub proof fn lemma_binary_list_count_takes_its_type_size(s: Seq<u8>, i: int, f: FormatType, c: CountType)
    requires
        f != FormatType::Ascii,
        0 <= i,
    ensures
        ({
            let size = match c {
                CountType::Uint8 => 1int,
                CountType::Uint16 => 2int,
                CountType::Uint32 => 4int,
            };
            let value = if f == FormatType::BinaryBigEndian { big_endian(s, i, size) } else { little_endian(s, i, size) };
            &&& list_count(s, i, f, c) is Some <==> i + size <= s.len()
            &&& list_count(s, i, f, c) matches Some((n, j)) ==> j == i + size && n == value
        }),
{
    let size = match c {
        CountType::Uint8 => 1int,
        CountType::Uint16 => 2int,
        CountType::Uint32 => 4int,
    };
    if i + size <= s.len() {
        if f == FormatType::BinaryBigEndian {
            lemma_binary_value_bound(s, i, size);
        } else {
            lemma_binary_value_bound(s, i, size);
        }
        assert(pow256(4) == 0x1_0000_0000) by {
            reveal_with_fuel(pow256, 5);
        }
        assert(pow256(size as nat) <= pow256(4)) by {
            reveal_with_fuel(pow256, 5);
        }
    }
}

} // verus!
