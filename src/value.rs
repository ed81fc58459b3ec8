//! Decoded column values and their canonical text.

use vstd::prelude::*;
use crate::digits::{digits_of, int_text, int_to_str};

verus! {

/// Largest scale of a `rust_decimal::Decimal`.
pub const DECIMAL_MAX_SCALE: u32 = 28;

/// Largest magnitude of a `rust_decimal::Decimal` mantissa: 96 bits.
pub const DECIMAL_MAX_MANTISSA: i128 = 0xFFFF_FFFF_FFFF_FFFF_FFFF_FFFF;

/// Earliest year that a `chrono::NaiveDate` holds.
pub const DATE_MIN_YEAR: i32 = -262143;

/// Latest year that a `chrono::NaiveDate` holds.
pub const DATE_MAX_YEAR: i32 = 262142;

/// An exact decimal: `mantissa / 10^scale`.
#[derive(PartialEq, Eq, Structural, Clone, Copy, Debug)]
pub struct DecimalValue {
    pub mantissa: i128,
    pub scale: u32,
}

/// A day of the proleptic Gregorian calendar.
#[derive(PartialEq, Eq, Structural, Clone, Copy, Debug)]
pub struct DateValue {
    pub year: i32,
    pub month: u32,
    pub day: u32,
}

/// A time of day: seconds since midnight and a nanosecond part, which reaches past one
/// second only during a leap second.
#[derive(PartialEq, Eq, Structural, Clone, Copy, Debug)]
pub struct TimeValue {
    pub secs: u32,
    pub nanos: u32,
}

/// One non-NULL value of a column, as decoded by the client.
#[derive(Debug)]
pub enum Value {
    /// A `int2`, `int4` or `int8` value.
    Int(i64),
    Numeric(DecimalValue),
    Bool(bool),
    /// A `varchar` or `text` value.
    Text(String),
    /// A `float4`: its bit pattern and its default text.
    Float4 { bits: u32, text: String },
    /// A `float8`: its bit pattern and its default text.
    Float8 { bits: u64, text: String },
    Date(DateValue),
    Time(TimeValue),
    Timestamp(DateValue, TimeValue),
    /// An `interval` or `timestamptz`, as the server's cast to `varchar` returned it.
    ServerText(String),
}

pub open spec fn is_leap_year(y: int) -> bool {
    y % 4 == 0 && (y % 100 != 0 || y % 400 == 0)
}

pub open spec fn days_in_month(y: int, m: int) -> int {
    if m == 2 {
        if is_leap_year(y) {
            29
        } else {
            28
        }
    } else if m == 4 || m == 6 || m == 9 || m == 11 {
        30
    } else {
        31
    }
}

impl DecimalValue {
    pub open spec fn wf(self) -> bool {
        &&& self.scale <= DECIMAL_MAX_SCALE
        &&& -DECIMAL_MAX_MANTISSA <= self.mantissa <= DECIMAL_MAX_MANTISSA
    }
}

impl DateValue {
    pub open spec fn wf(self) -> bool {
        &&& DATE_MIN_YEAR <= self.year <= DATE_MAX_YEAR
        &&& 1 <= self.month <= 12
        &&& 1 <= self.day <= days_in_month(self.year as int, self.month as int)
    }
}

impl TimeValue {
    pub open spec fn wf(self) -> bool {
        &&& self.secs < 86400
        &&& self.nanos < 2_000_000_000
        &&& self.nanos >= 1_000_000_000 ==> self.secs % 60 == 59
    }
}

impl Value {
    pub open spec fn wf(self) -> bool {
        match self {
            Value::Numeric(d) => d.wf(),
            Value::Date(d) => d.wf(),
            Value::Time(t) => t.wf(),
            Value::Timestamp(d, t) => d.wf() && t.wf(),
            Value::ServerText(s) => s@.len() > 0,
            _ => true,
        }
    }
}

fn days_in_month_exec(y: i32, m: u32) -> (r: u32)
    ensures
        r == days_in_month(y as int, m as int),
{
    if m == 2 {
        if y % 4 == 0 && (y % 100 != 0 || y % 400 == 0) {
            29
        } else {
            28
        }
    } else if m == 4 || m == 6 || m == 9 || m == 11 {
        30
    } else {
        31
    }
}

impl DecimalValue {
    /// Whether `rust_decimal` can hold this mantissa and scale.
    pub fn is_wf(&self) -> (r: bool)
        ensures
            r == self.wf(),
    {
        self.scale <= DECIMAL_MAX_SCALE && -DECIMAL_MAX_MANTISSA <= self.mantissa
            && self.mantissa <= DECIMAL_MAX_MANTISSA
    }
}

impl DateValue {
    /// Whether this is a calendar day within `chrono`'s year range.
    pub fn is_wf(&self) -> (r: bool)
        ensures
            r == self.wf(),
    {
        DATE_MIN_YEAR <= self.year && self.year <= DATE_MAX_YEAR && 1 <= self.month
            && self.month <= 12 && 1 <= self.day && self.day <= days_in_month_exec(
            self.year,
            self.month,
        )
    }
}

impl TimeValue {
    /// Whether this is a time of day, a leap second only after the 59th second of a minute.
    pub fn is_wf(&self) -> (r: bool)
        ensures
            r == self.wf(),
    {
        self.secs < 86400 && self.nanos < 2_000_000_000 && (self.nanos < 1_000_000_000
            || self.secs % 60 == 59)
    }
}

impl Value {
    /// Whether the value can be rendered.
    pub fn is_wf(&self) -> (r: bool)
        ensures
            r == self.wf(),
    {
        match self {
            Value::Numeric(d) => d.is_wf(),
            Value::Date(d) => d.is_wf(),
            Value::Time(t) => t.is_wf(),
            Value::Timestamp(d, t) => d.is_wf() && t.is_wf(),
            Value::ServerText(s) => s.as_str().unicode_len() > 0,
            _ => true,
        }
    }
}

pub open spec fn opt_wf(v: Option<Value>) -> bool {
    match v {
        Some(x) => x.wf(),
        None => true,
    }
}



/// The decimal digits of `n`, with zeros in front up to `width` characters.
pub open spec fn padded(n: nat, width: nat) -> Seq<char> {
    let d = digits_of(n);
    if d.len() >= width {
        d
    } else {
        Seq::new((width - d.len()) as nat, |i: int| '0') + d
    }
}

/// A year: four digits within 0 to 9999, else a sign and at least four digits.
pub open spec fn year_text(y: int) -> Seq<char> {
    if 0 <= y <= 9999 {
        padded(y as nat, 4)
    } else if y < 0 {
        seq!['-'] + padded((-y) as nat, 4)
    } else {
        seq!['+'] + padded(y as nat, 4)
    }
}

/// A date as `YYYY-MM-DD`.
pub open spec fn date_text(year: int, month: int, day: int) -> Seq<char> {
    year_text(year) + seq!['-'] + padded(month as nat, 2) + seq!['-'] + padded(day as nat, 2)
}

/// The fraction of a second: nothing for none, else a point and three, six or nine digits,
/// the fewest that hold it exactly.
pub open spec fn fraction_text(nanos: nat) -> Seq<char> {
    if nanos == 0 {
        Seq::empty()
    } else if nanos % 1_000_000 == 0 {
        seq!['.'] + padded(nanos / 1_000_000, 3)
    } else if nanos % 1000 == 0 {
        seq!['.'] + padded(nanos / 1000, 6)
    } else {
        seq!['.'] + padded(nanos, 9)
    }
}

/// A time of day as `HH:MM:SS` and its fraction; a leap second shows as second 60.
pub open spec fn time_text(secs: int, nanos: int) -> Seq<char> {
    let mins = secs / 60;
    let leap = nanos >= 1_000_000_000;
    let sec = if leap {
        secs % 60 + 1
    } else {
        secs % 60
    };
    let frac = if leap {
        nanos - 1_000_000_000
    } else {
        nanos
    };
    padded((mins / 60) as nat, 2) + seq![':'] + padded((mins % 60) as nat, 2) + seq![':']
        + padded(sec as nat, 2) + fraction_text(frac as nat)
}

/// An exact decimal: a minus sign if negative, the digits of the magnitude, and for a
/// positive scale a point before the last `scale` of them, with zeros in front so that at
/// least one digit stands before the point.
pub open spec fn decimal_text(mantissa: int, scale: int) -> Seq<char> {
    let mag: nat = if mantissa < 0 {
        (-mantissa) as nat
    } else {
        mantissa as nat
    };
    let sign = if mantissa < 0 {
        seq!['-']
    } else {
        Seq::empty()
    };
    if scale == 0 {
        sign + digits_of(mag)
    } else {
        let p = padded(mag, (scale + 1) as nat);
        let w = p.len() - scale;
        sign + p.take(w) + seq!['.'] + p.skip(w)
    }
}

/// Relies on `rust_decimal::Decimal::from_i128_with_scale`, which panics only out of the
/// bounds required here and marks exactly the negative mantissas as negative, and on
/// `Decimal`'s `Display`, which writes the sign and the digits with the point placed by
/// the scale.
#[verifier::external_body]
fn decimal_to_string(mantissa: i128, scale: u32) -> (r: String)
    requires
        scale <= DECIMAL_MAX_SCALE,
        -DECIMAL_MAX_MANTISSA <= mantissa <= DECIMAL_MAX_MANTISSA,
    ensures
        r@ == decimal_text(mantissa as int, scale as int),
{
    rust_decimal::Decimal::from_i128_with_scale(mantissa, scale).to_string()
}

/// Relies on `chrono::NaiveDate::from_ymd_opt`, which gives `Some` for every valid
/// calendar day of its year range, and on `NaiveDate`'s `Display`, which writes the year
/// and then the month and day in two digits each.
#[verifier::external_body]
fn date_to_string(d: DateValue) -> (r: String)
    requires
        d.wf(),
    ensures
        r@ == date_text(d.year as int, d.month as int, d.day as int),
{
    chrono::NaiveDate::from_ymd_opt(d.year, d.month, d.day).unwrap().to_string()
}

/// Relies on `chrono::NaiveTime::from_num_seconds_from_midnight_opt`, which gives `Some`
/// on exactly the inputs required here, and on `NaiveTime`'s `Display`, which writes hours,
/// minutes and seconds in two digits each and then the fraction of a second.
#[verifier::external_body]
fn time_to_string(t: TimeValue) -> (r: String)
    requires
        t.wf(),
    ensures
        r@ == time_text(t.secs as int, t.nanos as int),
{
    chrono::NaiveTime::from_num_seconds_from_midnight_opt(t.secs, t.nanos).unwrap().to_string()
}

/// Relies on `chrono::NaiveDateTime::new` and its `Display`, which writes the date's text,
/// one space and the time's text.
#[verifier::external_body]
fn timestamp_to_string(d: DateValue, t: TimeValue) -> (r: String)
    requires
        d.wf(),
        t.wf(),
    ensures
        r@ == date_text(d.year as int, d.month as int, d.day as int) + seq![' '] + time_text(
            t.secs as int,
            t.nanos as int,
        ),
{
    let date = chrono::NaiveDate::from_ymd_opt(d.year, d.month, d.day).unwrap();
    let time = chrono::NaiveTime::from_num_seconds_from_midnight_opt(t.secs, t.nanos).unwrap();
    chrono::NaiveDateTime::new(date, time).to_string()
}

pub open spec fn bool_text(b: bool) -> Seq<char> {
    if b {
        seq!['t']
    } else {
        seq!['f']
    }
}

pub open spec fn varchar_text(s: Seq<char>) -> Seq<char> {
    if s.len() == 0 {
        "(empty)"@
    } else {
        s
    }
}

pub open spec fn f32_is_nan(bits: u32) -> bool {
    (bits / 0x80_0000) % 0x100 == 0xff && bits % 0x80_0000 != 0
}

pub open spec fn f64_is_nan(bits: u64) -> bool {
    (bits / 0x10_0000_0000_0000) % 0x800 == 0x7ff && bits % 0x10_0000_0000_0000 != 0
}

/// The canonical text of a float, given whether it is NaN or an infinity, and its
/// default text otherwise.
pub open spec fn float_text(nan: bool, pos_inf: bool, neg_inf: bool, text: Seq<char>) -> Seq<char> {
    if nan {
        "NaN"@
    } else if pos_inf {
        "Infinity"@
    } else if neg_inf {
        "-Infinity"@
    } else {
        text
    }
}

pub open spec fn float4_text(bits: u32, text: Seq<char>) -> Seq<char> {
    float_text(f32_is_nan(bits), bits == 0x7f80_0000, bits == 0xff80_0000, text)
}

pub open spec fn float8_text(bits: u64, text: Seq<char>) -> Seq<char> {
    float_text(
        f64_is_nan(bits),
        bits == 0x7ff0_0000_0000_0000,
        bits == 0xfff0_0000_0000_0000,
        text,
    )
}

/// The canonical text of one non-NULL value.
pub open spec fn value_text(v: Value) -> Seq<char> {
    match v {
        Value::Int(i) => int_text(i as int),
        Value::Numeric(d) => decimal_text(d.mantissa as int, d.scale as int),
        Value::Bool(b) => bool_text(b),
        Value::Text(s) => varchar_text(s@),
        Value::Float4 { bits, text } => float4_text(bits, text@),
        Value::Float8 { bits, text } => float8_text(bits, text@),
        Value::Date(d) => date_text(d.year as int, d.month as int, d.day as int),
        Value::Time(t) => time_text(t.secs as int, t.nanos as int),
        Value::Timestamp(d, t) => date_text(d.year as int, d.month as int, d.day as int) + seq![
            ' ',
        ] + time_text(t.secs as int, t.nanos as int),
        Value::ServerText(s) => s@,
    }
}

/// The canonical text of a value that may be NULL.
pub open spec fn opt_text(v: Option<Value>) -> Seq<char> {
    match v {
        Some(x) => value_text(x),
        None => "NULL"@,
    }
}

/// `t` for true and `f` for false.
pub fn bool_to_str(value: &bool) -> (r: &'static str)
    ensures
        r@ == bool_text(*value),
{
    proof {
        reveal_strlit("t");
        reveal_strlit("f");
    }
    let r = if *value {
        "t"
    } else {
        "f"
    };
    assert(r@ =~= bool_text(*value));
    r
}

/// The text itself, or `(empty)` for the empty text.
pub fn varchar_to_str(value: &str) -> (r: String)
    ensures
        r@ == varchar_text(value@),
{
    if value.unicode_len() == 0 {
        String::from_str("(empty)")
    } else {
        String::from_str(value)
    }
}

/// The canonical text of a `float4` with bit pattern `bits` and default text `text`:
/// `NaN`, `Infinity` and `-Infinity` for the special values, `text` for every other one.
pub fn float4_to_str(bits: u32, text: &str) -> (r: String)
    ensures
        r@ == float4_text(bits, text@),
{
    if (bits / 0x80_0000) % 0x100 == 0xff && bits % 0x80_0000 != 0 {
        String::from_str("NaN")
    } else if bits == 0x7f80_0000 {
        String::from_str("Infinity")
    } else if bits == 0xff80_0000 {
        String::from_str("-Infinity")
    } else {
        String::from_str(text)
    }
}

/// The canonical text of a `float8` with bit pattern `bits` and default text `text`:
/// `NaN`, `Infinity` and `-Infinity` for the special values, `text` for every other one.
pub fn float8_to_str(bits: u64, text: &str) -> (r: String)
    ensures
        r@ == float8_text(bits, text@),
{
    if (bits / 0x10_0000_0000_0000) % 0x800 == 0x7ff && bits % 0x10_0000_0000_0000 != 0 {
        String::from_str("NaN")
    } else if bits == 0x7ff0_0000_0000_0000 {
        String::from_str("Infinity")
    } else if bits == 0xfff0_0000_0000_0000 {
        String::from_str("-Infinity")
    } else {
        String::from_str(text)
    }
}

/// The canonical text of one non-NULL value.
pub fn value_to_str(v: &Value) -> (r: String)
    requires
        v.wf(),
    ensures
        r@ == value_text(*v),
{
    match v {
        Value::Int(i) => int_to_str(*i),
        Value::Numeric(d) => decimal_to_string(d.mantissa, d.scale),
        Value::Bool(b) => String::from_str(bool_to_str(b)),
        Value::Text(s) => varchar_to_str(s.as_str()),
        Value::Float4 { bits, text } => float4_to_str(*bits, text.as_str()),
        Value::Float8 { bits, text } => float8_to_str(*bits, text.as_str()),
        Value::Date(d) => date_to_string(*d),
        Value::Time(t) => time_to_string(*t),
        Value::Timestamp(d, t) => timestamp_to_string(*d, *t),
        Value::ServerText(s) => String::from_str(s.as_str()),
    }
}

/// The canonical text of a value that may be NULL: `NULL` for NULL.
pub fn scalar_to_str(v: &Option<Value>) -> (r: String)
    requires
        opt_wf(*v),
    ensures
        r@ == opt_text(*v),
{
    match v {
        Some(x) => value_to_str(x),
        None => String::from_str("NULL"),
    }
}

} // verus!
