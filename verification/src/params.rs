//! From what a script passes to what a statement is bound with.
//!
//! A script hands over a list of texts, the statement first and then one
//! text for each parameter, and a list of type codes of the same length:
//! 0 for NULL, 1 for a boolean, 2 for a number, 4 for a date in
//! milliseconds since the epoch; any other code leaves the text as it is.

use vstd::prelude::*;
use vstd::utf8::encode_utf8;
use vstd::string::StringSliceAdditionalSpecFns;
use tokio_postgres::types::private::BytesMut;
use tokio_postgres::types::{IsNull, ToSql, Type};
use crate::query::{ParamView, QueryParam};
use crate::numbers::{i64_parse_error, literal_i64, parse_i64};
use crate::text::{chars_of, decimal, push_decimal, push_str, string_of};

verus! {

/// The RFC 3339 rendering, in UTC, of the instant that lies `millis`
/// milliseconds after the epoch; none where the calendar does not reach
/// that instant.
pub uninterp spec fn rfc3339_of_millis(millis: i64) -> Option<Seq<char>>;

/// `chrono::DateTime::<Utc>::from_timestamp_millis` and, on what it gives,
/// `DateTime::to_rfc3339`: the instant as an RFC 3339 text in UTC, or
/// nothing where the number of milliseconds is out of the calendar's range.
#[verifier::external_body]
fn rfc3339_from_millis(millis: i64) -> (r: Option<String>)
    ensures
        match r {
            Some(s) => rfc3339_of_millis(millis) == Some(s@),
            None => rfc3339_of_millis(millis) is None,
        },
{
    chrono::DateTime::<chrono::Utc>::from_timestamp_millis(millis).map(|dt| dt.to_rfc3339())
}

/// The text reads as true: it is the word `true` in any mix of upper and
/// lower case, or the digit `1`.
pub open spec fn reads_true(s: Seq<char>) -> bool {
    ||| s == seq!['1']
    ||| {
        &&& s.len() == 4
        &&& (s[0] == 't' || s[0] == 'T')
        &&& (s[1] == 'r' || s[1] == 'R')
        &&& (s[2] == 'u' || s[2] == 'U')
        &&& (s[3] == 'e' || s[3] == 'E')
    }
}

/// Whether the text reads as true.
pub fn is_true_text(value: &str) -> (b: bool)
    ensures
        b == reads_true(value@),
{
    let cs = chars_of(value);
    if cs.len() == 1 {
        let b = cs[0] == '1';
        assert(b == (cs@ =~= seq!['1']));
        b
    } else if cs.len() == 4 {
        (cs[0] == 't' || cs[0] == 'T') && (cs[1] == 'r' || cs[1] == 'R') && (cs[2] == 'u' || cs[2]
            == 'U') && (cs[3] == 'e' || cs[3] == 'E')
    } else {
        false
    }
}

/// Why a list of texts and type codes gives no parameters.
#[derive(Clone, Debug)]
pub enum ParamError {
    /// The list of texts is empty: not even the statement is there.
    EmptyQuery,
    /// The two lists differ in length.
    SizeMismatch,
    /// The text at `index` is marked as a number and reads as none.
    NotNumber { index: usize, value: String },
    /// The text at `index` is marked as a date and is no whole number of
    /// milliseconds; `reason` says why not.
    NotMilliseconds { index: usize, value: String, reason: String },
}

/// A [`ParamError`] as a mathematical value.
pub enum ParamErrorView {
    EmptyQuery,
    SizeMismatch,
    NotNumber { index: int, value: Seq<char> },
    NotMilliseconds { index: int, value: Seq<char>, reason: Seq<char> },
}

impl View for ParamError {
    type V = ParamErrorView;

    open spec fn view(&self) -> ParamErrorView {
        match self {
            ParamError::EmptyQuery => ParamErrorView::EmptyQuery,
            ParamError::SizeMismatch => ParamErrorView::SizeMismatch,
            ParamError::NotNumber { index, value } => ParamErrorView::NotNumber {
                index: *index as int,
                value: value@,
            },
            ParamError::NotMilliseconds { index, value, reason } => ParamErrorView::NotMilliseconds {
                index: *index as int,
                value: value@,
                reason: reason@,
            },
        }
    }
}

/// Why a text that is no number reads as none.
pub open spec fn not_a_number_reason(value: Seq<char>) -> Seq<char> {
    if value.len() == 0 {
        "cannot parse float from empty string"@
    } else {
        "invalid float literal"@
    }
}

/// The text of an error.
pub open spec fn param_error_message(e: ParamErrorView) -> Seq<char> {
    match e {
        ParamErrorView::EmptyQuery => "query must contain atleast the query"@,
        ParamErrorView::SizeMismatch => "query values and query types must be same size"@,
        ParamErrorView::NotNumber { index, value } => "parameter "@ + decimal(index as nat) + " `"@
            + value + "` is not number: "@ + not_a_number_reason(value),
        ParamErrorView::NotMilliseconds { index, value, reason } => "parameter "@ + decimal(
            index as nat,
        ) + " `"@ + value + "` is not UTC miliseconds: "@ + reason,
    }
}

impl ParamError {
    /// The text of the error.
    pub fn message(&self) -> (out: String)
        ensures
            out@ == param_error_message(self@),
    {
        let mut buf: Vec<char> = Vec::new();
        match self {
            ParamError::EmptyQuery => {
                push_str(&mut buf, "query must contain atleast the query");
            },
            ParamError::SizeMismatch => {
                push_str(&mut buf, "query values and query types must be same size");
            },
            ParamError::NotNumber { index, value } => {
                push_str(&mut buf, "parameter ");
                push_decimal(&mut buf, *index as u64);
                push_str(&mut buf, " `");
                push_str(&mut buf, value.as_str());
                push_str(&mut buf, "` is not number: ");
                if value.as_str().is_empty() {
                    push_str(&mut buf, "cannot parse float from empty string");
                } else {
                    push_str(&mut buf, "invalid float literal");
                }
            },
            ParamError::NotMilliseconds { index, value, reason } => {
                push_str(&mut buf, "parameter ");
                push_decimal(&mut buf, *index as u64);
                push_str(&mut buf, " `");
                push_str(&mut buf, value.as_str());
                push_str(&mut buf, "` is not UTC miliseconds: ");
                push_str(&mut buf, reason.as_str());
            },
        }
        string_of(&buf)
    }
}

/// What the floating-point reading of the text at `index` gave: the bit
/// pattern of the number, or nothing where the text reads as none or the
/// list does not reach that far.
pub open spec fn float_at(float_bits: Seq<Option<u64>>, index: int) -> Option<u64> {
    if 0 <= index < float_bits.len() {
        float_bits[index]
    } else {
        None
    }
}

/// The parameter that the text `value` at `index` stands for under the
/// type code `code`.
pub open spec fn param_of(value: Seq<char>, code: i16, float: Option<u64>, index: int) -> Result<
    ParamView,
    ParamErrorView,
> {
    if code == 0 {
        Ok(ParamView::Null)
    } else if code == 1 {
        Ok(ParamView::Bool(reads_true(value)))
    } else if code == 2 {
        match literal_i64(value) {
            Some(n) => Ok(ParamView::Number(n)),
            None => match float {
                Some(bits) => Ok(ParamView::Float(bits)),
                None => Err(ParamErrorView::NotNumber { index, value }),
            },
        }
    } else if code == 4 {
        match literal_i64(value) {
            Some(millis) => match rfc3339_of_millis(millis) {
                Some(text) => Ok(ParamView::Date(text)),
                None => Ok(ParamView::Null),
            },
            None => Err(
                ParamErrorView::NotMilliseconds { index, value, reason: i64_parse_error(value) },
            ),
        }
    } else {
        Ok(ParamView::Text(value))
    }
}

/// `done` followed by what `rest` gives, or the error of `rest`.
pub open spec fn after(done: Seq<ParamView>, rest: Result<Seq<ParamView>, ParamErrorView>) -> Result<
    Seq<ParamView>,
    ParamErrorView,
> {
    match rest {
        Ok(more) => Ok(done + more),
        Err(e) => Err(e),
    }
}

/// The parameters that the texts from position `from` on stand for, or the
/// error of the first text that stands for none.
pub open spec fn params_from(
    query: Seq<Seq<char>>,
    codes: Seq<i16>,
    float_bits: Seq<Option<u64>>,
    from: int,
) -> Result<Seq<ParamView>, ParamErrorView>
    decreases query.len() - from,
{
    if from < 0 || from >= query.len() {
        Ok(Seq::empty())
    } else {
        match param_of(query[from], codes[from], float_at(float_bits, from), from) {
            Ok(p) => after(seq![p], params_from(query, codes, float_bits, from + 1)),
            Err(e) => Err(e),
        }
    }
}

/// The parameters that a list of texts and a list of type codes stand
/// for: one for each text after the first, which is the statement.
pub open spec fn params_of(
    query: Seq<Seq<char>>,
    codes: Seq<i16>,
    float_bits: Seq<Option<u64>>,
) -> Result<Seq<ParamView>, ParamErrorView> {
    if query.len() == 0 {
        Err(ParamErrorView::EmptyQuery)
    } else if query.len() != codes.len() {
        Err(ParamErrorView::SizeMismatch)
    } else {
        params_from(query, codes, float_bits, 1)
    }
}

/// The parameter that one text stands for under its type code. `float` is
/// what reading the text as a floating-point number gave.
pub fn param_for(value: &String, code: i16, float: Option<u64>, index: usize) -> (r: Result<
    QueryParam,
    ParamError,
>)
    ensures
        match r {
            Ok(p) => param_of(value@, code, float, index as int) == Ok::<ParamView, ParamErrorView>(
                p@,
            ),
            Err(e) => param_of(value@, code, float, index as int) == Err::<
                ParamView,
                ParamErrorView,
            >(e@),
        },
{
    if code == 0 {
        Ok(QueryParam::Null)
    } else if code == 1 {
        Ok(QueryParam::Bool(is_true_text(value.as_str())))
    } else if code == 2 {
        match parse_i64(value.as_str()) {
            Ok(n) => Ok(QueryParam::Number(n)),
            Err(_) => match float {
                Some(bits) => Ok(QueryParam::Float(bits)),
                None => Err(ParamError::NotNumber { index, value: value.clone() }),
            },
        }
    } else if code == 4 {
        match parse_i64(value.as_str()) {
            Ok(millis) => match rfc3339_from_millis(millis) {
                Some(text) => Ok(QueryParam::Date(text)),
                None => Ok(QueryParam::Null),
            },
            Err(reason) => Err(
                ParamError::NotMilliseconds { index, value: value.clone(), reason },
            ),
        }
    } else {
        Ok(QueryParam::String(value.clone()))
    }
}

/// Splits what a script passed into the statement and its parameters.
///
/// `query` holds the statement and then one text for each parameter,
/// `query_types` the type code of each text. `float_bits` holds, for each
/// text, the bit pattern of the floating-point number that it reads as, if
/// it reads as one; it is asked only for a text that is marked as a number
/// and is no whole number.
pub fn query_types_to_params(
    query: Vec<String>,
    query_types: Vec<i16>,
    float_bits: &Vec<Option<u64>>,
) -> (r: Result<(String, Vec<QueryParam>), ParamError>)
    ensures
        match r {
            Ok((statement, params)) => {
                &&& params_of(query.deep_view(), query_types@, float_bits@) == Ok::<
                    Seq<ParamView>,
                    ParamErrorView,
                >(params.deep_view())
                &&& statement@ == query[0]@
            },
            Err(e) => params_of(query.deep_view(), query_types@, float_bits@) == Err::<
                Seq<ParamView>,
                ParamErrorView,
            >(e@),
        },
{
    let qlen = query.len();
    if qlen == 0 {
        return Err(ParamError::EmptyQuery);
    }
    if qlen != query_types.len() {
        return Err(ParamError::SizeMismatch);
    }
    let ghost texts = query.deep_view();
    let ghost codes = query_types@;
    let ghost floats = float_bits@;
    let mut params: Vec<QueryParam> = Vec::new();
    let mut ix: usize = 1;
    proof {
        assert(params.deep_view() =~= Seq::<ParamView>::empty());
        match params_from(texts, codes, floats, 1) {
            Ok(more) => assert(Seq::<ParamView>::empty() + more =~= more),
            Err(e) => {},
        }
    }
    while ix < qlen
        invariant
            1 <= ix <= qlen,
            qlen == query.len(),
            qlen == query_types.len(),
            texts == query.deep_view(),
            codes == query_types@,
            floats == float_bits@,
            params_from(texts, codes, floats, 1) == after(
                params.deep_view(),
                params_from(texts, codes, floats, ix as int),
            ),
        decreases qlen - ix,
    {
        let float = if ix < float_bits.len() {
            float_bits[ix]
        } else {
            None
        };
        assert(texts[ix as int] == query[ix as int]@);
        let ghost done = params.deep_view();
        match param_for(&query[ix], query_types[ix], float, ix) {
            Ok(p) => {
                params.push(p);
                proof {
                    assert(params.deep_view() =~= done.push(p@));
                    match params_from(texts, codes, floats, ix + 1) {
                        Ok(more) => assert(done + (seq![p@] + more) =~= done.push(p@) + more),
                        Err(e) => {},
                    }
                }
            },
            Err(e) => {
                return Err(e);
            },
        }
        ix += 1;
    }
    proof {
        assert(params.deep_view() + Seq::<ParamView>::empty() =~= params.deep_view());
    }
    Ok((query[0].clone(), params))
}

/// The type of a column, as the driver knows it.
#[verifier::external_type_specification]
#[verifier::external_body]
pub struct ExType(Type);

/// The buffer that the driver collects the wire form of a value in.
#[verifier::external_type_specification]
#[verifier::external_body]
pub struct ExBytesMut(BytesMut);

/// The bytes that a buffer holds, in order.
pub uninterp spec fn buffer_bytes(buffer: BytesMut) -> Seq<u8>;

/// Whether a bound value is the SQL NULL.
#[derive(Clone, Copy, Debug, PartialEq, Eq, Structural)]
pub enum Nullness {
    Null,
    Value,
}

/// The number below 2^64 that has the bits of `v` in two's complement.
pub open spec fn unsigned64(v: i64) -> int {
    if v >= 0 {
        v as int
    } else {
        v + 0x1_0000_0000_0000_0000
    }
}

/// The eight bytes of a number below 2^64, the most significant first.
pub open spec fn big_endian64(u: int) -> Seq<u8> {
    seq![
        ((u / 0x100_0000_0000_0000) % 256) as u8,
        ((u / 0x1_0000_0000_0000) % 256) as u8,
        ((u / 0x100_0000_0000) % 256) as u8,
        ((u / 0x1_0000_0000) % 256) as u8,
        ((u / 0x100_0000) % 256) as u8,
        ((u / 0x1_0000) % 256) as u8,
        ((u / 0x100) % 256) as u8,
        (u % 256) as u8,
    ]
}

/// The byte that stands for a boolean: 1 for true, 0 for false.
pub open spec fn bool_byte(v: bool) -> u8 {
    if v {
        1u8
    } else {
        0u8
    }
}

/// `<bool as ToSql>::to_sql`: appends one byte, 1 for true and 0 for
/// false, and reports a value that is not NULL.
#[verifier::external_body]
fn encode_bool(v: bool, ty: &Type, out: &mut BytesMut) -> (r: Result<Nullness, String>)
    ensures
        match r {
            Ok(n) => n == Nullness::Value && buffer_bytes(*final(out)) == buffer_bytes(
                *old(out),
            ).push(bool_byte(v)),
            Err(_) => false,
        },
{
    match v.to_sql(ty, out) {
        Ok(IsNull::Yes) => Ok(Nullness::Null),
        Ok(IsNull::No) => Ok(Nullness::Value),
        Err(e) => Err(e.to_string()),
    }
}

/// `<i64 as ToSql>::to_sql`: appends the eight bytes of the number, the
/// most significant first, and reports a value that is not NULL.
#[verifier::external_body]
fn encode_int8(v: i64, ty: &Type, out: &mut BytesMut) -> (r: Result<Nullness, String>)
    ensures
        match r {
            Ok(n) => n == Nullness::Value && buffer_bytes(*final(out)) == buffer_bytes(*old(out))
                + big_endian64(unsigned64(v)),
            Err(_) => false,
        },
{
    match v.to_sql(ty, out) {
        Ok(IsNull::Yes) => Ok(Nullness::Null),
        Ok(IsNull::No) => Ok(Nullness::Value),
        Err(e) => Err(e.to_string()),
    }
}

/// `<&[u8] as ToSql>::to_sql`: appends the bytes as they are and reports
/// a value that is not NULL.
#[verifier::external_body]
fn encode_bytes(v: &[u8], ty: &Type, out: &mut BytesMut) -> (r: Result<Nullness, String>)
    ensures
        match r {
            Ok(n) => n == Nullness::Value && buffer_bytes(*final(out)) == buffer_bytes(*old(out))
                + v@,
            Err(_) => false,
        },
{
    match v.to_sql(ty, out) {
        Ok(IsNull::Yes) => Ok(Nullness::Null),
        Ok(IsNull::No) => Ok(Nullness::Value),
        Err(e) => Err(e.to_string()),
    }
}

/// What binding a text leaves in the buffer: what the buffer held, and
/// then the bytes of the text in UTF-8, with one byte of the value 1
/// before them where the column type is one of the tree types.
pub open spec fn text_appended(before: Seq<u8>, after: Seq<u8>, text: Seq<char>) -> bool {
    after == before + encode_utf8(text) || after == before.push(1u8) + encode_utf8(text)
}

/// `<String as ToSql>::to_sql`: appends the bytes of the text in UTF-8,
/// after one byte of the value 1 where the column type is `ltree`,
/// `lquery` or `ltxtquery`, and reports a value that is not NULL.
#[verifier::external_body]
fn encode_text(v: &String, ty: &Type, out: &mut BytesMut) -> (r: Result<Nullness, String>)
    ensures
        match r {
            Ok(n) => n == Nullness::Value && text_appended(
                buffer_bytes(*old(out)),
                buffer_bytes(*final(out)),
                v@,
            ),
            Err(_) => false,
        },
{
    match v.to_sql(ty, out) {
        Ok(IsNull::Yes) => Ok(Nullness::Null),
        Ok(IsNull::No) => Ok(Nullness::Value),
        Err(e) => Err(e.to_string()),
    }
}

/// The 64-bit signed integer that has the bits of `bits`.
fn as_signed(bits: u64) -> (v: i64)
    ensures
        unsigned64(v) == bits,
{
    if bits <= 0x7fff_ffff_ffff_ffff {
        bits as i64
    } else {
        let low = (bits - 0x8000_0000_0000_0000) as i64;
        low + i64::MIN
    }
}

/// The bytes of a parameter on the wire.
pub open spec fn binding_bytes(p: ParamView) -> Seq<u8> {
    match p {
        ParamView::Null => Seq::empty(),
        ParamView::Bool(b) => seq![bool_byte(b)],
        ParamView::Number(n) => big_endian64(unsigned64(n)),
        ParamView::Float(bits) => big_endian64(bits as int),
        ParamView::Text(s) => encode_utf8(s),
        ParamView::Date(s) => encode_utf8(s),
    }
}

/// What binding a parameter leaves in the buffer: what the buffer held
/// and then the bytes of the parameter. Before the bytes of a date there
/// is one byte of the value 1 where the column type is one of the tree
/// types.
pub open spec fn bound(before: Seq<u8>, after: Seq<u8>, p: ParamView) -> bool {
    match p {
        ParamView::Date(s) => text_appended(before, after, s),
        _ => after == before + binding_bytes(p),
    }
}

impl QueryParam {
    /// Binds the parameter to a column of type `ty`: appends its wire form
    /// to `out` and says whether it is the SQL NULL.
    ///
    /// `Null` is NULL for every column type and appends nothing. A boolean
    /// is one byte, a number and a floating-point number are eight bytes
    /// with the most significant first, a text is its bytes in UTF-8, and
    /// a date is the bytes of its text in UTF-8, after one byte of the
    /// value 1 where the column type is one of the tree types.
    pub fn to_sql(&self, ty: &Type, out: &mut BytesMut) -> (r: Result<Nullness, String>)
        ensures
            r matches Ok(n) && (n == Nullness::Null <==> self@ is Null),
            bound(buffer_bytes(*old(out)), buffer_bytes(*final(out)), self@),
    {
        match self {
            QueryParam::Null => {
                assert(buffer_bytes(*out) + Seq::<u8>::empty() =~= buffer_bytes(*out));
                Ok(Nullness::Null)
            },
            QueryParam::Bool(v) => {
                let r = encode_bool(*v, ty, out);
                assert(buffer_bytes(*old(out)).push(bool_byte(*v)) =~= buffer_bytes(*old(out))
                    + seq![bool_byte(*v)]);
                r
            },
            QueryParam::Number(v) => encode_int8(*v, ty, out),
            QueryParam::Float(bits) => encode_int8(as_signed(*bits), ty, out),
            QueryParam::String(v) => encode_bytes(v.as_str().as_bytes(), ty, out),
            QueryParam::Date(v) => encode_text(v, ty, out),
        }
    }

    /// Every column type is accepted: the statement decides what a
    /// parameter has to be.
    pub fn accepts(_ty: &Type) -> (r: bool)
        ensures
            r,
    {
        true
    }
}

} // verus!
