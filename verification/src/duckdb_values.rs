//! Conversions between JSON and DuckDB values: the bound parameters of a
//! request (`params_json`) and the rows that `QueryJson` returns.
use vstd::prelude::*;
use crate::duckdb_request::{GrpcStatus, StatusCode};
use crate::json::{
    entry_views, json_view, json_views, lemma_entry_views_push, lemma_json_views_push, Json, JsonV,
};
use crate::text::{concat2, dec_int, push_all, render_i128};

verus! {

/// A value bound to a statement parameter (`duckdb::types::Value`, scalar part).
#[derive(Debug, Clone, PartialEq, Eq)]
pub enum DuckParam {
    Null,
    Boolean(bool),
    BigInt(i64),
    UBigInt(u64),
    /// The bits of an `f64`.
    Double(u64),
    Text(String),
}

/// Time units of DuckDB timestamps and times.
#[derive(Debug, Clone, Copy, PartialEq, Eq)]
pub enum TimeUnit {
    Second,
    Millisecond,
    Microsecond,
    Nanosecond,
}

/// A value read from a DuckDB row (`duckdb::types::Value`). Floating-point
/// values are held by the bits of their `f64` (a `FLOAT` widened to `f64`);
/// a `DECIMAL` by its decimal text.
#[derive(Debug)]
pub enum DuckValue {
    Null,
    Boolean(bool),
    TinyInt(i8),
    SmallInt(i16),
    Int(i32),
    BigInt(i64),
    HugeInt(i128),
    UTinyInt(u8),
    USmallInt(u16),
    UInt(u32),
    UBigInt(u64),
    Float(u64),
    Double(u64),
    Decimal(String),
    Timestamp(TimeUnit, i64),
    Text(String),
    Blob(Vec<u8>),
    Date32(i32),
    Time64(TimeUnit, i64),
    Interval { months: i32, days: i32, nanos: i64 },
    List(Vec<DuckValue>),
    Enum(String),
    Struct(Vec<(String, DuckValue)>),
    MapValue(Vec<(DuckValue, DuckValue)>),
    Array(Vec<DuckValue>),
    Union(Box<DuckValue>),
}

pub open spec fn scalar_only_message() -> Seq<char> {
    "params_json only supports scalar JSON values (null, bool, number, string)"@
}

pub open spec fn params_array_message() -> Seq<char> {
    "params_json must be a JSON array of scalar values"@
}

/// The parameter bound for a JSON value, as a relation.
pub open spec fn param_matches(j: JsonV, p: DuckParam) -> bool {
    match (j, p) {
        (JsonV::Null, DuckParam::Null) => true,
        (JsonV::Bool(a), DuckParam::Boolean(b)) => a == b,
        (JsonV::Int(n), DuckParam::BigInt(v)) => n == v as int,
        (JsonV::Int(n), DuckParam::UBigInt(v)) => n == v as int && n > i64::MAX,
        (JsonV::Float(a), DuckParam::Double(b)) => a == b,
        (JsonV::Str(s), DuckParam::Text(t)) => s == t@,
        _ => false,
    }
}

/// A JSON value is scalar: it binds a parameter.
pub open spec fn is_scalar(j: JsonV) -> bool {
    match j {
        JsonV::Array(_) | JsonV::Object(_) => false,
        JsonV::Int(n) => i64::MIN <= n <= u64::MAX,
        _ => true,
    }
}

/// Converts one JSON value to a bound parameter.
pub fn json_param_to_duck_value(value: &Json) -> (r: Result<DuckParam, GrpcStatus>)
    ensures
        match r {
            Ok(p) => param_matches(value@, p),
            Err(s) => !is_scalar(value@) && s.code == StatusCode::InvalidArgument
                && s.message@ == scalar_only_message(),
        },
{
    match value {
        Json::Null => Ok(DuckParam::Null),
        Json::Bool(b) => Ok(DuckParam::Boolean(*b)),
        Json::Int(i) => Ok(DuckParam::BigInt(*i)),
        Json::UInt(u) => if *u <= i64::MAX as u64 {
            Ok(DuckParam::BigInt(*u as i64))
        } else {
            Ok(DuckParam::UBigInt(*u))
        },
        Json::Float(bits) => Ok(DuckParam::Double(*bits)),
        Json::Str(s) => Ok(DuckParam::Text(s.clone())),
        Json::Array(_) | Json::Object(_) => Err(
            GrpcStatus {
                code: StatusCode::InvalidArgument,
                message: String::from_str(
                    "params_json only supports scalar JSON values (null, bool, number, string)",
                ),
            },
        ),
    }
}

/// The parameters of a request from its parsed `params_json`: the parse
/// error is reported with its text, a value that is no array is refused, and
/// each element must be scalar. A blank `params_json` binds nothing and is
/// not parsed at all: see [`params_json_is_blank`].
pub fn bound_params_from_parsed(parsed: Result<Json, String>) -> (r: Result<Vec<DuckParam>, GrpcStatus>)
    ensures
        parsed is Err ==> (r matches Err(s) && s.code == StatusCode::InvalidArgument
            && s.message@ == params_array_message() + ": "@ + parsed->Err_0@),
        parsed is Ok && !(parsed->Ok_0@ is Array) ==> (r matches Err(s) && s.code
            == StatusCode::InvalidArgument && s.message@ == params_array_message()),
        parsed is Ok && parsed->Ok_0@ is Array ==> ({
            let items = parsed->Ok_0@->Array_0;
            match r {
                Ok(ps) => ps@.len() == items.len() && forall|i: int|
                    0 <= i < items.len() ==> param_matches(items[i], #[trigger] ps@[i]),
                Err(s) => s.code == StatusCode::InvalidArgument && s.message@
                    == scalar_only_message() && exists|i: int|
                    0 <= i < items.len() && !is_scalar(#[trigger] items[i]),
            }
        }),
{
    proof {
        reveal_strlit(": ");
    }
    let value = match parsed {
        Err(e) => {
            let mut msg = String::from_str("params_json must be a JSON array of scalar values");
            push_all(&mut msg, ": ");
            push_all(&mut msg, &e);
            return Err(GrpcStatus { code: StatusCode::InvalidArgument, message: msg });
        },
        Ok(v) => v,
    };
    match &value {
        Json::Array(items) => {
            assert(parsed->Ok_0@->Array_0 == json_views(items@));
            let r = params_from_items(items);
            proof {
                if r is Err {
                    let i = choose|i: int|
                        0 <= i < json_views(items@).len() && !is_scalar(
                            #[trigger] json_views(items@)[i],
                        );
                    assert(0 <= i < parsed->Ok_0@->Array_0.len() && !is_scalar(
                        parsed->Ok_0@->Array_0[i],
                    ));
                }
            }
            r
        },
        _ => Err(
            GrpcStatus {
                code: StatusCode::InvalidArgument,
                message: String::from_str("params_json must be a JSON array of scalar values"),
            },
        ),
    }
}

/// The parameters bound by the elements of a JSON array, in order; the first
/// element that is not scalar refuses the whole array.
fn params_from_items(items: &Vec<Json>) -> (r: Result<Vec<DuckParam>, GrpcStatus>)
    ensures
        match r {
            Ok(ps) => ps@.len() == json_views(items@).len() && forall|i: int|
                0 <= i < json_views(items@).len() ==> param_matches(
                    json_views(items@)[i],
                    #[trigger] ps@[i],
                ),
            Err(s) => s.code == StatusCode::InvalidArgument && s.message@ == scalar_only_message()
                && exists|i: int|
                0 <= i < json_views(items@).len() && !is_scalar(#[trigger] json_views(items@)[i]),
        },
{
    proof {
        crate::json::lemma_json_views_len(items@);
    }
    let mut out: Vec<DuckParam> = Vec::new();
    let mut i: usize = 0;
    while i < items.len()
        invariant
            0 <= i <= items.len(),
            json_views(items@).len() == items@.len(),
            out@.len() == i,
            forall|k: int|
                0 <= k < i ==> param_matches(json_views(items@)[k], #[trigger] out@[k]),
        decreases items.len() - i,
    {
        proof {
            crate::json::lemma_json_views_index(items@, i as int);
        }
        match json_param_to_duck_value(&items[i]) {
            Ok(p) => out.push(p),
            Err(s) => {
                assert(!is_scalar(json_views(items@)[i as int]));
                return Err(s);
            },
        }
        i += 1;
    }
    Ok(out)
}

/// The parameters a `params_json` text binds: none when it is blank (it is
/// then not parsed); otherwise the text parsed as JSON, which must be an
/// array of scalars; a parse error is reported with its text.
pub fn parse_bound_params(params_json: &str) -> (r: Result<Vec<DuckParam>, GrpcStatus>)
    ensures
        crate::text::all_ws(params_json@) ==> (r matches Ok(ps) && ps@.len() == 0),
        !crate::text::all_ws(params_json@) ==> match crate::json::json_parse(params_json@) {
            Err(e) => r matches Err(s) && s.code == StatusCode::InvalidArgument && s.message@
                == params_array_message() + ": "@ + e,
            Ok(v) => if !(v is Array) {
                r matches Err(s) && s.code == StatusCode::InvalidArgument && s.message@ == params_array_message()
            } else {
                let items = v->Array_0;
                match r {
                    Ok(ps) => ps@.len() == items.len() && forall|i: int|
                        0 <= i < items.len() ==> param_matches(items[i], #[trigger] ps@[i]),
                    Err(s) => s.code == StatusCode::InvalidArgument && s.message@ == scalar_only_message()
                        && exists|i: int| 0 <= i < items.len() && !is_scalar(#[trigger] items[i]),
                }
            },
        },
{
    if params_json_is_blank(params_json) {
        return Ok(Vec::new());
    }
    bound_params_from_parsed(crate::json::parse_json_text(params_json))
}

/// Whether `params_json` is blank, in which case the request binds no
/// parameters.
pub fn params_json_is_blank(params_json: &str) -> (r: bool)
    ensures
        r == crate::text::all_ws(params_json@),
{
    crate::text::is_blank(params_json)
}

/// The name of a time unit in JSON output.
pub open spec fn unit_name(u: TimeUnit) -> Seq<char> {
    match u {
        TimeUnit::Second => "second"@,
        TimeUnit::Millisecond => "millisecond"@,
        TimeUnit::Microsecond => "microsecond"@,
        TimeUnit::Nanosecond => "nanosecond"@,
    }
}

/// The name of a time unit.
pub fn time_unit_name(unit: TimeUnit) -> (r: &'static str)
    ensures
        r@ == unit_name(unit),
{
    match unit {
        TimeUnit::Second => "second",
        TimeUnit::Millisecond => "millisecond",
        TimeUnit::Microsecond => "microsecond",
        TimeUnit::Nanosecond => "nanosecond",
    }
}

/// The exponent bits of an `f64`.
pub open spec fn f64_exponent(bits: u64) -> u64 {
    (bits >> 52u64) & 0x7ffu64
}

/// The fraction bits of an `f64`.
pub open spec fn f64_fraction(bits: u64) -> u64 {
    bits & 0xf_ffff_ffff_ffffu64
}

/// A floating-point number in JSON: the number where it is finite, else its
/// text (`NaN`, `inf` or `-inf`), since JSON has no such numbers.
pub open spec fn spec_json_float(bits: u64) -> JsonV {
    if f64_exponent(bits) != 0x7ff {
        JsonV::Float(bits)
    } else if f64_fraction(bits) != 0 {
        JsonV::Str("NaN"@)
    } else if (bits >> 63u64) == 1 {
        JsonV::Str("-inf"@)
    } else {
        JsonV::Str("inf"@)
    }
}

/// A floating-point number as JSON.
pub fn json_float(bits: u64) -> (r: Json)
    ensures
        r@ == spec_json_float(bits),
{
    proof {
        reveal_strlit("NaN");
        reveal_strlit("inf");
        reveal_strlit("-inf");
    }
    if (bits >> 52u64) & 0x7ffu64 != 0x7ff {
        Json::Float(bits)
    } else if bits & 0xf_ffff_ffff_ffffu64 != 0 {
        Json::Str(String::from_str("NaN"))
    } else if (bits >> 63u64) == 1 {
        Json::Str(String::from_str("-inf"))
    } else {
        Json::Str(String::from_str("inf"))
    }
}

/// A tagged value: `{"type": <tag>, "value": <n>}`.
pub open spec fn tagged(tag: Seq<char>, n: int) -> JsonV {
    JsonV::Object(seq![("type"@, JsonV::Str(tag)), ("value"@, JsonV::Int(n))])
}

/// The JSON form of a DuckDB value in `QueryJson` results.
pub open spec fn spec_duck_json(v: DuckValue) -> JsonV
    decreases v,
{
    match v {
        DuckValue::Null => JsonV::Null,
        DuckValue::Boolean(b) => JsonV::Bool(b),
        DuckValue::TinyInt(n) => JsonV::Int(n as int),
        DuckValue::SmallInt(n) => JsonV::Int(n as int),
        DuckValue::Int(n) => JsonV::Int(n as int),
        DuckValue::BigInt(n) => JsonV::Int(n as int),
        DuckValue::HugeInt(n) => JsonV::Str(dec_int(n as int)),
        DuckValue::UTinyInt(n) => JsonV::Int(n as int),
        DuckValue::USmallInt(n) => JsonV::Int(n as int),
        DuckValue::UInt(n) => JsonV::Int(n as int),
        DuckValue::UBigInt(n) => JsonV::Int(n as int),
        DuckValue::Float(bits) => spec_json_float(bits),
        DuckValue::Double(bits) => spec_json_float(bits),
        DuckValue::Decimal(s) => JsonV::Str(s@),
        DuckValue::Timestamp(u, n) => tagged("timestamp_"@ + unit_name(u), n as int),
        DuckValue::Text(s) => JsonV::Str(s@),
        DuckValue::Blob(b) => JsonV::Array(Seq::new(b@.len(), |i: int| JsonV::Int(b@[i] as int))),
        DuckValue::Date32(n) => JsonV::Int(n as int),
        DuckValue::Time64(u, n) => tagged("time64_"@ + unit_name(u), n as int),
        DuckValue::Interval { months, days, nanos } => JsonV::Object(
            seq![
                ("months"@, JsonV::Int(months as int)),
                ("days"@, JsonV::Int(days as int)),
                ("nanos"@, JsonV::Int(nanos as int)),
            ],
        ),
        DuckValue::List(vs) => JsonV::Array(spec_duck_list(vs@)),
        DuckValue::Array(vs) => JsonV::Array(spec_duck_list(vs@)),
        DuckValue::Enum(s) => JsonV::Str(s@),
        DuckValue::Struct(fields) => JsonV::Object(spec_duck_fields(fields@)),
        DuckValue::MapValue(entries) => JsonV::Array(spec_duck_entries(entries@)),
        DuckValue::Union(inner) => spec_duck_json(*inner),
    }
}

pub open spec fn spec_duck_list(s: Seq<DuckValue>) -> Seq<JsonV>
    decreases s,
{
    if s.len() == 0 {
        Seq::empty()
    } else {
        spec_duck_list(s.subrange(0, s.len() - 1)).push(spec_duck_json(s[s.len() - 1]))
    }
}

pub open spec fn spec_duck_fields(s: Seq<(String, DuckValue)>) -> Seq<(Seq<char>, JsonV)>
    decreases s,
{
    if s.len() == 0 {
        Seq::empty()
    } else {
        spec_duck_fields(s.subrange(0, s.len() - 1)).push(
            (s[s.len() - 1].0@, spec_duck_json(s[s.len() - 1].1)),
        )
    }
}

/// Map entries become `{"key": k, "value": v}` objects.
pub open spec fn spec_duck_entries(s: Seq<(DuckValue, DuckValue)>) -> Seq<JsonV>
    decreases s,
{
    if s.len() == 0 {
        Seq::empty()
    } else {
        spec_duck_entries(s.subrange(0, s.len() - 1)).push(
            JsonV::Object(
                seq![
                    ("key"@, spec_duck_json(s[s.len() - 1].0)),
                    ("value"@, spec_duck_json(s[s.len() - 1].1)),
                ],
            ),
        )
    }
}

/// A DuckDB value is carried into JSON unchanged: null as null, a boolean as
/// that boolean, an integer of up to 64 bits as that integer (a 128-bit one
/// as its decimal text), a finite float as that float, text, decimals and
/// enum labels as that text, a date as its day number, the bytes of a blob
/// as numbers in order, and a union as its value.
pub proof fn lemma_duck_value_carried_over(v: DuckValue)
    ensures
        v is Null ==> spec_duck_json(v) == JsonV::Null,
        v matches DuckValue::Boolean(b) ==> spec_duck_json(v) == JsonV::Bool(b),
        v matches DuckValue::TinyInt(n) ==> spec_duck_json(v) == JsonV::Int(n as int),
        v matches DuckValue::SmallInt(n) ==> spec_duck_json(v) == JsonV::Int(n as int),
        v matches DuckValue::Int(n) ==> spec_duck_json(v) == JsonV::Int(n as int),
        v matches DuckValue::BigInt(n) ==> spec_duck_json(v) == JsonV::Int(n as int),
        v matches DuckValue::UTinyInt(n) ==> spec_duck_json(v) == JsonV::Int(n as int),
        v matches DuckValue::USmallInt(n) ==> spec_duck_json(v) == JsonV::Int(n as int),
        v matches DuckValue::UInt(n) ==> spec_duck_json(v) == JsonV::Int(n as int),
        v matches DuckValue::UBigInt(n) ==> spec_duck_json(v) == JsonV::Int(n as int),
        v matches DuckValue::HugeInt(n) ==> spec_duck_json(v) == JsonV::Str(dec_int(n as int)),
        v matches DuckValue::Double(bits) ==> (f64_exponent(bits) != 0x7ff ==> spec_duck_json(v) == JsonV::Float(bits)),
        v matches DuckValue::Float(bits) ==> (f64_exponent(bits) != 0x7ff ==> spec_duck_json(v) == JsonV::Float(bits)),
        v matches DuckValue::Text(t) ==> spec_duck_json(v) == JsonV::Str(t@),
        v matches DuckValue::Decimal(t) ==> spec_duck_json(v) == JsonV::Str(t@),
        v matches DuckValue::Enum(t) ==> spec_duck_json(v) == JsonV::Str(t@),
        v matches DuckValue::Date32(n) ==> spec_duck_json(v) == JsonV::Int(n as int),
        v matches DuckValue::Blob(bytes) ==> spec_duck_json(v) matches JsonV::Array(items) && items.len()
            == bytes@.len() && forall|i: int| 0 <= i < items.len() ==> #[trigger] items[i] == JsonV::Int(bytes@[i] as int),
        v matches DuckValue::Union(inner) ==> spec_duck_json(v) == spec_duck_json(*inner),
        v matches DuckValue::List(vs) ==> spec_duck_json(v) == JsonV::Array(spec_duck_list(vs@)),
        v matches DuckValue::Array(vs) ==> spec_duck_json(v) == JsonV::Array(spec_duck_list(vs@)),
        v matches DuckValue::Struct(fs) ==> spec_duck_json(v) == JsonV::Object(spec_duck_fields(fs@)),
        v matches DuckValue::MapValue(es) ==> spec_duck_json(v) == JsonV::Array(spec_duck_entries(es@)),
{
}

/// A list keeps its elements: element `i` of its JSON array is the JSON of
/// element `i`, for every element, in order.
pub proof fn lemma_duck_list_elements(vs: Seq<DuckValue>)
    ensures
        spec_duck_list(vs).len() == vs.len(),
        forall|i: int| 0 <= i < vs.len() ==> #[trigger] spec_duck_list(vs)[i] == spec_duck_json(vs[i]),
    decreases vs.len(),
{
    if vs.len() > 0 {
        let prefix = vs.subrange(0, vs.len() - 1);
        lemma_duck_list_elements(prefix);
        assert forall|i: int| 0 <= i < vs.len() implies #[trigger] spec_duck_list(vs)[i] == spec_duck_json(vs[i]) by {
            if i < vs.len() - 1 {
                assert(spec_duck_list(vs)[i] == spec_duck_list(prefix)[i]);
                assert(prefix[i] == vs[i]);
            }
        }
    }
}

/// A struct keeps its fields: field `i` of its JSON object has the field's
/// name and the JSON of its value, for every field, in order.
pub proof fn lemma_duck_struct_fields(fields: Seq<(String, DuckValue)>)
    ensures
        spec_duck_fields(fields).len() == fields.len(),
        forall|i: int|
            0 <= i < fields.len() ==> #[trigger] spec_duck_fields(fields)[i] == (fields[i].0@, spec_duck_json(fields[i].1)),
    decreases fields.len(),
{
    if fields.len() > 0 {
        let prefix = fields.subrange(0, fields.len() - 1);
        lemma_duck_struct_fields(prefix);
        assert forall|i: int| 0 <= i < fields.len() implies #[trigger] spec_duck_fields(fields)[i] == (
            fields[i].0@,
            spec_duck_json(fields[i].1),
        ) by {
            if i < fields.len() - 1 {
                assert(spec_duck_fields(fields)[i] == spec_duck_fields(prefix)[i]);
                assert(prefix[i] == fields[i]);
            }
        }
    }
}

/// A map keeps its entries: entry `i` of its JSON array is the object
/// `{"key": k, "value": v}` of the JSON of its key and value, for every
/// entry, in order.
pub proof fn lemma_duck_map_entries(entries: Seq<(DuckValue, DuckValue)>)
    ensures
        spec_duck_entries(entries).len() == entries.len(),
        forall|i: int|
            0 <= i < entries.len() ==> #[trigger] spec_duck_entries(entries)[i] == JsonV::Object(
                seq![("key"@, spec_duck_json(entries[i].0)), ("value"@, spec_duck_json(entries[i].1))],
            ),
    decreases entries.len(),
{
    if entries.len() > 0 {
        let prefix = entries.subrange(0, entries.len() - 1);
        lemma_duck_map_entries(prefix);
        assert forall|i: int| 0 <= i < entries.len() implies #[trigger] spec_duck_entries(entries)[i] == JsonV::Object(
            seq![("key"@, spec_duck_json(entries[i].0)), ("value"@, spec_duck_json(entries[i].1))],
        ) by {
            if i < entries.len() - 1 {
                assert(spec_duck_entries(entries)[i] == spec_duck_entries(prefix)[i]);
                assert(prefix[i] == entries[i]);
            }
        }
    }
}

/// An integer as JSON, in the representation for its range.
pub fn json_int(n: i128) -> (r: Json)
    requires
        i64::MIN <= n <= u64::MAX,
    ensures
        r@ == JsonV::Int(n as int),
{
    if n <= i64::MAX as i128 {
        Json::Int(n as i64)
    } else {
        Json::UInt(n as u64)
    }
}

fn key_entry(key: &str, value: Json) -> (r: (String, Json))
    ensures
        r.0@ == key@,
        r.1 == value,
{
    (String::from_str(key), value)
}

/// A `{"type": <tag><unit>, "value": n}` object.
fn tagged_json(prefix: &str, unit: TimeUnit, n: i64) -> (r: Json)
    ensures
        r@ == tagged(prefix@ + unit_name(unit), n as int),
{
    let tag = concat2(prefix, time_unit_name(unit));
    let mut entries: Vec<(String, Json)> = Vec::new();
    let e1 = key_entry("type", Json::Str(tag));
    proof {
        lemma_entry_views_push(entries@, e1.0, e1.1);
    }
    entries.push(e1);
    let e2 = key_entry("value", Json::Int(n));
    proof {
        lemma_entry_views_push(entries@, e2.0, e2.1);
    }
    entries.push(e2);
    assert(entry_views(Seq::<(String, Json)>::empty()) =~= Seq::<(Seq<char>, JsonV)>::empty());
    proof {
        reveal_strlit("type");
        reveal_strlit("value");
    }
    let r = Json::Object(entries);
    assert(r@ == JsonV::Object(entry_views(entries@)));
    assert(entry_views(entries@) =~= seq![("type"@, JsonV::Str(tag@)), ("value"@, JsonV::Int(n as int))]);
    r
}

/// The JSON form of a DuckDB value.
pub fn duckdb_value_to_json(value: &DuckValue) -> (r: Json)
    ensures
        r@ == spec_duck_json(*value),
    decreases value,
{
    proof {
        reveal_strlit("timestamp_");
        reveal_strlit("time64_");
        reveal_strlit("months");
        reveal_strlit("days");
        reveal_strlit("nanos");
        reveal_strlit("key");
        reveal_strlit("value");
    }
    match value {
        DuckValue::Null => Json::Null,
        DuckValue::Boolean(b) => Json::Bool(*b),
        DuckValue::TinyInt(n) => Json::Int(*n as i64),
        DuckValue::SmallInt(n) => Json::Int(*n as i64),
        DuckValue::Int(n) => Json::Int(*n as i64),
        DuckValue::BigInt(n) => Json::Int(*n),
        DuckValue::HugeInt(n) => Json::Str(render_i128(*n)),
        DuckValue::UTinyInt(n) => Json::Int(*n as i64),
        DuckValue::USmallInt(n) => Json::Int(*n as i64),
        DuckValue::UInt(n) => Json::Int(*n as i64),
        DuckValue::UBigInt(n) => json_int(*n as i128),
        DuckValue::Float(bits) => json_float(*bits),
        DuckValue::Double(bits) => json_float(*bits),
        DuckValue::Decimal(s) => Json::Str(s.clone()),
        DuckValue::Timestamp(u, n) => tagged_json("timestamp_", *u, *n),
        DuckValue::Text(s) => Json::Str(s.clone()),
        DuckValue::Blob(bytes) => {
            let mut items: Vec<Json> = Vec::new();
            let mut i: usize = 0;
            while i < bytes.len()
                invariant
                    0 <= i <= bytes.len(),
                    json_views(items@) =~= Seq::new(i as nat, |k: int| JsonV::Int(bytes@[k] as int)),
                decreases bytes.len() - i,
            {
                let item = Json::Int(bytes[i] as i64);
                proof {
                    lemma_json_views_push(items@, item);
                }
                items.push(item);
                i += 1;
            }
            Json::Array(items)
        },
        DuckValue::Date32(n) => Json::Int(*n as i64),
        DuckValue::Time64(u, n) => tagged_json("time64_", *u, *n),
        DuckValue::Interval { months, days, nanos } => {
            let mut entries: Vec<(String, Json)> = Vec::new();
            let e1 = key_entry("months", Json::Int(*months as i64));
            proof {
                lemma_entry_views_push(entries@, e1.0, e1.1);
            }
            entries.push(e1);
            let e2 = key_entry("days", Json::Int(*days as i64));
            proof {
                lemma_entry_views_push(entries@, e2.0, e2.1);
            }
            entries.push(e2);
            let e3 = key_entry("nanos", Json::Int(*nanos));
            proof {
                lemma_entry_views_push(entries@, e3.0, e3.1);
            }
            entries.push(e3);
            assert(entry_views(Seq::<(String, Json)>::empty()) =~= Seq::<(Seq<char>, JsonV)>::empty());
            assert(entry_views(entries@) =~= seq![
                ("months"@, JsonV::Int(*months as int)),
                ("days"@, JsonV::Int(*days as int)),
                ("nanos"@, JsonV::Int(*nanos as int)),
            ]);
            Json::Object(entries)
        },
        DuckValue::List(vs) | DuckValue::Array(vs) => {
            let mut items: Vec<Json> = Vec::new();
            let mut i: usize = 0;
            while i < vs.len()
                invariant
                    0 <= i <= vs.len(),
                    *value == DuckValue::List(*vs) || *value == DuckValue::Array(*vs),
                    json_views(items@) == spec_duck_list(vs@.subrange(0, i as int)),
                decreases vs.len() - i,
            {
                proof {
                    if *value == DuckValue::List(*vs) {
                        assert(decreases_to!(*value => (*value)->List_0));
                    } else {
                        assert(decreases_to!(*value => (*value)->Array_0));
                    }
                    assert(decreases_to!(*vs => vs@));
                    assert(decreases_to!(vs@ => vs@[i as int]));
                }
                let item = duckdb_value_to_json(&vs[i]);
                proof {
                    lemma_json_views_push(items@, item);
                    assert(vs@.subrange(0, i + 1).subrange(0, i as int) =~= vs@.subrange(0, i as int));
                }
                items.push(item);
                i += 1;
            }
            assert(vs@.subrange(0, vs.len() as int) =~= vs@);
            Json::Array(items)
        },
        DuckValue::Enum(s) => Json::Str(s.clone()),
        DuckValue::Struct(fields) => {
            let mut entries: Vec<(String, Json)> = Vec::new();
            let mut i: usize = 0;
            while i < fields.len()
                invariant
                    0 <= i <= fields.len(),
                    *value == DuckValue::Struct(*fields),
                    entry_views(entries@) == spec_duck_fields(fields@.subrange(0, i as int)),
                decreases fields.len() - i,
            {
                proof {
                    assert(decreases_to!(*value => (*value)->Struct_0));
                    assert(decreases_to!(*fields => fields@));
                    assert(decreases_to!(fields@ => fields@[i as int]));
                    assert(decreases_to!(fields@[i as int] => fields@[i as int].1));
                }
                let item = duckdb_value_to_json(&fields[i].1);
                let key = fields[i].0.clone();
                proof {
                    lemma_entry_views_push(entries@, key, item);
                    assert(fields@.subrange(0, i + 1).subrange(0, i as int) =~= fields@.subrange(
                        0,
                        i as int,
                    ));
                }
                entries.push((key, item));
                i += 1;
            }
            assert(fields@.subrange(0, fields.len() as int) =~= fields@);
            Json::Object(entries)
        },
        DuckValue::MapValue(pairs) => {
            let mut items: Vec<Json> = Vec::new();
            let mut i: usize = 0;
            while i < pairs.len()
                invariant
                    0 <= i <= pairs.len(),
                    *value == DuckValue::MapValue(*pairs),
                    json_views(items@) == spec_duck_entries(pairs@.subrange(0, i as int)),
                decreases pairs.len() - i,
            {
                proof {
                    assert(decreases_to!(*value => (*value)->MapValue_0));
                    assert(decreases_to!(*pairs => pairs@));
                    assert(decreases_to!(pairs@ => pairs@[i as int]));
                    assert(decreases_to!(pairs@[i as int] => pairs@[i as int].0));
                    assert(decreases_to!(pairs@[i as int] => pairs@[i as int].1));
                }
                let k = duckdb_value_to_json(&pairs[i].0);
                let v = duckdb_value_to_json(&pairs[i].1);
                let mut entry: Vec<(String, Json)> = Vec::new();
                let e1 = key_entry("key", k);
                proof {
                    lemma_entry_views_push(entry@, e1.0, e1.1);
                }
                entry.push(e1);
                let e2 = key_entry("value", v);
                proof {
                    lemma_entry_views_push(entry@, e2.0, e2.1);
                }
                entry.push(e2);
                assert(entry_views(Seq::<(String, Json)>::empty()) =~= Seq::<
                    (Seq<char>, JsonV),
                >::empty());
                assert(entry_views(entry@) =~= seq![("key"@, json_view(k)), ("value"@, json_view(v))]);
                let obj = Json::Object(entry);
                proof {
                    lemma_json_views_push(items@, obj);
                    assert(pairs@.subrange(0, i + 1).subrange(0, i as int) =~= pairs@.subrange(
                        0,
                        i as int,
                    ));
                }
                items.push(obj);
                i += 1;
            }
            assert(pairs@.subrange(0, pairs.len() as int) =~= pairs@);
            Json::Array(items)
        },
        DuckValue::Union(inner) => duckdb_value_to_json(inner),
    }
}

/// A result row as a JSON object keyed by column name.
#[verifier::spinoff_prover]
pub fn row_to_json(column_names: &Vec<String>, values: Vec<Json>) -> (r: Json)
    requires
        column_names@.len() == values@.len(),
    ensures
        r@ == JsonV::Object(Seq::new(column_names@.len(), |i: int| (column_names@[i]@, values@[i]@))),
{
    let mut entries: Vec<(String, Json)> = Vec::new();
    let mut values = values;
    let ghost vals = values@;
    let mut rev: Vec<Json> = Vec::new();
    // move the values out in order
    while values.len() > 0
        invariant
            values@ + rev@.reverse() =~= vals,
        decreases values.len(),
    {
        let v = values.pop().unwrap();
        rev.push(v);
        assert(rev@.reverse() =~= seq![v] + rev@.drop_last().reverse());
    }
    assert(rev@.reverse() =~= vals);
    let mut i: usize = 0;
    while i < column_names.len()
        invariant
            0 <= i <= column_names.len(),
            column_names@.len() == vals.len(),
            rev@.len() + i == vals.len(),
            rev@.reverse() =~= vals.subrange(i as int, vals.len() as int),
            entry_views(entries@) =~= Seq::new(i as nat, |k: int| (column_names@[k]@, json_view(vals[k]))),
        decreases column_names.len() - i,
    {
        let ghost old_rev = rev@;
        let v = rev.pop().unwrap();
        assert(old_rev =~= rev@.push(v));
        assert(old_rev.reverse() =~= seq![v] + rev@.reverse());
        assert(rev@.reverse() =~= old_rev.reverse().drop_first());
        assert(vals.subrange(i as int, vals.len() as int).drop_first() =~= vals.subrange(
            i + 1,
            vals.len() as int,
        ));
        assert(v == vals[i as int]) by {
            assert(vals.subrange(i as int, vals.len() as int)[0] == vals[i as int]);
        }
        let key = column_names[i].clone();
        proof {
            lemma_entry_views_push(entries@, key, v);
        }
        entries.push((key, v));
        i += 1;
        assert(rev@.reverse() =~= vals.subrange(i as int, vals.len() as int));
    }
    let r = Json::Object(entries);
    assert(entry_views(entries@) =~= Seq::new(
        column_names@.len(),
        |k: int| (column_names@[k]@, vals[k]@),
    ));
    r
}

} // verus!
