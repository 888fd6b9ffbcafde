//! Tables of the LanceDB service: the columns a table is created with, the
//! checks on requests, JSON rows read into typed columns, and typed columns
//! written back as JSON rows.
use vstd::prelude::*;
use crate::duckdb_request::{GrpcStatus, StatusCode};
use crate::json::{
    entry_views, json_views, lemma_json_views_index, lemma_json_views_len, lemma_json_views_push,
    push_entry, spec_as_bool, spec_as_i64, spec_as_str, spec_as_u64, spec_get, Json, JsonV,
};
use crate::text::{all_ws, concat2, concat3, dec_int, is_blank, push_all, trim_seq};

verus! {

/// The column types a table can be created with (`ColumnType` of the
/// service's protocol).
#[derive(Debug, Clone, Copy, PartialEq, Eq, Structural)]
pub enum ColumnType {
    Unspecified,
    String,
    Int64,
    Float64,
    Bool,
    Float32,
    Uint64,
    Int32,
    Uint32,
    VectorFloat32,
}

/// A column of a table to be created.
#[derive(Debug, Clone)]
pub struct ColumnDef {
    pub name: String,
    pub column_type: ColumnType,
    pub nullable: bool,
    pub vector_dim: u32,
}

/// The Arrow type of a field, as far as the service reads or writes it;
/// any other type by its name.
#[derive(Debug, Clone)]
pub enum FieldType {
    Utf8,
    LargeUtf8,
    Int64,
    Int32,
    UInt64,
    UInt32,
    Float64,
    Float32,
    Boolean,
    /// A fixed-size list of nullable `float32` items.
    VectorFloat32(i32),
    Other(String),
}

/// A field of a table's schema.
#[derive(Debug, Clone)]
pub struct FieldSpec {
    pub name: String,
    pub data_type: FieldType,
    pub nullable: bool,
}

pub open spec fn invalid(message: Seq<char>) -> (StatusCode, Seq<char>) {
    (StatusCode::InvalidArgument, message)
}

/// The status as a code and its message.
pub open spec fn status_view(s: GrpcStatus) -> (StatusCode, Seq<char>) {
    (s.code, s.message@)
}

fn invalid_argument(message: String) -> (r: GrpcStatus)
    ensures
        r.code == StatusCode::InvalidArgument,
        r.message@ == message@,
{
    GrpcStatus { code: StatusCode::InvalidArgument, message }
}

/// The field a column definition makes, or why it makes none.
pub open spec fn spec_column_field(c: ColumnDef) -> Result<(FieldType, bool), Seq<char>> {
    match c.column_type {
        ColumnType::String => Ok((FieldType::Utf8, c.nullable)),
        ColumnType::Int64 => Ok((FieldType::Int64, c.nullable)),
        ColumnType::Float64 => Ok((FieldType::Float64, c.nullable)),
        ColumnType::Bool => Ok((FieldType::Boolean, c.nullable)),
        ColumnType::Float32 => Ok((FieldType::Float32, c.nullable)),
        ColumnType::Uint64 => Ok((FieldType::UInt64, c.nullable)),
        ColumnType::Int32 => Ok((FieldType::Int32, c.nullable)),
        ColumnType::Uint32 => Ok((FieldType::UInt32, c.nullable)),
        ColumnType::VectorFloat32 => if c.vector_dim == 0 {
            Err("vector column '"@ + c.name@ + "' must have vector_dim > 0"@)
        } else {
            Ok((FieldType::VectorFloat32(c.vector_dim as i32), c.nullable))
        },
        ColumnType::Unspecified => Err("column '"@ + c.name@ + "' has unspecified type"@),
    }
}

/// The schema field of a column definition; a vector column needs a
/// dimension, and every column a type.
pub fn column_to_field(column: &ColumnDef) -> (r: Result<FieldSpec, GrpcStatus>)
    ensures
        match (r, spec_column_field(*column)) {
            (Ok(f), Ok((t, n))) => f.name@ == column.name@ && f.data_type == t && f.nullable == n,
            (Err(s), Err(m)) => status_view(s) == invalid(m),
            _ => false,
        },
{
    let data_type = match column.column_type {
        ColumnType::String => FieldType::Utf8,
        ColumnType::Int64 => FieldType::Int64,
        ColumnType::Float64 => FieldType::Float64,
        ColumnType::Bool => FieldType::Boolean,
        ColumnType::Float32 => FieldType::Float32,
        ColumnType::Uint64 => FieldType::UInt64,
        ColumnType::Int32 => FieldType::Int32,
        ColumnType::Uint32 => FieldType::UInt32,
        ColumnType::VectorFloat32 => {
            if column.vector_dim == 0 {
                return Err(
                    invalid_argument(
                        concat3("vector column '", &column.name, "' must have vector_dim > 0"),
                    ),
                );
            }
            FieldType::VectorFloat32(column.vector_dim as i32)
        },
        ColumnType::Unspecified => {
            return Err(invalid_argument(concat3("column '", &column.name, "' has unspecified type")));
        },
    };
    Ok(FieldSpec { name: column.name.clone(), data_type, nullable: column.nullable })
}

/// The schema a list of column definitions makes: every column needs a
/// name that is not blank and a field; the first that fails decides.
pub fn build_arrow_schema(columns: &Vec<ColumnDef>) -> (r: Result<Vec<FieldSpec>, GrpcStatus>)
    ensures
        match r {
            Ok(fields) => fields@.len() == columns@.len() && forall|i: int|
                0 <= i < columns@.len() ==> !all_ws(columns@[i].name@) && ({
                    let f = #[trigger] fields@[i];
                    spec_column_field(columns@[i]) == Ok::<(FieldType, bool), Seq<char>>(
                        (f.data_type, f.nullable),
                    ) && f.name@ == columns@[i].name@
                }),
            Err(s) => exists|k: int|
                0 <= k < columns@.len() && (forall|i: int|
                    0 <= i < k ==> !all_ws(columns@[i].name@) && (#[trigger] spec_column_field(
                        columns@[i],
                    )) is Ok) && if all_ws(columns@[k].name@) {
                    status_view(s) == invalid("column name must not be empty"@)
                } else {
                    spec_column_field(columns@[k]) matches Err(m) && status_view(s) == invalid(m)
                },
        },
{
    let mut fields: Vec<FieldSpec> = Vec::new();
    let mut i: usize = 0;
    while i < columns.len()
        invariant
            0 <= i <= columns.len(),
            fields@.len() == i,
            forall|j: int|
                0 <= j < i ==> !all_ws(columns@[j].name@) && ({
                    let f = #[trigger] fields@[j];
                    spec_column_field(columns@[j]) == Ok::<(FieldType, bool), Seq<char>>(
                        (f.data_type, f.nullable),
                    ) && f.name@ == columns@[j].name@
                }),
        decreases columns.len() - i,
    {
        let column = &columns[i];
        if is_blank(&column.name) {
            let s = invalid_argument(String::from_str("column name must not be empty"));
            assert forall|j: int| 0 <= j < i implies !all_ws(columns@[j].name@) && (#[trigger] spec_column_field(columns@[j])) is Ok by {
                let f = fields@[j];
            }
            return Err(s);
        }
        match column_to_field(column) {
            Ok(f) => fields.push(f),
            Err(s) => {
                assert forall|j: int| 0 <= j < i implies !all_ws(columns@[j].name@) && (#[trigger] spec_column_field(columns@[j])) is Ok by {
                    let f = fields@[j];
                }
                return Err(s);
            },
        }
        i += 1;
    }
    Ok(fields)
}

/// A JSON number as a float column holds it: widened to a float by the
/// service that writes the column.
#[derive(Debug, Clone, Copy)]
pub enum NumberValue {
    Int(i64),
    UInt(u64),
    /// The bits of an `f64`.
    Float(u64),
}

pub open spec fn number_json(n: NumberValue) -> JsonV {
    match n {
        NumberValue::Int(i) => JsonV::Int(i as int),
        NumberValue::UInt(u) => JsonV::Int(u as int),
        NumberValue::Float(bits) => JsonV::Float(bits),
    }
}

/// The values of one column, row by row; `None` is a null.
#[derive(Debug, Clone)]
pub enum ColumnValues {
    Utf8(Vec<Option<String>>),
    LargeUtf8(Vec<Option<String>>),
    Int64(Vec<Option<i64>>),
    Int32(Vec<Option<i32>>),
    UInt64(Vec<Option<u64>>),
    UInt32(Vec<Option<u32>>),
    Float64(Vec<Option<NumberValue>>),
    Float32(Vec<Option<NumberValue>>),
    Boolean(Vec<Option<bool>>),
    VectorFloat32 { dim: i32, rows: Vec<Option<Vec<Option<NumberValue>>>> },
    /// A column of another type: only which rows are null.
    Unsupported { kind_name: String, nulls: Vec<bool> },
}

pub open spec fn opt_text(o: Option<String>) -> Option<JsonV> {
    match o {
        Some(s) => Some(JsonV::Str(s@)),
        None => None,
    }
}

pub open spec fn vector_json(items: Seq<Option<NumberValue>>) -> JsonV {
    JsonV::Array(Seq::new(items.len(), |i: int| match items[i] {
        Some(n) => number_json(n),
        None => JsonV::Null,
    }))
}

/// The number of rows of a column.
pub open spec fn column_len(c: ColumnValues) -> nat {
    match c {
        ColumnValues::Utf8(v) => v@.len(),
        ColumnValues::LargeUtf8(v) => v@.len(),
        ColumnValues::Int64(v) => v@.len(),
        ColumnValues::Int32(v) => v@.len(),
        ColumnValues::UInt64(v) => v@.len(),
        ColumnValues::UInt32(v) => v@.len(),
        ColumnValues::Float64(v) => v@.len(),
        ColumnValues::Float32(v) => v@.len(),
        ColumnValues::Boolean(v) => v@.len(),
        ColumnValues::VectorFloat32 { rows, .. } => rows@.len(),
        ColumnValues::Unsupported { nulls, .. } => nulls@.len(),
    }
}

/// The value a column holds in row `i`, as JSON; `None` for a null.
pub open spec fn cell(c: ColumnValues, i: int) -> Option<JsonV> {
    match c {
        ColumnValues::Utf8(v) => opt_text(v@[i]),
        ColumnValues::LargeUtf8(v) => opt_text(v@[i]),
        ColumnValues::Int64(v) => match v@[i] {
            Some(n) => Some(JsonV::Int(n as int)),
            None => None,
        },
        ColumnValues::Int32(v) => match v@[i] {
            Some(n) => Some(JsonV::Int(n as int)),
            None => None,
        },
        ColumnValues::UInt64(v) => match v@[i] {
            Some(n) => Some(JsonV::Int(n as int)),
            None => None,
        },
        ColumnValues::UInt32(v) => match v@[i] {
            Some(n) => Some(JsonV::Int(n as int)),
            None => None,
        },
        ColumnValues::Float64(v) => match v@[i] {
            Some(n) => Some(number_json(n)),
            None => None,
        },
        ColumnValues::Float32(v) => match v@[i] {
            Some(n) => Some(number_json(n)),
            None => None,
        },
        ColumnValues::Boolean(v) => match v@[i] {
            Some(b) => Some(JsonV::Bool(b)),
            None => None,
        },
        ColumnValues::VectorFloat32 { rows, .. } => match rows@[i] {
            Some(items) => Some(vector_json(items@)),
            None => None,
        },
        ColumnValues::Unsupported { nulls, .. } => if nulls@[i] {
            None
        } else {
            Some(JsonV::Null)
        },
    }
}

/// The column is of the field type.
pub open spec fn column_has_type(c: ColumnValues, t: FieldType) -> bool {
    match (c, t) {
        (ColumnValues::Utf8(_), FieldType::Utf8) => true,
        (ColumnValues::LargeUtf8(_), FieldType::LargeUtf8) => true,
        (ColumnValues::Int64(_), FieldType::Int64) => true,
        (ColumnValues::Int32(_), FieldType::Int32) => true,
        (ColumnValues::UInt64(_), FieldType::UInt64) => true,
        (ColumnValues::UInt32(_), FieldType::UInt32) => true,
        (ColumnValues::Float64(_), FieldType::Float64) => true,
        (ColumnValues::Float32(_), FieldType::Float32) => true,
        (ColumnValues::Boolean(_), FieldType::Boolean) => true,
        (ColumnValues::VectorFloat32 { dim, .. }, FieldType::VectorFloat32(d)) => dim == d,
        _ => false,
    }
}

pub open spec fn field_message(field: Seq<char>, tail: Seq<char>) -> Seq<char> {
    "field '"@ + field + tail
}

pub open spec fn not_objects_message() -> Seq<char> {
    "JSON rows must be an array of JSON objects"@
}

/// The value a JSON row gives a field: `None` for a null or missing value
/// of a nullable field; a row that is no object, and a null or missing
/// value of a field that is not nullable, are refused.
pub open spec fn spec_extract_field(row: JsonV, field: Seq<char>, nullable: bool) -> Result<Option<JsonV>, Seq<char>> {
    match row {
        JsonV::Object(_) => match spec_get(row, field) {
            Some(JsonV::Null) => if nullable {
                Ok(None)
            } else {
                Err(field_message(field, "' is not nullable"@))
            },
            Some(v) => Ok(Some(v)),
            None => if nullable {
                Ok(None)
            } else {
                Err(field_message(field, "' is missing and not nullable"@))
            },
        },
        _ => Err(not_objects_message()),
    }
}

/// The value of a field in a JSON row.
pub fn extract_field_value<'a>(row: &'a Json, field_name: &str, nullable: bool) -> (r: Result<Option<&'a Json>, GrpcStatus>)
    ensures
        match (r, spec_extract_field(row@, field_name@, nullable)) {
            (Ok(Some(a)), Ok(Some(b))) => a@ == b,
            (Ok(None), Ok(None)) => true,
            (Err(s), Err(m)) => status_view(s) == invalid(m),
            _ => false,
        },
{
    match row {
        Json::Object(entries) => {
            assert(row@ == JsonV::Object(entry_views(entries@)));
        },
        _ => {
            return Err(invalid_argument(String::from_str("JSON rows must be an array of JSON objects")));
        },
    }
    assert(row@ is Object);
    let got = row.get(field_name);
    match got {
        Some(v) => {
            assert(spec_get(row@, field_name@) == Some(v@));
            if v.is_null() {
                if nullable {
                    Ok(None)
                } else {
                    Err(invalid_argument(concat3("field '", field_name, "' is not nullable")))
                }
            } else {
                Ok(Some(v))
            }
        },
        None => {
            assert(spec_get(row@, field_name@) is None);
            if nullable {
                Ok(None)
            } else {
                Err(invalid_argument(concat3("field '", field_name, "' is missing and not nullable")))
            }
        },
    }
}

/// A JSON number (`Value::as_f64` gives one).
pub open spec fn is_number(v: JsonV) -> bool {
    v is Int || v is Float
}

/// Why a non-null value does not fit a field of the type, if it does not.
pub open spec fn value_error(v: JsonV, t: FieldType, field: Seq<char>) -> Option<Seq<char>> {
    match t {
        FieldType::Utf8 | FieldType::LargeUtf8 => if spec_as_str(v) is None {
            Some(field_message(field, "' must be a string"@))
        } else {
            None
        },
        FieldType::Int64 => if spec_as_i64(v) is None {
            Some(field_message(field, "' must be an int64"@))
        } else {
            None
        },
        FieldType::Int32 => match spec_as_i64(v) {
            None => Some(field_message(field, "' must be an int32"@)),
            Some(n) => if i32::MIN <= n <= i32::MAX {
                None
            } else {
                Some(field_message(field, "' is out of int32 range"@))
            },
        },
        FieldType::UInt64 => if spec_as_u64(v) is None {
            Some(field_message(field, "' must be a uint64"@))
        } else {
            None
        },
        FieldType::UInt32 => match spec_as_u64(v) {
            None => Some(field_message(field, "' must be a uint32"@)),
            Some(n) => if n <= u32::MAX {
                None
            } else {
                Some(field_message(field, "' is out of uint32 range"@))
            },
        },
        FieldType::Float64 => if !is_number(v) {
            Some(field_message(field, "' must be a float64"@))
        } else {
            None
        },
        FieldType::Float32 => if !is_number(v) {
            Some(field_message(field, "' must be a float32"@))
        } else {
            None
        },
        FieldType::Boolean => if spec_as_bool(v) is None {
            Some(field_message(field, "' must be a bool"@))
        } else {
            None
        },
        FieldType::VectorFloat32(dim) => match v {
            JsonV::Array(items) => if items.len() != (dim as usize) as int {
                Some(
                    field_message(
                        field,
                        "' length mismatch: expected "@ + dec_int(dim as int) + ", got "@ + dec_int(
                            items.len() as int,
                        ),
                    ),
                )
            } else if exists|i: int| 0 <= i < items.len() && !is_number(#[trigger] items[i]) {
                Some(field_message(field, "' must be a float32"@))
            } else {
                None
            },
            _ => Some(field_message(field, "' must be a JSON array of float32 values"@)),
        },
        FieldType::Other(_) => None,
    }
}

/// What a row gives the column of a field: its value (checked against the
/// type), a null, or the message that refuses the row.
pub open spec fn spec_row_cell(row: JsonV, field: Seq<char>, t: FieldType, nullable: bool) -> Result<Option<JsonV>, Seq<char>> {
    match spec_extract_field(row, field, nullable) {
        Err(m) => Err(m),
        Ok(None) => Ok(None),
        Ok(Some(v)) => match value_error(v, t, field) {
            Some(m) => Err(m),
            None => Ok(Some(v)),
        },
    }
}

pub open spec fn unsupported_input_message(field: Seq<char>, kind_name: Seq<char>) -> Seq<char> {
    "unsupported field type for JSON ingestion on '"@ + field + "': "@ + kind_name
}

/// A checked value of a cell, typed.
#[derive(Debug)]
pub enum CellValue {
    Text(String),
    I64(i64),
    I32(i32),
    U64(u64),
    U32(u32),
    Num(NumberValue),
    Bool(bool),
    Vector(Vec<Option<NumberValue>>),
}

pub open spec fn cell_value_json(c: CellValue) -> JsonV {
    match c {
        CellValue::Text(s) => JsonV::Str(s@),
        CellValue::I64(n) => JsonV::Int(n as int),
        CellValue::I32(n) => JsonV::Int(n as int),
        CellValue::U64(n) => JsonV::Int(n as int),
        CellValue::U32(n) => JsonV::Int(n as int),
        CellValue::Num(n) => number_json(n),
        CellValue::Bool(b) => JsonV::Bool(b),
        CellValue::Vector(items) => vector_json(items@),
    }
}

/// The cell value fits a column of the type.
pub open spec fn cell_fits(c: CellValue, t: FieldType) -> bool {
    match (c, t) {
        (CellValue::Text(_), FieldType::Utf8) => true,
        (CellValue::Text(_), FieldType::LargeUtf8) => true,
        (CellValue::I64(_), FieldType::Int64) => true,
        (CellValue::I32(_), FieldType::Int32) => true,
        (CellValue::U64(_), FieldType::UInt64) => true,
        (CellValue::U32(_), FieldType::UInt32) => true,
        (CellValue::Num(_), FieldType::Float64) => true,
        (CellValue::Num(_), FieldType::Float32) => true,
        (CellValue::Bool(_), FieldType::Boolean) => true,
        (CellValue::Vector(_), FieldType::VectorFloat32(_)) => true,
        _ => false,
    }
}

/// A JSON number for a float column.
fn number_of(v: &Json) -> (r: Option<NumberValue>)
    ensures
        r is Some <==> is_number(v@),
        r matches Some(n) ==> number_json(n) == v@,
{
    match v {
        Json::Int(i) => Some(NumberValue::Int(*i)),
        Json::UInt(u) => Some(NumberValue::UInt(*u)),
        Json::Float(bits) => Some(NumberValue::Float(*bits)),
        _ => None,
    }
}

fn field_error(field_name: &str, tail: &str) -> (r: GrpcStatus)
    ensures
        status_view(r) == invalid(field_message(field_name@, tail@)),
{
    invalid_argument(concat3("field '", field_name, tail))
}

/// Checks a non-null value against the type of its column.
fn typed_value(v: &Json, t: &FieldType, field_name: &str) -> (r: Result<CellValue, GrpcStatus>)
    requires
        !(t is Other),
    ensures
        match (r, value_error(v@, *t, field_name@)) {
            (Ok(c), None) => cell_value_json(c) == v@ && cell_fits(c, *t),
            (Err(s), Some(m)) => status_view(s) == invalid(m),
            _ => false,
        },
{
    match t {
        FieldType::Utf8 | FieldType::LargeUtf8 => match v.as_str() {
            Some(s) => Ok(CellValue::Text(s.clone())),
            None => Err(field_error(field_name, "' must be a string")),
        },
        FieldType::Int64 => match v.as_i64() {
            Some(n) => Ok(CellValue::I64(n)),
            None => Err(field_error(field_name, "' must be an int64")),
        },
        FieldType::Int32 => match v.as_i64() {
            Some(n) => if i32::MIN as i64 <= n && n <= i32::MAX as i64 {
                Ok(CellValue::I32(n as i32))
            } else {
                Err(field_error(field_name, "' is out of int32 range"))
            },
            None => Err(field_error(field_name, "' must be an int32")),
        },
        FieldType::UInt64 => match v.as_u64() {
            Some(n) => Ok(CellValue::U64(n)),
            None => Err(field_error(field_name, "' must be a uint64")),
        },
        FieldType::UInt32 => match v.as_u64() {
            Some(n) => if n <= u32::MAX as u64 {
                Ok(CellValue::U32(n as u32))
            } else {
                Err(field_error(field_name, "' is out of uint32 range"))
            },
            None => Err(field_error(field_name, "' must be a uint32")),
        },
        FieldType::Float64 => match number_of(v) {
            Some(n) => Ok(CellValue::Num(n)),
            None => Err(field_error(field_name, "' must be a float64")),
        },
        FieldType::Float32 => match number_of(v) {
            Some(n) => Ok(CellValue::Num(n)),
            None => Err(field_error(field_name, "' must be a float32")),
        },
        FieldType::Boolean => match v.as_bool() {
            Some(b) => Ok(CellValue::Bool(b)),
            None => Err(field_error(field_name, "' must be a bool")),
        },
        FieldType::VectorFloat32(dim) => match v {
            Json::Array(items) => {
                proof {
                    lemma_json_views_len(items@);
                }
                let want = #[verifier::truncate] (*dim as usize);
                if items.len() != want {
                    let mut msg = concat3("field '", field_name, "' length mismatch: expected ");
                    push_all(&mut msg, &crate::text::render_i128(*dim as i128));
                    push_all(&mut msg, ", got ");
                    push_all(&mut msg, &crate::text::render_i128(items.len() as i128));
                    return Err(invalid_argument(msg));
                }
                let mut out: Vec<Option<NumberValue>> = Vec::new();
                let mut i: usize = 0;
                while i < items.len()
                    invariant
                        0 <= i <= items.len(),
                        json_views(items@).len() == items@.len(),
                        *v == Json::Array(*items),
                        v@ == JsonV::Array(json_views(items@)),
                        items@.len() == want,
                        want == (*dim as usize),
                        *t == FieldType::VectorFloat32(*dim),
                        out@.len() == i,
                        forall|k: int|
                            0 <= k < i ==> ((#[trigger] out@[k]) matches Some(n) && number_json(n)
                                == json_views(items@)[k]),
                        forall|k: int| 0 <= k < i ==> is_number(#[trigger] json_views(items@)[k]),
                    decreases items.len() - i,
                {
                    proof {
                        lemma_json_views_index(items@, i as int);
                    }
                    match number_of(&items[i]) {
                        Some(n) => out.push(Some(n)),
                        None => {
                            assert(!is_number(json_views(items@)[i as int]));
                            return Err(field_error(field_name, "' must be a float32"));
                        },
                    }
                    i += 1;
                }
                let c = CellValue::Vector(out);
                assert(vector_json(out@)->Array_0 =~= json_views(items@));
                assert(cell_value_json(c) == v@);
                Ok(c)
            },
            _ => Err(field_error(field_name, "' must be a JSON array of float32 values")),
        },
        FieldType::Other(_) => Err(field_error(field_name, "")),
    }
}

/// An empty column of a type that JSON rows can fill.
fn empty_column(t: &FieldType) -> (r: ColumnValues)
    requires
        !(t is Other),
    ensures
        column_has_type(r, *t),
        column_len(r) == 0,
{
    match t {
        FieldType::Utf8 => ColumnValues::Utf8(Vec::new()),
        FieldType::LargeUtf8 => ColumnValues::LargeUtf8(Vec::new()),
        FieldType::Int64 => ColumnValues::Int64(Vec::new()),
        FieldType::Int32 => ColumnValues::Int32(Vec::new()),
        FieldType::UInt64 => ColumnValues::UInt64(Vec::new()),
        FieldType::UInt32 => ColumnValues::UInt32(Vec::new()),
        FieldType::Float64 => ColumnValues::Float64(Vec::new()),
        FieldType::Float32 => ColumnValues::Float32(Vec::new()),
        FieldType::Boolean => ColumnValues::Boolean(Vec::new()),
        FieldType::VectorFloat32(d) => ColumnValues::VectorFloat32 { dim: *d, rows: Vec::new() },
        FieldType::Other(_) => ColumnValues::Unsupported { kind_name: String::new(), nulls: Vec::new() },
    }
}

pub open spec fn opt_cell_json(c: Option<CellValue>) -> Option<JsonV> {
    match c {
        Some(v) => Some(cell_value_json(v)),
        None => None,
    }
}

/// Appends a cell to a column of its type.
fn push_cell(col: ColumnValues, t: &FieldType, value: Option<CellValue>) -> (r: ColumnValues)
    requires
        column_has_type(col, *t),
        value matches Some(c) ==> cell_fits(c, *t),
    ensures
        column_has_type(r, *t),
        column_len(r) == column_len(col) + 1,
        forall|k: int| 0 <= k < column_len(col) ==> cell(r, k) == cell(col, k),
        cell(r, column_len(col) as int) == opt_cell_json(value),
{
    match col {
        ColumnValues::Utf8(mut v) => {
            v.push(match value {
                Some(CellValue::Text(s)) => Some(s),
                _ => None,
            });
            ColumnValues::Utf8(v)
        },
        ColumnValues::LargeUtf8(mut v) => {
            v.push(match value {
                Some(CellValue::Text(s)) => Some(s),
                _ => None,
            });
            ColumnValues::LargeUtf8(v)
        },
        ColumnValues::Int64(mut v) => {
            v.push(match value {
                Some(CellValue::I64(n)) => Some(n),
                _ => None,
            });
            ColumnValues::Int64(v)
        },
        ColumnValues::Int32(mut v) => {
            v.push(match value {
                Some(CellValue::I32(n)) => Some(n),
                _ => None,
            });
            ColumnValues::Int32(v)
        },
        ColumnValues::UInt64(mut v) => {
            v.push(match value {
                Some(CellValue::U64(n)) => Some(n),
                _ => None,
            });
            ColumnValues::UInt64(v)
        },
        ColumnValues::UInt32(mut v) => {
            v.push(match value {
                Some(CellValue::U32(n)) => Some(n),
                _ => None,
            });
            ColumnValues::UInt32(v)
        },
        ColumnValues::Float64(mut v) => {
            v.push(match value {
                Some(CellValue::Num(n)) => Some(n),
                _ => None,
            });
            ColumnValues::Float64(v)
        },
        ColumnValues::Float32(mut v) => {
            v.push(match value {
                Some(CellValue::Num(n)) => Some(n),
                _ => None,
            });
            ColumnValues::Float32(v)
        },
        ColumnValues::Boolean(mut v) => {
            v.push(match value {
                Some(CellValue::Bool(b)) => Some(b),
                _ => None,
            });
            ColumnValues::Boolean(v)
        },
        ColumnValues::VectorFloat32 { dim, mut rows } => {
            rows.push(match value {
                Some(CellValue::Vector(items)) => Some(items),
                _ => None,
            });
            ColumnValues::VectorFloat32 { dim, rows }
        },
        ColumnValues::Unsupported { kind_name, nulls } => ColumnValues::Unsupported { kind_name, nulls },
    }
}

/// The column a field gets from JSON rows: each row's value for the field,
/// checked against the field's type; the first row that is refused refuses
/// them all, and a type that JSON rows cannot fill is refused outright.
pub fn build_array_for_field(rows: &Vec<Json>, field_name: &str, data_type: &FieldType, nullable: bool) -> (r: Result<ColumnValues, GrpcStatus>)
    ensures
        data_type matches FieldType::Other(name) ==> (r matches Err(s) && status_view(s) == invalid(
            unsupported_input_message(field_name@, name@),
        )),
        !(data_type is Other) ==> match r {
            Ok(col) => column_has_type(col, *data_type) && column_len(col) == rows@.len() && forall|i: int|
                0 <= i < rows@.len() ==> spec_row_cell(
                    json_views(rows@)[i],
                    field_name@,
                    *data_type,
                    nullable,
                ) == Ok::<Option<JsonV>, Seq<char>>(#[trigger] cell(col, i)),
            Err(s) => exists|k: int|
                0 <= k < rows@.len() && (forall|i: int|
                    0 <= i < k ==> (#[trigger] spec_row_cell(
                        json_views(rows@)[i],
                        field_name@,
                        *data_type,
                        nullable,
                    )) is Ok) && (#[trigger] spec_row_cell(json_views(rows@)[k], field_name@, *data_type, nullable)
                    matches Err(m) && status_view(s) == invalid(m)),
        },
{
    match data_type {
        FieldType::Other(name) => {
            let mut msg = concat3("unsupported field type for JSON ingestion on '", field_name, "': ");
            push_all(&mut msg, name);
            return Err(invalid_argument(msg));
        },
        _ => {},
    }
    proof {
        lemma_json_views_len(rows@);
    }
    let mut col = empty_column(data_type);
    let mut i: usize = 0;
    while i < rows.len()
        invariant
            0 <= i <= rows.len(),
            !(data_type is Other),
            json_views(rows@).len() == rows@.len(),
            column_has_type(col, *data_type),
            column_len(col) == i,
            forall|k: int|
                0 <= k < i ==> spec_row_cell(json_views(rows@)[k], field_name@, *data_type, nullable)
                    == Ok::<Option<JsonV>, Seq<char>>(#[trigger] cell(col, k)),
        decreases rows.len() - i,
    {
        proof {
            lemma_json_views_index(rows@, i as int);
        }
        let value = match extract_field_value(&rows[i], field_name, nullable) {
            Ok(v) => v,
            Err(s) => {
                assert(rows@[i as int]@ == json_views(rows@)[i as int]);
                assert(spec_row_cell(json_views(rows@)[i as int], field_name@, *data_type, nullable)
                    == Err::<Option<JsonV>, Seq<char>>(s.message@));
                assert forall|k: int| 0 <= k < i implies (#[trigger] spec_row_cell(
                    json_views(rows@)[k],
                    field_name@,
                    *data_type,
                    nullable,
                )) is Ok by {
                    assert(spec_row_cell(json_views(rows@)[k], field_name@, *data_type, nullable) == Ok::<Option<JsonV>, Seq<char>>(cell(col, k)));
                }
                return Err(s);
            },
        };
        let c = match value {
            None => None,
            Some(v) => match typed_value(v, data_type, field_name) {
                Ok(c) => Some(c),
                Err(s) => {
                    assert(rows@[i as int]@ == json_views(rows@)[i as int]);
                    assert(spec_row_cell(json_views(rows@)[i as int], field_name@, *data_type, nullable)
                        == Err::<Option<JsonV>, Seq<char>>(s.message@));
                    assert forall|k: int| 0 <= k < i implies (#[trigger] spec_row_cell(
                        json_views(rows@)[k],
                        field_name@,
                        *data_type,
                        nullable,
                    )) is Ok by {
                        assert(spec_row_cell(json_views(rows@)[k], field_name@, *data_type, nullable) == Ok::<Option<JsonV>, Seq<char>>(cell(col, k)));
                    }
                    return Err(s);
                },
            },
        };
        col = push_cell(col, data_type, c);
        i += 1;
    }
    Ok(col)
}

/// Every row gives the field a cell: the field's type can be filled from
/// JSON and no row is refused.
pub open spec fn field_accepts(rows: Seq<JsonV>, f: FieldSpec) -> bool {
    &&& !(f.data_type is Other)
    &&& forall|i: int| 0 <= i < rows.len() ==> (#[trigger] spec_row_cell(rows[i], f.name@, f.data_type, f.nullable)) is Ok
}

/// The error that refuses a field: a type that JSON cannot fill, or else
/// the message of the first row that is refused.
pub open spec fn field_error_is(rows: Seq<JsonV>, f: FieldSpec, s: GrpcStatus) -> bool {
    match f.data_type {
        FieldType::Other(name) => status_view(s) == invalid(unsupported_input_message(f.name@, name@)),
        _ => exists|k: int|
            0 <= k < rows.len() && (forall|i: int|
                0 <= i < k ==> (#[trigger] spec_row_cell(rows[i], f.name@, f.data_type, f.nullable)) is Ok)
                && (#[trigger] spec_row_cell(rows[k], f.name@, f.data_type, f.nullable) matches Err(m)
                && status_view(s) == invalid(m)),
    }
}

/// The columns a schema gets from JSON rows, one per field in order; the
/// first field that is refused refuses the rows.
pub fn json_rows_to_columns(rows: &Vec<Json>, schema: &Vec<FieldSpec>) -> (r: Result<Vec<ColumnValues>, GrpcStatus>)
    ensures
        r is Ok <==> forall|j: int| 0 <= j < schema@.len() ==> field_accepts(json_views(rows@), #[trigger] schema@[j]),
        r matches Err(s) ==> exists|j: int|
            0 <= j < schema@.len() && (forall|q: int| 0 <= q < j ==> field_accepts(json_views(rows@), #[trigger] schema@[q]))
                && field_error_is(json_views(rows@), #[trigger] schema@[j], s),
        r matches Ok(cols) ==> cols@.len() == schema@.len() && forall|j: int|
            0 <= j < schema@.len() ==> !(schema@[j].data_type is Other) && column_has_type(
                #[trigger] cols@[j],
                schema@[j].data_type,
            ) && column_len(cols@[j]) == rows@.len() && forall|i: int|
                0 <= i < rows@.len() ==> spec_row_cell(
                    json_views(rows@)[i],
                    schema@[j].name@,
                    schema@[j].data_type,
                    schema@[j].nullable,
                ) == Ok::<Option<JsonV>, Seq<char>>(#[trigger] cell(cols@[j], i)),
{
    proof {
        lemma_json_views_len(rows@);
    }
    let mut cols: Vec<ColumnValues> = Vec::new();
    let mut j: usize = 0;
    while j < schema.len()
        invariant
            0 <= j <= schema.len(),
            json_views(rows@).len() == rows@.len(),
            cols@.len() == j,
            forall|q: int| 0 <= q < j ==> field_accepts(json_views(rows@), #[trigger] schema@[q]),
            forall|q: int|
                0 <= q < j ==> !(schema@[q].data_type is Other) && column_has_type(
                    #[trigger] cols@[q],
                    schema@[q].data_type,
                ) && column_len(cols@[q]) == rows@.len() && forall|i: int|
                    0 <= i < rows@.len() ==> spec_row_cell(
                        json_views(rows@)[i],
                        schema@[q].name@,
                        schema@[q].data_type,
                        schema@[q].nullable,
                    ) == Ok::<Option<JsonV>, Seq<char>>(#[trigger] cell(cols@[q], i)),
        decreases schema.len() - j,
    {
        let field = &schema[j];
        match build_array_for_field(rows, &field.name, &field.data_type, field.nullable) {
            Ok(col) => {
                proof {
                    assert forall|i: int| 0 <= i < json_views(rows@).len() implies (#[trigger] spec_row_cell(
                        json_views(rows@)[i],
                        field.name@,
                        field.data_type,
                        field.nullable,
                    )) is Ok by {
                        assert(spec_row_cell(json_views(rows@)[i], field.name@, field.data_type, field.nullable)
                            == Ok::<Option<JsonV>, Seq<char>>(cell(col, i)));
                    }
                    assert(field_accepts(json_views(rows@), schema@[j as int]));
                }
                cols.push(col);
            },
            Err(s) => {
                proof {
                    assert(field_error_is(json_views(rows@), schema@[j as int], s));
                    assert(!field_accepts(json_views(rows@), schema@[j as int]));
                }
                return Err(s);
            },
        }
        j += 1;
    }
    Ok(cols)
}

/// A float as JSON (`Value::from(f64)`): a number where it is finite, null
/// otherwise, since JSON has no other.
pub open spec fn float_out(bits: u64) -> JsonV {
    if crate::duckdb_values::f64_exponent(bits) != 0x7ff {
        JsonV::Float(bits)
    } else {
        JsonV::Null
    }
}

pub open spec fn number_out(n: NumberValue) -> JsonV {
    match n {
        NumberValue::Int(i) => JsonV::Int(i as int),
        NumberValue::UInt(u) => JsonV::Int(u as int),
        NumberValue::Float(bits) => float_out(bits),
    }
}

/// The JSON value of row `i` of a column; a null is `null`, and a non-null
/// value of a type the service does not write is refused.
pub open spec fn spec_output_value(c: ColumnValues, i: int) -> Result<JsonV, Seq<char>> {
    match c {
        ColumnValues::Unsupported { kind_name, nulls } => if nulls@[i] {
            Ok(JsonV::Null)
        } else {
            Err("unsupported output type for JSON encoding: "@ + kind_name@)
        },
        ColumnValues::Float64(v) => Ok(match v@[i] {
            Some(n) => number_out(n),
            None => JsonV::Null,
        }),
        ColumnValues::Float32(v) => Ok(match v@[i] {
            Some(n) => number_out(n),
            None => JsonV::Null,
        }),
        ColumnValues::VectorFloat32 { rows, .. } => Ok(match rows@[i] {
            Some(items) => JsonV::Array(Seq::new(items@.len(), |k: int| match items@[k] {
                Some(n) => number_out(n),
                None => JsonV::Null,
            })),
            None => JsonV::Null,
        }),
        _ => Ok(match cell(c, i) {
            Some(v) => v,
            None => JsonV::Null,
        }),
    }
}

/// A JSON value that JSON text can hold: no float is infinite or NaN.
pub open spec fn finite_json(v: JsonV) -> bool {
    match v {
        JsonV::Float(bits) => crate::duckdb_values::f64_exponent(bits) != 0x7ff,
        _ => true,
    }
}

/// What a column holds reads back as written: the JSON value of a row of a
/// column of a type the service writes is the value the column holds there,
/// and `null` where it holds none. The `f32` columns are left out: the
/// service rounds their values to `f32` as it stores them.
pub proof fn lemma_cell_reads_back(c: ColumnValues, t: FieldType, i: int)
    requires
        column_has_type(c, t),
        !(t is Float32),
        !(t is VectorFloat32),
        0 <= i < column_len(c),
        cell(c, i) matches Some(v) ==> finite_json(v),
    ensures
        spec_output_value(c, i) == Ok::<JsonV, Seq<char>>(
            match cell(c, i) {
                Some(v) => v,
                None => JsonV::Null,
            },
        ),
{
}

/// The JSON a stored number reads back as: an integer as that integer, a
/// finite float as that float, and a float JSON cannot hold as `null`.
pub proof fn lemma_number_reads_back(n: NumberValue)
    ensures
        n matches NumberValue::Int(i) ==> number_out(n) == JsonV::Int(i as int),
        n matches NumberValue::UInt(u) ==> number_out(n) == JsonV::Int(u as int),
        n matches NumberValue::Float(bits) ==> number_out(n) == if crate::duckdb_values::f64_exponent(bits) != 0x7ff {
            JsonV::Float(bits)
        } else {
            JsonV::Null
        },
{
}

/// A vector column reads back element by element: a null row is `null`,
/// and any other row is an array with one entry per stored item, in order,
/// each the stored number (a float JSON cannot hold, and a missing item,
/// as `null`).
pub proof fn lemma_vector_reads_back(c: ColumnValues, i: int)
    requires
        c is VectorFloat32,
        0 <= i < column_len(c),
    ensures
        spec_output_value(c, i) matches Ok(out) && match c->rows@[i] {
            None => out == JsonV::Null,
            Some(items) => out matches JsonV::Array(a) && a.len() == items@.len() && forall|k: int|
                0 <= k < a.len() ==> #[trigger] a[k] == match items@[k] {
                    None => JsonV::Null,
                    Some(NumberValue::Int(x)) => JsonV::Int(x as int),
                    Some(NumberValue::UInt(x)) => JsonV::Int(x as int),
                    Some(NumberValue::Float(bits)) => if crate::duckdb_values::f64_exponent(bits) != 0x7ff {
                        JsonV::Float(bits)
                    } else {
                        JsonV::Null
                    },
                },
        },
{
}

/// A float column reads back as it was stored: a null row is `null`, and
/// any other row the stored number (a float JSON cannot hold as `null`).
pub proof fn lemma_float_cells_read_back(c: ColumnValues, i: int)
    requires
        c is Float64 || c is Float32,
        0 <= i < column_len(c),
    ensures
        ({
            let stored = match c {
                ColumnValues::Float64(v) => v@[i],
                ColumnValues::Float32(v) => v@[i],
                _ => None,
            };
            spec_output_value(c, i) == Ok::<JsonV, Seq<char>>(match stored {
                None => JsonV::Null,
                Some(NumberValue::Int(x)) => JsonV::Int(x as int),
                Some(NumberValue::UInt(x)) => JsonV::Int(x as int),
                Some(NumberValue::Float(bits)) => if crate::duckdb_values::f64_exponent(bits) != 0x7ff {
                    JsonV::Float(bits)
                } else {
                    JsonV::Null
                },
            })
        }),
{
    let stored = match c {
        ColumnValues::Float64(v) => v@[i],
        ColumnValues::Float32(v) => v@[i],
        _ => None,
    };
    if let Some(n) = stored {
        lemma_number_reads_back(n);
    }
}

/// The value a JSON row holds for a field, `null` where it holds none.
pub open spec fn field_json(row: JsonV, name: Seq<char>) -> JsonV {
    match spec_get(row, name) {
        Some(v) => v,
        None => JsonV::Null,
    }
}

/// A field type whose values the service stores as JSON gives them: any but
/// the `f32` ones, which are rounded as they are stored.
pub open spec fn exact_type(t: FieldType) -> bool {
    !(t is Float32) && !(t is VectorFloat32)
}

/// Rows read back as they were written: where `cols` are the columns that
/// JSON rows give a schema (as `json_rows_to_columns` ensures), none of an
/// `f32` type and no value a float that JSON text cannot hold, the JSON
/// value of row `i` of column `j` is the value row `i` held for field `j`,
/// or `null` where it held none, for every row and field.
pub proof fn lemma_rows_round_trip(rows: Seq<JsonV>, schema: Seq<FieldSpec>, cols: Seq<ColumnValues>)
    requires
        cols.len() == schema.len(),
        forall|j: int|
            0 <= j < schema.len() ==> exact_type(schema[j].data_type) && column_has_type(
                #[trigger] cols[j],
                schema[j].data_type,
            ) && column_len(cols[j]) == rows.len() && forall|i: int|
                0 <= i < rows.len() ==> spec_row_cell(
                    rows[i],
                    schema[j].name@,
                    schema[j].data_type,
                    schema[j].nullable,
                ) == Ok::<Option<JsonV>, Seq<char>>(#[trigger] cell(cols[j], i)),
        forall|i: int, j: int|
            0 <= i < rows.len() && 0 <= j < schema.len() ==> finite_json(#[trigger] field_json(rows[i], schema[j].name@)),
    ensures
        forall|i: int, j: int|
            0 <= i < rows.len() && 0 <= j < schema.len() ==> #[trigger] spec_output_value(cols[j], i)
                == Ok::<JsonV, Seq<char>>(field_json(rows[i], schema[j].name@)),
{
    assert forall|i: int, j: int| 0 <= i < rows.len() && 0 <= j < schema.len() implies #[trigger] spec_output_value(
        cols[j],
        i,
    ) == Ok::<JsonV, Seq<char>>(field_json(rows[i], schema[j].name@)) by {
        let f = schema[j];
        let c = cols[j];
        assert(exact_type(f.data_type) && column_has_type(c, f.data_type) && column_len(c) == rows.len());
        assert(spec_row_cell(rows[i], f.name@, f.data_type, f.nullable) == Ok::<Option<JsonV>, Seq<char>>(cell(c, i)));
        assert(finite_json(field_json(rows[i], f.name@)));
        lemma_cell_reads_back(c, f.data_type, i);
    }
}

fn number_to_json(n: NumberValue) -> (r: Json)
    ensures
        r@ == number_out(n),
{
    match n {
        NumberValue::Int(i) => Json::Int(i),
        NumberValue::UInt(u) => Json::UInt(u),
        NumberValue::Float(bits) => if (bits >> 52u64) & 0x7ffu64 != 0x7ff {
            Json::Float(bits)
        } else {
            Json::Null
        },
    }
}

/// The JSON value of a row of a column.
pub fn json_value_from_array(column: &ColumnValues, row_idx: usize) -> (r: Result<Json, GrpcStatus>)
    requires
        row_idx < column_len(*column),
    ensures
        match (r, spec_output_value(*column, row_idx as int)) {
            (Ok(a), Ok(b)) => a@ == b,
            (Err(s), Err(m)) => s.code == StatusCode::Internal && s.message@ == m,
            _ => false,
        },
{
    match column {
        ColumnValues::Utf8(v) | ColumnValues::LargeUtf8(v) => Ok(match &v[row_idx] {
            Some(s) => Json::Str(s.clone()),
            None => Json::Null,
        }),
        ColumnValues::Int64(v) => Ok(match v[row_idx] {
            Some(n) => Json::Int(n),
            None => Json::Null,
        }),
        ColumnValues::Int32(v) => Ok(match v[row_idx] {
            Some(n) => Json::Int(n as i64),
            None => Json::Null,
        }),
        ColumnValues::UInt64(v) => Ok(match v[row_idx] {
            Some(n) => Json::UInt(n),
            None => Json::Null,
        }),
        ColumnValues::UInt32(v) => Ok(match v[row_idx] {
            Some(n) => Json::UInt(n as u64),
            None => Json::Null,
        }),
        ColumnValues::Float64(v) | ColumnValues::Float32(v) => Ok(match v[row_idx] {
            Some(n) => number_to_json(n),
            None => Json::Null,
        }),
        ColumnValues::Boolean(v) => Ok(match v[row_idx] {
            Some(b) => Json::Bool(b),
            None => Json::Null,
        }),
        ColumnValues::VectorFloat32 { rows, .. } => Ok(match &rows[row_idx] {
            None => Json::Null,
            Some(items) => {
                let mut out: Vec<Json> = Vec::new();
                let mut k: usize = 0;
                while k < items.len()
                    invariant
                        0 <= k <= items.len(),
                        out@.len() == k,
                        forall|q: int|
                            0 <= q < k ==> (#[trigger] json_views(out@)[q]) == match items@[q] {
                                Some(n) => number_out(n),
                                None => JsonV::Null,
                            },
                        json_views(out@).len() == out@.len(),
                    decreases items.len() - k,
                {
                    let ghost before = out@;
                    let j = match items[k] {
                        Some(n) => number_to_json(n),
                        None => Json::Null,
                    };
                    proof {
                        lemma_json_views_push(before, j);
                    }
                    out.push(j);
                    k += 1;
                }
                let r = Json::Array(out);
                assert(json_views(out@) =~= Seq::new(items@.len(), |q: int| match items@[q] {
                    Some(n) => number_out(n),
                    None => JsonV::Null,
                }));
                r
            },
        }),
        ColumnValues::Unsupported { kind_name, nulls } => {
            if nulls[row_idx] {
                Ok(Json::Null)
            } else {
                Err(
                    GrpcStatus {
                        code: StatusCode::Internal,
                        message: concat2("unsupported output type for JSON encoding: ", kind_name),
                    },
                )
            }
        },
    }
}

/// Every field of row `i` has a JSON value.
pub open spec fn row_output_ok(columns: Seq<ColumnValues>, i: int) -> bool {
    forall|j: int| 0 <= j < columns.len() ==> (#[trigger] spec_output_value(columns[j], i)) is Ok
}

/// The rows of a result batch as JSON objects, each with the fields in
/// order; the first value, row by row and field by field, that has no JSON
/// value refuses the batch.
pub fn rows_as_json(field_names: &Vec<String>, columns: &Vec<ColumnValues>, num_rows: usize) -> (r: Result<Vec<Json>, GrpcStatus>)
    requires
        columns@.len() == field_names@.len(),
        forall|j: int| 0 <= j < columns@.len() ==> column_len(#[trigger] columns@[j]) == num_rows,
    ensures
        r is Ok <==> forall|i: int| 0 <= i < num_rows ==> #[trigger] row_output_ok(columns@, i),
        r matches Err(s) ==> s.code == StatusCode::Internal && exists|i: int, j: int|
            #![trigger spec_output_value(columns@[j], i)]
            0 <= i < num_rows && 0 <= j < columns@.len() && (forall|q: int| 0 <= q < i ==> #[trigger] row_output_ok(columns@, q))
                && (forall|p: int| 0 <= p < j ==> (#[trigger] spec_output_value(columns@[p], i)) is Ok)
                && spec_output_value(columns@[j], i) == Err::<JsonV, Seq<char>>(s.message@),
        r matches Ok(rows) ==> rows@.len() == num_rows && forall|i: int|
            0 <= i < num_rows ==> (#[trigger] rows@[i])@ is Object && (rows@[i])@->Object_0.len()
                == field_names@.len() && forall|j: int|
                0 <= j < field_names@.len() ==> (rows@[i])@->Object_0[j].0 == field_names@[j]@
                    && spec_output_value(columns@[j], i) == Ok::<JsonV, Seq<char>>(
                    (rows@[i])@->Object_0[j].1,
                ),
{
    let mut out: Vec<Json> = Vec::new();
    let mut i: usize = 0;
    while i < num_rows
        invariant
            0 <= i <= num_rows,
            columns@.len() == field_names@.len(),
            forall|j: int| 0 <= j < columns@.len() ==> column_len(#[trigger] columns@[j]) == num_rows,
            out@.len() == i,
            forall|q: int| 0 <= q < i ==> #[trigger] row_output_ok(columns@, q),
            forall|q: int|
                0 <= q < i ==> (#[trigger] out@[q])@ is Object && (out@[q])@->Object_0.len()
                    == field_names@.len() && forall|j: int|
                    0 <= j < field_names@.len() ==> (out@[q])@->Object_0[j].0 == field_names@[j]@
                        && spec_output_value(columns@[j], q) == Ok::<JsonV, Seq<char>>(
                        (out@[q])@->Object_0[j].1,
                    ),
        decreases num_rows - i,
    {
        let mut entries: Vec<(String, Json)> = Vec::new();
        let mut j: usize = 0;
        proof {
            assert(entry_views(entries@) =~= Seq::<(Seq<char>, JsonV)>::empty());
        }
        while j < columns.len()
            invariant
                0 <= j <= columns.len(),
                i < num_rows,
                columns@.len() == field_names@.len(),
                forall|q: int| 0 <= q < columns@.len() ==> column_len(#[trigger] columns@[q]) == num_rows,
                forall|q: int| 0 <= q < i ==> #[trigger] row_output_ok(columns@, q),
                entry_views(entries@).len() == j,
                forall|q: int|
                    0 <= q < j ==> entry_views(entries@)[q].0 == field_names@[q]@ && spec_output_value(
                        #[trigger] columns@[q],
                        i as int,
                    ) == Ok::<JsonV, Seq<char>>(entry_views(entries@)[q].1),
            decreases columns.len() - j,
        {
            let value = match json_value_from_array(&columns[j], i) {
                Ok(v) => v,
                Err(s) => {
                    proof {
                        assert forall|p: int| 0 <= p < j implies (#[trigger] spec_output_value(columns@[p], i as int)) is Ok by {
                            assert(spec_output_value(columns@[p], i as int) == Ok::<JsonV, Seq<char>>(entry_views(entries@)[p].1));
                        }
                        assert(spec_output_value(columns@[j as int], i as int) == Err::<JsonV, Seq<char>>(s.message@));
                        assert(!row_output_ok(columns@, i as int));
                    }
                    return Err(s);
                },
            };
            let ghost before = entry_views(entries@);
            push_entry(&mut entries, &field_names[j], value);
            j += 1;
        }
        proof {
            assert forall|p: int| 0 <= p < columns@.len() implies (#[trigger] spec_output_value(columns@[p], i as int)) is Ok by {
                assert(spec_output_value(columns@[p], i as int) == Ok::<JsonV, Seq<char>>(entry_views(entries@)[p].1));
            }
            assert(row_output_ok(columns@, i as int));
        }
        let row = Json::Object(entries);
        out.push(row);
        i += 1;
    }
    Ok(out)
}

fn invalid_text(message: &str) -> (r: GrpcStatus)
    ensures
        status_view(r) == invalid(message@),
{
    invalid_argument(String::from_str(message))
}

/// A table name is needed by every request.
pub fn check_table_name(table_name: &str) -> (r: Result<(), GrpcStatus>)
    ensures
        all_ws(table_name@) ==> (r matches Err(s) && status_view(s) == invalid("table_name must not be empty"@)),
        !all_ws(table_name@) ==> r is Ok,
{
    if is_blank(table_name) {
        return Err(invalid_text("table_name must not be empty"));
    }
    Ok(())
}

/// The checks of a request to create a table: a table name, some columns,
/// and a schema they make.
pub fn validate_create_table(table_name: &str, columns: &Vec<ColumnDef>) -> (r: Result<Vec<FieldSpec>, GrpcStatus>)
    ensures
        all_ws(table_name@) ==> (r matches Err(s) && status_view(s) == invalid("table_name must not be empty"@)),
        !all_ws(table_name@) && columns@.len() == 0 ==> (r matches Err(s) && status_view(s) == invalid(
            "columns must not be empty"@,
        )),
        r matches Ok(fields) ==> !all_ws(table_name@) && fields@.len() == columns@.len() && forall|i: int|
            0 <= i < columns@.len() ==> !all_ws(columns@[i].name@) && ({
                let f = #[trigger] fields@[i];
                spec_column_field(columns@[i]) == Ok::<(FieldType, bool), Seq<char>>(
                    (f.data_type, f.nullable),
                ) && f.name@ == columns@[i].name@
            }),
{
    check_table_name(table_name)?;
    if columns.len() == 0 {
        return Err(invalid_text("columns must not be empty"));
    }
    build_arrow_schema(columns)
}

/// The checks of a search request: a table name and a query vector.
pub fn validate_search(table_name: &str, vector_len: usize) -> (r: Result<(), GrpcStatus>)
    ensures
        all_ws(table_name@) ==> (r matches Err(s) && status_view(s) == invalid("table_name must not be empty"@)),
        !all_ws(table_name@) && vector_len == 0 ==> (r matches Err(s) && status_view(s) == invalid(
            "vector must not be empty"@,
        )),
        !all_ws(table_name@) && vector_len > 0 ==> r is Ok,
{
    check_table_name(table_name)?;
    if vector_len == 0 {
        return Err(invalid_text("vector must not be empty"));
    }
    Ok(())
}

/// The checks of a delete request: a table name and a condition.
pub fn validate_delete(table_name: &str, condition: &str) -> (r: Result<(), GrpcStatus>)
    ensures
        all_ws(table_name@) ==> (r matches Err(s) && status_view(s) == invalid("table_name must not be empty"@)),
        !all_ws(table_name@) && all_ws(condition@) ==> (r matches Err(s) && status_view(s) == invalid(
            "condition must not be empty"@,
        )),
        !all_ws(table_name@) && !all_ws(condition@) ==> r is Ok,
{
    check_table_name(table_name)?;
    if is_blank(condition) {
        return Err(invalid_text("condition must not be empty"));
    }
    Ok(())
}

/// How many results a search returns: 10 where none is asked for.
pub fn search_limit(limit: u32) -> (r: usize)
    ensures
        limit == 0 ==> r == 10,
        limit != 0 ==> r == limit,
{
    if limit == 0 {
        10
    } else {
        limit as usize
    }
}

/// An optional text of a request: trimmed, or nothing where it is blank.
pub fn optional_trimmed(value: &str) -> (r: Option<String>)
    ensures
        all_ws(value@) ==> r is None,
        !all_ws(value@) ==> (r matches Some(t) && t@ == trim_seq(value@)),
{
    if is_blank(value) {
        None
    } else {
        Some(crate::text::trim_string(value))
    }
}

/// The format of search results.
#[derive(Debug, Clone, Copy, PartialEq, Eq, Structural)]
pub enum OutputFormat {
    Unspecified,
    JsonRows,
    ArrowIpc,
}

/// The name of the format results are sent in: JSON rows where asked for,
/// Arrow IPC otherwise.
pub fn output_format_name(format: OutputFormat) -> (r: &'static str)
    ensures
        format is JsonRows ==> r@ == "json"@,
        !(format is JsonRows) ==> r@ == "arrow_ipc"@,
{
    match format {
        OutputFormat::JsonRows => "json",
        _ => "arrow_ipc",
    }
}

/// The format of rows to write.
#[derive(Debug, Clone, Copy, PartialEq, Eq, Structural)]
pub enum InputFormat {
    Unspecified,
    JsonRows,
    ArrowIpc,
}

/// Rows to write are JSON unless they are said to be Arrow IPC.
pub fn reads_json_rows(format: InputFormat) -> (r: bool)
    ensures
        r == !(format is ArrowIpc),
{
    match format {
        InputFormat::ArrowIpc => false,
        _ => true,
    }
}

pub open spec fn rows_parse_message(error: Seq<char>) -> Seq<char> {
    "failed to parse JSON rows, expected a JSON array of objects: "@ + error
}

/// The JSON rows of a write request: none for empty data, else what the
/// data parsed to, or the parse error.
pub fn rows_from_parsed(data_is_empty: bool, parsed: Result<Vec<Json>, String>) -> (r: Result<Vec<Json>, GrpcStatus>)
    ensures
        data_is_empty ==> (r matches Ok(rows) && rows@.len() == 0),
        !data_is_empty ==> match parsed {
            Ok(rows) => r == Ok::<Vec<Json>, GrpcStatus>(rows),
            Err(e) => r matches Err(s) && status_view(s) == invalid(rows_parse_message(e@)),
        },
{
    if data_is_empty {
        return Ok(Vec::new());
    }
    match parsed {
        Ok(rows) => Ok(rows),
        Err(e) => Err(invalid_argument(concat2("failed to parse JSON rows, expected a JSON array of objects: ", &e))),
    }
}

/// The JSON rows of a write request's data: none for empty data, else the
/// data parsed as a JSON array, or the parse error.
pub fn json_rows_from_bytes(data: &[u8]) -> (r: Result<Vec<Json>, GrpcStatus>)
    ensures
        data@.len() == 0 ==> (r matches Ok(rows) && rows@.len() == 0),
        data@.len() > 0 ==> match crate::json::json_rows_of(data@) {
            Ok(rows) => r matches Ok(v) && json_views(v@) == rows,
            Err(e) => r matches Err(s) && status_view(s) == invalid(rows_parse_message(e)),
        },
{
    if data.len() == 0 {
        return Ok(Vec::new());
    }
    rows_from_parsed(false, crate::json::parse_json_rows(data))
}

/// What a table operation reports on success.
pub fn table_ready_message(table_name: &str) -> (r: String)
    ensures
        r@ == "table '"@ + table_name@ + "' is ready"@,
{
    concat3("table '", table_name, "' is ready")
}

/// What a delete reports.
pub fn delete_message(table_name: &str) -> (r: String)
    ensures
        r@ == "delete completed for '"@ + table_name@ + "'"@,
{
    concat3("delete completed for '", table_name, "'")
}

/// What dropping a table reports.
pub fn drop_message(table_name: &str) -> (r: String)
    ensures
        r@ == "table '"@ + table_name@ + "' dropped"@,
{
    concat3("table '", table_name, "' dropped")
}

} // verus!
