//! SQL statements with their bound values, and the rows that a query gives back.

use vstd::prelude::*;
use crate::error::{ErrorModel, PrivchatSDKError};
use crate::text;
use crate::text::{i64_text, parse_i64, same_text, u64_text};

verus! {

/// A value of the database. A real number is held by its decimal text, the shortest that reads
/// back as the same number; `NaN`, `inf` and `-inf` are no numbers.
#[derive(Debug)]
pub enum SqlValue {
    Null,
    Integer(i64),
    Real(String),
    Text(String),
    Blob(Vec<u8>),
}

/// What a [`SqlValue`] is.
pub enum SqlModel {
    Null,
    Integer(i64),
    Real(Seq<char>),
    Text(Seq<char>),
    Blob(Seq<u8>),
}

impl View for SqlValue {
    type V = SqlModel;

    open spec fn view(&self) -> SqlModel {
        match *self {
            SqlValue::Null => SqlModel::Null,
            SqlValue::Integer(i) => SqlModel::Integer(i),
            SqlValue::Real(s) => SqlModel::Real(s@),
            SqlValue::Text(s) => SqlModel::Text(s@),
            SqlValue::Blob(b) => SqlModel::Blob(b@),
        }
    }
}

/// The values of a list, in order.
pub open spec fn values_of(values: Seq<SqlValue>) -> Seq<SqlModel> {
    Seq::new(values.len(), |i: int| values[i]@)
}

/// A statement and the values of its parameters, in order.
#[derive(Debug)]
pub struct Statement {
    pub sql: String,
    pub params: Vec<SqlValue>,
}

/// What a [`Statement`] is.
pub struct StatementModel {
    pub sql: Seq<char>,
    pub params: Seq<SqlModel>,
}

impl View for Statement {
    type V = StatementModel;

    open spec fn view(&self) -> StatementModel {
        StatementModel { sql: self.sql@, params: values_of(self.params@) }
    }
}

/// A statement without parameters.
pub fn plain(sql: &str) -> (r: Statement)
    ensures
        r@ == (StatementModel { sql: sql@, params: Seq::empty() }),
{
    let r = Statement { sql: sql.to_owned(), params: Vec::new() };
    assert(r@.params =~= Seq::<SqlModel>::empty());
    r
}

/// A statement with its parameters.
pub fn with_params(sql: &str, params: Vec<SqlValue>) -> (r: Statement)
    ensures
        r@ == (StatementModel { sql: sql@, params: values_of(params@) }),
{
    Statement { sql: sql.to_owned(), params }
}

// Values to bind.

/// An identifier as the database stores it: the same 64 bits, read as a signed number.
pub open spec fn stored_id(id: u64) -> i64 {
    id as i64
}

/// The identifier that a stored number stands for.
pub open spec fn loaded_id(stored: i64) -> u64 {
    stored as u64
}

/// An identifier comes back from the database as it went in.
pub proof fn law_identifier_round_trip(id: u64)
    ensures
        loaded_id(stored_id(id)) == id,
{
    assert((id as i64) as u64 == id) by (bit_vector);
}

/// The value to bind for an identifier.
pub open spec fn id_model(id: u64) -> SqlModel {
    SqlModel::Integer(stored_id(id))
}

/// The value to bind for an optional identifier.
pub open spec fn opt_id_model(id: Option<u64>) -> SqlModel {
    match id {
        Some(id) => id_model(id),
        None => SqlModel::Null,
    }
}

/// The value to bind for an optional number.
pub open spec fn opt_int_model(i: Option<i64>) -> SqlModel {
    match i {
        Some(i) => SqlModel::Integer(i),
        None => SqlModel::Null,
    }
}

/// The value to bind for an optional text.
pub open spec fn opt_text_model(s: Option<Seq<char>>) -> SqlModel {
    match s {
        Some(s) => SqlModel::Text(s),
        None => SqlModel::Null,
    }
}

/// The value to bind for a flag.
pub open spec fn flag_model(b: bool) -> SqlModel {
    if b {
        SqlModel::Integer(1)
    } else {
        SqlModel::Integer(0)
    }
}

/// The value of an identifier.
pub fn id(v: u64) -> (r: SqlValue)
    ensures
        r@ == id_model(v),
{
    SqlValue::Integer(#[verifier::truncate] (v as i64))
}

/// The value of an optional identifier.
pub fn opt_id(v: Option<u64>) -> (r: SqlValue)
    ensures
        r@ == opt_id_model(v),
{
    match v {
        Some(v) => id(v),
        None => SqlValue::Null,
    }
}

/// The value of an optional number.
pub fn opt_int(v: Option<i64>) -> (r: SqlValue)
    ensures
        r@ == opt_int_model(v),
{
    match v {
        Some(v) => SqlValue::Integer(v),
        None => SqlValue::Null,
    }
}

/// The value of a text.
pub fn words(s: &str) -> (r: SqlValue)
    ensures
        r@ == SqlModel::Text(s@),
{
    SqlValue::Text(s.to_owned())
}

/// The value of an optional text.
pub fn opt_words(s: &Option<String>) -> (r: SqlValue)
    ensures
        r@ == opt_text_model(match *s {
            Some(s) => Some(s@),
            None => None,
        }),
{
    match s {
        Some(s) => SqlValue::Text(s.clone()),
        None => SqlValue::Null,
    }
}

/// The value of a flag.
pub fn flag(b: bool) -> (r: SqlValue)
    ensures
        r@ == flag_model(b),
{
    if b {
        SqlValue::Integer(1)
    } else {
        SqlValue::Integer(0)
    }
}

/// Why an unsigned number larger than `i64::MAX` cannot be bound.
pub open spec fn out_of_range() -> ErrorModel {
    ErrorModel::Database("out of range integral type conversion attempted"@)
}

/// The error for an unsigned number that cannot be bound.
pub fn out_of_range_error() -> (r: PrivchatSDKError)
    ensures
        r@ == out_of_range(),
{
    PrivchatSDKError::Database("out of range integral type conversion attempted".to_owned())
}

/// Whether an unsigned number can be bound as it is.
pub fn fits_i64(n: u64) -> (r: bool)
    ensures
        r == (n <= i64::MAX),
{
    n <= 9_223_372_036_854_775_807u64
}

// Inserting.

/// A column and the value that goes into it.
#[derive(Debug)]
pub struct Binding {
    pub column: String,
    pub value: SqlValue,
}

impl View for Binding {
    type V = (Seq<char>, SqlModel);

    open spec fn view(&self) -> (Seq<char>, SqlModel) {
        (self.column@, self.value@)
    }
}

/// The bindings of a list, in order.
pub open spec fn bindings_of(b: Seq<Binding>) -> Seq<(Seq<char>, SqlModel)> {
    Seq::new(b.len(), |i: int| b[i]@)
}

/// Binds a column.
pub fn bind(column: &str, value: SqlValue) -> (r: Binding)
    ensures
        r@ == (column@, value@),
{
    Binding { column: column.to_owned(), value }
}

/// The columns, separated by commas.
pub open spec fn column_list(columns: Seq<Seq<char>>) -> Seq<char>
    decreases columns.len(),
{
    if columns.len() == 0 {
        Seq::empty()
    } else if columns.len() == 1 {
        columns[0]
    } else {
        column_list(columns.drop_last()) + ", "@ + columns.last()
    }
}

/// The first `n` numbered parameters, separated by commas.
pub open spec fn parameter_list(n: nat) -> Seq<char>
    decreases n,
{
    if n == 0 {
        Seq::empty()
    } else if n == 1 {
        "?1"@
    } else {
        parameter_list((n - 1) as nat) + ", ?"@ + text::decimal(n)
    }
}

/// The columns of bindings, in order.
pub open spec fn columns_of(b: Seq<(Seq<char>, SqlModel)>) -> Seq<Seq<char>> {
    Seq::new(b.len(), |i: int| b[i].0)
}

/// The values of bindings, in order.
pub open spec fn params_of(b: Seq<(Seq<char>, SqlModel)>) -> Seq<SqlModel> {
    Seq::new(b.len(), |i: int| b[i].1)
}

/// The text that inserts one row into `table`, its columns bound in order. `verb` says what
/// happens to a row that is there already.
pub open spec fn insert_text(verb: Seq<char>, table: Seq<char>, columns: Seq<Seq<char>>) -> Seq<
    char,
> {
    verb + table + " ("@ + column_list(columns) + ") VALUES ("@ + parameter_list(columns.len())
        + ")"@
}

/// The statement that inserts one row.
pub open spec fn insertion(
    verb: Seq<char>,
    table: Seq<char>,
    bindings: Seq<(Seq<char>, SqlModel)>,
) -> StatementModel {
    StatementModel {
        sql: insert_text(verb, table, columns_of(bindings)),
        params: params_of(bindings),
    }
}

/// The assignments that take the named columns over from the refused row.
pub open spec fn taken_over(columns: Seq<Seq<char>>) -> Seq<char>
    decreases columns.len(),
{
    if columns.len() == 0 {
        Seq::empty()
    } else {
        let before = if columns.len() == 1 {
            Seq::empty()
        } else {
            taken_over(columns.drop_last()) + ", "@
        };
        before + columns.last() + " = excluded."@ + columns.last()
    }
}

/// The statement that inserts one row or, where a row with the same `keys` is there, takes the
/// columns `updated` over into it.
pub open spec fn upsertion(
    table: Seq<char>,
    bindings: Seq<(Seq<char>, SqlModel)>,
    keys: Seq<char>,
    updated: Seq<Seq<char>>,
) -> StatementModel {
    StatementModel {
        sql: insert_text("INSERT INTO "@, table, columns_of(bindings)) + " ON CONFLICT("@ + keys
            + ") DO UPDATE SET "@ + taken_over(updated),
        params: params_of(bindings),
    }
}

/// The texts of a list, in order.
pub open spec fn texts_of(names: Seq<&str>) -> Seq<Seq<char>> {
    Seq::new(names.len(), |i: int| names[i]@)
}

/// The first `n` numbered parameters, separated by commas.
pub fn parameters(n: usize) -> (r: String)
    ensures
        r@ == parameter_list(n as nat),
{
    let mut list = String::new();
    let mut i: usize = 0;
    while i < n
        invariant
            i <= n,
            list@ == parameter_list(i as nat),
        decreases n - i,
    {
        i = i + 1;
        if i == 1 {
            list.append("?1");
            assert(list@ =~= "?1"@);
        } else {
            let number = u64_text(i as u64);
            list.append(", ?");
            list.append(number.as_str());
        }
    }
    list
}

fn insert_sql(verb: &str, table: &str, bindings: &Vec<Binding>) -> (r: String)
    ensures
        r@ == insert_text(verb@, table@, columns_of(bindings_of(bindings@))),
{
    let ghost columns = columns_of(bindings_of(bindings@));
    let mut sql = String::new();
    sql.append(verb);
    sql.append(table);
    sql.append(" (");
    let ghost head = sql@;
    let length: usize = bindings.len();
    let mut i: usize = 0;
    proof {
        assert(columns.take(0) =~= Seq::<Seq<char>>::empty());
    }
    while i < length
        invariant
            i <= length == bindings@.len(),
            columns == columns_of(bindings_of(bindings@)),
            sql@ == head + column_list(columns.take(i as int)),
        decreases length - i,
    {
        proof {
            assert(columns.take(i + 1).drop_last() =~= columns.take(i as int));
            assert(columns.take(i + 1).last() == columns[i as int]);
            assert(columns[i as int] == bindings@[i as int].column@);
        }
        if i > 0 {
            sql.append(", ");
        }
        sql.append(bindings[i].column.as_str());
        proof {
            if i == 0 {
                assert(column_list(columns.take(0)) =~= Seq::<char>::empty());
                assert(columns.take(1)[0] == columns[0]);
                assert(sql@ =~= head + columns[0]);
            } else {
                assert(sql@ =~= head + (column_list(columns.take(i as int)) + ", "@
                    + columns[i as int]));
            }
        }
        i = i + 1;
    }
    proof {
        assert(columns.take(i as int) =~= columns);
    }
    sql.append(") VALUES (");
    sql.append(parameters(length).as_str());
    sql.append(")");
    sql
}

fn values_in(bindings: Vec<Binding>) -> (r: Vec<SqlValue>)
    ensures
        values_of(r@) == params_of(bindings_of(bindings@)),
{
    let ghost all = bindings@;
    let mut rest = bindings;
    let mut backward: Vec<SqlValue> = Vec::new();
    while rest.len() > 0
        invariant
            rest@.len() + backward@.len() == all.len(),
            rest@ == all.take(rest@.len() as int),
            forall|j: int|
                0 <= j < backward@.len() ==> (#[trigger] backward@[j])@ == all[all.len() - 1
                    - j].value@,
        decreases rest.len(),
    {
        match rest.pop() {
            Some(b) => {
                backward.push(b.value);
            },
            None => {},
        }
    }
    let mut out: Vec<SqlValue> = Vec::new();
    while backward.len() > 0
        invariant
            out@.len() + backward@.len() == all.len(),
            forall|j: int|
                0 <= j < backward@.len() ==> (#[trigger] backward@[j])@ == all[all.len() - 1
                    - j].value@,
            forall|j: int| 0 <= j < out@.len() ==> (#[trigger] out@[j])@ == all[j].value@,
        decreases backward.len(),
    {
        match backward.pop() {
            Some(v) => {
                out.push(v);
            },
            None => {},
        }
    }
    proof {
        assert(values_of(out@) =~= params_of(bindings_of(all)));
    }
    out
}

/// Inserts one row.
pub fn insert(verb: &str, table: &str, bindings: Vec<Binding>) -> (r: Statement)
    ensures
        r@ == insertion(verb@, table@, bindings_of(bindings@)),
{
    let sql = insert_sql(verb, table, &bindings);
    Statement { sql, params: values_in(bindings) }
}

/// Inserts one row, or takes the columns `updated` over into the row with the same keys.
pub fn upsert(table: &str, bindings: Vec<Binding>, keys: &str, updated: &Vec<&str>) -> (r:
    Statement)
    ensures
        r@ == upsertion(table@, bindings_of(bindings@), keys@, texts_of(updated@)),
{
    let ghost names = texts_of(updated@);
    let mut sql = insert_sql("INSERT INTO ", table, &bindings);
    sql.append(" ON CONFLICT(");
    sql.append(keys);
    sql.append(") DO UPDATE SET ");
    let ghost head = sql@;
    let length: usize = updated.len();
    let mut i: usize = 0;
    proof {
        assert(names.take(0) =~= Seq::<Seq<char>>::empty());
    }
    while i < length
        invariant
            i <= length == updated@.len(),
            names == texts_of(updated@),
            sql@ == head + taken_over(names.take(i as int)),
        decreases length - i,
    {
        proof {
            assert(names.take(i + 1).drop_last() =~= names.take(i as int));
            assert(names.take(i + 1).last() == names[i as int]);
            assert(names[i as int] == updated@[i as int]@);
        }
        let ghost before = sql@;
        if i > 0 {
            sql.append(", ");
        }
        sql.append(updated[i]);
        sql.append(" = excluded.");
        sql.append(updated[i]);
        proof {
            if i == 0 {
                assert(sql@ =~= head + (Seq::empty() + names[0] + " = excluded."@ + names[0]));
            } else {
                assert(sql@ =~= head + (taken_over(names.take(i as int)) + ", "@ + names[i as int]
                    + " = excluded."@ + names[i as int]));
            }
        }
        i = i + 1;
    }
    proof {
        assert(names.take(i as int) =~= names);
    }
    Statement { sql, params: values_in(bindings) }
}

// Rows.

/// One named value of a row.
#[derive(Debug)]
pub struct Cell {
    pub column: String,
    pub value: SqlValue,
}

/// A row that a query gave back: its columns, in order.
#[derive(Debug)]
pub struct Row {
    pub cells: Vec<Cell>,
}

/// What a [`Row`] holds.
pub struct RowModel {
    pub cells: Seq<(Seq<char>, SqlModel)>,
}

impl View for Row {
    type V = RowModel;

    open spec fn view(&self) -> RowModel {
        RowModel {
            cells: Seq::new(
                self.cells@.len(),
                |i: int| (self.cells@[i].column@, self.cells@[i].value@),
            ),
        }
    }
}

/// The value of the first column of a name.
pub open spec fn value_in(cells: Seq<(Seq<char>, SqlModel)>, column: Seq<char>) -> Option<SqlModel>
    decreases cells.len(),
{
    if cells.len() == 0 {
        None
    } else if cells[0].0 == column {
        Some(cells[0].1)
    } else {
        value_in(cells.drop_first(), column)
    }
}

/// What a column must hold to be read.
#[derive(Debug, Clone, Copy)]
pub enum ColumnKind {
    /// A number.
    Int64,
    /// A number in the range of `i32`.
    Int32,
    /// A number in the range of `i16`.
    Int16,
    /// A number, or nothing.
    MaybeInt64,
    /// An identifier: a number, or its decimal text where the column is declared as text.
    Id,
    /// An identifier, or nothing: an empty text is nothing.
    MaybeId,
    /// An identifier that is not negative.
    Unsigned,
    /// An identifier that is not negative, or nothing.
    MaybeUnsigned,
    /// A number in the range of `u32`.
    Uint32,
    /// A text.
    Text,
    /// A text, or nothing.
    MaybeText,
    /// An identifier as a text: a text, or the decimal text of a number.
    IdText,
}

/// The types of values in the database.
#[derive(Debug, Clone, Copy, PartialEq, Eq, Structural)]
pub enum CellType {
    Null,
    Integer,
    Real,
    Text,
    Blob,
}

/// The type of a value.
pub open spec fn type_of(value: SqlModel) -> CellType {
    match value {
        SqlModel::Null => CellType::Null,
        SqlModel::Integer(_) => CellType::Integer,
        SqlModel::Real(_) => CellType::Real,
        SqlModel::Text(_) => CellType::Text,
        SqlModel::Blob(_) => CellType::Blob,
    }
}

/// The name of a type.
pub open spec fn cell_type_name(t: CellType) -> Seq<char> {
    match t {
        CellType::Null => "Null"@,
        CellType::Integer => "Integer"@,
        CellType::Real => "Real"@,
        CellType::Text => "Text"@,
        CellType::Blob => "Blob"@,
    }
}

impl CellType {
    /// The name of the type.
    pub fn name(self) -> (r: &'static str)
        ensures
            r@ == cell_type_name(self),
    {
        match self {
            CellType::Null => "Null",
            CellType::Integer => "Integer",
            CellType::Real => "Real",
            CellType::Text => "Text",
            CellType::Blob => "Blob",
        }
    }
}

/// Why a value could not be read.
#[derive(Debug, Clone, Copy, PartialEq, Eq, Structural)]
pub enum ValueFault {
    /// It is of another type.
    WrongType { found: CellType },
    /// The number is out of the range of the field.
    OutOfRange { value: i64 },
}

/// Why a column could not be read; `index` is its place in the row.
#[derive(Debug, Clone, Copy, PartialEq, Eq, Structural)]
pub enum RowFault {
    /// The row has no such column.
    Missing,
    /// The column holds a value of another type.
    WrongType { index: usize, found: CellType },
    /// The number is out of the range of the field.
    OutOfRange { index: usize, value: i64 },
}

/// The fault of a value at its place in a row.
pub open spec fn placed(fault: ValueFault, index: usize) -> RowFault {
    match fault {
        ValueFault::WrongType { found } => RowFault::WrongType { index, found },
        ValueFault::OutOfRange { value } => RowFault::OutOfRange { index, value },
    }
}

/// The place of the first column of a name; the number of columns where there is none.
pub open spec fn index_in(cells: Seq<(Seq<char>, SqlModel)>, column: Seq<char>) -> nat
    decreases cells.len(),
{
    if cells.len() == 0 || cells[0].0 == column {
        0
    } else {
        1 + index_in(cells.drop_first(), column)
    }
}

/// The column that could not be read, and why.
#[derive(Debug)]
pub struct RowError {
    pub column: String,
    pub fault: RowFault,
}

impl View for RowError {
    type V = (Seq<char>, RowFault);

    open spec fn view(&self) -> (Seq<char>, RowFault) {
        (self.column@, self.fault)
    }
}

/// The identifier that a value stands for, if any.
pub open spec fn id_in(value: SqlModel) -> Option<i64> {
    match value {
        SqlModel::Integer(i) => Some(i),
        SqlModel::Text(s) => match text::signed_value(s) {
            Some(i) => Some(i as i64),
            None => None,
        },
        _ => None,
    }
}

/// The fault of a value of another type.
pub open spec fn mistyped(value: SqlModel) -> ValueFault {
    ValueFault::WrongType { found: type_of(value) }
}

/// The fault of a value in a column of a kind, if any.
pub open spec fn fault_of(value: SqlModel, kind: ColumnKind) -> Option<ValueFault> {
    match kind {
        ColumnKind::Int64 => if value is Integer {
            None
        } else {
            Some(mistyped(value))
        },
        ColumnKind::Int32 => ranged(value, i32::MIN as int, i32::MAX as int),
        ColumnKind::Int16 => ranged(value, i16::MIN as int, i16::MAX as int),
        ColumnKind::MaybeInt64 => if value is Integer || value is Null {
            None
        } else {
            Some(mistyped(value))
        },
        ColumnKind::Id => if id_in(value) is Some {
            None
        } else {
            Some(mistyped(value))
        },
        ColumnKind::MaybeId => if id_in(value) is Some || value is Null || value == SqlModel::Text(
            Seq::empty(),
        ) {
            None
        } else {
            Some(mistyped(value))
        },
        ColumnKind::Unsigned => unsigned_fault(value),
        ColumnKind::MaybeUnsigned => if value is Null {
            None
        } else {
            unsigned_fault(value)
        },
        ColumnKind::Uint32 => ranged(value, 0, u32::MAX as int),
        ColumnKind::Text => if value is Text {
            None
        } else {
            Some(mistyped(value))
        },
        ColumnKind::IdText => if value is Integer || value is Text {
            None
        } else {
            Some(mistyped(value))
        },
        ColumnKind::MaybeText => if value is Text || value is Null {
            None
        } else {
            Some(mistyped(value))
        },
    }
}

/// The fault of a value that must be an identifier that is not negative.
pub open spec fn unsigned_fault(value: SqlModel) -> Option<ValueFault> {
    match id_in(value) {
        Some(i) => if i >= 0 {
            None
        } else {
            Some(ValueFault::OutOfRange { value: i })
        },
        None => Some(mistyped(value)),
    }
}

/// The fault of a value that must be a number from `low` to `high`.
pub open spec fn ranged(value: SqlModel, low: int, high: int) -> Option<ValueFault> {
    match value {
        SqlModel::Integer(i) => if low <= i <= high {
            None
        } else {
            Some(ValueFault::OutOfRange { value: i })
        },
        _ => Some(mistyped(value)),
    }
}

/// A column that a row must have.
#[derive(Debug, Clone, Copy)]
pub struct Expected {
    pub column: &'static str,
    pub kind: ColumnKind,
}

/// The columns that a row must have, in the order in which they are read.
pub open spec fn shape_of(expected: Seq<Expected>) -> Seq<(Seq<char>, ColumnKind)> {
    Seq::new(expected.len(), |i: int| (expected[i].column@, expected[i].kind))
}

/// Expects a column.
pub fn expect(column: &'static str, kind: ColumnKind) -> (r: Expected)
    ensures
        r.column@ == column@,
        r.kind == kind,
{
    Expected { column, kind }
}

impl RowModel {
    /// The value of a column, if the row has it.
    pub open spec fn get(self, column: Seq<char>) -> Option<SqlModel> {
        value_in(self.cells, column)
    }

    /// The fault of one expected column, if any.
    pub open spec fn fault(self, column: Seq<char>, kind: ColumnKind) -> Option<RowFault> {
        match self.get(column) {
            Some(value) => match fault_of(value, kind) {
                Some(fault) => Some(placed(fault, index_in(self.cells, column) as usize)),
                None => None,
            },
            None => Some(RowFault::Missing),
        }
    }

    /// The first expected column that cannot be read, and why.
    pub open spec fn first_fault(self, shape: Seq<(Seq<char>, ColumnKind)>) -> Option<
        (Seq<char>, RowFault),
    >
        decreases shape.len(),
    {
        if shape.len() == 0 {
            None
        } else {
            match self.fault(shape[0].0, shape[0].1) {
                Some(fault) => Some((shape[0].0, fault)),
                None => self.first_fault(shape.drop_first()),
            }
        }
    }

    /// The number in a column, or `default` where there is none from `low` to `high`.
    pub open spec fn int_or(self, column: Seq<char>, low: int, high: int, default: i64) -> i64 {
        match self.get(column) {
            Some(SqlModel::Integer(i)) => if low <= i <= high {
                i
            } else {
                default
            },
            _ => default,
        }
    }

    /// The number in a column, or 0.
    pub open spec fn i64_at(self, column: Seq<char>) -> i64 {
        self.int_or(column, i64::MIN as int, i64::MAX as int, 0)
    }

    /// The number in a column as an `i32`, or `default`.
    pub open spec fn i32_or(self, column: Seq<char>, default: i32) -> i32 {
        self.int_or(column, i32::MIN as int, i32::MAX as int, default as i64) as i32
    }

    /// The number in a column as an `i16`, or `default`.
    pub open spec fn i16_or(self, column: Seq<char>, default: i16) -> i16 {
        self.int_or(column, i16::MIN as int, i16::MAX as int, default as i64) as i16
    }

    /// The number in a column as a `u32`, or 0.
    pub open spec fn u32_at(self, column: Seq<char>) -> u32 {
        self.int_or(column, 0, u32::MAX as int, 0) as u32
    }

    /// The number in a column, if there is one.
    pub open spec fn opt_i64(self, column: Seq<char>) -> Option<i64> {
        match self.get(column) {
            Some(SqlModel::Integer(i)) => Some(i),
            _ => None,
        }
    }

    /// The identifier in a column, if there is one.
    pub open spec fn opt_stored_id(self, column: Seq<char>) -> Option<i64> {
        match self.get(column) {
            Some(value) => id_in(value),
            None => None,
        }
    }

    /// The identifier in a column, if there is one.
    pub open spec fn opt_id(self, column: Seq<char>) -> Option<u64> {
        match self.opt_stored_id(column) {
            Some(i) => Some(loaded_id(i)),
            None => None,
        }
    }

    /// The identifier in a column, or 0.
    pub open spec fn id_at(self, column: Seq<char>) -> u64 {
        match self.opt_id(column) {
            Some(id) => id,
            None => 0,
        }
    }

    /// The identifier in a column where it is not negative, or 0.
    pub open spec fn unsigned_at(self, column: Seq<char>) -> u64 {
        match self.opt_stored_id(column) {
            Some(i) => if i >= 0 {
                i as u64
            } else {
                0
            },
            None => 0,
        }
    }

    /// The identifier in a column where it is not negative, if there is one.
    pub open spec fn opt_unsigned(self, column: Seq<char>) -> Option<u64> {
        match self.opt_stored_id(column) {
            Some(i) => if i >= 0 {
                Some(i as u64)
            } else {
                None
            },
            None => None,
        }
    }

    /// The text in a column, if there is one.
    pub open spec fn opt_text(self, column: Seq<char>) -> Option<Seq<char>> {
        match self.get(column) {
            Some(SqlModel::Text(s)) => Some(s),
            _ => None,
        }
    }

    /// The text in a column, or the empty text.
    pub open spec fn text_at(self, column: Seq<char>) -> Seq<char> {
        match self.opt_text(column) {
            Some(s) => s,
            None => Seq::empty(),
        }
    }

    /// The identifier in a column as a text, or the empty text.
    pub open spec fn id_text_at(self, column: Seq<char>) -> Seq<char> {
        match self.get(column) {
            Some(SqlModel::Text(s)) => s,
            Some(SqlModel::Integer(i)) => text::signed_decimal(i as int),
            _ => Seq::empty(),
        }
    }

    /// Whether the row holds what was bound.
    pub open spec fn holds(self, bindings: Seq<(Seq<char>, SqlModel)>) -> bool {
        forall|i: int|
            0 <= i < bindings.len() ==> self.get((#[trigger] bindings[i]).0) == Some(bindings[i].1)
    }
}

impl Row {
    /// The place of the first column of a name.
    fn find(&self, column: &str) -> (r: Option<usize>)
        ensures
            match r {
                Some(i) => {
                    &&& i < self.cells@.len()
                    &&& i == index_in(self@.cells, column@)
                    &&& self@.get(column@) == Some(self.cells@[i as int].value@)
                },
                None => self@.get(column@) is None,
            },
    {
        let ghost cells = self@.cells;
        let length: usize = self.cells.len();
        let mut i: usize = 0;
        proof {
            assert(cells.skip(0) =~= cells);
        }
        while i < length
            invariant
                i <= length == self.cells@.len(),
                cells == self@.cells,
                value_in(cells, column@) == value_in(cells.skip(i as int), column@),
                index_in(cells, column@) == i + index_in(cells.skip(i as int), column@),
            decreases length - i,
        {
            proof {
                assert(cells.skip(i as int)[0] == cells[i as int]);
                assert(cells.skip(i as int).drop_first() =~= cells.skip(i + 1));
            }
            if same_text(self.cells[i].column.as_str(), column) {
                return Some(i);
            }
            i = i + 1;
        }
        None
    }

    /// The value of the first column of a name.
    pub fn get(&self, column: &str) -> (r: Option<&SqlValue>)
        ensures
            match r {
                Some(v) => self@.get(column@) == Some(v@),
                None => self@.get(column@) is None,
            },
    {
        match self.find(column) {
            Some(i) => Some(&self.cells[i].value),
            None => None,
        }
    }

    /// Checks that every expected column can be read.
    pub fn check(&self, expected: &Vec<Expected>) -> (r: Result<(), RowError>)
        ensures
            match r {
                Ok(_) => self@.first_fault(shape_of(expected@)) is None,
                Err(e) => self@.first_fault(shape_of(expected@)) == Some(e@),
            },
    {
        let ghost shape = shape_of(expected@);
        let length: usize = expected.len();
        let mut i: usize = 0;
        proof {
            assert(shape.skip(0) =~= shape);
        }
        while i < length
            invariant
                i <= length == expected@.len(),
                shape == shape_of(expected@),
                self@.first_fault(shape) == self@.first_fault(shape.skip(i as int)),
            decreases length - i,
        {
            proof {
                assert(shape.skip(i as int)[0] == shape[i as int]);
                assert(shape.skip(i as int).drop_first() =~= shape.skip(i + 1));
            }
            let column = expected[i].column;
            let fault = match self.find(column) {
                Some(index) => match self.cells[index].value.fault(expected[i].kind) {
                    Some(ValueFault::WrongType { found }) => Some(
                        RowFault::WrongType { index, found },
                    ),
                    Some(ValueFault::OutOfRange { value }) => Some(
                        RowFault::OutOfRange { index, value },
                    ),
                    None => None,
                },
                None => Some(RowFault::Missing),
            };
            match fault {
                Some(fault) => {
                    return Err(RowError { column: column.to_owned(), fault });
                },
                None => {},
            }
            i = i + 1;
        }
        Ok(())
    }

    /// The number in a column, or `default` where there is none from `low` to `high`.
    fn int_or(&self, column: &str, low: i64, high: i64, default: i64) -> (r: i64)
        ensures
            r == self@.int_or(column@, low as int, high as int, default),
    {
        match self.get(column) {
            Some(SqlValue::Integer(i)) => {
                if low <= *i && *i <= high {
                    *i
                } else {
                    default
                }
            },
            _ => default,
        }
    }

    /// The number in a column, or 0.
    pub fn i64_at(&self, column: &str) -> (r: i64)
        ensures
            r == self@.i64_at(column@),
    {
        self.int_or(column, i64::MIN, i64::MAX, 0)
    }

    /// The number in a column as an `i32`, or `default`.
    pub fn i32_or(&self, column: &str, default: i32) -> (r: i32)
        ensures
            r == self@.i32_or(column@, default),
    {
        self.int_or(column, i32::MIN as i64, i32::MAX as i64, default as i64) as i32
    }

    /// The number in a column as an `i16`, or `default`.
    pub fn i16_or(&self, column: &str, default: i16) -> (r: i16)
        ensures
            r == self@.i16_or(column@, default),
    {
        self.int_or(column, i16::MIN as i64, i16::MAX as i64, default as i64) as i16
    }

    /// The number in a column as a `u32`, or 0.
    pub fn u32_at(&self, column: &str) -> (r: u32)
        ensures
            r == self@.u32_at(column@),
    {
        self.int_or(column, 0, u32::MAX as i64, 0) as u32
    }

    /// The number in a column, if there is one.
    pub fn opt_i64(&self, column: &str) -> (r: Option<i64>)
        ensures
            r == self@.opt_i64(column@),
    {
        match self.get(column) {
            Some(SqlValue::Integer(i)) => Some(*i),
            _ => None,
        }
    }

    /// The number that stands for the identifier in a column, if there is one.
    pub fn opt_stored_id(&self, column: &str) -> (r: Option<i64>)
        ensures
            r == self@.opt_stored_id(column@),
    {
        match self.get(column) {
            Some(value) => value.id(),
            None => None,
        }
    }

    /// The identifier in a column, if there is one.
    pub fn opt_id(&self, column: &str) -> (r: Option<u64>)
        ensures
            r == self@.opt_id(column@),
    {
        match self.opt_stored_id(column) {
            Some(i) => Some(#[verifier::truncate] (i as u64)),
            None => None,
        }
    }

    /// The identifier in a column, or 0.
    pub fn id_at(&self, column: &str) -> (r: u64)
        ensures
            r == self@.id_at(column@),
    {
        match self.opt_id(column) {
            Some(id) => id,
            None => 0,
        }
    }

    /// The identifier in a column where it is not negative, or 0.
    pub fn unsigned_at(&self, column: &str) -> (r: u64)
        ensures
            r == self@.unsigned_at(column@),
    {
        match self.opt_stored_id(column) {
            Some(i) => if i >= 0 {
                i as u64
            } else {
                0
            },
            None => 0,
        }
    }

    /// The identifier in a column where it is not negative, if there is one.
    pub fn opt_unsigned(&self, column: &str) -> (r: Option<u64>)
        ensures
            r == self@.opt_unsigned(column@),
    {
        match self.opt_stored_id(column) {
            Some(i) => if i >= 0 {
                Some(i as u64)
            } else {
                None
            },
            None => None,
        }
    }

    /// The text in a column, if there is one.
    pub fn opt_text(&self, column: &str) -> (r: Option<String>)
        ensures
            match r {
                Some(s) => self@.opt_text(column@) == Some(s@),
                None => self@.opt_text(column@) is None,
            },
    {
        match self.get(column) {
            Some(SqlValue::Text(s)) => Some(s.clone()),
            _ => None,
        }
    }

    /// The identifier in a column as a text, or the empty text.
    pub fn id_text_at(&self, column: &str) -> (r: String)
        ensures
            r@ == self@.id_text_at(column@),
    {
        match self.get(column) {
            Some(SqlValue::Text(s)) => s.clone(),
            Some(SqlValue::Integer(i)) => i64_text(*i),
            _ => String::new(),
        }
    }

    /// The text in a column, or the empty text.
    pub fn text_at(&self, column: &str) -> (r: String)
        ensures
            r@ == self@.text_at(column@),
    {
        match self.opt_text(column) {
            Some(s) => s,
            None => String::new(),
        }
    }
}

impl SqlValue {
    /// The identifier that the value stands for, if any.
    pub fn id(&self) -> (r: Option<i64>)
        ensures
            r == id_in(self@),
    {
        match self {
            SqlValue::Integer(i) => Some(*i),
            SqlValue::Text(s) => parse_i64(s.as_str()),
            _ => None,
        }
    }

    /// The type of the value.
    pub fn cell_type(&self) -> (r: CellType)
        ensures
            r == type_of(self@),
    {
        match self {
            SqlValue::Null => CellType::Null,
            SqlValue::Integer(_) => CellType::Integer,
            SqlValue::Real(_) => CellType::Real,
            SqlValue::Text(_) => CellType::Text,
            SqlValue::Blob(_) => CellType::Blob,
        }
    }

    /// The fault of the value in a column of a kind, if any.
    pub fn fault(&self, kind: ColumnKind) -> (r: Option<ValueFault>)
        ensures
            r == fault_of(self@, kind),
    {
        let wrong = Some(ValueFault::WrongType { found: self.cell_type() });
        match kind {
            ColumnKind::Int64 => match self {
                SqlValue::Integer(_) => None,
                _ => wrong,
            },
            ColumnKind::Int32 => match self {
                SqlValue::Integer(i) => if i32::MIN as i64 <= *i && *i <= i32::MAX as i64 {
                    None
                } else {
                    Some(ValueFault::OutOfRange { value: *i })
                },
                _ => wrong,
            },
            ColumnKind::Int16 => match self {
                SqlValue::Integer(i) => if i16::MIN as i64 <= *i && *i <= i16::MAX as i64 {
                    None
                } else {
                    Some(ValueFault::OutOfRange { value: *i })
                },
                _ => wrong,
            },
            ColumnKind::MaybeInt64 => match self {
                SqlValue::Integer(_) => None,
                SqlValue::Null => None,
                _ => wrong,
            },
            ColumnKind::Id => match self.id() {
                Some(_) => None,
                None => wrong,
            },
            ColumnKind::MaybeId => match self {
                SqlValue::Null => None,
                SqlValue::Text(s) => {
                    if s.as_str().is_empty() {
                        proof {
                            assert(s@ =~= Seq::<char>::empty());
                        }
                        None
                    } else {
                        match self.id() {
                            Some(_) => None,
                            None => wrong,
                        }
                    }
                },
                _ => match self.id() {
                    Some(_) => None,
                    None => wrong,
                },
            },
            ColumnKind::Unsigned => match self.id() {
                Some(i) => if i >= 0 {
                    None
                } else {
                    Some(ValueFault::OutOfRange { value: i })
                },
                None => wrong,
            },
            ColumnKind::MaybeUnsigned => match self {
                SqlValue::Null => None,
                _ => match self.id() {
                    Some(i) => if i >= 0 {
                        None
                    } else {
                        Some(ValueFault::OutOfRange { value: i })
                    },
                    None => wrong,
                },
            },
            ColumnKind::Uint32 => match self {
                SqlValue::Integer(i) => if 0 <= *i && *i <= u32::MAX as i64 {
                    None
                } else {
                    Some(ValueFault::OutOfRange { value: *i })
                },
                _ => wrong,
            },
            ColumnKind::Text => match self {
                SqlValue::Text(_) => None,
                _ => wrong,
            },
            ColumnKind::IdText => match self {
                SqlValue::Text(_) => None,
                SqlValue::Integer(_) => None,
                _ => wrong,
            },
            ColumnKind::MaybeText => match self {
                SqlValue::Text(_) => None,
                SqlValue::Null => None,
                _ => wrong,
            },
        }
    }
}

impl RowError {
    /// What is wrong, in words.
    pub open spec fn words(e: (Seq<char>, RowFault)) -> Seq<char> {
        match e.1 {
            RowFault::Missing => "Invalid column name: "@ + e.0,
            RowFault::WrongType { index, found } => "Invalid column type "@ + cell_type_name(found)
                + " at index: "@ + text::decimal(index as nat) + ", name: "@ + e.0,
            RowFault::OutOfRange { index, value } => "Integer "@ + text::signed_decimal(value as int)
                + " out of range at index "@ + text::decimal(index as nat),
        }
    }

    /// What is wrong, in words.
    pub fn message(&self) -> (r: String)
        ensures
            r@ == RowError::words(self@),
    {
        match self.fault {
            RowFault::Missing => {
                let mut s = "Invalid column name: ".to_owned();
                s.append(self.column.as_str());
                s
            },
            RowFault::WrongType { index, found } => {
                let mut s = "Invalid column type ".to_owned();
                s.append(found.name());
                s.append(" at index: ");
                s.append(u64_text(index as u64).as_str());
                s.append(", name: ");
                s.append(self.column.as_str());
                s
            },
            RowFault::OutOfRange { index, value } => {
                let mut s = "Integer ".to_owned();
                s.append(i64_text(value).as_str());
                s.append(" out of range at index ");
                s.append(u64_text(index as u64).as_str());
                s
            },
        }
    }

    /// The error of an operation that could not read a row.
    pub fn within(&self, what: &str) -> (r: PrivchatSDKError)
        ensures
            r@ == ErrorModel::Database(what@ + RowError::words(self@)),
    {
        let mut s = what.to_owned();
        s.append(self.message().as_str());
        PrivchatSDKError::Database(s)
    }
}

/// An entity that a row of its table holds.
pub trait FromRow: View + Sized {
    /// The columns that the entity is read from, in the order in which they are read.
    spec fn shape() -> Seq<(Seq<char>, ColumnKind)>;

    /// The entity that a row holds.
    spec fn held_by(row: RowModel) -> Self::V;

    /// Reads the entity, or says which column cannot be read.
    fn from_row(row: &Row) -> (r: Result<Self, RowError>)
        ensures
            match r {
                Ok(m) => row@.first_fault(Self::shape()) is None && m@ == Self::held_by(row@),
                Err(e) => row@.first_fault(Self::shape()) == Some(e@),
            },
    ;
}

/// Whether row `i` is the first that cannot be read, with the fault `e`.
pub open spec fn unreadable_at(
    rows: Seq<Row>,
    shape: Seq<(Seq<char>, ColumnKind)>,
    i: int,
    e: (Seq<char>, RowFault),
) -> bool {
    &&& 0 <= i < rows.len()
    &&& rows[i]@.first_fault(shape) == Some(e)
    &&& forall|j: int| 0 <= j < i ==> (#[trigger] rows[j])@.first_fault(shape) is None
}

/// Whether `e` is the fault of the first row that cannot be read.
pub open spec fn first_unreadable(
    rows: Seq<Row>,
    shape: Seq<(Seq<char>, ColumnKind)>,
    e: (Seq<char>, RowFault),
) -> bool {
    exists|i: int| #[trigger] unreadable_at(rows, shape, i, e)
}

/// The entities that rows hold, in order, or the first column that cannot be read.
pub fn read_all<T: FromRow>(rows: &Vec<Row>) -> (r: Result<Vec<T>, RowError>)
    ensures
        match r {
            Ok(m) => m@.len() == rows@.len() && forall|i: int|
                0 <= i < rows@.len() ==> rows@[i]@.first_fault(T::shape()) is None && (
                #[trigger] m@[i])@ == T::held_by(rows@[i]@),
            Err(e) => first_unreadable(rows@, T::shape(), e@),
        },
{
    let mut out: Vec<T> = Vec::new();
    let length: usize = rows.len();
    let mut i: usize = 0;
    while i < length
        invariant
            i <= length == rows@.len(),
            out@.len() == i,
            forall|j: int| 0 <= j < i ==> (#[trigger] rows@[j])@.first_fault(T::shape()) is None,
            forall|j: int| 0 <= j < i ==> (#[trigger] out@[j])@ == T::held_by(rows@[j]@),
        decreases length - i,
    {
        match T::from_row(&rows[i]) {
            Ok(m) => {
                out.push(m);
            },
            Err(e) => {
                assert(unreadable_at(rows@, T::shape(), i as int, e@));
                return Err(e);
            },
        }
        i = i + 1;
    }
    Ok(out)
}

/// The entity that a look-up found, if it found a row. `what` begins the error of a row that
/// cannot be read.
pub fn read_found<T: FromRow>(row: &Option<Row>, what: &str) -> (r: Result<
    Option<T>,
    PrivchatSDKError,
>)
    ensures
        match *row {
            None => r is Ok && r->Ok_0 is None,
            Some(row) => match row@.first_fault(T::shape()) {
                None => r is Ok && r->Ok_0 is Some && r->Ok_0->0@ == T::held_by(row@),
                Some(fault) => r is Err && r->Err_0@ == ErrorModel::Database(
                    what@ + RowError::words(fault),
                ),
            },
        },
{
    match row {
        None => Ok(None),
        Some(row) => match T::from_row(row) {
            Ok(m) => Ok(Some(m)),
            Err(e) => Err(e.within(what)),
        },
    }
}

/// A shape that a row meets is met column by column.
pub proof fn lemma_shape_met(row: RowModel, shape: Seq<(Seq<char>, ColumnKind)>)
    requires
        forall|i: int|
            0 <= i < shape.len() ==> row.fault((#[trigger] shape[i]).0, shape[i].1) is None,
    ensures
        row.first_fault(shape) is None,
    decreases shape.len(),
{
    if shape.len() > 0 {
        assert(row.fault(shape[0].0, shape[0].1) is None);
        assert forall|i: int| 0 <= i < shape.drop_first().len() implies row.fault(
            (#[trigger] shape.drop_first()[i]).0,
            shape.drop_first()[i].1,
        ) is None by {
            assert(shape.drop_first()[i] == shape[i + 1]);
        }
        lemma_shape_met(row, shape.drop_first());
    }
}

// What the words of a `WHERE` clause mean.

/// How a column is compared with a value.
#[derive(Debug, Clone, Copy, PartialEq, Eq, Structural)]
pub enum Comparison {
    Equal,
    AtLeast,
    AtMost,
    Above,
    Below,
}

/// The sign of a comparison.
pub open spec fn comparison_sign(c: Comparison) -> Seq<char> {
    match c {
        Comparison::Equal => "="@,
        Comparison::AtLeast => ">="@,
        Comparison::AtMost => "<="@,
        Comparison::Above => ">"@,
        Comparison::Below => "<"@,
    }
}

/// Whether a value compares so with another: numbers by their order, texts by being the same. Null
/// compares with nothing.
pub open spec fn compares(value: SqlModel, c: Comparison, with: SqlModel) -> bool {
    match (value, with) {
        (SqlModel::Integer(a), SqlModel::Integer(b)) => match c {
            Comparison::Equal => a == b,
            Comparison::AtLeast => a >= b,
            Comparison::AtMost => a <= b,
            Comparison::Above => a > b,
            Comparison::Below => a < b,
        },
        (SqlModel::Text(a), SqlModel::Text(b)) => c is Equal && a == b,
        _ => false,
    }
}

/// What a column is compared with or set to: a parameter by its number, a number in the text, or words
/// that the database works out.
pub enum Operand {
    Parameter(nat),
    Number(i64),
    Words(Seq<char>),
}

/// One test of a row.
pub struct RowTest {
    pub column: Seq<char>,
    pub comparison: Comparison,
    pub operand: Operand,
}

/// A test against a numbered parameter.
pub open spec fn against(column: Seq<char>, comparison: Comparison, n: nat) -> RowTest {
    RowTest { column, comparison, operand: Operand::Parameter(n) }
}

/// A test against a number in the text.
pub open spec fn against_number(column: Seq<char>, comparison: Comparison, i: i64) -> RowTest {
    RowTest { column, comparison, operand: Operand::Number(i) }
}

/// A column that is set to a numbered parameter.
pub open spec fn bound(column: Seq<char>, n: nat) -> (Seq<char>, Operand) {
    (column, Operand::Parameter(n))
}

/// A column that is set to a number in the text.
pub open spec fn fixed(column: Seq<char>, i: i64) -> (Seq<char>, Operand) {
    (column, Operand::Number(i))
}

/// The words of an operand.
pub open spec fn operand_words(o: Operand) -> Seq<char> {
    match o {
        Operand::Parameter(n) => "?"@ + text::decimal(n),
        Operand::Number(i) => text::signed_decimal(i as int),
        Operand::Words(s) => s,
    }
}

/// What stands for an operand, given the values of the parameters; nothing is said of what the database
/// works out.
pub open spec fn operand_value(o: Operand, params: Seq<SqlModel>) -> Option<SqlModel> {
    match o {
        Operand::Parameter(n) => if 1 <= n <= params.len() {
            Some(params[n - 1])
        } else {
            None
        },
        Operand::Number(i) => Some(SqlModel::Integer(i)),
        Operand::Words(_) => None,
    }
}

/// The words of a test.
pub open spec fn test_words(t: RowTest) -> Seq<char> {
    t.column + " "@ + comparison_sign(t.comparison) + " "@ + operand_words(t.operand)
}

/// The words of tests that must all be met.
pub open spec fn where_words(tests: Seq<RowTest>) -> Seq<char>
    decreases tests.len(),
{
    if tests.len() == 0 {
        Seq::empty()
    } else if tests.len() == 1 {
        test_words(tests[0])
    } else {
        where_words(tests.drop_last()) + " AND "@ + test_words(tests.last())
    }
}

/// Whether a row meets a test, given the values of the parameters.
pub open spec fn meets(row: RowModel, t: RowTest, params: Seq<SqlModel>) -> bool {
    match (row.get(t.column), operand_value(t.operand, params)) {
        (Some(value), Some(with)) => compares(value, t.comparison, with),
        _ => false,
    }
}

/// Whether a row meets all tests.
pub open spec fn meets_all(row: RowModel, tests: Seq<RowTest>, params: Seq<SqlModel>) -> bool
    decreases tests.len(),
{
    tests.len() == 0 || (meets_all(row, tests.drop_last(), params) && meets(row, tests.last(), params))
}

/// The words that give columns values.
pub open spec fn set_words(sets: Seq<(Seq<char>, Operand)>) -> Seq<char>
    decreases sets.len(),
{
    if sets.len() == 0 {
        Seq::empty()
    } else if sets.len() == 1 {
        sets[0].0 + " = "@ + operand_words(sets[0].1)
    } else {
        set_words(sets.drop_last()) + ", "@ + sets.last().0 + " = "@ + operand_words(sets.last().1)
    }
}

/// The values of columns, in a row.
pub open spec fn value_words(sets: Seq<(Seq<char>, Operand)>) -> Seq<char>
    decreases sets.len(),
{
    if sets.len() == 0 {
        Seq::empty()
    } else if sets.len() == 1 {
        operand_words(sets[0].1)
    } else {
        value_words(sets.drop_last()) + ", "@ + operand_words(sets.last().1)
    }
}

/// The values that a statement gives columns, in order.
pub open spec fn given_values(sets: Seq<(Seq<char>, Operand)>, params: Seq<SqlModel>) -> Seq<
    (Seq<char>, Option<SqlModel>),
> {
    Seq::new(sets.len(), |i: int| (sets[i].0, operand_value(sets[i].1, params)))
}

/// Whether a statement reads from the rows of a table that meet tests.
pub open spec fn is_selection(
    s: StatementModel,
    what: Seq<char>,
    table: Seq<char>,
    tests: Seq<RowTest>,
    rest: Seq<char>,
) -> bool {
    s.sql == "SELECT "@ + what + " FROM "@ + table + " WHERE "@ + where_words(tests) + rest
}

/// Whether a statement sets columns in the rows of a table that meet tests.
pub open spec fn is_update(
    s: StatementModel,
    table: Seq<char>,
    sets: Seq<(Seq<char>, Operand)>,
    tests: Seq<RowTest>,
) -> bool {
    s.sql == "UPDATE "@ + table + " SET "@ + set_words(sets) + " WHERE "@ + where_words(tests)
}

/// Whether a statement removes the rows of a table that meet tests.
pub open spec fn is_removal(s: StatementModel, table: Seq<char>, tests: Seq<RowTest>) -> bool {
    s.sql == "DELETE FROM "@ + table + " WHERE "@ + where_words(tests)
}

/// Whether a statement puts a row with columns into a table.
pub open spec fn is_insertion(
    s: StatementModel,
    verb: Seq<char>,
    table: Seq<char>,
    sets: Seq<(Seq<char>, Operand)>,
) -> bool {
    s.sql == verb + table + " ("@ + column_list(Seq::new(sets.len(), |i: int| sets[i].0))
        + ") VALUES ("@ + value_words(sets) + ")"@
}

/// Two identifiers are stored alike only where they are the same.
pub proof fn lemma_stored_ids(a: u64, b: u64)
    ensures
        stored_id(a) == stored_id(b) <==> a == b,
{
    law_identifier_round_trip(a);
    law_identifier_round_trip(b);
}

/// What one test says.
pub proof fn lemma_tests_one(t0: RowTest, row: RowModel, params: Seq<SqlModel>)
    ensures
        where_words(seq![t0]) == test_words(t0),
        meets_all(row, seq![t0], params) <==> meets(row, t0, params),
{
    reveal_with_fuel(where_words, 2);
    reveal_with_fuel(meets_all, 2);
    let all = seq![t0];
    assert(all.last() == t0);
}

/// What two tests say.
pub proof fn lemma_tests_two(t0: RowTest, t1: RowTest, row: RowModel, params: Seq<SqlModel>)
    ensures
        where_words(seq![t0, t1]) == test_words(t0) + " AND "@ + test_words(t1),
        meets_all(row, seq![t0, t1], params) <==> meets(row, t0, params) && meets(row, t1, params),
{
    reveal_with_fuel(where_words, 3);
    reveal_with_fuel(meets_all, 3);
    let all = seq![t0, t1];
    assert(all.last() == t1);
    assert(all.drop_last().last() == t0);
}

/// What three tests say.
pub proof fn lemma_tests_three(
    t0: RowTest,
    t1: RowTest,
    t2: RowTest,
    row: RowModel,
    params: Seq<SqlModel>,
)
    ensures
        where_words(seq![t0, t1, t2]) == test_words(t0) + " AND "@ + test_words(t1) + " AND "@ + test_words(t2),
        meets_all(
            row,
            seq![t0, t1, t2],
            params,
        ) <==> meets(row, t0, params) && meets(row, t1, params) && meets(row, t2, params),
{
    reveal_with_fuel(where_words, 4);
    reveal_with_fuel(meets_all, 4);
    let all = seq![t0, t1, t2];
    assert(all.last() == t2);
    assert(all.drop_last().last() == t1);
    assert(all.drop_last().drop_last().last() == t0);
}

/// What four tests say.
pub proof fn lemma_tests_four(
    t0: RowTest,
    t1: RowTest,
    t2: RowTest,
    t3: RowTest,
    row: RowModel,
    params: Seq<SqlModel>,
)
    ensures
        where_words(
            seq![t0, t1, t2, t3],
        ) == test_words(t0) + " AND "@ + test_words(t1) + " AND "@ + test_words(t2) + " AND "@ + test_words(t3),
        meets_all(
            row,
            seq![t0, t1, t2, t3],
            params,
        ) <==> meets(row, t0, params) && meets(row, t1, params) && meets(row, t2, params) && meets(row, t3, params),
{
    reveal_with_fuel(where_words, 5);
    reveal_with_fuel(meets_all, 5);
    let all = seq![t0, t1, t2, t3];
    assert(all.last() == t3);
    assert(all.drop_last().last() == t2);
    assert(all.drop_last().drop_last().last() == t1);
    assert(all.drop_last().drop_last().drop_last().last() == t0);
}

/// What setting one column says.
pub proof fn lemma_sets_one(s0: (Seq<char>, Operand), params: Seq<SqlModel>)
    ensures
        set_words(seq![s0]) == s0.0 + " = "@ + operand_words(s0.1),
        given_values(seq![s0], params) == seq![(s0.0, operand_value(s0.1, params))],
{
    reveal_with_fuel(set_words, 2);
    let all = seq![s0];
    assert(all.last() == s0);
}

/// What setting two columns says.
pub proof fn lemma_sets_two(s0: (Seq<char>, Operand), s1: (Seq<char>, Operand), params: Seq<SqlModel>)
    ensures
        set_words(seq![s0, s1]) == s0.0 + " = "@ + operand_words(s0.1) + ", "@ + s1.0 + " = "@ + operand_words(s1.1),
        given_values(seq![s0, s1], params) == seq![
            (s0.0, operand_value(s0.1, params)),
            (s1.0, operand_value(s1.1, params)),
        ],
{
    reveal_with_fuel(set_words, 3);
    let all = seq![s0, s1];
    assert(all.last() == s1);
    assert(all.drop_last().last() == s0);
}

/// What setting three columns says.
pub proof fn lemma_sets_three(
    s0: (Seq<char>, Operand),
    s1: (Seq<char>, Operand),
    s2: (Seq<char>, Operand),
    params: Seq<SqlModel>,
)
    ensures
        set_words(seq![s0, s1, s2]) == s0.0 + " = "@ + operand_words(s0.1) + ", "@ + s1.0 + " = "@ + operand_words(s1.1) + ", "@ + s2.0 + " = "@ + operand_words(s2.1),
        given_values(seq![s0, s1, s2], params) == seq![
            (s0.0, operand_value(s0.1, params)),
            (s1.0, operand_value(s1.1, params)),
            (s2.0, operand_value(s2.1, params)),
        ],
{
    reveal_with_fuel(set_words, 4);
    let all = seq![s0, s1, s2];
    assert(all.last() == s2);
    assert(all.drop_last().last() == s1);
    assert(all.drop_last().drop_last().last() == s0);
}

/// What setting four columns says.
pub proof fn lemma_sets_four(
    s0: (Seq<char>, Operand),
    s1: (Seq<char>, Operand),
    s2: (Seq<char>, Operand),
    s3: (Seq<char>, Operand),
    params: Seq<SqlModel>,
)
    ensures
        set_words(
            seq![s0, s1, s2, s3],
        ) == s0.0 + " = "@ + operand_words(s0.1) + ", "@ + s1.0 + " = "@ + operand_words(s1.1) + ", "@ + s2.0 + " = "@ + operand_words(s2.1) + ", "@ + s3.0 + " = "@ + operand_words(s3.1),
        given_values(seq![s0, s1, s2, s3], params) == seq![
            (s0.0, operand_value(s0.1, params)),
            (s1.0, operand_value(s1.1, params)),
            (s2.0, operand_value(s2.1, params)),
            (s3.0, operand_value(s3.1, params)),
        ],
{
    reveal_with_fuel(set_words, 5);
    let all = seq![s0, s1, s2, s3];
    assert(all.last() == s3);
    assert(all.drop_last().last() == s2);
    assert(all.drop_last().drop_last().last() == s1);
    assert(all.drop_last().drop_last().drop_last().last() == s0);
}

/// A list of columns and a list of parameters grow alike: each name and each number follows the others,
/// after a comma.
pub proof fn law_columns_and_parameters_go_together(columns: Seq<Seq<char>>, column: Seq<char>)
    ensures
        columns.len() > 0 ==> column_list(
            columns.push(column),
        ) == column_list(columns) + ", "@ + column,
        columns.len() > 0 ==> parameter_list(columns.len() + 1) == parameter_list(columns.len()) + ", ?"@
            + text::decimal(columns.len() + 1),
        columns.len() == 0 ==> column_list(
            columns.push(column),
        ) == column && parameter_list(1) == "?1"@,
        columns.len() > 0 ==> taken_over(columns.push(column)) == taken_over(columns) + ", "@ + column
            + " = excluded."@ + column,
        columns.len() == 0 ==> taken_over(columns.push(column)) == column + " = excluded."@ + column,
{
    assert(columns.push(column).drop_last() =~= columns);
    if columns.len() == 0 {
        let before: Seq<char> = Seq::empty();
        assert(before + column =~= column);
    }
}

/// A value is bound as what it is: a number that is not there as null, a text likewise, and a truth
/// value as 1 or 0.
pub proof fn law_values_are_bound_as_they_are(id: u64, i: i64, s: Seq<char>)
    ensures
        opt_id_model(Some(id)) == id_model(id) && opt_id_model(None) == SqlModel::Null,
        opt_int_model(Some(i)) == SqlModel::Integer(i) && opt_int_model(None) == SqlModel::Null,
        opt_text_model(Some(s)) == SqlModel::Text(s) && opt_text_model(None) == SqlModel::Null,
        flag_model(true) == SqlModel::Integer(1) && flag_model(false) == SqlModel::Integer(0),
        id <= i64::MAX ==> id_model(id) == SqlModel::Integer(id as i64) && stored_id(id) == id,
{
}

/// A row without a fault in any expected column has none.
pub proof fn lemma_no_fault(row: RowModel, shape: Seq<(Seq<char>, ColumnKind)>)
    requires
        forall|i: int| 0 <= i < shape.len() ==> row.fault((#[trigger] shape[i]).0, shape[i].1) is None,
    ensures
        row.first_fault(shape) is None,
    decreases shape.len(),
{
    if shape.len() > 0 {
        let rest = shape.drop_first();
        assert(forall|i: int| 0 <= i < rest.len() ==> rest[i] == shape[i + 1]);
        lemma_no_fault(row, rest);
    }
}

/// A number is read where it fits its column, and refused with itself where it does not; a text is no
/// number and a number no text. Null is read only where a value may be missing.
pub proof fn law_columns_take_what_fits(i: i64, s: Seq<char>)
    ensures
        fault_of(SqlModel::Integer(i), ColumnKind::Int64) is None,
        fault_of(SqlModel::Integer(i), ColumnKind::Int32) is None <==> i32::MIN <= i <= i32::MAX,
        fault_of(SqlModel::Integer(i), ColumnKind::Int16) is None <==> i16::MIN <= i <= i16::MAX,
        fault_of(SqlModel::Integer(i), ColumnKind::Uint32) is None <==> 0 <= i <= u32::MAX,
        fault_of(SqlModel::Integer(i), ColumnKind::Unsigned) is None <==> i >= 0,
        fault_of(SqlModel::Integer(i), ColumnKind::MaybeUnsigned) is None <==> i >= 0,
        fault_of(SqlModel::Integer(i), ColumnKind::Id) is None,
        fault_of(SqlModel::Integer(i), ColumnKind::Int32) matches Some(f) ==> f == (ValueFault::OutOfRange {
            value: i,
        }),
        fault_of(SqlModel::Integer(i), ColumnKind::Unsigned) matches Some(f) ==> f
            == (ValueFault::OutOfRange { value: i }),
        fault_of(SqlModel::Integer(i), ColumnKind::Text) == Some(
            ValueFault::WrongType { found: CellType::Integer },
        ),
        fault_of(SqlModel::Text(s), ColumnKind::Int32) == Some(
            ValueFault::WrongType { found: CellType::Text },
        ),
        fault_of(SqlModel::Text(s), ColumnKind::Int64) == Some(
            ValueFault::WrongType { found: CellType::Text },
        ),
        fault_of(SqlModel::Text(s), ColumnKind::Text) is None,
        fault_of(SqlModel::Text(s), ColumnKind::Id) is None <==> text::signed_value(s) is Some,
        fault_of(SqlModel::Null, ColumnKind::MaybeInt64) is None,
        fault_of(SqlModel::Null, ColumnKind::MaybeText) is None,
        fault_of(SqlModel::Null, ColumnKind::MaybeId) is None,
        fault_of(SqlModel::Null, ColumnKind::MaybeUnsigned) is None,
        fault_of(SqlModel::Null, ColumnKind::Int64) == Some(
            ValueFault::WrongType { found: CellType::Null },
        ),
        fault_of(SqlModel::Null, ColumnKind::Text) == Some(
            ValueFault::WrongType { found: CellType::Null },
        ),
        fault_of(SqlModel::Null, ColumnKind::Id) is Some && fault_of(
            SqlModel::Null,
            ColumnKind::Int32,
        ) is Some,
{
}

/// A value is read from the first column of its name as what it is; a missing column or one of another
/// kind gives the default.
pub proof fn law_columns_are_read_by_name(
    cells: Seq<(Seq<char>, SqlModel)>,
    column: Seq<char>,
    other: Seq<char>,
    value: SqlModel,
    i: i64,
    s: Seq<char>,
)
    ensures
        ({
            let row = RowModel { cells: seq![(column, value)] + cells };
            &&& row.get(column) == Some(value)
            &&& other != column ==> row.get(other) == (RowModel { cells }).get(other)
            &&& value == SqlModel::Integer(i) ==> row.i64_at(column) == i && row.opt_i64(column) == Some(i)
                && row.id_at(column) == i as u64 && row.id_text_at(column) == text::signed_decimal(i as int)
            &&& value == SqlModel::Integer(i) && 0 <= i ==> row.unsigned_at(column) == i
                && row.opt_unsigned(column) == Some(i as u64)
            &&& value == SqlModel::Integer(i) && i32::MIN <= i <= i32::MAX ==> row.i32_or(column, 7) == i
            &&& value == SqlModel::Integer(i) && i16::MIN <= i <= i16::MAX ==> row.i16_or(column, 7) == i
            &&& value == SqlModel::Integer(i) && 0 <= i <= u32::MAX ==> row.u32_at(column) == i
            &&& value == SqlModel::Text(s) ==> row.text_at(column) == s && row.opt_text(column) == Some(s)
                && row.id_text_at(column) == s
            &&& value == SqlModel::Null ==> row.opt_i64(column) is None && row.opt_text(column) is None
                && row.opt_id(column) is None && row.text_at(column).len() == 0 && row.i64_at(column) == 0
                && row.i32_or(column, 7) == 7
        }),
{
    let row = RowModel { cells: seq![(column, value)] + cells };
    assert(row.cells[0] == (column, value));
    assert(row.cells.drop_first() =~= cells);
}

/// The fault of a row is that of the first expected column that has one, and it names the column, where
/// it stands, and what was found there.
pub proof fn law_faults_name_their_column(
    row: RowModel,
    column: Seq<char>,
    kind: ColumnKind,
    rest: Seq<(Seq<char>, ColumnKind)>,
    index: usize,
    value: i64,
)
    ensures
        row.get(column) is None ==> row.fault(column, kind) == Some(RowFault::Missing),
        row.get(column) matches Some(value) ==> (row.fault(column, kind) is None <==> fault_of(value, kind)
            is None),
        row.fault(column, kind) matches Some(f) ==> row.first_fault(seq![(column, kind)] + rest) == Some(
            (column, f),
        ),
        row.fault(column, kind) is None ==> row.first_fault(seq![(column, kind)] + rest)
            == row.first_fault(rest),
        RowError::words((column, RowFault::Missing)) == "Invalid column name: "@ + column,
        RowError::words((column, RowFault::WrongType { index, found: CellType::Null }))
            == "Invalid column type "@ + "Null"@ + " at index: "@ + text::decimal(index as nat)
            + ", name: "@ + column,
        RowError::words((column, RowFault::WrongType { index, found: CellType::Integer }))
            == "Invalid column type "@ + "Integer"@ + " at index: "@ + text::decimal(index as nat)
            + ", name: "@ + column,
        RowError::words((column, RowFault::WrongType { index, found: CellType::Text }))
            == "Invalid column type "@ + "Text"@ + " at index: "@ + text::decimal(index as nat)
            + ", name: "@ + column,
        RowError::words((column, RowFault::OutOfRange { index, value })) == "Integer "@
            + text::signed_decimal(value as int) + " out of range at index "@ + text::decimal(
            index as nat,
        ),
{
    let shape = seq![(column, kind)] + rest;
    assert(shape[0] == (column, kind));
    assert(shape.drop_first() =~= rest);
}

/// A row is inserted with its columns and as many parameters, each bound to its value; where the row is
/// there already, the statement goes on to say which columns are taken over.
pub proof fn law_an_insertion_binds_its_columns(
    verb: Seq<char>,
    table: Seq<char>,
    b: Seq<(Seq<char>, SqlModel)>,
    keys: Seq<char>,
    updated: Seq<Seq<char>>,
    i: int,
)
    requires
        0 <= i < b.len(),
    ensures
        insertion(verb, table, b).sql == verb + table + " ("@ + column_list(columns_of(b)) + ") VALUES ("@
            + parameter_list(b.len()) + ")"@,
        insertion(verb, table, b).params.len() == b.len(),
        insertion(verb, table, b).params[i] == b[i].1,
        columns_of(b).len() == b.len() && columns_of(b)[i] == b[i].0,
        upsertion(table, b, keys, updated).sql == insertion("INSERT INTO "@, table, b).sql
            + " ON CONFLICT("@ + keys + ") DO UPDATE SET "@ + taken_over(updated),
        upsertion(table, b, keys, updated).params == insertion(verb, table, b).params,
{
}

/// A negative number is read as no unsigned one: as 0 where one is owed, and as none where it may be
/// missing.
pub proof fn law_a_negative_number_is_not_unsigned(row: RowModel, column: Seq<char>, i: i64)
    requires
        row.get(column) == Some(SqlModel::Integer(i)),
        i < 0,
    ensures
        row.unsigned_at(column) == 0,
        row.opt_unsigned(column) is None,
        row.u32_at(column) == 0,
{
}

/// A number that the database cannot hold is refused in these words.
pub proof fn law_a_number_out_of_range_is_refused()
    ensures
        out_of_range() == ErrorModel::Database("out of range integral type conversion attempted"@),
{
}

} // verus!
