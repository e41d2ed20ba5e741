//! Mathematical models of what the library hands to Arrow: column types, fields, cell values and
//! one-table batches.
use vstd::prelude::*;
use vstd::utf8::*;

verus! {

/// An Arrow data type.
///
/// Two Arrow types are equal exactly when their models are.
pub ghost enum TypeModel {
    Boolean,
    Int32,
    Int64,
    Float64,
    Utf8,
    /// A list whose items are described by the field.
    ListOf(Box<FieldModel>),
    /// A map whose entries are described by the field, and whether the keys are sorted.
    MapOf(Box<FieldModel>, bool),
    StructOf(Seq<FieldModel>),
    /// Any type this library never builds; different types have different numbers.
    Other(nat),
}

/// An Arrow field: a named, typed, possibly nullable column with its custom metadata.
pub ghost struct FieldModel {
    pub name: Seq<char>,
    pub data_type: TypeModel,
    pub nullable: bool,
    pub metadata: Map<Seq<char>, Seq<char>>,
}

/// One value in a column.
pub ghost enum Cell {
    Null,
    Boolean(bool),
    Int32(i32),
    Int64(i64),
    Text(Seq<char>),
    /// The items of a list value.
    Items(Seq<Cell>),
    /// The key and value pairs of a map value.
    Entries(Seq<(Seq<char>, Seq<char>)>),
    /// The children of a struct value.
    Record(Seq<Cell>),
}

/// An Arrow schema: its fields, and its custom metadata.
pub ghost struct SchemaModel {
    pub fields: Seq<FieldModel>,
    pub metadata: Map<Seq<char>, Seq<char>>,
}

/// A batch of rows: its schema, and for each field the cells of its column.
pub ghost struct Table {
    pub schema: SchemaModel,
    pub columns: Seq<Seq<Cell>>,
}

/// The end of one list or map slot in the builder's child values, and whether the slot is valid.
pub ghost struct Slot {
    pub end: nat,
    pub valid: bool,
}

/// The value, or the default where there is none.
pub open spec fn or_default<T>(value: Option<T>, default: T) -> T {
    match value {
        Some(value) => value,
        None => default,
    }
}

/// A field without custom metadata.
pub open spec fn plain_field(name: Seq<char>, data_type: TypeModel, nullable: bool) -> FieldModel {
    FieldModel { name, data_type, nullable, metadata: Map::empty() }
}

/// A schema without custom metadata.
pub open spec fn plain_schema(fields: Seq<FieldModel>) -> SchemaModel {
    SchemaModel { fields, metadata: Map::empty() }
}

/// The type of a map from text to text, for the given entry name and value nullability.
pub open spec fn text_map_type(entry: Seq<char>, value: FieldModel) -> TypeModel {
    TypeModel::MapOf(
        Box::new(
            plain_field(
                entry,
                TypeModel::StructOf(seq![plain_field("key"@, TypeModel::Utf8, false), value]),
                false,
            ),
        ),
        false,
    )
}

/// The type of a list of nullable text items.
pub open spec fn text_list_type() -> TypeModel {
    TypeModel::ListOf(Box::new(plain_field("item"@, TypeModel::Utf8, true)))
}

/// Text cells, one for each text.
pub open spec fn text_cells(texts: Seq<Seq<char>>) -> Seq<Cell> {
    texts.map_values(|t: Seq<char>| Cell::Text(t))
}

/// The texts that a sequence of strings holds.
pub open spec fn texts(strings: Seq<String>) -> Seq<Seq<char>> {
    strings.map_values(|s: String| s@)
}

/// How many bytes the texts take in UTF-8, all together.
pub open spec fn text_bytes(texts: Seq<Seq<char>>) -> nat
    decreases texts.len(),
{
    if texts.len() == 0 {
        0
    } else {
        text_bytes(texts.drop_last()) + encode_utf8(texts.last()).len()
    }
}

/// How many bytes the text cells take in UTF-8, all together.
pub open spec fn cell_bytes(cells: Seq<Cell>) -> nat
    decreases cells.len(),
{
    if cells.len() == 0 {
        0
    } else {
        cell_bytes(cells.drop_last()) + match cells.last() {
            Cell::Text(t) => encode_utf8(t).len(),
            _ => 0,
        }
    }
}

/// Where slot `i` starts in the child values.
pub open spec fn slot_start(slots: Seq<Slot>, i: int) -> nat {
    if i <= 0 {
        0
    } else {
        slots[i - 1].end
    }
}

/// The list cells that the slots cut out of the child values.
pub open spec fn list_cells(values: Seq<Seq<char>>, slots: Seq<Slot>) -> Seq<Cell> {
    Seq::new(
        slots.len(),
        |i: int|
            if slots[i].valid {
                Cell::Items(
                    text_cells(values.subrange(slot_start(slots, i) as int, slots[i].end as int)),
                )
            } else {
                Cell::Null
            },
    )
}

/// The map cells that the slots cut out of the child keys and values.
pub open spec fn map_cells(
    keys: Seq<Seq<char>>,
    values: Seq<Seq<char>>,
    slots: Seq<Slot>,
) -> Seq<Cell> {
    Seq::new(
        slots.len(),
        |i: int|
            if slots[i].valid {
                Cell::Entries(
                    keys.subrange(slot_start(slots, i) as int, slots[i].end as int).zip_with(
                        values.subrange(slot_start(slots, i) as int, slots[i].end as int),
                    ),
                )
            } else {
                Cell::Null
            },
    )
}

/// The struct cells made of the `len` rows of the columns.
pub open spec fn record_cells(columns: Seq<Seq<Cell>>, len: nat) -> Seq<Cell> {
    Seq::new(
        len,
        |row: int| Cell::Record(columns.map_values(|column: Seq<Cell>| column[row])),
    )
}

/// Columns of one row each.
pub open spec fn one_row_columns(cells: Seq<Cell>) -> Seq<Seq<Cell>> {
    cells.map_values(|cell: Cell| seq![cell])
}

/// The table of one row.
pub open spec fn one_row(schema: SchemaModel, cells: Seq<Cell>) -> Table {
    Table { schema, columns: one_row_columns(cells) }
}

/// Whether a type is one that this library builds, at every depth: a map's entries are structs of
/// two parts.
pub open spec fn known_type(ty: TypeModel) -> bool
    decreases ty,
{
    match ty {
        TypeModel::Other(_) => false,
        TypeModel::ListOf(item) => known_type(item.data_type),
        TypeModel::MapOf(entry, _) => known_type(entry.data_type) && (
        entry.data_type matches TypeModel::StructOf(parts) && parts.len() == 2),
        TypeModel::StructOf(fields) => forall|i: int|
            0 <= i < fields.len() ==> known_type(#[trigger] fields[i].data_type),
        _ => true,
    }
}

/// Whether a column holds no null.
pub open spec fn no_nulls(column: Seq<Cell>) -> bool {
    forall|i: int| 0 <= i < column.len() ==> #[trigger] column[i] !is Null
}

/// Whether columns of the given types can stand under the fields, with `len` rows each.
pub open spec fn columns_match(
    fields: Seq<FieldModel>,
    types: Seq<TypeModel>,
    columns: Seq<Seq<Cell>>,
    len: nat,
) -> bool {
    &&& fields.len() == columns.len()
    &&& types.len() == columns.len()
    &&& forall|i: int|
        0 <= i < columns.len() ==> {
            &&& #[trigger] types[i] == fields[i].data_type
            &&& columns[i].len() == len
            &&& fields[i].nullable || no_nulls(columns[i])
        }
}

/// Whether a cell is a value of the type. A null is a value of every type.
pub open spec fn cell_has_type(cell: Cell, ty: TypeModel) -> bool
    decreases cell, 0int,
{
    match (cell, ty) {
        (Cell::Null, _) => true,
        (Cell::Boolean(_), TypeModel::Boolean) => true,
        (Cell::Int32(_), TypeModel::Int32) => true,
        (Cell::Int64(_), TypeModel::Int64) => true,
        (Cell::Text(_), TypeModel::Utf8) => true,
        (Cell::Items(items), TypeModel::ListOf(item)) => forall|i: int|
            0 <= i < items.len() ==> cell_fits(#[trigger] items[i], *item),
        (Cell::Entries(_), TypeModel::MapOf(entry, _)) => {
            &&& entry.data_type matches TypeModel::StructOf(parts)
            &&& parts.len() == 2
            &&& parts[0].data_type == TypeModel::Utf8
            &&& parts[1].data_type == TypeModel::Utf8
        },
        (Cell::Record(cells), TypeModel::StructOf(fields)) => {
            &&& cells.len() == fields.len()
            &&& forall|i: int|
                0 <= i < cells.len() ==> cell_fits(#[trigger] cells[i], fields[i])
        },
        _ => false,
    }
}

/// Whether a cell may stand under the field: it has the field's type, and it is null only where
/// the field allows it.
pub open spec fn cell_fits(cell: Cell, field: FieldModel) -> bool
    decreases cell, 1int,
{
    &&& cell is Null ==> field.nullable
    &&& cell_has_type(cell, field.data_type)
}

/// Whether every cell of the table fits its field and every column has `rows` rows.
pub open spec fn conforms(table: Table, rows: nat) -> bool {
    &&& table.schema.fields.len() == table.columns.len()
    &&& forall|c: int|
        0 <= c < table.columns.len() ==> #[trigger] table.columns[c].len() == rows
    &&& forall|c: int, r: int|
        0 <= c < table.columns.len() && 0 <= r < rows ==> cell_fits(
            #[trigger] table.columns[c][r],
            table.schema.fields[c],
        )
}

} // verus!
