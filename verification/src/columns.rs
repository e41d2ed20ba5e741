//! Columns of one row.
use vstd::prelude::*;
use vstd::utf8::*;

use crate::arrow;
use crate::arrow::{Column, TextListBuilder, TextMapBuilder};
use crate::error::SimpleError;
use crate::model;
use crate::model::{Cell, Slot, TypeModel};

verus! {

/// The keys of key and value pairs.
pub open spec fn pair_keys(pairs: Seq<(String, String)>) -> Seq<Seq<char>> {
    pairs.map_values(|p: (String, String)| p.0@)
}

/// The values of key and value pairs.
pub open spec fn pair_values(pairs: Seq<(String, String)>) -> Seq<Seq<char>> {
    pairs.map_values(|p: (String, String)| p.1@)
}

/// The texts of key and value pairs.
pub open spec fn pair_texts(pairs: Seq<(String, String)>) -> Seq<(Seq<char>, Seq<char>)> {
    pairs.map_values(|p: (String, String)| (p.0@, p.1@))
}

/// The first texts take no more bytes than all of them.
pub proof fn lemma_text_bytes_prefix(texts: Seq<Seq<char>>, len: int)
    requires
        0 <= len <= texts.len(),
    ensures
        model::text_bytes(texts.take(len)) <= model::text_bytes(texts),
    decreases texts.len(),
{
    if len < texts.len() {
        assert(texts.drop_last().take(len) =~= texts.take(len));
        lemma_text_bytes_prefix(texts.drop_last(), len);
    } else {
        assert(texts.take(len) =~= texts);
    }
}

/// One more text adds its own bytes.
pub proof fn lemma_text_bytes_push(texts: Seq<Seq<char>>, text: Seq<char>)
    ensures
        model::text_bytes(texts.push(text)) == model::text_bytes(texts) + encode_utf8(text).len(),
{
    assert(texts.push(text).drop_last() =~= texts);
}

/// The first `i + 1` texts fit where all of them do.
proof fn lemma_next_text_fits(texts: Seq<Seq<char>>, i: int)
    requires
        0 <= i < texts.len(),
    ensures
        texts.take(i + 1) == texts.take(i).push(texts[i]),
        model::text_bytes(texts.take(i)) + encode_utf8(texts[i]).len() <= model::text_bytes(texts),
{
    assert(texts.take(i + 1) =~= texts.take(i).push(texts[i]));
    lemma_text_bytes_push(texts.take(i), texts[i]);
    lemma_text_bytes_prefix(texts, i + 1);
}

/// A text column of one string.
pub(crate) fn one_text_column(value: String) -> (column: Column)
    requires
        encode_utf8(value@).len() <= i32::MAX,
    ensures
        arrow::column_type(column) == TypeModel::Utf8,
        arrow::column_cells(column) == seq![Cell::Text(value@)],
{
    let values = vec![value];
    proof {
        let texts = model::texts(values@);
        assert(texts =~= Seq::<Seq<char>>::empty().push(value@));
        lemma_text_bytes_push(Seq::<Seq<char>>::empty(), value@);
        assert(model::text_cells(texts) =~= seq![Cell::Text(value@)]);
    }
    arrow::text_column(values)
}

/// A column of one 32-bit number.
pub(crate) fn one_int32_column(value: i32) -> (column: Column)
    ensures
        arrow::column_type(column) == TypeModel::Int32,
        arrow::column_cells(column) == seq![Cell::Int32(value)],
{
    let values = vec![value];
    assert(values@.map_values(|v: i32| Cell::Int32(v)) =~= seq![Cell::Int32(value)]);
    arrow::int32_column(values)
}

/// A column of one 64-bit number.
pub(crate) fn one_int64_column(value: i64) -> (column: Column)
    ensures
        arrow::column_type(column) == TypeModel::Int64,
        arrow::column_cells(column) == seq![Cell::Int64(value)],
{
    let values = vec![value];
    assert(values@.map_values(|v: i64| Cell::Int64(v)) =~= seq![Cell::Int64(value)]);
    arrow::int64_column(values)
}

/// A column of one truth value.
pub(crate) fn one_boolean_column(value: bool) -> (column: Column)
    ensures
        arrow::column_type(column) == TypeModel::Boolean,
        arrow::column_cells(column) == seq![Cell::Boolean(value)],
{
    let values = vec![value];
    assert(values@.map_values(|v: bool| Cell::Boolean(v)) =~= seq![Cell::Boolean(value)]);
    arrow::boolean_column(values)
}

/// A text column of one string, or of one null.
pub(crate) fn one_optional_text_column(value: &Option<String>) -> (column: Column)
    requires
        value matches Some(value) ==> encode_utf8(value@).len() <= i32::MAX,
    ensures
        arrow::column_type(column) == TypeModel::Utf8,
        arrow::column_cells(column) == match value {
            Some(value) => seq![Cell::Text(value@)],
            None => seq![Cell::Null],
        },
{
    let mut builder = arrow::new_text_builder();
    match value {
        Some(value) => {
            arrow::text_append_value(&mut builder, value.as_str());
        },
        None => {
            arrow::text_append_null(&mut builder);
        },
    }
    arrow::text_finish(builder)
}

/// A column of one 64-bit number, or of one null.
pub(crate) fn one_optional_int64_column(value: Option<i64>) -> (column: Column)
    ensures
        arrow::column_type(column) == TypeModel::Int64,
        arrow::column_cells(column) == match value {
            Some(value) => seq![Cell::Int64(value)],
            None => seq![Cell::Null],
        },
{
    let mut builder = arrow::new_long_builder();
    match value {
        Some(value) => {
            arrow::long_append_value(&mut builder, value);
        },
        None => {
            arrow::long_append_null(&mut builder);
        },
    }
    arrow::long_finish(builder)
}

/// Gives the strings to a list builder that has no values yet.
fn append_all(builder: &mut TextListBuilder, values: &Vec<String>)
    requires
        arrow::list_values(*old(builder)) == Seq::<Seq<char>>::empty(),
        model::text_bytes(model::texts(values@)) <= i32::MAX,
    ensures
        arrow::list_values(*final(builder)) == model::texts(values@),
        arrow::list_slots(*final(builder)) == arrow::list_slots(*old(builder)),
{
    let ghost all = model::texts(values@);
    let ghost slots = arrow::list_slots(*builder);
    assert(arrow::list_values(*builder) =~= all.take(0));
    for i in 0..values.len()
        invariant
            all == model::texts(values@),
            model::text_bytes(all) <= i32::MAX,
            arrow::list_values(*builder) == all.take(i as int),
            arrow::list_slots(*builder) == slots,
    {
        proof {
            lemma_next_text_fits(all, i as int);
        }
        arrow::list_append_value(builder, values[i].as_str());
    }
    assert(all.take(values@.len() as int) =~= all);
}

/// A column with one list, of the given strings.
pub fn non_null_string_list(values: &Vec<String>) -> (result: Result<Column, SimpleError>)
    requires
        values@.len() <= i32::MAX,
        model::text_bytes(model::texts(values@)) <= i32::MAX,
    ensures
        result is Ok,
        result matches Ok(column) ==> {
            &&& arrow::column_type(column) == model::text_list_type()
            &&& arrow::column_cells(column) == seq![
                Cell::Items(model::text_cells(model::texts(values@))),
            ]
        },
{
    let mut builder = arrow::new_list_builder();
    append_all(&mut builder, values);
    arrow::list_append(&mut builder, true);
    proof {
        lemma_one_list(model::texts(values@), true);
    }
    Ok(arrow::list_finish(builder))
}

/// A column with one list, of the given strings, or with one null.
pub fn nullable_string_list(values: Option<Vec<String>>) -> (result: Result<Column, SimpleError>)
    requires
        values matches Some(values) ==> {
            &&& values@.len() <= i32::MAX
            &&& model::text_bytes(model::texts(values@)) <= i32::MAX
        },
    ensures
        result is Ok,
        result matches Ok(column) ==> {
            &&& arrow::column_type(column) == model::text_list_type()
            &&& arrow::column_cells(column) == match values {
                Some(values) => seq![Cell::Items(model::text_cells(model::texts(values@)))],
                None => seq![Cell::Null],
            }
        },
{
    let mut builder = arrow::new_list_builder();
    match values {
        Some(values) => {
            append_all(&mut builder, &values);
            arrow::list_append(&mut builder, true);
            proof {
                lemma_one_list(model::texts(values@), true);
            }
        },
        None => {
            arrow::list_append(&mut builder, false);
            proof {
                lemma_one_list(Seq::<Seq<char>>::empty(), false);
            }
        },
    }
    Ok(arrow::list_finish(builder))
}

/// A single slot after all values holds all of them.
proof fn lemma_one_list(values: Seq<Seq<char>>, valid: bool)
    ensures
        model::list_cells(values, Seq::<Slot>::empty().push((Slot { end: values.len(), valid })))
            == if valid {
            seq![Cell::Items(model::text_cells(values))]
        } else {
            seq![Cell::Null]
        },
{
    assert(values.subrange(0, values.len() as int) =~= values);
    assert(model::list_cells(
        values,
        Seq::<Slot>::empty().push((Slot { end: values.len(), valid })),
    ) =~= if valid {
        seq![Cell::Items(model::text_cells(values))]
    } else {
        seq![Cell::Null]
    });
}

/// A builder of maps from text to text, with entries under the name `entries`.
pub fn string_map_builder(nullable_values: bool) -> (builder: TextMapBuilder)
    ensures
        arrow::map_keys(builder) == Seq::<Seq<char>>::empty(),
        arrow::map_values(builder) == Seq::<Seq<char>>::empty(),
        arrow::map_slots(builder) == Seq::<Slot>::empty(),
        arrow::map_names(builder) == seq!["entries"@, "key"@],
        arrow::map_value_field(builder) == model::plain_field(
            "value"@,
            TypeModel::Utf8,
            nullable_values,
        ),
{
    arrow::map_with_values_field(
        arrow::new_map_builder("entries", "key", "value"),
        arrow::new_field("value", arrow::utf8_type(), nullable_values),
    )
}

/// A single slot after all entries holds all of them.
proof fn lemma_one_map(pairs: Seq<(String, String)>)
    ensures
        model::map_cells(
            pair_keys(pairs),
            pair_values(pairs),
            Seq::<Slot>::empty().push((Slot { end: pairs.len(), valid: true })),
        ) == seq![Cell::Entries(pair_texts(pairs))],
{
    let keys = pair_keys(pairs);
    let values = pair_values(pairs);
    let n = pairs.len() as int;
    assert(keys.subrange(0, n) =~= keys);
    assert(values.subrange(0, n) =~= values);
    assert(keys.zip_with(values) =~= pair_texts(pairs));
    assert(model::map_cells(
        keys,
        values,
        Seq::<Slot>::empty().push((Slot { end: pairs.len(), valid: true })),
    ) =~= seq![Cell::Entries(pair_texts(pairs))]);
}

/// A column with one map, of the given pairs in their order.
pub fn string_map_array(pairs: &Vec<(String, String)>, nullable_values: bool) -> (result: Result<
    Column,
    SimpleError,
>)
    requires
        pairs@.len() <= i32::MAX,
        model::text_bytes(pair_keys(pairs@)) <= i32::MAX,
        model::text_bytes(pair_values(pairs@)) <= i32::MAX,
    ensures
        result is Ok,
        result matches Ok(column) ==> {
            &&& arrow::column_type(column) == model::text_map_type(
                "entries"@,
                model::plain_field("value"@, TypeModel::Utf8, nullable_values),
            )
            &&& arrow::column_cells(column) == seq![Cell::Entries(pair_texts(pairs@))]
        },
{
    let mut builder = string_map_builder(nullable_values);
    let ghost keys = pair_keys(pairs@);
    let ghost values = pair_values(pairs@);
    assert(arrow::map_keys(builder) =~= keys.take(0));
    assert(arrow::map_values(builder) =~= values.take(0));
    for i in 0..pairs.len()
        invariant
            keys == pair_keys(pairs@),
            values == pair_values(pairs@),
            model::text_bytes(keys) <= i32::MAX,
            model::text_bytes(values) <= i32::MAX,
            arrow::map_keys(builder) == keys.take(i as int),
            arrow::map_values(builder) == values.take(i as int),
            arrow::map_slots(builder) == Seq::<Slot>::empty(),
            arrow::map_names(builder) == seq!["entries"@, "key"@],
            arrow::map_value_field(builder) == model::plain_field(
                "value"@,
                TypeModel::Utf8,
                nullable_values,
            ),
    {
        proof {
            lemma_next_text_fits(keys, i as int);
            lemma_next_text_fits(values, i as int);
        }
        arrow::map_append_key(&mut builder, pairs[i].0.as_str());
        arrow::map_append_value(&mut builder, pairs[i].1.as_str());
    }
    assert(keys.take(pairs@.len() as int) =~= keys);
    assert(values.take(pairs@.len() as int) =~= values);
    let _ = arrow::map_append(&mut builder, true);
    proof {
        lemma_one_map(pairs@);
    }
    Ok(arrow::map_finish(builder))
}

/// A column with one empty map, with entries under the name `key_value` and nullable values: no
/// partition values.
pub fn no_partition_values() -> (result: Result<Column, SimpleError>)
    ensures
        result is Ok,
        result matches Ok(column) ==> {
            &&& arrow::column_type(column) == model::text_map_type(
                "key_value"@,
                model::plain_field("value"@, TypeModel::Utf8, true),
            )
            &&& arrow::column_cells(column) == seq![
                Cell::Entries(Seq::<(Seq<char>, Seq<char>)>::empty()),
            ]
        },
{
    let mut builder = arrow::new_map_builder("key_value", "key", "value");
    match arrow::map_append(&mut builder, true) {
        Ok(()) => {},
        Err(e) => {
            return Err(SimpleError::Arrow(e));
        },
    }
    proof {
        let pairs = Seq::<(String, String)>::empty();
        lemma_one_map(pairs);
        assert(pair_keys(pairs) =~= Seq::<Seq<char>>::empty());
        assert(pair_values(pairs) =~= Seq::<Seq<char>>::empty());
        assert(pair_texts(pairs) =~= Seq::<(Seq<char>, Seq<char>)>::empty());
    }
    Ok(arrow::map_finish(builder))
}

} // verus!
