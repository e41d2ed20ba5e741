//! Reading the JSON text of a schema back.
use vstd::prelude::*;

use crate::kernel;
use crate::kernel::{KernelField, PrimitiveModel};

verus! {

/// What follows a common beginning is the same where the whole is.
proof fn lemma_cancel(start: Seq<char>, x: Seq<char>, y: Seq<char>)
    requires
        start + x == start + y,
    ensures
        x == y,
{
    assert((start + x).skip(start.len() as int) =~= x);
    assert((start + y).skip(start.len() as int) =~= y);
}

/// Different numbers have different digits.
proof fn lemma_hex_digit(m: int, n: int)
    requires
        0 <= m < 16,
        0 <= n < 16,
        kernel::hex_digit(m) == kernel::hex_digit(n),
    ensures
        m == n,
{
    reveal_strlit("0123456789abcdef");
}

/// The first character of a string can be read from its JSON.
proof fn lemma_escaped_char(c: char, x: Seq<char>, d: char, y: Seq<char>)
    requires
        kernel::escaped_char(c) + x == kernel::escaped_char(d) + y,
    ensures
        c == d,
        x == y,
{
    let left = kernel::escaped_char(c);
    let right = kernel::escaped_char(d);
    let whole = left + x;
    assert(whole[0] == left[0] && whole[0] == right[0]);
    if left.len() > 1 {
        assert(right.len() > 1);
        assert(whole[1] == left[1] && whole[1] == right[1]);
        if left.len() == 6 {
            assert(right.len() == 6);
            assert(whole[4] == left[4] && whole[4] == right[4]);
            assert(whole[5] == left[5] && whole[5] == right[5]);
            lemma_hex_digit(c as int / 16, d as int / 16);
            lemma_hex_digit(c as int % 16, d as int % 16);
        }
    }
    assert(c == d);
    lemma_cancel(left, x, y);
}

/// No character of a string starts with a quote in JSON.
proof fn lemma_no_quote(text: Seq<char>, x: Seq<char>)
    requires
        text.len() > 0,
    ensures
        (kernel::escaped(text) + x).len() > 0,
        (kernel::escaped(text) + x)[0] != '"',
{
    assert((kernel::escaped(text) + x)[0] == kernel::escaped_char(text[0])[0]);
}

/// A string can be read from its JSON up to the quote that ends it.
proof fn lemma_escaped(a: Seq<char>, x: Seq<char>, b: Seq<char>, y: Seq<char>)
    requires
        kernel::escaped(a) + x == kernel::escaped(b) + y,
        x.len() > 0 && x[0] == '"',
        y.len() > 0 && y[0] == '"',
    ensures
        a == b,
        x == y,
    decreases a.len(),
{
    if a.len() == 0 || b.len() == 0 {
        if a.len() > 0 {
            lemma_no_quote(a, x);
            assert(kernel::escaped(b) + y =~= y);
        }
        if b.len() > 0 {
            lemma_no_quote(b, y);
            assert(kernel::escaped(a) + x =~= x);
        }
        assert(a =~= b);
        lemma_cancel(kernel::escaped(a), x, y);
    } else {
        let rest_a = kernel::escaped(a.drop_first()) + x;
        let rest_b = kernel::escaped(b.drop_first()) + y;
        assert(kernel::escaped(a) + x =~= kernel::escaped_char(a[0]) + rest_a);
        assert(kernel::escaped(b) + y =~= kernel::escaped_char(b[0]) + rest_b);
        lemma_escaped_char(a[0], rest_a, b[0], rest_b);
        lemma_escaped(a.drop_first(), x, b.drop_first(), y);
        assert(a =~= seq![a[0]] + a.drop_first());
        assert(b =~= seq![b[0]] + b.drop_first());
    }
}

/// A type can be read from its name.
proof fn lemma_primitive(p: PrimitiveModel, x: Seq<char>, q: PrimitiveModel, y: Seq<char>)
    requires
        p !is Other,
        q !is Other,
        kernel::primitive_name(p) + x == kernel::primitive_name(q) + y,
    ensures
        p == q,
        x == y,
{
    reveal_strlit("boolean");
    reveal_strlit("integer");
    reveal_strlit("long");
    reveal_strlit("double");
    reveal_strlit("string");
    let whole = kernel::primitive_name(p) + x;
    assert(whole[0] == kernel::primitive_name(p)[0] && whole[0] == kernel::primitive_name(q)[0]);
    lemma_cancel(kernel::primitive_name(p), x, y);
}

/// A truth value can be read from its JSON.
proof fn lemma_boolean(p: bool, x: Seq<char>, q: bool, y: Seq<char>)
    requires
        kernel::boolean_json(p) + x == kernel::boolean_json(q) + y,
    ensures
        p == q,
        x == y,
{
    reveal_strlit("true");
    reveal_strlit("false");
    let whole = kernel::boolean_json(p) + x;
    assert(whole[0] == kernel::boolean_json(p)[0] && whole[0] == kernel::boolean_json(q)[0]);
    lemma_cancel(kernel::boolean_json(p), x, y);
}

/// What follows the type in a field's JSON, with more text behind it.
spec fn after_type(field: KernelField, x: Seq<char>) -> Seq<char> {
    "\",\"nullable\":"@ + (kernel::boolean_json(field.nullable) + (",\"metadata\":{}}"@ + x))
}

/// What follows the name in a field's JSON, with more text behind it.
spec fn after_name(field: KernelField, x: Seq<char>) -> Seq<char> {
    "\",\"type\":\""@ + (kernel::primitive_name(field.data_type->Primitive_0) + after_type(
        field,
        x,
    ))
}

/// A field's JSON, taken apart.
proof fn lemma_field_parts(field: KernelField, x: Seq<char>)
    ensures
        kernel::field_json(field) + x == "{\"name\":\""@ + (kernel::escaped(field.name)
            + after_name(field, x)),
        after_name(field, x).len() > 0,
        after_name(field, x)[0] == '"',
{
    reveal_strlit("\",\"type\":\"");
    assert(kernel::field_json(field) + x =~= "{\"name\":\""@ + (kernel::escaped(field.name)
        + after_name(field, x)));
}

/// A flat field can be read from its JSON.
proof fn lemma_field(a: KernelField, x: Seq<char>, b: KernelField, y: Seq<char>)
    requires
        kernel::flat_field(a),
        kernel::flat_field(b),
        kernel::field_json(a) + x == kernel::field_json(b) + y,
    ensures
        a == b,
        x == y,
{
    lemma_field_parts(a, x);
    lemma_field_parts(b, y);
    lemma_cancel(
        "{\"name\":\""@,
        kernel::escaped(a.name) + after_name(a, x),
        kernel::escaped(b.name) + after_name(b, y),
    );
    lemma_escaped(a.name, after_name(a, x), b.name, after_name(b, y));
    let type_a = a.data_type->Primitive_0;
    let type_b = b.data_type->Primitive_0;
    lemma_cancel(
        "\",\"type\":\""@,
        kernel::primitive_name(type_a) + after_type(a, x),
        kernel::primitive_name(type_b) + after_type(b, y),
    );
    lemma_primitive(type_a, after_type(a, x), type_b, after_type(b, y));
    lemma_cancel(
        "\",\"nullable\":"@,
        kernel::boolean_json(a.nullable) + (",\"metadata\":{}}"@ + x),
        kernel::boolean_json(b.nullable) + (",\"metadata\":{}}"@ + y),
    );
    lemma_boolean(
        a.nullable,
        ",\"metadata\":{}}"@ + x,
        b.nullable,
        ",\"metadata\":{}}"@ + y,
    );
    lemma_cancel(",\"metadata\":{}}"@, x, y);
}

/// What follows the first field in the JSON of a list of fields, with more text behind it.
spec fn after_field(fields: Seq<KernelField>, x: Seq<char>) -> Seq<char> {
    if fields.len() == 1 {
        x
    } else {
        ","@ + (kernel::fields_json(fields.drop_first()) + x)
    }
}

/// The JSON of a list of fields, taken apart.
proof fn lemma_fields_parts(fields: Seq<KernelField>, x: Seq<char>)
    requires
        fields.len() > 0,
    ensures
        kernel::fields_json(fields) + x == kernel::field_json(fields[0]) + after_field(fields, x),
        (kernel::fields_json(fields) + x).len() > 0,
        (kernel::fields_json(fields) + x)[0] == '{',
        fields.len() > 1 ==> after_field(fields, x)[0] == ',',
{
    reveal_strlit(",");
    reveal_strlit("{\"name\":\"");
    assert(kernel::fields_json(fields) + x =~= kernel::field_json(fields[0]) + after_field(
        fields,
        x,
    ));
}

/// Flat fields can be read from their JSON up to the bracket that ends the list.
proof fn lemma_fields(a: Seq<KernelField>, x: Seq<char>, b: Seq<KernelField>, y: Seq<char>)
    requires
        kernel::flat_fields(a),
        kernel::flat_fields(b),
        kernel::fields_json(a) + x == kernel::fields_json(b) + y,
        x.len() > 0 && x[0] == ']',
        y.len() > 0 && y[0] == ']',
    ensures
        a == b,
    decreases a.len(),
{
    if a.len() == 0 || b.len() == 0 {
        if a.len() > 0 {
            lemma_fields_parts(a, x);
            assert(kernel::fields_json(b) + y =~= y);
        }
        if b.len() > 0 {
            lemma_fields_parts(b, y);
            assert(kernel::fields_json(a) + x =~= x);
        }
        assert(a =~= b);
    } else {
        lemma_fields_parts(a, x);
        lemma_fields_parts(b, y);
        lemma_field(a[0], after_field(a, x), b[0], after_field(b, y));
        assert(a =~= seq![a[0]] + a.drop_first());
        assert(b =~= seq![b[0]] + b.drop_first());
        if a.len() > 1 && b.len() > 1 {
            let rest_a = kernel::fields_json(a.drop_first()) + x;
            let rest_b = kernel::fields_json(b.drop_first()) + y;
            lemma_cancel(","@, rest_a, rest_b);
            lemma_fields(a.drop_first(), x, b.drop_first(), y);
        } else {
            assert(a.len() == 1 && b.len() == 1);
            assert(a.drop_first() =~= b.drop_first());
        }
    }
}

/// The fields of a schema can be read from its JSON text.
pub proof fn lemma_schema_json(a: Seq<KernelField>, b: Seq<KernelField>)
    requires
        kernel::flat_fields(a),
        kernel::flat_fields(b),
        kernel::schema_json(a) == kernel::schema_json(b),
    ensures
        a == b,
{
    reveal_strlit("]}");
    lemma_cancel(
        "{\"type\":\"struct\",\"fields\":["@,
        kernel::fields_json(a) + "]}"@,
        kernel::fields_json(b) + "]}"@,
    );
    lemma_fields(a, "]}"@, b, "]}"@);
}

} // verus!
