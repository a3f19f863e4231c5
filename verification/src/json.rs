//! JSON text of canonical values, rows, and lists and maps of strings.

use crate::row::{row_models, with_column, CanonicalRow, RowModel};
use crate::text::{join, joined, push_signed_decimal, signed_decimal, texts};
use crate::value::{CanonicalValue, ValueModel};
use vstd::prelude::*;
use vstd::string::*;

verus! {

/// The numeral of one hexadecimal digit, in lower case.
pub open spec fn hex_digit(d: nat) -> char {
    if d < 10 {
        crate::text::digit(d)
    } else if d == 10 {
        'a'
    } else if d == 11 {
        'b'
    } else if d == 12 {
        'c'
    } else if d == 13 {
        'd'
    } else if d == 14 {
        'e'
    } else {
        'f'
    }
}

/// How one character stands in a JSON string literal: the quote and the
/// backslash behind a backslash; backspace, tab, line feed, form feed and
/// carriage return by their letters; any other control below the space as
/// `\u00` and two hexadecimal digits; every other character as it is.
pub open spec fn escaped(c: char) -> Seq<char> {
    let u = c as u32;
    if u == 0x22 {
        seq!['\\', '"']
    } else if u == 0x5C {
        seq!['\\', '\\']
    } else if u == 0x08 {
        seq!['\\', 'b']
    } else if u == 0x09 {
        seq!['\\', 't']
    } else if u == 0x0A {
        seq!['\\', 'n']
    } else if u == 0x0C {
        seq!['\\', 'f']
    } else if u == 0x0D {
        seq!['\\', 'r']
    } else if u < 0x20 {
        seq!['\\', 'u', '0', '0', hex_digit((u / 16) as nat), hex_digit((u % 16) as nat)]
    } else {
        seq![c]
    }
}

/// A text with each character as it stands in a JSON string literal.
pub open spec fn escaped_text(s: Seq<char>) -> Seq<char>
    decreases s.len(),
{
    if s.len() == 0 {
        Seq::empty()
    } else {
        escaped_text(s.drop_last()) + escaped(s.last())
    }
}

/// The JSON string literal for a text: its escaped characters between quotes.
pub open spec fn json_string_text(s: Seq<char>) -> Seq<char> {
    seq!['"'] + escaped_text(s) + seq!['"']
}

/// `serde_json::Value::to_string` on a JSON string: the compact writer puts
/// the text between quotes and escapes its characters by the table above.
#[verifier::external_body]
pub(crate) fn string_literal(s: &str) -> (r: String)
    ensures
        r@ == json_string_text(s@),
{
    serde_json::Value::String(s.to_string()).to_string()
}

/// The JSON text of a canonical value.
pub open spec fn value_json(v: ValueModel) -> Seq<char> {
    match v {
        ValueModel::Null => "null"@,
        ValueModel::Bool(b) => if b {
            "true"@
        } else {
            "false"@
        },
        ValueModel::Int(i) => signed_decimal(i as int),
        ValueModel::Float(t) => t,
        ValueModel::Text(t) => json_string_text(t),
    }
}

/// The text of one member of an object: the name's literal, a colon, the
/// value's text.
pub open spec fn member_text(literal: Seq<char>, value: Seq<char>) -> Seq<char> {
    literal + ":"@ + value
}

/// The JSON text of one member of an object, from its name and the text of
/// its value.
pub open spec fn member_json(name: Seq<char>, value: Seq<char>) -> Seq<char> {
    member_text(json_string_text(name), value)
}

/// The JSON text of an array whose items have the given texts.
pub open spec fn array_json(items: Seq<Seq<char>>) -> Seq<char> {
    "["@ + joined(items, ","@) + "]"@
}

/// The JSON text of an object whose members have the given texts.
pub open spec fn object_json(members: Seq<Seq<char>>) -> Seq<char> {
    "{"@ + joined(members, ","@) + "}"@
}

/// The JSON text of a row: an object with one member for each column, in the
/// row's order.
pub open spec fn row_json(row: RowModel) -> Seq<char> {
    object_json(row.map_values(|c: (Seq<char>, ValueModel)| member_json(c.0, value_json(c.1))))
}

/// The JSON text of a list of rows: an array of their objects.
pub open spec fn rows_json(rows: Seq<RowModel>) -> Seq<char> {
    array_json(rows.map_values(|r: RowModel| row_json(r)))
}

/// The JSON text of a list of strings: an array of string literals.
pub open spec fn strings_json(items: Seq<Seq<char>>) -> Seq<char> {
    array_json(items.map_values(|s: Seq<char>| json_string_text(s)))
}

/// The row that a list of fields makes: each field set in turn, so that a
/// name that occurs again takes the later value and no name occurs twice.
pub open spec fn fields_row(fields: Seq<(Seq<char>, Seq<char>)>) -> RowModel
    decreases fields.len(),
{
    if fields.len() == 0 {
        Seq::empty()
    } else {
        with_column(
            fields_row(fields.drop_last()),
            fields.last().0,
            ValueModel::Text(fields.last().1),
        )
    }
}

/// The JSON text of a list of fields: an object with one string member for
/// each field name.
pub open spec fn fields_json(fields: Seq<(Seq<char>, Seq<char>)>) -> Seq<char> {
    row_json(fields_row(fields))
}

/// Writes a canonical value as JSON.
pub fn render_value(v: &CanonicalValue) -> (r: String)
    ensures
        r@ == value_json(v@),
{
    match v {
        CanonicalValue::Null => String::from_str("null"),
        CanonicalValue::Bool(b) => if *b {
            String::from_str("true")
        } else {
            String::from_str("false")
        },
        CanonicalValue::Int(i) => {
            let mut out = String::new();
            push_signed_decimal(&mut out, *i);
            out
        },
        CanonicalValue::Float(t) => t.clone(),
        CanonicalValue::Text(t) => string_literal(t.as_str()),
    }
}

/// Writes one member of an object from the literal of its name and the text
/// of its value.
pub fn member(literal: &str, value: &str) -> (r: String)
    ensures
        r@ == member_text(literal@, value@),
{
    let mut out = String::from_str(literal);
    out.append(":");
    out.append(value);
    out
}

fn render_member(name: &str, value: &str) -> (r: String)
    ensures
        r@ == member_json(name@, value@),
{
    member(string_literal(name).as_str(), value)
}

/// Writes an array from the texts of its items.
pub fn array(items: &Vec<String>) -> (r: String)
    ensures
        r@ == array_json(texts(items@)),
{
    let mut out = String::from_str("[");
    out.append(join(items, ",").as_str());
    out.append("]");
    out
}

/// Writes an object from the texts of its members.
pub fn object(members: &Vec<String>) -> (r: String)
    ensures
        r@ == object_json(texts(members@)),
{
    let mut out = String::from_str("{");
    out.append(join(members, ",").as_str());
    out.append("}");
    out
}

/// Writes a row as a JSON object.
pub fn render_row(row: &CanonicalRow) -> (r: String)
    ensures
        r@ == row_json(row@),
{
    let mut members: Vec<String> = Vec::new();
    let mut i: usize = 0;
    while i < row.len()
        invariant
            i <= row@.len(),
            members.len() == i,
            forall|j: int|
                0 <= j < i ==> (#[trigger] members@[j])@ == member_json(
                    row@[j].0,
                    value_json(row@[j].1),
                ),
        decreases row@.len() - i,
    {
        let value = render_value(row.value(i));
        let member = render_member(row.name(i), value.as_str());
        members.push(member);
        i += 1;
    }
    assert(texts(members@) == row@.map_values(
        |c: (Seq<char>, ValueModel)| member_json(c.0, value_json(c.1)),
    ));
    object(&members)
}

/// Writes a list of rows as a JSON array of objects.
pub fn render_rows(rows: &Vec<CanonicalRow>) -> (r: String)
    ensures
        r@ == rows_json(row_models(rows@)),
{
    let mut items: Vec<String> = Vec::new();
    let mut i: usize = 0;
    while i < rows.len()
        invariant
            i <= rows.len(),
            items.len() == i,
            forall|j: int| 0 <= j < i ==> (#[trigger] items@[j])@ == row_json(rows@[j]@),
        decreases rows.len() - i,
    {
        items.push(render_row(&rows[i]));
        i += 1;
    }
    assert(texts(items@) == row_models(rows@).map_values(|r: RowModel| row_json(r)));
    array(&items)
}

/// Writes a list of strings as a JSON array.
pub fn render_strings(items: &Vec<String>) -> (r: String)
    ensures
        r@ == strings_json(texts(items@)),
{
    let mut literals: Vec<String> = Vec::new();
    let mut i: usize = 0;
    while i < items.len()
        invariant
            i <= items.len(),
            literals.len() == i,
            forall|j: int|
                0 <= j < i ==> (#[trigger] literals@[j])@ == json_string_text(items@[j]@),
        decreases items.len() - i,
    {
        literals.push(string_literal(items[i].as_str()));
        i += 1;
    }
    assert(texts(literals@) == texts(items@).map_values(|s: Seq<char>| json_string_text(s)));
    array(&literals)
}

/// The views of a list of fields.
pub open spec fn field_texts(fields: Seq<(String, String)>) -> Seq<(Seq<char>, Seq<char>)> {
    fields.map_values(|f: (String, String)| (f.0@, f.1@))
}

/// Writes a list of fields as a JSON object of strings.
pub fn render_fields(fields: &Vec<(String, String)>) -> (r: String)
    ensures
        r@ == fields_json(field_texts(fields@)),
{
    let mut row = CanonicalRow::new();
    let mut i: usize = 0;
    while i < fields.len()
        invariant
            i <= fields.len(),
            row@ == fields_row(field_texts(fields@).take(i as int)),
        decreases fields.len() - i,
    {
        assert(field_texts(fields@).take(i + 1).drop_last() == field_texts(fields@).take(i as int));
        row.insert(fields[i].0.clone(), CanonicalValue::Text(fields[i].1.clone()));
        i += 1;
    }
    assert(field_texts(fields@).take(i as int) == field_texts(fields@));
    render_row(&row)
}

} // verus!
