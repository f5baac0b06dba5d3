//! What holds of numbers written as text, of blank texts, and of JSON documents.
use vstd::prelude::*;

use crate::json::{Json, JsonNumber, JsonView, NumberView};

verus! {

/// The number that decimal digits stand for.
pub open spec fn decimal_value(digits: Seq<char>) -> int
    decreases digits.len(),
{
    if digits.len() == 0 {
        0
    } else {
        decimal_value(digits.drop_last()) * 10 + (digits.last() as int - '0' as int)
    }
}

/// A number in decimal is made of digits, does not begin with a zero unless it is zero, and reads
/// back as the number.
pub proof fn law_decimals_read_back(n: nat)
    ensures
        decimal_value(crate::text::decimal(n)) == n,
        crate::text::decimal(n).len() > 0,
        forall|i: int|
            0 <= i < crate::text::decimal(n).len() ==> '0' <= #[trigger] crate::text::decimal(n)[i]
                <= '9',
        n > 0 ==> crate::text::decimal(n)[0] != '0',
        n == 0 ==> crate::text::decimal(n).len() == 1,
    decreases n,
{
    let digits = crate::text::decimal(n);
    if n < 10 {
        assert(digits.drop_last() =~= Seq::empty());
        assert(decimal_value(digits.drop_last()) == 0);
    } else {
        law_decimals_read_back(n / 10);
        assert(digits.drop_last() =~= crate::text::decimal(n / 10));
        assert(digits.last() as int - '0' as int == n % 10);
        assert(digits[0] == crate::text::decimal(n / 10)[0]);
    }
}

/// An integer in decimal is its size in decimal, behind a minus sign if and only if it is negative.
pub proof fn law_integers_have_a_sign(n: int)
    ensures
        n >= 0 ==> crate::text::integer(n) == crate::text::decimal(n as nat),
        n < 0 ==> crate::text::integer(n).len() > 1 && crate::text::integer(n)[0] == '-'
            && crate::text::integer(n).skip(1) == crate::text::decimal((-n) as nat),
{
    if n < 0 {
        law_decimals_read_back((-n) as nat);
        assert(crate::text::integer(n).skip(1) =~= crate::text::decimal((-n) as nat));
    }
}

/// The number that a lower-case hexadecimal digit stands for.
pub open spec fn hex_value(c: char) -> int {
    if '0' <= c <= '9' {
        c as int - '0' as int
    } else {
        c as int - 'a' as int + 10
    }
}

/// Bytes in hexadecimal are two lower-case digits for each, which read back as the byte.
pub proof fn law_hex_reads_back(bytes: Seq<u8>, k: int)
    requires
        0 <= k < bytes.len(),
    ensures
        ({
            let text = crate::text::hex(bytes);
            let high = text[2 * k];
            let low = text[2 * k + 1];
            &&& text.len() == 2 * bytes.len()
            &&& '0' <= high <= '9' || 'a' <= high <= 'f'
            &&& '0' <= low <= '9' || 'a' <= low <= 'f'
            &&& hex_value(high) * 16 + hex_value(low) == bytes[k]
        }),
{
    assert((2 * k) / 2 == k && (2 * k + 1) / 2 == k);
    let high = bytes[k] as nat / 16;
    let low = bytes[k] as nat % 16;
    assert(high < 16 && low < 16);
    assert(crate::text::hex(bytes)[2 * k] == crate::text::digit(high));
    assert(crate::text::hex(bytes)[2 * k + 1] == crate::text::digit(low));
    assert(crate::text::digit(high) as nat == if high < 10 {
        48 + high
    } else {
        87 + high
    });
    assert(crate::text::digit(low) as nat == if low < 10 {
        48 + low
    } else {
        87 + low
    });
}

/// A numbered identifier is its prefix, a hyphen and the number in decimal.
pub proof fn law_identifiers_are_spelled_out(prefix: Seq<char>, n: nat)
    ensures
        crate::model::numbered(prefix, n) == prefix + "-"@ + crate::text::decimal(n),
{
}

/// Two texts put together are blank if and only if both are; no text is blank, and one character is
/// if it is white space.
pub proof fn law_blank_texts(front: Seq<char>, back: Seq<char>, c: char)
    ensures
        crate::text::is_blank(front + back) <==> crate::text::is_blank(front)
            && crate::text::is_blank(back),
        crate::text::is_blank(Seq::empty()),
        crate::text::is_blank(seq![c]) <==> crate::text::is_white(c),
{
    let whole = front + back;
    if crate::text::is_blank(whole) {
        assert forall|i: int| 0 <= i < front.len() implies crate::text::is_white(
            #[trigger] front[i],
        ) by {
            assert(whole[i] == front[i]);
        }
        assert forall|i: int| 0 <= i < back.len() implies crate::text::is_white(
            #[trigger] back[i],
        ) by {
            assert(whole[front.len() + i] == back[i]);
        }
    }
    assert(seq![c][0] == c);
}

/// Only an object has fields, and each is found under its own name and no other.
pub proof fn law_fields_are_found(
    fields: Map<Seq<char>, JsonView>,
    key: Seq<char>,
    other: JsonView,
)
    requires
        !(other is Object),
    ensures
        ({
            let object = JsonView::Object(fields);
            &&& fields.contains_key(key) ==> object.field(key) == Some(fields[key])
                && object.field_or_null(key) == fields[key] && object.has(key)
            &&& !fields.contains_key(key) ==> object.field(key) is None && object.field_or_null(
                key,
            ) == JsonView::Null && !object.has(key)
            &&& object.text_at(key) == if fields.contains_key(key) {
                match fields[key] {
                    JsonView::Text(text) => Some(text),
                    _ => None,
                }
            } else {
                None
            }
            &&& other.field(key) is None && !other.has(key)
            &&& other.field_or_null(key) == JsonView::Null && other.text_at(key) is None
        }),
{
}

/// A document reads as a text if it is one, and as a number if it is an integer that fits.
pub proof fn law_documents_are_read(text: Seq<char>, n: int, other: JsonView)
    ensures
        JsonView::Text(text).as_text() == Some(text),
        JsonView::Text(text).as_unsigned() is None,
        !(other is Text) ==> other.as_text() is None,
        !(other is Number) ==> other.as_unsigned() is None,
        ({
            let number = JsonView::Number(NumberView::Integer(n));
            &&& 0 <= n <= u64::MAX ==> number.as_unsigned() == Some(n as u64)
            &&& !(0 <= n <= u64::MAX) ==> number.as_unsigned() is None
        }),
        other matches JsonView::Number(number) ==> (number is Float
            ==> other.as_unsigned() is None),
{
}

/// One more field of an object stands for its value, in the place of an earlier field of its name,
/// and no other name is affected; an object without fields has none.
pub proof fn law_last_field_counts(
    fields: Vec<(String, Json)>,
    more: Vec<(String, Json)>,
    empty: Vec<(String, Json)>,
    name: String,
    value: Json,
    other: Seq<char>,
)
    requires
        more@ == fields@.push((name, value)),
        empty@.len() == 0,
        other != name@,
    ensures
        Json::Object(more)@.field(name@) == Some(value@),
        Json::Object(more)@.field(other) == Json::Object(fields)@.field(other),
        Json::Object(empty)@.field(other) is None,
{
    crate::json::lemma_fields_push(fields@, (name, value));
    assert(Json::Object(more)@ == JsonView::Object(crate::json::fields_map(more@)));
    assert(Json::Object(fields)@ == JsonView::Object(crate::json::fields_map(fields@)));
    assert(Json::Object(empty)@ == JsonView::Object(crate::json::fields_map(empty@)));
}

/// A list stands for its items one by one, and a document that is neither list nor object stands
/// for itself.
pub proof fn law_documents_stand_for_themselves(
    items: Vec<Json>,
    text: String,
    flag: bool,
    n: u64,
    m: i64,
)
    ensures
        Json::Array(items)@ matches JsonView::Array(list) && list.len() == items@.len()
            && forall|i: int| 0 <= i < items@.len() ==> #[trigger] list[i] == items@[i]@,
        Json::Text(text)@ == JsonView::Text(text@),
        Json::Bool(flag)@ == JsonView::Bool(flag),
        Json::Null@ == JsonView::Null,
        Json::Number(JsonNumber::Unsigned(n))@ == JsonView::Number(NumberView::Integer(n as int)),
        Json::Number(JsonNumber::Signed(m))@ == JsonView::Number(NumberView::Integer(m as int)),
{
    lemma_list_items(items@);
    assert(Json::Array(items)@ == JsonView::Array(crate::json::documents(items@)));
}

proof fn lemma_list_items(items: Seq<Json>)
    ensures
        crate::json::documents(items).len() == items.len(),
        forall|i: int|
            0 <= i < items.len() ==> #[trigger] crate::json::documents(items)[i] == items[i]@,
    decreases items.len(),
{
    if items.len() > 0 {
        lemma_list_items(items.drop_last());
    }
}

/// A number of `serde_json` stands for the unsigned integer that it can be read as, else for the
/// signed one, else for itself; an integer is displayed in decimal, anything else as `serde_json`
/// displays it.
pub proof fn law_numbers_are_read(number: serde_json::Number, n: int)
    ensures
        ({
            let value = JsonNumber::Other(number)@;
            match (
                crate::codec::number_unsigned(number),
                crate::codec::number_signed(number),
            ) {
                (Some(unsigned), _) => value == NumberView::Integer(unsigned as int),
                (None, Some(signed)) => value == NumberView::Integer(signed as int),
                (None, None) => value == NumberView::Float(number),
            }
        }),
        crate::codec::number_text(NumberView::Integer(n)) == crate::text::integer(n),
        crate::codec::number_text(NumberView::Float(number)) == crate::codec::number_display(
            number,
        ),
{
}

}
