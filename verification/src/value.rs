//! Dataflow records as plain data, and their printed form.

use crate::text::{join, joined, push_char, texts};
use vstd::prelude::*;
use vstd::string::*;

verus! {

broadcast use vstd::string::group_string_axioms;

/// A record of the dataflow as plain data.
///
/// The dataflow hands a sink loosely typed records. A `Value` keeps what a
/// sink reads of one: whether it is a byte string, a text string, a list or
/// a tuple, and what it holds. Anything else is kept as its printed form.
#[derive(Debug, PartialEq, Eq)]
pub enum Value {
    /// A byte string.
    Bytes(Vec<u8>),
    /// A text string.
    Text(String),
    /// A list of values.
    List(Vec<Value>),
    /// A tuple of values.
    Tuple(Vec<Value>),
    /// Any other object, kept as its printed form.
    Other(String),
}

/// The mathematical content of a [`Value`].
pub ghost enum Shape {
    Bytes(Seq<u8>),
    Text(Seq<char>),
    List(Seq<Shape>),
    Tuple(Seq<Shape>),
    Other(Seq<char>),
}

impl View for Value {
    type V = Shape;

    open spec fn view(&self) -> Shape
        decreases self,
    {
        match self {
            Value::Bytes(bytes) => Shape::Bytes(bytes@),
            Value::Text(text) => Shape::Text(text@),
            Value::List(items) => Shape::List(shapes(*items)),
            Value::Tuple(items) => Shape::Tuple(shapes(*items)),
            Value::Other(text) => Shape::Other(text@),
        }
    }
}

/// The shapes of the values of `items`, in order.
pub open spec fn shapes(items: Vec<Value>) -> Seq<Shape>
    decreases items,
{
    Seq::new(
        items.len() as nat,
        |i: int|
            if 0 <= i < items.len() {
                items[i]@
            } else {
                Shape::Other(Seq::empty())
            },
    )
}

/// The digit of `n` in base sixteen, in lower case.
pub open spec fn hex_digit(n: u8) -> char
    recommends
        n < 16,
{
    if n < 10 {
        (48 + n) as char
    } else {
        (87 + n) as char
    }
}

/// How one byte of a byte string is printed: itself where it is printable
/// ASCII, a backslash before a backslash or a quote, else `\x` and two hex
/// digits.
pub open spec fn byte_text(b: u8) -> Seq<char> {
    if b == 0x5c || b == 0x27 {
        seq!['\\', b as char]
    } else if 0x20 <= b < 0x7f {
        seq![b as char]
    } else {
        seq!['\\', 'x', hex_digit(b / 16), hex_digit(b % 16)]
    }
}

/// The printed bytes of a byte string, without its quotes.
pub open spec fn bytes_text(bytes: Seq<u8>) -> Seq<char>
    decreases bytes.len(),
{
    if bytes.len() == 0 {
        Seq::empty()
    } else {
        bytes_text(bytes.drop_last()) + byte_text(bytes.last())
    }
}

/// How one character of a text string is printed: itself, with a backslash
/// before a backslash or a quote.
pub open spec fn char_text(c: char) -> Seq<char> {
    if c == '\\' || c == '\'' {
        seq!['\\', c]
    } else {
        seq![c]
    }
}

/// The printed characters of a text string, without its quotes.
pub open spec fn chars_text(chars: Seq<char>) -> Seq<char>
    decreases chars.len(),
{
    if chars.len() == 0 {
        Seq::empty()
    } else {
        chars_text(chars.drop_last()) + char_text(chars.last())
    }
}

/// What stands between two items of a printed list or tuple.
pub open spec fn item_separator() -> Seq<char> {
    seq![',', ' ']
}

/// The printed form of a value: `b'..'` for bytes, `'..'` for text, `[..]`
/// for a list and `(..)` for a tuple, a tuple of one item with a comma
/// behind it; any other object as it was handed in.
pub open spec fn rendering(shape: Shape) -> Seq<char>
    decreases shape, 1int,
{
    match shape {
        Shape::Bytes(bytes) => seq!['b', '\''] + bytes_text(bytes) + seq!['\''],
        Shape::Text(chars) => seq!['\''] + chars_text(chars) + seq!['\''],
        Shape::List(items) => seq!['['] + joined(renderings(items), item_separator()) + seq![']'],
        Shape::Tuple(items) => seq!['('] + joined(renderings(items), item_separator()) + (if items.len()
            == 1 {
            seq![',']
        } else {
            Seq::empty()
        }) + seq![')'],
        Shape::Other(text) => text,
    }
}

/// The printed forms of `items`, in order.
pub open spec fn renderings(items: Seq<Shape>) -> Seq<Seq<char>>
    decreases items, 0int,
{
    Seq::new(
        items.len(),
        |i: int|
            if 0 <= i < items.len() {
                rendering(items[i])
            } else {
                Seq::empty()
            },
    )
}

fn hex_char(n: u8) -> (c: char)
    requires
        n < 16,
    ensures
        c == hex_digit(n),
{
    if n < 10 {
        (48 + n) as char
    } else {
        (87 + n) as char
    }
}

fn render_bytes(bytes: &Vec<u8>) -> (out: String)
    ensures
        out@ == rendering(Shape::Bytes(bytes@)),
{
    let mut out = String::new();
    push_char(&mut out, 'b');
    push_char(&mut out, '\'');
    let mut i: usize = 0;
    while i < bytes.len()
        invariant
            i <= bytes.len(),
            out@ == seq!['b', '\''] + bytes_text(bytes@.take(i as int)),
        decreases bytes.len() - i,
    {
        let b = bytes[i];
        proof {
            assert(bytes@.take(i + 1).drop_last() == bytes@.take(i as int));
        }
        if b == 0x5c || b == 0x27 {
            push_char(&mut out, '\\');
            push_char(&mut out, b as char);
        } else if 0x20 <= b && b < 0x7f {
            push_char(&mut out, b as char);
        } else {
            push_char(&mut out, '\\');
            push_char(&mut out, 'x');
            push_char(&mut out, hex_char(b / 16));
            push_char(&mut out, hex_char(b % 16));
        }
        i += 1;
    }
    proof {
        assert(bytes@.take(bytes.len() as int) == bytes@);
    }
    push_char(&mut out, '\'');
    out
}

fn render_text(text: &str) -> (out: String)
    ensures
        out@ == rendering(Shape::Text(text@)),
{
    let mut out = String::new();
    push_char(&mut out, '\'');
    for c in it: text.chars()
        invariant
            it.seq() == text@,
            out@ == seq!['\''] + chars_text(text@.take(it.index())),
    {
        proof {
            assert(text@.take(it.index() + 1).drop_last() == text@.take(it.index()));
        }
        if c == '\\' || c == '\'' {
            push_char(&mut out, '\\');
        }
        push_char(&mut out, c);
    }
    proof {
        assert(text@.take(text@.len() as int) == text@);
    }
    push_char(&mut out, '\'');
    out
}

fn render_items(items: &Vec<Value>) -> (parts: Vec<String>)
    ensures
        texts(parts@) == renderings(shapes(*items)),
    decreases items, 0int,
{
    let mut parts: Vec<String> = Vec::new();
    let mut i: usize = 0;
    while i < items.len()
        invariant
            i <= items.len(),
            parts@.len() == i,
            forall|k: int| 0 <= k < i ==> (#[trigger] parts@[k])@ == rendering(items[k]@),
        decreases items.len() - i,
    {
        let part = render(&items[i]);
        parts.push(part);
        i += 1;
    }
    proof {
        assert(texts(parts@) =~= renderings(shapes(*items)));
    }
    parts
}

/// Prints a value for a diagnostic.
pub fn render(value: &Value) -> (out: String)
    ensures
        out@ == rendering(value@),
    decreases value, 1int,
{
    match value {
        Value::Bytes(bytes) => render_bytes(bytes),
        Value::Text(text) => render_text(text.as_str()),
        Value::List(items) => {
            let parts = render_items(items);
            let mut out = String::new();
            push_char(&mut out, '[');
            out.append(join(parts.as_slice(), ", ").as_str());
            push_char(&mut out, ']');
            proof {
                reveal_strlit(", ");
                assert(", "@ == item_separator());
            }
            out
        },
        Value::Tuple(items) => {
            let parts = render_items(items);
            let mut out = String::new();
            push_char(&mut out, '(');
            out.append(join(parts.as_slice(), ", ").as_str());
            if items.len() == 1 {
                push_char(&mut out, ',');
            }
            push_char(&mut out, ')');
            proof {
                reveal_strlit(", ");
                assert(", "@ == item_separator());
            }
            out
        },
        Value::Other(text) => text.clone(),
    }
}

} // verus!
