//! The two kinds of value that cross the bridge, and their mathematical
//! contents.

use crate::double::{is_double, number_bits, real_bits};
use vstd::prelude::*;

verus! {

/// A value as the database engine holds it.
///
/// `Real` carries the double inside the engine's own value, and `Text` the
/// bytes of the column as stored, which need not be valid UTF-8.
#[derive(Debug, PartialEq)]
pub enum NativeValue {
    Null,
    Integer(i64),
    Real(rusqlite::types::Value),
    Text(Vec<u8>),
    Blob(Vec<u8>),
}

/// The mathematical content of a [`NativeValue`]. A real is its bit pattern.
pub enum Native {
    Null,
    Integer(i64),
    Real(u64),
    Text(Seq<u8>),
    Blob(Seq<u8>),
}

impl View for NativeValue {
    type V = Native;

    open spec fn view(&self) -> Native {
        match self {
            NativeValue::Null => Native::Null,
            NativeValue::Integer(i) => Native::Integer(*i),
            NativeValue::Real(value) => Native::Real(real_bits(*value)),
            NativeValue::Text(t) => Native::Text(t@),
            NativeValue::Blob(b) => Native::Blob(b@),
        }
    }
}

/// A value as it travels to and from the host.
#[derive(Debug, PartialEq)]
pub enum DynamicValue {
    Null,
    Bool(bool),
    Number(serde_json::Number),
    String(String),
    Array(Vec<DynamicValue>),
    Object(Vec<Member>),
}

/// One entry of an object: a name and the value under it.
#[derive(Debug, PartialEq)]
pub struct Member {
    pub name: String,
    pub value: DynamicValue,
}

/// The mathematical content of a [`DynamicValue`]. A number is the bit
/// pattern of its double, and whether it is held as a double or as a whole
/// number.
pub enum Wire {
    Null,
    Bool(bool),
    Number(u64, bool),
    String(Seq<char>),
    Array(Seq<Wire>),
    Object(Seq<(Seq<char>, Wire)>),
}

impl DynamicValue {
    /// The content of this value: that of an array or an object is made of
    /// the contents of its elements, in order.
    pub open spec fn content(self) -> Wire
        decreases self,
    {
        match self {
            DynamicValue::Null => Wire::Null,
            DynamicValue::Bool(b) => Wire::Bool(b),
            DynamicValue::Number(number) => Wire::Number(number_bits(number), is_double(number)),
            DynamicValue::String(s) => Wire::String(s@),
            DynamicValue::Array(items) => Wire::Array(
                Seq::new(
                    items.len() as nat,
                    |i: int|
                        if 0 <= i < items.len() {
                            items[i].content()
                        } else {
                            Wire::Null
                        },
                ),
            ),
            DynamicValue::Object(members) => Wire::Object(
                Seq::new(
                    members.len() as nat,
                    |i: int|
                        if 0 <= i < members.len() {
                            (members[i].name@, members[i].value.content())
                        } else {
                            (Seq::empty(), Wire::Null)
                        },
                ),
            ),
        }
    }
}

impl View for DynamicValue {
    type V = Wire;

    open spec fn view(&self) -> Wire {
        self.content()
    }
}

/// The contents of a vector of wire values, element by element.
pub open spec fn wire_views(items: Seq<DynamicValue>) -> Seq<Wire> {
    Seq::new(items.len(), |i: int| items[i]@)
}

/// The contents of a vector of native values, element by element.
pub open spec fn native_views(items: Seq<NativeValue>) -> Seq<Native> {
    Seq::new(items.len(), |i: int| items[i]@)
}

/// An array's content is the contents of its elements.
pub proof fn lemma_array_view(items: Vec<DynamicValue>)
    ensures
        DynamicValue::Array(items)@ == Wire::Array(wire_views(items@)),
{
    let content = DynamicValue::Array(items)@->Array_0;
    assert(DynamicValue::Array(items)@ is Array);
    assert(content.len() == items.len());
    assert forall|i: int| 0 <= i < content.len() implies content[i] == wire_views(items@)[i] by {
        assert(items[i] == items@[i]);
    }
    assert(content =~= wire_views(items@));
}

} // verus!
