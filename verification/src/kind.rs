//! The closed set of value kinds that a parameter or an output may take.

use crate::json::{FieldValue, FieldView};
use vstd::prelude::*;

verus! {

/// The largest value that the kind `Uint64` admits. It is the 32-bit maximum,
/// not the 64-bit one: widening the kind means changing this line only.
pub const UINT64_UPPER_BOUND: u64 = 4294967295;

/// The kind of value that a parameter or an output carries.
#[derive(Debug, Eq)]
pub enum ParameterType {
    Bool,
    Uint8,
    Uint16,
    Uint32,
    Uint64,
    Int8,
    Int16,
    Int32,
    Int64,
    Float,
    Double,
    String,
    /// One of the listed values, compared exactly.
    Enum(Vec<String>),
}

/// The mathematical value of a [`ParameterType`]: the allowed values of an
/// enumerated kind are a sequence of character sequences.
pub enum KindView {
    Bool,
    Uint8,
    Uint16,
    Uint32,
    Uint64,
    Int8,
    Int16,
    Int32,
    Int64,
    Float,
    Double,
    String,
    Enum(Seq<Seq<char>>),
}

/// The texts of a sequence of strings, in order.
pub open spec fn texts(strings: Seq<String>) -> Seq<Seq<char>> {
    Seq::new(strings.len(), |i: int| strings[i]@)
}

impl View for ParameterType {
    type V = KindView;

    open spec fn view(&self) -> KindView {
        match self {
            ParameterType::Bool => KindView::Bool,
            ParameterType::Uint8 => KindView::Uint8,
            ParameterType::Uint16 => KindView::Uint16,
            ParameterType::Uint32 => KindView::Uint32,
            ParameterType::Uint64 => KindView::Uint64,
            ParameterType::Int8 => KindView::Int8,
            ParameterType::Int16 => KindView::Int16,
            ParameterType::Int32 => KindView::Int32,
            ParameterType::Int64 => KindView::Int64,
            ParameterType::Float => KindView::Float,
            ParameterType::Double => KindView::Double,
            ParameterType::String => KindView::String,
            ParameterType::Enum(allowed) => KindView::Enum(texts(allowed@)),
        }
    }
}

/// The largest integer that an integer kind admits; `None` for the kinds that
/// are not integer kinds.
pub open spec fn upper_bound(kind: KindView) -> Option<int> {
    match kind {
        KindView::Uint8 => Some(u8::MAX as int),
        KindView::Uint16 => Some(u16::MAX as int),
        KindView::Uint32 => Some(u32::MAX as int),
        KindView::Uint64 => Some(UINT64_UPPER_BOUND as int),
        KindView::Int8 => Some(i8::MAX as int),
        KindView::Int16 => Some(i16::MAX as int),
        KindView::Int32 => Some(i32::MAX as int),
        KindView::Int64 => Some(i64::MAX as int),
        _ => None,
    }
}

/// Whether a kind is one of the unsigned integer kinds.
pub open spec fn is_unsigned(kind: KindView) -> bool {
    kind is Uint8 || kind is Uint16 || kind is Uint32 || kind is Uint64
}

/// Whether a value read from a document is compatible with a kind.
///
/// A boolean kind takes a boolean literal, the string kind a string literal,
/// a floating-point kind any numeric literal. An integer kind takes an
/// integer literal that does not exceed the kind's upper bound; an unsigned
/// kind also refuses a negative one, whereas a signed kind has no lower
/// bound. An enumerated kind takes a string literal that is one of its
/// allowed values.
pub open spec fn kind_accepts(kind: KindView, field: FieldView) -> bool {
    match kind {
        KindView::Bool => field is Bool,
        KindView::String => field is Text,
        KindView::Float | KindView::Double => field is Integer || field is Float,
        KindView::Enum(allowed) => field matches FieldView::Text(text) && allowed.contains(text),
        _ => field matches FieldView::Integer(i) && i <= upper_bound(kind)->0 && (is_unsigned(kind)
            ==> 0 <= i),
    }
}

/// Whether a kind is one of the signed integer kinds.
pub open spec fn is_signed(kind: KindView) -> bool {
    kind is Int8 || kind is Int16 || kind is Int32 || kind is Int64
}

/// A signed integer kind has no lower bound: with an integer it takes every
/// smaller one, however far below the width of the kind.
pub proof fn law_signed_kinds_have_no_lower_bound(kind: KindView, value: int, smaller: int)
    requires
        is_signed(kind),
        smaller <= value,
        kind_accepts(kind, FieldView::Integer(value)),
    ensures
        kind_accepts(kind, FieldView::Integer(smaller)),
{
}

/// The kind `Uint64` takes exactly what the kind `Uint32` takes.
pub proof fn law_uint64_is_capped(field: FieldView)
    ensures
        kind_accepts(KindView::Uint64, field) == kind_accepts(KindView::Uint32, field),
{
}

/// Whether `text` is one of the strings of `allowed`.
pub fn contains_text(allowed: &Vec<String>, text: &str) -> (found: bool)
    ensures
        found == texts(allowed@).contains(text@),
{
    let wanted = text.to_owned();
    let mut i: usize = 0;
    while i < allowed.len()
        invariant
            i <= allowed.len(),
            wanted@ == text@,
            forall|j: int| 0 <= j < i ==> allowed@[j]@ != text@,
        decreases allowed.len() - i,
    {
        if allowed[i] == wanted {
            assert(texts(allowed@)[i as int] == text@);
            return true;
        }
        i += 1;
    }
    false
}

impl ParameterType {
    /// Whether a value read from a document is compatible with this kind.
    pub fn accepts(&self, field: &FieldValue) -> (accepted: bool)
        ensures
            accepted == kind_accepts(self@, field@),
    {
        match self {
            ParameterType::Bool => matches!(field, FieldValue::Bool(_)),
            ParameterType::String => matches!(field, FieldValue::Text(_)),
            ParameterType::Float | ParameterType::Double => matches!(
                field,
                FieldValue::Unsigned(_) | FieldValue::Signed(_) | FieldValue::Float
            ),
            ParameterType::Enum(allowed) => match field {
                FieldValue::Text(text) => contains_text(allowed, text),
                _ => false,
            },
            ParameterType::Uint8 => at_most_unsigned(field, 255),
            ParameterType::Uint16 => at_most_unsigned(field, 65535),
            ParameterType::Uint32 => at_most_unsigned(field, 4294967295),
            ParameterType::Uint64 => at_most_unsigned(field, UINT64_UPPER_BOUND),
            ParameterType::Int8 => at_most_signed(field, 127),
            ParameterType::Int16 => at_most_signed(field, 32767),
            ParameterType::Int32 => at_most_signed(field, 2147483647),
            ParameterType::Int64 => at_most_signed(field, 9223372036854775807),
        }
    }
}

/// Whether a value is an integer literal between zero and `bound`.
pub fn at_most_unsigned(field: &FieldValue, bound: u64) -> (fits: bool)
    ensures
        fits == (field@ matches FieldView::Integer(i) && 0 <= i <= bound),
{
    match field {
        FieldValue::Unsigned(number) => *number <= bound,
        FieldValue::Signed(number) => 0 <= *number && *number as u64 <= bound,
        _ => false,
    }
}

/// Whether a value is an integer literal that is at most `bound`, however
/// small it is.
pub fn at_most_signed(field: &FieldValue, bound: i64) -> (fits: bool)
    ensures
        fits == (field@ matches FieldView::Integer(i) && i <= bound),
{
    match field {
        FieldValue::Unsigned(number) => 0 <= bound && *number <= bound as u64,
        FieldValue::Signed(number) => *number <= bound,
        _ => false,
    }
}

/// Whether two lists of strings hold the same texts in the same order.
pub fn same_texts(left: &Vec<String>, right: &Vec<String>) -> (same: bool)
    ensures
        same == (texts(left@) == texts(right@)),
{
    if left.len() != right.len() {
        assert(texts(left@).len() != texts(right@).len());
        return false;
    }
    let mut i: usize = 0;
    while i < left.len()
        invariant
            i <= left.len(),
            left.len() == right.len(),
            forall|j: int| 0 <= j < i ==> left@[j]@ == right@[j]@,
        decreases left.len() - i,
    {
        if left[i] != right[i] {
            assert(texts(left@)[i as int] != texts(right@)[i as int]);
            return false;
        }
        i += 1;
    }
    assert(texts(left@) =~= texts(right@));
    true
}

impl Clone for ParameterType {
    /// A copy with the same value.
    fn clone(&self) -> (copy: Self)
        ensures
            copy@ == self@,
    {
        match self {
            ParameterType::Bool => ParameterType::Bool,
            ParameterType::Uint8 => ParameterType::Uint8,
            ParameterType::Uint16 => ParameterType::Uint16,
            ParameterType::Uint32 => ParameterType::Uint32,
            ParameterType::Uint64 => ParameterType::Uint64,
            ParameterType::Int8 => ParameterType::Int8,
            ParameterType::Int16 => ParameterType::Int16,
            ParameterType::Int32 => ParameterType::Int32,
            ParameterType::Int64 => ParameterType::Int64,
            ParameterType::Float => ParameterType::Float,
            ParameterType::Double => ParameterType::Double,
            ParameterType::String => ParameterType::String,
            ParameterType::Enum(allowed) => {
                let copied = allowed.clone();
                assert(texts(copied@) =~= texts(allowed@));
                ParameterType::Enum(copied)
            },
        }
    }
}

impl PartialEq for ParameterType {
    fn eq(&self, other: &Self) -> (equal: bool) {
        match (self, other) {
            (ParameterType::Bool, ParameterType::Bool) => true,
            (ParameterType::Uint8, ParameterType::Uint8) => true,
            (ParameterType::Uint16, ParameterType::Uint16) => true,
            (ParameterType::Uint32, ParameterType::Uint32) => true,
            (ParameterType::Uint64, ParameterType::Uint64) => true,
            (ParameterType::Int8, ParameterType::Int8) => true,
            (ParameterType::Int16, ParameterType::Int16) => true,
            (ParameterType::Int32, ParameterType::Int32) => true,
            (ParameterType::Int64, ParameterType::Int64) => true,
            (ParameterType::Float, ParameterType::Float) => true,
            (ParameterType::Double, ParameterType::Double) => true,
            (ParameterType::String, ParameterType::String) => true,
            (ParameterType::Enum(left), ParameterType::Enum(right)) => same_texts(left, right),
            _ => false,
        }
    }
}

impl vstd::std_specs::cmp::PartialEqSpecImpl for ParameterType {
    open spec fn obeys_eq_spec() -> bool {
        true
    }

    open spec fn eq_spec(&self, other: &Self) -> bool {
        self@ == other@
    }
}

} // verus!
