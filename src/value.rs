use vstd::prelude::*;

verus! {

// Type codes of the telemetry service's value union.
pub const WIRE_UNASSIGNED: u32 = 0x0;

pub const WIRE_BOOLEAN: u32 = 0x1;

pub const WIRE_DOUBLE: u32 = 0x2;

pub const WIRE_STRING: u32 = 0x4;

pub const WIRE_RAW: u32 = 0x8;

pub const WIRE_BOOLEAN_ARRAY: u32 = 0x10;

pub const WIRE_DOUBLE_ARRAY: u32 = 0x20;

pub const WIRE_STRING_ARRAY: u32 = 0x40;

pub const WIRE_INTEGER: u32 = 0x100;

pub const WIRE_FLOAT: u32 = 0x200;

pub const WIRE_INTEGER_ARRAY: u32 = 0x400;

pub const WIRE_FLOAT_ARRAY: u32 = 0x800;

/// IEEE-754 bits of the double `-1.0`: the default handed to a scalar double
/// query, and the reply that means "no value".
pub const ABSENT_DOUBLE_BITS: u64 = 0xBFF0_0000_0000_0000;

/// A decoded topic value.
///
/// Floating-point payloads are kept as their IEEE-754 bit patterns
/// (`f64::to_bits` / `f32::to_bits`), so a value is copied without any
/// rounding and compared bit for bit.
#[derive(Debug, PartialEq)]
pub enum NTValueType {
    Unknown,
    Boolean(bool),
    BooleanArray(Vec<bool>),
    Double(u64),
    DoubleArray(Vec<u64>),
    Float(u32),
    FloatArray(Vec<u32>),
    Integer(i64),
    IntegerArray(Vec<i64>),
    String(String),
    StringArray(Vec<String>),
}

/// Mathematical model of a `NTValueType`.
pub ghost enum ValueView {
    Unknown,
    Boolean(bool),
    BooleanArray(Seq<bool>),
    Double(u64),
    DoubleArray(Seq<u64>),
    Float(u32),
    FloatArray(Seq<u32>),
    Integer(i64),
    IntegerArray(Seq<i64>),
    String(Seq<char>),
    StringArray(Seq<Seq<char>>),
}

pub open spec fn texts_view(v: Seq<String>) -> Seq<Seq<char>> {
    v.map_values(|s: String| s@)
}

impl View for NTValueType {
    type V = ValueView;

    open spec fn view(&self) -> ValueView {
        match self {
            NTValueType::Unknown => ValueView::Unknown,
            NTValueType::Boolean(b) => ValueView::Boolean(*b),
            NTValueType::BooleanArray(a) => ValueView::BooleanArray(a@),
            NTValueType::Double(x) => ValueView::Double(*x),
            NTValueType::DoubleArray(a) => ValueView::DoubleArray(a@),
            NTValueType::Float(x) => ValueView::Float(*x),
            NTValueType::FloatArray(a) => ValueView::FloatArray(a@),
            NTValueType::Integer(x) => ValueView::Integer(*x),
            NTValueType::IntegerArray(a) => ValueView::IntegerArray(a@),
            NTValueType::String(s) => ValueView::String(s@),
            NTValueType::StringArray(a) => ValueView::StringArray(texts_view(a@)),
        }
    }
}

pub open spec fn opt_view(v: Option<NTValueType>) -> Option<ValueView> {
    match v {
        Some(x) => Some(x@),
        None => None,
    }
}

impl NTValueType {
    /// An owned copy with the same variant and payload.
    pub fn copy(&self) -> (r: NTValueType)
        ensures
            r@ == self@,
    {
        match self {
            NTValueType::Unknown => NTValueType::Unknown,
            NTValueType::Boolean(b) => NTValueType::Boolean(*b),
            NTValueType::BooleanArray(a) => NTValueType::BooleanArray(a.clone()),
            NTValueType::Double(x) => NTValueType::Double(*x),
            NTValueType::DoubleArray(a) => NTValueType::DoubleArray(a.clone()),
            NTValueType::Float(x) => NTValueType::Float(*x),
            NTValueType::FloatArray(a) => NTValueType::FloatArray(a.clone()),
            NTValueType::Integer(x) => NTValueType::Integer(*x),
            NTValueType::IntegerArray(a) => NTValueType::IntegerArray(a.clone()),
            NTValueType::String(s) => NTValueType::String(s.clone()),
            NTValueType::StringArray(a) => {
                let c = a.clone();
                assert(texts_view(c@) =~= texts_view(a@));
                NTValueType::StringArray(c)
            },
        }
    }
}

/// One member of the service's value union, copied out into owned memory.
///
/// Which member is meaningful is told by the wire type code that travels
/// beside it; `decode` checks that the two agree.
#[derive(Debug)]
pub enum WirePayload {
    Empty,
    Flag(i32),
    Int(i64),
    Bits32(u32),
    Bits64(u64),
    Text(String),
    FlagArray(Vec<i32>),
    IntArray(Vec<i64>),
    Bits32Array(Vec<u32>),
    Bits64Array(Vec<u64>),
    TextArray(Vec<String>),
}

/// The service encodes `true` as `1`.
pub open spec fn flag_value(f: i32) -> bool {
    f == 1
}

pub open spec fn flags_view(a: Seq<i32>) -> Seq<bool> {
    a.map_values(|f: i32| flag_value(f))
}

/// An array present on the wire with no element carries no value.
pub open spec fn present_array(len: nat, v: ValueView) -> Option<ValueView> {
    if len == 0 {
        None
    } else {
        Some(v)
    }
}

/// The type codes that decode to a value of their own type.
pub open spec fn known_wire_type(wire_type: u32) -> bool {
    ||| wire_type == WIRE_BOOLEAN
    ||| wire_type == WIRE_DOUBLE
    ||| wire_type == WIRE_FLOAT
    ||| wire_type == WIRE_INTEGER
    ||| wire_type == WIRE_STRING
    ||| wire_type == WIRE_BOOLEAN_ARRAY
    ||| wire_type == WIRE_DOUBLE_ARRAY
    ||| wire_type == WIRE_FLOAT_ARRAY
    ||| wire_type == WIRE_INTEGER_ARRAY
    ||| wire_type == WIRE_STRING_ARRAY
}

/// What a wire value decodes to: `None` where it carries no value (an empty
/// array), `Unknown` where the type code is not one of the known ones or the
/// payload does not match it.
pub open spec fn decoded(wire_type: u32, payload: WirePayload) -> Option<ValueView> {
    match payload {
        WirePayload::Flag(f) if wire_type == WIRE_BOOLEAN => Some(ValueView::Boolean(flag_value(f))),
        WirePayload::Bits64(x) if wire_type == WIRE_DOUBLE => Some(ValueView::Double(x)),
        WirePayload::Bits32(x) if wire_type == WIRE_FLOAT => Some(ValueView::Float(x)),
        WirePayload::Int(x) if wire_type == WIRE_INTEGER => Some(ValueView::Integer(x)),
        WirePayload::Text(s) if wire_type == WIRE_STRING => Some(ValueView::String(s@)),
        WirePayload::FlagArray(a) if wire_type == WIRE_BOOLEAN_ARRAY => present_array(
            a@.len(),
            ValueView::BooleanArray(flags_view(a@)),
        ),
        WirePayload::Bits64Array(a) if wire_type == WIRE_DOUBLE_ARRAY => present_array(
            a@.len(),
            ValueView::DoubleArray(a@),
        ),
        WirePayload::Bits32Array(a) if wire_type == WIRE_FLOAT_ARRAY => present_array(
            a@.len(),
            ValueView::FloatArray(a@),
        ),
        WirePayload::IntArray(a) if wire_type == WIRE_INTEGER_ARRAY => present_array(
            a@.len(),
            ValueView::IntegerArray(a@),
        ),
        WirePayload::TextArray(a) if wire_type == WIRE_STRING_ARRAY => present_array(
            a@.len(),
            ValueView::StringArray(texts_view(a@)),
        ),
        _ => Some(ValueView::Unknown),
    }
}

fn decode_flags(a: &Vec<i32>) -> (r: Vec<bool>)
    ensures
        r@ == flags_view(a@),
{
    let mut out: Vec<bool> = Vec::new();
    let mut i: usize = 0;
    while i < a.len()
        invariant
            i <= a@.len(),
            out@.len() == i,
            forall|j: int| 0 <= j < i ==> out@[j] == flag_value(#[trigger] a@[j]),
        decreases a@.len() - i,
    {
        out.push(a[i] == 1);
        i += 1;
    }
    assert(out@ =~= flags_view(a@));
    out
}

/// Decodes a wire value. Total: an unknown type code, or a payload that does
/// not match its code, gives `Some(Unknown)`; an empty array gives `None`.
pub fn decode(wire_type: u32, payload: &WirePayload) -> (r: Option<NTValueType>)
    ensures
        opt_view(r) == decoded(wire_type, *payload),
        !known_wire_type(wire_type) ==> opt_view(r) == Some(ValueView::Unknown),
{
    match payload {
        WirePayload::Flag(f) if wire_type == WIRE_BOOLEAN => Some(NTValueType::Boolean(*f == 1)),
        WirePayload::Bits64(x) if wire_type == WIRE_DOUBLE => Some(NTValueType::Double(*x)),
        WirePayload::Bits32(x) if wire_type == WIRE_FLOAT => Some(NTValueType::Float(*x)),
        WirePayload::Int(x) if wire_type == WIRE_INTEGER => Some(NTValueType::Integer(*x)),
        WirePayload::Text(s) if wire_type == WIRE_STRING => Some(NTValueType::String(s.clone())),
        WirePayload::FlagArray(a) if wire_type == WIRE_BOOLEAN_ARRAY => {
            if a.len() == 0 {
                None
            } else {
                Some(NTValueType::BooleanArray(decode_flags(a)))
            }
        },
        WirePayload::Bits64Array(a) if wire_type == WIRE_DOUBLE_ARRAY => {
            if a.len() == 0 {
                None
            } else {
                Some(NTValueType::DoubleArray(a.clone()))
            }
        },
        WirePayload::Bits32Array(a) if wire_type == WIRE_FLOAT_ARRAY => {
            if a.len() == 0 {
                None
            } else {
                Some(NTValueType::FloatArray(a.clone()))
            }
        },
        WirePayload::IntArray(a) if wire_type == WIRE_INTEGER_ARRAY => {
            if a.len() == 0 {
                None
            } else {
                Some(NTValueType::IntegerArray(a.clone()))
            }
        },
        WirePayload::TextArray(a) if wire_type == WIRE_STRING_ARRAY => {
            if a.len() == 0 {
                None
            } else {
                let c = a.clone();
                assert(texts_view(c@) =~= texts_view(a@));
                Some(NTValueType::StringArray(c))
            }
        },
        _ => Some(NTValueType::Unknown),
    }
}

} // verus!
