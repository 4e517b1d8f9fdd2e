//! Decoded field values and the decoding of a field's bytes.
use vstd::prelude::*;
use vstd::bytes::{
    spec_u16_from_le_bytes, spec_u32_from_le_bytes, spec_u64_from_le_bytes, u16_from_le_bytes,
    u32_from_le_bytes, u64_from_le_bytes,
};
use vstd::slice::slice_subrange;
use crate::event::Guid;
use crate::handler::PropHandler;
use crate::tdh_types::{PropertyInfo, TdhInType, TdhOutType};
use crate::text::{ansi_text, decimal, decode_ansi, decode_utf16, push_decimal, string_from_chars, utf16_text};

verus! {

/// A calendar time already split into its parts.
#[derive(Clone, Copy, Debug, PartialEq, Eq, Structural)]
pub struct SystemTime {
    pub year: u16,
    pub month: u16,
    pub day_of_week: u16,
    pub day: u16,
    pub hour: u16,
    pub minute: u16,
    pub second: u16,
    pub milliseconds: u16,
}

/// The in-memory representation a caller asks a field for.
#[derive(Clone, Copy, Debug, PartialEq, Eq, Structural)]
pub enum Repr {
    Null,
    Bool,
    I8,
    U8,
    I16,
    U16,
    I32,
    U32,
    I64,
    U64,
    F32,
    F64,
    Text,
    Binary,
    FileTime,
    SystemTime,
    Guid,
    IpAddr,
    ArrayI8,
    ArrayU8,
    ArrayI16,
    ArrayU16,
    ArrayI32,
    ArrayU32,
    ArrayI64,
    ArrayU64,
}

/// A decoded field value. Floating-point values are kept as their IEEE-754 bits.
#[derive(Clone, Debug)]
pub enum FieldValue {
    Null,
    Bool(bool),
    I8(i8),
    U8(u8),
    I16(i16),
    U16(u16),
    I32(i32),
    U32(u32),
    I64(i64),
    U64(u64),
    F32(u32),
    F64(u64),
    Text(String),
    Binary(Vec<u8>),
    /// 100 ns ticks since 1601-01-01.
    FileTime(u64),
    SystemTime(SystemTime),
    Guid(Guid),
    /// The address bytes in network order: 4 for IPv4, 16 for IPv6.
    IpAddr(Vec<u8>),
    ArrayI8(Vec<i8>),
    ArrayU8(Vec<u8>),
    ArrayI16(Vec<i16>),
    ArrayU16(Vec<u16>),
    ArrayI32(Vec<i32>),
    ArrayU32(Vec<u32>),
    ArrayI64(Vec<i64>),
    ArrayU64(Vec<u64>),
}

impl FieldValue {
    pub open spec fn spec_repr(&self) -> Repr {
        match self {
            FieldValue::Null => Repr::Null,
            FieldValue::Bool(_) => Repr::Bool,
            FieldValue::I8(_) => Repr::I8,
            FieldValue::U8(_) => Repr::U8,
            FieldValue::I16(_) => Repr::I16,
            FieldValue::U16(_) => Repr::U16,
            FieldValue::I32(_) => Repr::I32,
            FieldValue::U32(_) => Repr::U32,
            FieldValue::I64(_) => Repr::I64,
            FieldValue::U64(_) => Repr::U64,
            FieldValue::F32(_) => Repr::F32,
            FieldValue::F64(_) => Repr::F64,
            FieldValue::Text(_) => Repr::Text,
            FieldValue::Binary(_) => Repr::Binary,
            FieldValue::FileTime(_) => Repr::FileTime,
            FieldValue::SystemTime(_) => Repr::SystemTime,
            FieldValue::Guid(_) => Repr::Guid,
            FieldValue::IpAddr(_) => Repr::IpAddr,
            FieldValue::ArrayI8(_) => Repr::ArrayI8,
            FieldValue::ArrayU8(_) => Repr::ArrayU8,
            FieldValue::ArrayI16(_) => Repr::ArrayI16,
            FieldValue::ArrayU16(_) => Repr::ArrayU16,
            FieldValue::ArrayI32(_) => Repr::ArrayI32,
            FieldValue::ArrayU32(_) => Repr::ArrayU32,
            FieldValue::ArrayI64(_) => Repr::ArrayI64,
            FieldValue::ArrayU64(_) => Repr::ArrayU64,
        }
    }

    /// The representation this value is in.
    pub fn repr(&self) -> (r: Repr)
        ensures
            r == self.spec_repr(),
    {
        match self {
            FieldValue::Null => Repr::Null,
            FieldValue::Bool(_) => Repr::Bool,
            FieldValue::I8(_) => Repr::I8,
            FieldValue::U8(_) => Repr::U8,
            FieldValue::I16(_) => Repr::I16,
            FieldValue::U16(_) => Repr::U16,
            FieldValue::I32(_) => Repr::I32,
            FieldValue::U32(_) => Repr::U32,
            FieldValue::I64(_) => Repr::I64,
            FieldValue::U64(_) => Repr::U64,
            FieldValue::F32(_) => Repr::F32,
            FieldValue::F64(_) => Repr::F64,
            FieldValue::Text(_) => Repr::Text,
            FieldValue::Binary(_) => Repr::Binary,
            FieldValue::FileTime(_) => Repr::FileTime,
            FieldValue::SystemTime(_) => Repr::SystemTime,
            FieldValue::Guid(_) => Repr::Guid,
            FieldValue::IpAddr(_) => Repr::IpAddr,
            FieldValue::ArrayI8(_) => Repr::ArrayI8,
            FieldValue::ArrayU8(_) => Repr::ArrayU8,
            FieldValue::ArrayI16(_) => Repr::ArrayI16,
            FieldValue::ArrayU16(_) => Repr::ArrayU16,
            FieldValue::ArrayI32(_) => Repr::ArrayI32,
            FieldValue::ArrayU32(_) => Repr::ArrayU32,
            FieldValue::ArrayI64(_) => Repr::ArrayI64,
            FieldValue::ArrayU64(_) => Repr::ArrayU64,
        }
    }
}

/// The representation a strategy produces; pointers follow the recording process's width.
pub open spec fn handler_repr(h: PropHandler, ptr: usize) -> Repr {
    match h {
        PropHandler::Null => Repr::Null,
        PropHandler::Bool => Repr::Bool,
        PropHandler::Int8 => Repr::I8,
        PropHandler::UInt8 => Repr::U8,
        PropHandler::Int16 => Repr::I16,
        PropHandler::UInt16 => Repr::U16,
        PropHandler::Int32 => Repr::I32,
        PropHandler::UInt32 => Repr::U32,
        PropHandler::Int64 => Repr::I64,
        PropHandler::UInt64 => Repr::U64,
        PropHandler::Pointer => if ptr == 4 { Repr::U32 } else { Repr::U64 },
        PropHandler::Float => Repr::F32,
        PropHandler::Double => Repr::F64,
        PropHandler::String => Repr::Text,
        PropHandler::FileTime => Repr::FileTime,
        PropHandler::SystemTime => Repr::SystemTime,
        PropHandler::Guid => Repr::Guid,
        PropHandler::Binary => Repr::Binary,
        PropHandler::IpAddr => Repr::IpAddr,
        PropHandler::ArrayInt8 => Repr::ArrayI8,
        PropHandler::ArrayUInt8 => Repr::ArrayU8,
        PropHandler::ArrayInt16 => Repr::ArrayI16,
        PropHandler::ArrayUInt16 => Repr::ArrayU16,
        PropHandler::ArrayInt32 => Repr::ArrayI32,
        PropHandler::ArrayUInt32 => Repr::ArrayU32,
        PropHandler::ArrayInt64 => Repr::ArrayI64,
        PropHandler::ArrayUInt64 => Repr::ArrayU64,
        PropHandler::ArrayPointer => if ptr == 4 { Repr::ArrayU32 } else { Repr::ArrayU64 },
    }
}

/// Exec form of `handler_repr`.
pub fn repr_of_handler(h: PropHandler, ptr: usize) -> (r: Repr)
    ensures
        r == handler_repr(h, ptr),
{
    match h {
        PropHandler::Null => Repr::Null,
        PropHandler::Bool => Repr::Bool,
        PropHandler::Int8 => Repr::I8,
        PropHandler::UInt8 => Repr::U8,
        PropHandler::Int16 => Repr::I16,
        PropHandler::UInt16 => Repr::U16,
        PropHandler::Int32 => Repr::I32,
        PropHandler::UInt32 => Repr::U32,
        PropHandler::Int64 => Repr::I64,
        PropHandler::UInt64 => Repr::U64,
        PropHandler::Pointer => if ptr == 4 { Repr::U32 } else { Repr::U64 },
        PropHandler::Float => Repr::F32,
        PropHandler::Double => Repr::F64,
        PropHandler::String => Repr::Text,
        PropHandler::FileTime => Repr::FileTime,
        PropHandler::SystemTime => Repr::SystemTime,
        PropHandler::Guid => Repr::Guid,
        PropHandler::Binary => Repr::Binary,
        PropHandler::IpAddr => Repr::IpAddr,
        PropHandler::ArrayInt8 => Repr::ArrayI8,
        PropHandler::ArrayUInt8 => Repr::ArrayU8,
        PropHandler::ArrayInt16 => Repr::ArrayI16,
        PropHandler::ArrayUInt16 => Repr::ArrayU16,
        PropHandler::ArrayInt32 => Repr::ArrayI32,
        PropHandler::ArrayUInt32 => Repr::ArrayU32,
        PropHandler::ArrayInt64 => Repr::ArrayI64,
        PropHandler::ArrayUInt64 => Repr::ArrayU64,
        PropHandler::ArrayPointer => if ptr == 4 { Repr::ArrayU32 } else { Repr::ArrayU64 },
    }
}

pub open spec fn u16_at(b: Seq<u8>, at: int) -> u16 {
    spec_u16_from_le_bytes(b.subrange(at, at + 2))
}

pub open spec fn u32_at(b: Seq<u8>, at: int) -> u32 {
    spec_u32_from_le_bytes(b.subrange(at, at + 4))
}

pub open spec fn u64_at(b: Seq<u8>, at: int) -> u64 {
    spec_u64_from_le_bytes(b.subrange(at, at + 8))
}

fn u16_at_exec(b: &[u8], at: usize) -> (r: u16)
    requires
        at + 2 <= b@.len(),
    ensures
        r == u16_at(b@, at as int),
{
    let n = b.len();
    assert(at + 2 <= n);
    u16_from_le_bytes(slice_subrange(b, at, at + 2))
}

fn u32_at_exec(b: &[u8], at: usize) -> (r: u32)
    requires
        at + 4 <= b@.len(),
    ensures
        r == u32_at(b@, at as int),
{
    let n = b.len();
    assert(at + 4 <= n);
    u32_from_le_bytes(slice_subrange(b, at, at + 4))
}

fn u64_at_exec(b: &[u8], at: usize) -> (r: u64)
    requires
        at + 8 <= b@.len(),
    ensures
        r == u64_at(b@, at as int),
{
    let n = b.len();
    assert(at + 8 <= n);
    u64_from_le_bytes(slice_subrange(b, at, at + 8))
}

/// Code units of a UTF-16 string field, without its terminating unit.
pub open spec fn utf16_units(b: Seq<u8>) -> Seq<u16> {
    Seq::new(((b.len() - 2) / 2) as nat, |k: int| u16_at(b, 2 * k))
}

/// Identifier authority of a security identifier: six bytes, most significant first.
pub open spec fn sid_authority(b: Seq<u8>) -> nat {
    ((b[2] as u64) * 0x100_0000_0000 + (b[3] as u64) * 0x1_0000_0000 + (b[4] as u64) * 0x100_0000
        + (b[5] as u64) * 0x1_0000 + (b[6] as u64) * 0x100 + (b[7] as u64)) as nat
}

/// `-S1-S2...` for the first `k` sub-authorities of a security identifier.
pub open spec fn sid_subs(b: Seq<u8>, k: nat) -> Seq<char>
    decreases k,
{
    if k == 0 {
        Seq::empty()
    } else {
        sid_subs(b, (k - 1) as nat) + seq!['-'] + decimal(u32_at(b, 8 + 4 * (k - 1)) as nat)
    }
}

/// Text form `S-R-A-S1-S2...` of a security identifier: revision, authority and
/// sub-authorities in decimal.
pub open spec fn sid_text(b: Seq<u8>) -> Seq<char> {
    seq!['S', '-'] + decimal(b[0] as nat) + seq!['-'] + decimal(sid_authority(b) as nat) + sid_subs(
        b,
        b[1] as nat,
    )
}

/// Text of a string field of in-type `t` whose bytes, terminator included, are `b`.
pub open spec fn text_of(t: TdhInType, b: Seq<u8>) -> Seq<char> {
    match t {
        TdhInType::InTypeUnicodeString => utf16_text(utf16_units(b)),
        TdhInType::InTypeAnsiString => ansi_text(b.drop_last()),
        _ => sid_text(b),
    }
}

pub open spec fn in_type_of(info: PropertyInfo) -> TdhInType {
    match info {
        PropertyInfo::Value { in_type, .. } => in_type,
        PropertyInfo::Array { in_type, .. } => in_type,
    }
}

pub open spec fn out_type_of(info: PropertyInfo) -> TdhOutType {
    match info {
        PropertyInfo::Value { out_type, .. } => out_type,
        PropertyInfo::Array { out_type, .. } => out_type,
    }
}

/// Whether `b` has the size that strategy `h` needs.
pub open spec fn size_ok(h: PropHandler, info: PropertyInfo, ptr: usize, b: Seq<u8>) -> bool {
    let n = b.len();
    match h {
        PropHandler::Null | PropHandler::Binary | PropHandler::ArrayInt8 | PropHandler::ArrayUInt8 => true,
        PropHandler::Int8 | PropHandler::UInt8 => n == 1,
        PropHandler::Int16 | PropHandler::UInt16 => n == 2,
        PropHandler::Bool | PropHandler::Int32 | PropHandler::UInt32 | PropHandler::Float => n == 4,
        PropHandler::Int64 | PropHandler::UInt64 | PropHandler::Double | PropHandler::FileTime => n == 8,
        PropHandler::SystemTime | PropHandler::Guid => n == 16,
        PropHandler::Pointer => n == ptr && (ptr == 4 || ptr == 8),
        PropHandler::String => match in_type_of(info) {
            TdhInType::InTypeUnicodeString => n >= 2,
            TdhInType::InTypeAnsiString => n >= 1,
            _ => n >= 8 && n == 8 + 4 * b[1],
        },
        PropHandler::IpAddr => (out_type_of(info) == TdhOutType::OutTypeIpv4 && n == 4) || (
        out_type_of(info) == TdhOutType::OutTypeIpv6 && n == 16),
        PropHandler::ArrayInt16 | PropHandler::ArrayUInt16 => n % 2 == 0,
        PropHandler::ArrayInt32 | PropHandler::ArrayUInt32 => n % 4 == 0,
        PropHandler::ArrayInt64 | PropHandler::ArrayUInt64 => n % 8 == 0,
        PropHandler::ArrayPointer => (ptr == 4 || ptr == 8) && n % (ptr as nat) == 0,
    }
}

/// Whether `v` is what the bytes `b` of a field described by `info` decode to.
pub open spec fn value_decodes(v: FieldValue, info: PropertyInfo, b: Seq<u8>) -> bool {
    match v {
        FieldValue::Null => true,
        FieldValue::Bool(x) => x == (u32_at(b, 0) != 0),
        FieldValue::I8(x) => x == b[0] as i8,
        FieldValue::U8(x) => x == b[0],
        FieldValue::I16(x) => x == u16_at(b, 0) as i16,
        FieldValue::U16(x) => x == u16_at(b, 0),
        FieldValue::I32(x) => x == u32_at(b, 0) as i32,
        FieldValue::U32(x) => x == u32_at(b, 0),
        FieldValue::I64(x) => x == u64_at(b, 0) as i64,
        FieldValue::U64(x) => x == u64_at(b, 0),
        FieldValue::F32(x) => x == u32_at(b, 0),
        FieldValue::F64(x) => x == u64_at(b, 0),
        FieldValue::Text(s) => s@ == text_of(in_type_of(info), b),
        FieldValue::Binary(x) => x@ == b,
        FieldValue::FileTime(x) => x == u64_at(b, 0),
        FieldValue::SystemTime(t) => {
            &&& t.year == u16_at(b, 0)
            &&& t.month == u16_at(b, 2)
            &&& t.day_of_week == u16_at(b, 4)
            &&& t.day == u16_at(b, 6)
            &&& t.hour == u16_at(b, 8)
            &&& t.minute == u16_at(b, 10)
            &&& t.second == u16_at(b, 12)
            &&& t.milliseconds == u16_at(b, 14)
        },
        FieldValue::Guid(g) => {
            &&& g.data1 == u32_at(b, 0)
            &&& g.data2 == u16_at(b, 4)
            &&& g.data3 == u16_at(b, 6)
            &&& g.data4 == u64_at(b, 8)
        },
        FieldValue::IpAddr(x) => x@ == b,
        FieldValue::ArrayI8(x) => x@.len() == b.len() && forall|k: int|
            0 <= k < x@.len() ==> #[trigger] x@[k] == b[k] as i8,
        FieldValue::ArrayU8(x) => x@ == b,
        FieldValue::ArrayI16(x) => x@.len() == b.len() / 2 && forall|k: int|
            0 <= k < x@.len() ==> #[trigger] x@[k] == u16_at(b, 2 * k) as i16,
        FieldValue::ArrayU16(x) => x@.len() == b.len() / 2 && forall|k: int|
            0 <= k < x@.len() ==> #[trigger] x@[k] == u16_at(b, 2 * k),
        FieldValue::ArrayI32(x) => x@.len() == b.len() / 4 && forall|k: int|
            0 <= k < x@.len() ==> #[trigger] x@[k] == u32_at(b, 4 * k) as i32,
        FieldValue::ArrayU32(x) => x@.len() == b.len() / 4 && forall|k: int|
            0 <= k < x@.len() ==> #[trigger] x@[k] == u32_at(b, 4 * k),
        FieldValue::ArrayI64(x) => x@.len() == b.len() / 8 && forall|k: int|
            0 <= k < x@.len() ==> #[trigger] x@[k] == u64_at(b, 8 * k) as i64,
        FieldValue::ArrayU64(x) => x@.len() == b.len() / 8 && forall|k: int|
            0 <= k < x@.len() ==> #[trigger] x@[k] == u64_at(b, 8 * k),
    }
}


fn decode_u16s(b: &[u8]) -> (r: Vec<u16>)
    ensures
        r@.len() == b@.len() / 2,
        forall|k: int| 0 <= k < r@.len() ==> #[trigger] r@[k] == u16_at(b@, 2 * k),
{
    let bl = b.len();
    let n = bl / 2;
    let mut out: Vec<u16> = Vec::new();
    let mut k: usize = 0;
    while k < n
        invariant
            k <= n,
            n == b@.len() / 2,
            bl == b@.len(),
            out@.len() == k,
            forall|j: int| 0 <= j < k ==> #[trigger] out@[j] == u16_at(b@, 2 * j),
        decreases n - k,
    {
        let x = u16_at_exec(b, 2 * k);
        out.push(x);
        k = k + 1;
    }
    out
}

fn decode_i16s(b: &[u8]) -> (r: Vec<i16>)
    ensures
        r@.len() == b@.len() / 2,
        forall|k: int| 0 <= k < r@.len() ==> #[trigger] r@[k] == u16_at(b@, 2 * k) as i16,
{
    let bl = b.len();
    let n = bl / 2;
    let mut out: Vec<i16> = Vec::new();
    let mut k: usize = 0;
    while k < n
        invariant
            k <= n,
            n == b@.len() / 2,
            bl == b@.len(),
            out@.len() == k,
            forall|j: int| 0 <= j < k ==> #[trigger] out@[j] == u16_at(b@, 2 * j) as i16,
        decreases n - k,
    {
        let x = u16_at_exec(b, 2 * k);
        out.push(#[verifier::truncate] (x as i16));
        k = k + 1;
    }
    out
}

fn decode_u32s(b: &[u8]) -> (r: Vec<u32>)
    ensures
        r@.len() == b@.len() / 4,
        forall|k: int| 0 <= k < r@.len() ==> #[trigger] r@[k] == u32_at(b@, 4 * k),
{
    let bl = b.len();
    let n = bl / 4;
    let mut out: Vec<u32> = Vec::new();
    let mut k: usize = 0;
    while k < n
        invariant
            k <= n,
            n == b@.len() / 4,
            bl == b@.len(),
            out@.len() == k,
            forall|j: int| 0 <= j < k ==> #[trigger] out@[j] == u32_at(b@, 4 * j),
        decreases n - k,
    {
        let x = u32_at_exec(b, 4 * k);
        out.push(x);
        k = k + 1;
    }
    out
}

fn decode_i32s(b: &[u8]) -> (r: Vec<i32>)
    ensures
        r@.len() == b@.len() / 4,
        forall|k: int| 0 <= k < r@.len() ==> #[trigger] r@[k] == u32_at(b@, 4 * k) as i32,
{
    let bl = b.len();
    let n = bl / 4;
    let mut out: Vec<i32> = Vec::new();
    let mut k: usize = 0;
    while k < n
        invariant
            k <= n,
            n == b@.len() / 4,
            bl == b@.len(),
            out@.len() == k,
            forall|j: int| 0 <= j < k ==> #[trigger] out@[j] == u32_at(b@, 4 * j) as i32,
        decreases n - k,
    {
        let x = u32_at_exec(b, 4 * k);
        out.push(#[verifier::truncate] (x as i32));
        k = k + 1;
    }
    out
}

fn decode_u64s(b: &[u8]) -> (r: Vec<u64>)
    ensures
        r@.len() == b@.len() / 8,
        forall|k: int| 0 <= k < r@.len() ==> #[trigger] r@[k] == u64_at(b@, 8 * k),
{
    let bl = b.len();
    let n = bl / 8;
    let mut out: Vec<u64> = Vec::new();
    let mut k: usize = 0;
    while k < n
        invariant
            k <= n,
            n == b@.len() / 8,
            bl == b@.len(),
            out@.len() == k,
            forall|j: int| 0 <= j < k ==> #[trigger] out@[j] == u64_at(b@, 8 * j),
        decreases n - k,
    {
        let x = u64_at_exec(b, 8 * k);
        out.push(x);
        k = k + 1;
    }
    out
}

fn decode_i64s(b: &[u8]) -> (r: Vec<i64>)
    ensures
        r@.len() == b@.len() / 8,
        forall|k: int| 0 <= k < r@.len() ==> #[trigger] r@[k] == u64_at(b@, 8 * k) as i64,
{
    let bl = b.len();
    let n = bl / 8;
    let mut out: Vec<i64> = Vec::new();
    let mut k: usize = 0;
    while k < n
        invariant
            k <= n,
            n == b@.len() / 8,
            bl == b@.len(),
            out@.len() == k,
            forall|j: int| 0 <= j < k ==> #[trigger] out@[j] == u64_at(b@, 8 * j) as i64,
        decreases n - k,
    {
        let x = u64_at_exec(b, 8 * k);
        out.push(#[verifier::truncate] (x as i64));
        k = k + 1;
    }
    out
}

fn decode_i8s(b: &[u8]) -> (r: Vec<i8>)
    ensures
        r@.len() == b@.len(),
        forall|k: int| 0 <= k < r@.len() ==> #[trigger] r@[k] == b@[k] as i8,
{
    let n = b.len();
    let mut out: Vec<i8> = Vec::new();
    let mut k: usize = 0;
    while k < n
        invariant
            k <= n,
            n == b@.len(),
            out@.len() == k,
            forall|j: int| 0 <= j < k ==> #[trigger] out@[j] == b@[j] as i8,
        decreases n - k,
    {
        out.push(#[verifier::truncate] (b[k] as i8));
        k = k + 1;
    }
    out
}

fn copy_bytes(b: &[u8]) -> (r: Vec<u8>)
    ensures
        r@ == b@,
{
    let n = b.len();
    let mut out: Vec<u8> = Vec::new();
    let mut k: usize = 0;
    while k < n
        invariant
            k <= n,
            n == b@.len(),
            out@ == b@.subrange(0, k as int),
        decreases n - k,
    {
        out.push(b[k]);
        k = k + 1;
        assert(out@ =~= b@.subrange(0, k as int));
    }
    assert(b@.subrange(0, n as int) =~= b@);
    out
}

/// Text of a UTF-16 string field whose bytes end with a zero unit.
fn decode_utf16_field(b: &[u8]) -> (r: String)
    requires
        b@.len() >= 2,
    ensures
        r@ == utf16_text(utf16_units(b@)),
{
    let bl = b.len();
    let n = (bl - 2) / 2;
    let mut units: Vec<u16> = Vec::new();
    let mut k: usize = 0;
    while k < n
        invariant
            k <= n,
            bl == b@.len(),
            n == (b@.len() - 2) / 2,
            units@.len() == k,
            forall|j: int| 0 <= j < k ==> #[trigger] units@[j] == u16_at(b@, 2 * j),
        decreases n - k,
    {
        let x = u16_at_exec(b, 2 * k);
        units.push(x);
        k = k + 1;
    }
    assert(units@ =~= utf16_units(b@));
    decode_utf16(units.as_slice())
}

/// Text form of a security identifier whose bytes are `b`.
fn decode_sid(b: &[u8]) -> (r: String)
    requires
        b@.len() >= 8,
        b@.len() == 8 + 4 * b@[1],
    ensures
        r@ == sid_text(b@),
{
    let mut out: Vec<char> = Vec::new();
    out.push('S');
    out.push('-');
    push_decimal(&mut out, b[0] as u64);
    out.push('-');
    let authority: u64 = (b[2] as u64) * 0x100_0000_0000 + (b[3] as u64) * 0x1_0000_0000 + (b[4]
        as u64) * 0x100_0000 + (b[5] as u64) * 0x1_0000 + (b[6] as u64) * 0x100 + (b[7] as u64);
    push_decimal(&mut out, authority);
    assert(out@ =~= seq!['S', '-'] + decimal(b@[0] as nat) + seq!['-'] + decimal(sid_authority(b@)));
    let count = b[1] as usize;
    let ghost head = out@;
    let mut k: usize = 0;
    while k < count
        invariant
            k <= count,
            count == b@[1],
            b@.len() == 8 + 4 * count,
            out@ == head + sid_subs(b@, k as nat),
        decreases count - k,
    {
        out.push('-');
        let sub = u32_at_exec(b, 8 + 4 * k);
        push_decimal(&mut out, sub as u64);
        k = k + 1;
        assert(out@ =~= head + sid_subs(b@, k as nat));
    }
    string_from_chars(out)
}

/// Decodes the bytes `b` of a field described by `info` with strategy `h`.
pub fn decode_field(h: PropHandler, info: PropertyInfo, ptr: usize, b: &[u8]) -> (r: Result<FieldValue, ()>)
    requires
        ptr == 4 || ptr == 8,
    ensures
        r is Ok <==> size_ok(h, info, ptr, b@),
        match r {
            Ok(v) => v.spec_repr() == handler_repr(h, ptr) && value_decodes(v, info, b@),
            Err(_) => true,
        },
{
    let n = b.len();
    match h {
        PropHandler::Null => Ok(FieldValue::Null),
        PropHandler::Bool => if n == 4 { Ok(FieldValue::Bool(u32_at_exec(b, 0) != 0)) } else { Err(()) },
        PropHandler::Int8 => if n == 1 { Ok(FieldValue::I8(#[verifier::truncate] (b[0] as i8))) } else { Err(()) },
        PropHandler::UInt8 => if n == 1 { Ok(FieldValue::U8(b[0])) } else { Err(()) },
        PropHandler::Int16 => if n == 2 { Ok(FieldValue::I16(#[verifier::truncate] (u16_at_exec(b, 0) as i16))) } else { Err(()) },
        PropHandler::UInt16 => if n == 2 { Ok(FieldValue::U16(u16_at_exec(b, 0))) } else { Err(()) },
        PropHandler::Int32 => if n == 4 { Ok(FieldValue::I32(#[verifier::truncate] (u32_at_exec(b, 0) as i32))) } else { Err(()) },
        PropHandler::UInt32 => if n == 4 { Ok(FieldValue::U32(u32_at_exec(b, 0))) } else { Err(()) },
        PropHandler::Int64 => if n == 8 { Ok(FieldValue::I64(#[verifier::truncate] (u64_at_exec(b, 0) as i64))) } else { Err(()) },
        PropHandler::UInt64 => if n == 8 { Ok(FieldValue::U64(u64_at_exec(b, 0))) } else { Err(()) },
        PropHandler::Pointer => if n == ptr && ptr == 4 {
            Ok(FieldValue::U32(u32_at_exec(b, 0)))
        } else if n == ptr {
            Ok(FieldValue::U64(u64_at_exec(b, 0)))
        } else {
            Err(())
        },
        PropHandler::Float => if n == 4 { Ok(FieldValue::F32(u32_at_exec(b, 0))) } else { Err(()) },
        PropHandler::Double => if n == 8 { Ok(FieldValue::F64(u64_at_exec(b, 0))) } else { Err(()) },
        PropHandler::FileTime => if n == 8 { Ok(FieldValue::FileTime(u64_at_exec(b, 0))) } else { Err(()) },
        PropHandler::SystemTime => if n == 16 {
            Ok(FieldValue::SystemTime(SystemTime {
                year: u16_at_exec(b, 0),
                month: u16_at_exec(b, 2),
                day_of_week: u16_at_exec(b, 4),
                day: u16_at_exec(b, 6),
                hour: u16_at_exec(b, 8),
                minute: u16_at_exec(b, 10),
                second: u16_at_exec(b, 12),
                milliseconds: u16_at_exec(b, 14),
            }))
        } else {
            Err(())
        },
        PropHandler::Guid => if n == 16 {
            Ok(FieldValue::Guid(Guid {
                data1: u32_at_exec(b, 0),
                data2: u16_at_exec(b, 4),
                data3: u16_at_exec(b, 6),
                data4: u64_at_exec(b, 8),
            }))
        } else {
            Err(())
        },
        PropHandler::Binary => Ok(FieldValue::Binary(copy_bytes(b))),
        PropHandler::String => {
            let t = match info {
                PropertyInfo::Value { in_type, .. } => in_type,
                PropertyInfo::Array { in_type, .. } => in_type,
            };
            match t {
                TdhInType::InTypeUnicodeString => if n >= 2 {
                    Ok(FieldValue::Text(decode_utf16_field(b)))
                } else {
                    Err(())
                },
                TdhInType::InTypeAnsiString => if n >= 1 {
                    let s = decode_ansi(slice_subrange(b, 0, n - 1));
                    assert(b@.subrange(0, n - 1) =~= b@.drop_last());
                    Ok(FieldValue::Text(s))
                } else {
                    Err(())
                },
                _ => if n >= 8 && n == 8 + 4 * (b[1] as usize) {
                    Ok(FieldValue::Text(decode_sid(b)))
                } else {
                    Err(())
                },
            }
        },
        PropHandler::IpAddr => {
            let o = match info {
                PropertyInfo::Value { out_type, .. } => out_type,
                PropertyInfo::Array { out_type, .. } => out_type,
            };
            let ok = match o {
                TdhOutType::OutTypeIpv4 => n == 4,
                TdhOutType::OutTypeIpv6 => n == 16,
                _ => false,
            };
            if ok { Ok(FieldValue::IpAddr(copy_bytes(b))) } else { Err(()) }
        },
        PropHandler::ArrayInt8 => Ok(FieldValue::ArrayI8(decode_i8s(b))),
        PropHandler::ArrayUInt8 => Ok(FieldValue::ArrayU8(copy_bytes(b))),
        PropHandler::ArrayInt16 => if n % 2 == 0 { Ok(FieldValue::ArrayI16(decode_i16s(b))) } else { Err(()) },
        PropHandler::ArrayUInt16 => if n % 2 == 0 { Ok(FieldValue::ArrayU16(decode_u16s(b))) } else { Err(()) },
        PropHandler::ArrayInt32 => if n % 4 == 0 { Ok(FieldValue::ArrayI32(decode_i32s(b))) } else { Err(()) },
        PropHandler::ArrayUInt32 => if n % 4 == 0 { Ok(FieldValue::ArrayU32(decode_u32s(b))) } else { Err(()) },
        PropHandler::ArrayInt64 => if n % 8 == 0 { Ok(FieldValue::ArrayI64(decode_i64s(b))) } else { Err(()) },
        PropHandler::ArrayUInt64 => if n % 8 == 0 { Ok(FieldValue::ArrayU64(decode_u64s(b))) } else { Err(()) },
        PropHandler::ArrayPointer => if ptr == 4 && n % 4 == 0 {
            Ok(FieldValue::ArrayU32(decode_u32s(b)))
        } else if ptr == 8 && n % 8 == 0 {
            Ok(FieldValue::ArrayU64(decode_u64s(b)))
        } else {
            Err(())
        },
    }
}

} // verus!
