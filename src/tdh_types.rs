//! Wire-type enumerations and field descriptors of an event schema.
use vstd::prelude::*;

verus! {

/// Declared primitive type of a field on the wire.
#[derive(Clone, Copy, Debug, PartialEq, Eq, Structural)]
pub enum TdhInType {
    InTypeNull,
    InTypeUnicodeString,
    InTypeAnsiString,
    InTypeInt8,
    InTypeUInt8,
    InTypeInt16,
    InTypeUInt16,
    InTypeInt32,
    InTypeUInt32,
    InTypeInt64,
    InTypeUInt64,
    InTypeFloat,
    InTypeDouble,
    InTypeBoolean,
    InTypeBinary,
    InTypeGuid,
    InTypePointer,
    InTypeFileTime,
    InTypeSystemTime,
    InTypeSid,
    InTypeHexInt32,
    InTypeHexInt64,
    InTypeCountedString,
}

/// Numeric code of each in-type, as published by the tracing subsystem.
pub open spec fn in_type_code(t: TdhInType) -> u16 {
    match t {
        TdhInType::InTypeNull => 0,
        TdhInType::InTypeUnicodeString => 1,
        TdhInType::InTypeAnsiString => 2,
        TdhInType::InTypeInt8 => 3,
        TdhInType::InTypeUInt8 => 4,
        TdhInType::InTypeInt16 => 5,
        TdhInType::InTypeUInt16 => 6,
        TdhInType::InTypeInt32 => 7,
        TdhInType::InTypeUInt32 => 8,
        TdhInType::InTypeInt64 => 9,
        TdhInType::InTypeUInt64 => 10,
        TdhInType::InTypeFloat => 11,
        TdhInType::InTypeDouble => 12,
        TdhInType::InTypeBoolean => 13,
        TdhInType::InTypeBinary => 14,
        TdhInType::InTypeGuid => 15,
        TdhInType::InTypePointer => 16,
        TdhInType::InTypeFileTime => 17,
        TdhInType::InTypeSystemTime => 18,
        TdhInType::InTypeSid => 19,
        TdhInType::InTypeHexInt32 => 20,
        TdhInType::InTypeHexInt64 => 21,
        TdhInType::InTypeCountedString => 300,
    }
}

impl TdhInType {
    /// The in-type with the given code, if the code is a known one.
    pub fn from_code(code: u16) -> (r: Option<TdhInType>)
        ensures
            match r {
                Some(t) => in_type_code(t) == code,
                None => forall|t: TdhInType| in_type_code(t) != code,
            },
    {
        match code {
            0 => Some(TdhInType::InTypeNull),
            1 => Some(TdhInType::InTypeUnicodeString),
            2 => Some(TdhInType::InTypeAnsiString),
            3 => Some(TdhInType::InTypeInt8),
            4 => Some(TdhInType::InTypeUInt8),
            5 => Some(TdhInType::InTypeInt16),
            6 => Some(TdhInType::InTypeUInt16),
            7 => Some(TdhInType::InTypeInt32),
            8 => Some(TdhInType::InTypeUInt32),
            9 => Some(TdhInType::InTypeInt64),
            10 => Some(TdhInType::InTypeUInt64),
            11 => Some(TdhInType::InTypeFloat),
            12 => Some(TdhInType::InTypeDouble),
            13 => Some(TdhInType::InTypeBoolean),
            14 => Some(TdhInType::InTypeBinary),
            15 => Some(TdhInType::InTypeGuid),
            16 => Some(TdhInType::InTypePointer),
            17 => Some(TdhInType::InTypeFileTime),
            18 => Some(TdhInType::InTypeSystemTime),
            19 => Some(TdhInType::InTypeSid),
            20 => Some(TdhInType::InTypeHexInt32),
            21 => Some(TdhInType::InTypeHexInt64),
            300 => Some(TdhInType::InTypeCountedString),
            _ => None,
        }
    }
}


/// Declared semantic (display) type of a field; `OutTypeNull` stands for "none declared".
#[derive(Clone, Copy, Debug, PartialEq, Eq, Structural)]
pub enum TdhOutType {
    OutTypeNull,
    OutTypeString,
    OutTypeDateTime,
    OutTypeInt8,
    OutTypeUInt8,
    OutTypeInt16,
    OutTypeUInt16,
    OutTypeInt32,
    OutTypeUInt32,
    OutTypeInt64,
    OutTypeUInt64,
    OutTypeFloat,
    OutTypeDouble,
    OutTypeBoolean,
    OutTypeGuid,
    OutTypeHexBinary,
    OutTypeHexInt8,
    OutTypeHexInt16,
    OutTypeHexInt32,
    OutTypeHexInt64,
    OutTypePid,
    OutTypeTid,
    OutTypePort,
    OutTypeIpv4,
    OutTypeIpv6,
    OutTypeSocketAddress,
    OutTypeCimDateTime,
    OutTypeEtwTime,
    OutTypeXml,
    OutTypeErrorCode,
    OutTypeWin32Error,
    OutTypeNtStatus,
    OutTypeHResult,
    OutTypeCultureInsensitiveDateTime,
    OutTypeJson,
    OutTypeUtf8,
    OutTypePkcs7,
    OutTypeCodePointer,
    OutTypeDateTimeUtc,
}

/// Numeric code of each out-type, as published by the tracing subsystem.
pub open spec fn out_type_code(t: TdhOutType) -> u16 {
    match t {
        TdhOutType::OutTypeNull => 0,
        TdhOutType::OutTypeString => 1,
        TdhOutType::OutTypeDateTime => 2,
        TdhOutType::OutTypeInt8 => 3,
        TdhOutType::OutTypeUInt8 => 4,
        TdhOutType::OutTypeInt16 => 5,
        TdhOutType::OutTypeUInt16 => 6,
        TdhOutType::OutTypeInt32 => 7,
        TdhOutType::OutTypeUInt32 => 8,
        TdhOutType::OutTypeInt64 => 9,
        TdhOutType::OutTypeUInt64 => 10,
        TdhOutType::OutTypeFloat => 11,
        TdhOutType::OutTypeDouble => 12,
        TdhOutType::OutTypeBoolean => 13,
        TdhOutType::OutTypeGuid => 14,
        TdhOutType::OutTypeHexBinary => 15,
        TdhOutType::OutTypeHexInt8 => 16,
        TdhOutType::OutTypeHexInt16 => 17,
        TdhOutType::OutTypeHexInt32 => 18,
        TdhOutType::OutTypeHexInt64 => 19,
        TdhOutType::OutTypePid => 20,
        TdhOutType::OutTypeTid => 21,
        TdhOutType::OutTypePort => 22,
        TdhOutType::OutTypeIpv4 => 23,
        TdhOutType::OutTypeIpv6 => 24,
        TdhOutType::OutTypeSocketAddress => 25,
        TdhOutType::OutTypeCimDateTime => 26,
        TdhOutType::OutTypeEtwTime => 27,
        TdhOutType::OutTypeXml => 28,
        TdhOutType::OutTypeErrorCode => 29,
        TdhOutType::OutTypeWin32Error => 30,
        TdhOutType::OutTypeNtStatus => 31,
        TdhOutType::OutTypeHResult => 32,
        TdhOutType::OutTypeCultureInsensitiveDateTime => 33,
        TdhOutType::OutTypeJson => 34,
        TdhOutType::OutTypeUtf8 => 35,
        TdhOutType::OutTypePkcs7 => 36,
        TdhOutType::OutTypeCodePointer => 37,
        TdhOutType::OutTypeDateTimeUtc => 38,
    }
}

impl TdhOutType {
    /// The out-type with the given code, if the code is a known one.
    pub fn from_code(code: u16) -> (r: Option<TdhOutType>)
        ensures
            match r {
                Some(t) => out_type_code(t) == code,
                None => forall|t: TdhOutType| out_type_code(t) != code,
            },
    {
        match code {
            0 => Some(TdhOutType::OutTypeNull),
            1 => Some(TdhOutType::OutTypeString),
            2 => Some(TdhOutType::OutTypeDateTime),
            3 => Some(TdhOutType::OutTypeInt8),
            4 => Some(TdhOutType::OutTypeUInt8),
            5 => Some(TdhOutType::OutTypeInt16),
            6 => Some(TdhOutType::OutTypeUInt16),
            7 => Some(TdhOutType::OutTypeInt32),
            8 => Some(TdhOutType::OutTypeUInt32),
            9 => Some(TdhOutType::OutTypeInt64),
            10 => Some(TdhOutType::OutTypeUInt64),
            11 => Some(TdhOutType::OutTypeFloat),
            12 => Some(TdhOutType::OutTypeDouble),
            13 => Some(TdhOutType::OutTypeBoolean),
            14 => Some(TdhOutType::OutTypeGuid),
            15 => Some(TdhOutType::OutTypeHexBinary),
            16 => Some(TdhOutType::OutTypeHexInt8),
            17 => Some(TdhOutType::OutTypeHexInt16),
            18 => Some(TdhOutType::OutTypeHexInt32),
            19 => Some(TdhOutType::OutTypeHexInt64),
            20 => Some(TdhOutType::OutTypePid),
            21 => Some(TdhOutType::OutTypeTid),
            22 => Some(TdhOutType::OutTypePort),
            23 => Some(TdhOutType::OutTypeIpv4),
            24 => Some(TdhOutType::OutTypeIpv6),
            25 => Some(TdhOutType::OutTypeSocketAddress),
            26 => Some(TdhOutType::OutTypeCimDateTime),
            27 => Some(TdhOutType::OutTypeEtwTime),
            28 => Some(TdhOutType::OutTypeXml),
            29 => Some(TdhOutType::OutTypeErrorCode),
            30 => Some(TdhOutType::OutTypeWin32Error),
            31 => Some(TdhOutType::OutTypeNtStatus),
            32 => Some(TdhOutType::OutTypeHResult),
            33 => Some(TdhOutType::OutTypeCultureInsensitiveDateTime),
            34 => Some(TdhOutType::OutTypeJson),
            35 => Some(TdhOutType::OutTypeUtf8),
            36 => Some(TdhOutType::OutTypePkcs7),
            37 => Some(TdhOutType::OutTypeCodePointer),
            38 => Some(TdhOutType::OutTypeDateTimeUtc),
            _ => None,
        }
    }
}

/// A field as the tracing subsystem lists it: a name and raw wire-type codes.
#[derive(Clone, Debug)]
pub struct RawProperty {
    pub name: String,
    pub in_type: u16,
    pub out_type: u16,
    /// Whether the field holds `count` elements rather than one value.
    pub is_array: bool,
    /// Number of elements of an array field, already resolved.
    pub count: u16,
    /// Declared length in bytes (used by binary fields).
    pub length: u16,
}

/// Failure to turn a raw field list into field descriptors.
#[derive(Clone, Copy, Debug, PartialEq, Eq, Structural)]
pub enum PropertyError {
    /// A wire-type code that is not known; carries the code.
    UnimplementedType(u16),
}

/// Shape and wire types of one field.
#[derive(Clone, Copy, Debug, PartialEq, Eq, Structural)]
pub enum PropertyInfo {
    Value { in_type: TdhInType, out_type: TdhOutType, length: u16 },
    Array { in_type: TdhInType, out_type: TdhOutType, length: u16, count: u16 },
}

/// Descriptor of one field of an event kind.
#[derive(Clone, Debug)]
pub struct Property {
    pub name: String,
    pub info: PropertyInfo,
}

/// Mathematical view of a field descriptor.
pub struct PropertyView {
    pub name: Seq<char>,
    pub info: PropertyInfo,
}

impl View for Property {
    type V = PropertyView;

    open spec fn view(&self) -> PropertyView {
        PropertyView { name: self.name@, info: self.info }
    }
}

/// The descriptor shape that a raw field stands for, or the unknown code.
pub open spec fn info_of(raw: RawProperty) -> Result<PropertyInfo, PropertyError> {
    if (forall|t: TdhInType| in_type_code(t) != raw.in_type) {
        Err(PropertyError::UnimplementedType(raw.in_type))
    } else if (forall|t: TdhOutType| out_type_code(t) != raw.out_type) {
        Err(PropertyError::UnimplementedType(raw.out_type))
    } else {
        let i = choose|t: TdhInType| in_type_code(t) == raw.in_type;
        let o = choose|t: TdhOutType| out_type_code(t) == raw.out_type;
        if raw.is_array {
            Ok(PropertyInfo::Array { in_type: i, out_type: o, length: raw.length, count: raw.count })
        } else {
            Ok(PropertyInfo::Value { in_type: i, out_type: o, length: raw.length })
        }
    }
}

/// The descriptors of a raw field list, in order, or the first unknown code.
pub open spec fn parse_all(raws: Seq<RawProperty>) -> Result<Seq<PropertyView>, PropertyError>
    decreases raws.len(),
{
    if raws.len() == 0 {
        Ok(Seq::empty())
    } else {
        match parse_all(raws.drop_last()) {
            Err(e) => Err(e),
            Ok(ps) => match info_of(raws.last()) {
                Err(e) => Err(e),
                Ok(i) => Ok(ps.push(PropertyView { name: raws.last().name@, info: i })),
            },
        }
    }
}

proof fn lemma_in_code_injective(a: TdhInType, b: TdhInType)
    requires
        in_type_code(a) == in_type_code(b),
    ensures
        a == b,
{
}

proof fn lemma_out_code_injective(a: TdhOutType, b: TdhOutType)
    requires
        out_type_code(a) == out_type_code(b),
    ensures
        a == b,
{
}

/// Once a prefix of the raw list fails to parse, the whole list fails with the same error.
proof fn lemma_parse_all_err_extends(raws: Seq<RawProperty>, n: int, e: PropertyError)
    requires
        0 <= n <= raws.len(),
        parse_all(raws.subrange(0, n)) == Err::<Seq<PropertyView>, PropertyError>(e),
    ensures
        parse_all(raws) == Err::<Seq<PropertyView>, PropertyError>(e),
    decreases raws.len() - n,
{
    if n < raws.len() {
        assert(raws.subrange(0, n + 1).drop_last() =~= raws.subrange(0, n));
        lemma_parse_all_err_extends(raws, n + 1, e);
    } else {
        assert(raws.subrange(0, n) =~= raws);
    }
}

impl Property {
    /// Builds the descriptor of one raw field.
    pub fn from_raw(raw: &RawProperty) -> (r: Result<Property, PropertyError>)
        ensures
            match r {
                Ok(p) => info_of(*raw) == Ok::<PropertyInfo, PropertyError>(p.info) && p.name@
                    == raw.name@,
                Err(e) => info_of(*raw) == Err::<PropertyInfo, PropertyError>(e),
            },
    {
        let i = match TdhInType::from_code(raw.in_type) {
            Some(i) => i,
            None => return Err(PropertyError::UnimplementedType(raw.in_type)),
        };
        let o = match TdhOutType::from_code(raw.out_type) {
            Some(o) => o,
            None => return Err(PropertyError::UnimplementedType(raw.out_type)),
        };
        proof {
            let ci = choose|t: TdhInType| in_type_code(t) == raw.in_type;
            let co = choose|t: TdhOutType| out_type_code(t) == raw.out_type;
            lemma_in_code_injective(i, ci);
            lemma_out_code_injective(o, co);
        }
        let info = if raw.is_array {
            PropertyInfo::Array { in_type: i, out_type: o, length: raw.length, count: raw.count }
        } else {
            PropertyInfo::Value { in_type: i, out_type: o, length: raw.length }
        };
        Ok(Property { name: raw.name.clone(), info })
    }

    /// A copy of this descriptor.
    pub fn duplicate(&self) -> (r: Property)
        ensures
            r@ == self@,
    {
        Property { name: self.name.clone(), info: self.info }
    }
}

/// Builds the descriptors of a raw field list, stopping at the first unknown code.
pub fn parse_properties(raws: &Vec<RawProperty>) -> (r: Result<Vec<Property>, PropertyError>)
    ensures
        match r {
            Ok(ps) => parse_all(raws@) == Ok::<Seq<PropertyView>, PropertyError>(ps@.map_values(|p: Property| p@)),
            Err(e) => parse_all(raws@) == Err::<Seq<PropertyView>, PropertyError>(e),
        },
{
    let mut out: Vec<Property> = Vec::new();
    let mut i: usize = 0;
    assert(raws@.subrange(0, 0) =~= Seq::<RawProperty>::empty());
    assert(out@.map_values(|p: Property| p@) =~= Seq::<PropertyView>::empty());
    while i < raws.len()
        invariant
            i <= raws@.len(),
            parse_all(raws@.subrange(0, i as int)) == Ok::<Seq<PropertyView>, PropertyError>(out@.map_values(|p: Property| p@)),
        decreases raws@.len() - i,
    {
        assert(raws@.subrange(0, i + 1).drop_last() =~= raws@.subrange(0, i as int));
        let p = Property::from_raw(&raws[i]);
        match p {
            Err(e) => {
                assert(parse_all(raws@.subrange(0, i + 1)) == Err::<Seq<PropertyView>, PropertyError>(e));
                proof { lemma_parse_all_err_extends(raws@, i as int + 1, e); }
                return Err(e);
            },
            Ok(p) => {
                let ghost before = out@;
                let ghost pv = p@;
                out.push(p);
                assert(out@.map_values(|p: Property| p@) =~= before.map_values(|p: Property| p@).push(pv));
            },
        }
        i = i + 1;
    }
    assert(raws@.subrange(0, i as int) =~= raws@);
    Ok(out)
}

} // verus!
