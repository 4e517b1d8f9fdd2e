//! Resolution of a field's wire types to a decoding strategy.
use vstd::prelude::*;
use crate::tdh_types::{PropertyInfo, TdhInType, TdhOutType, Property};

verus! {

/// How the bytes of a field are decoded.
#[derive(Clone, Copy, Debug, PartialEq, Eq, Structural)]
pub enum PropHandler {
    Null,
    Bool,
    Int8,
    UInt8,
    Int16,
    UInt16,
    Int32,
    UInt32,
    Int64,
    UInt64,
    /// An integer as wide as a pointer of the process that recorded the event.
    Pointer,
    Float,
    Double,
    String,
    FileTime,
    SystemTime,
    Guid,
    Binary,
    IpAddr,
    ArrayInt8,
    ArrayUInt8,
    ArrayInt16,
    ArrayUInt16,
    ArrayInt32,
    ArrayUInt32,
    ArrayInt64,
    ArrayUInt64,
    ArrayPointer,
}

/// Strategy of a single value, decided by its in-type alone.
pub open spec fn scalar_handler(t: TdhInType) -> Option<PropHandler> {
    match t {
        TdhInType::InTypeNull => Some(PropHandler::Null),
        TdhInType::InTypeUnicodeString => Some(PropHandler::String),
        TdhInType::InTypeAnsiString => Some(PropHandler::String),
        TdhInType::InTypeInt8 => Some(PropHandler::Int8),
        TdhInType::InTypeUInt8 => Some(PropHandler::UInt8),
        TdhInType::InTypeInt16 => Some(PropHandler::Int16),
        TdhInType::InTypeUInt16 => Some(PropHandler::UInt16),
        TdhInType::InTypeInt32 => Some(PropHandler::Int32),
        TdhInType::InTypeUInt32 => Some(PropHandler::UInt32),
        TdhInType::InTypeInt64 => Some(PropHandler::Int64),
        TdhInType::InTypeUInt64 => Some(PropHandler::UInt64),
        TdhInType::InTypeFloat => Some(PropHandler::Float),
        TdhInType::InTypeDouble => Some(PropHandler::Double),
        TdhInType::InTypeBoolean => Some(PropHandler::Bool),
        TdhInType::InTypeBinary => Some(PropHandler::Binary),
        TdhInType::InTypeGuid => Some(PropHandler::Guid),
        TdhInType::InTypePointer => Some(PropHandler::Pointer),
        TdhInType::InTypeFileTime => Some(PropHandler::FileTime),
        TdhInType::InTypeSystemTime => Some(PropHandler::SystemTime),
        TdhInType::InTypeSid => Some(PropHandler::String),
        TdhInType::InTypeHexInt32 => Some(PropHandler::Int32),
        TdhInType::InTypeHexInt64 => Some(PropHandler::Int64),
        TdhInType::InTypeCountedString => None,
    }
}

/// Strategy of an array: only fixed-width integers and pointers are decoded.
pub open spec fn array_handler(t: TdhInType) -> Option<PropHandler> {
    match t {
        TdhInType::InTypeInt8 => Some(PropHandler::ArrayInt8),
        TdhInType::InTypeUInt8 => Some(PropHandler::ArrayUInt8),
        TdhInType::InTypeInt16 => Some(PropHandler::ArrayInt16),
        TdhInType::InTypeUInt16 => Some(PropHandler::ArrayUInt16),
        TdhInType::InTypeInt32 => Some(PropHandler::ArrayInt32),
        TdhInType::InTypeUInt32 => Some(PropHandler::ArrayUInt32),
        TdhInType::InTypeInt64 => Some(PropHandler::ArrayInt64),
        TdhInType::InTypeUInt64 => Some(PropHandler::ArrayUInt64),
        TdhInType::InTypePointer => Some(PropHandler::ArrayPointer),
        _ => None,
    }
}

pub open spec fn is_ip_out_type(o: TdhOutType) -> bool {
    o == TdhOutType::OutTypeIpv4 || o == TdhOutType::OutTypeIpv6
}

/// The decoding strategy of a field: an address out-type wins, then the in-type decides.
pub open spec fn handler_of(info: PropertyInfo) -> Option<PropHandler> {
    match info {
        PropertyInfo::Value { in_type, out_type, .. } => {
            if is_ip_out_type(out_type) {
                Some(PropHandler::IpAddr)
            } else {
                scalar_handler(in_type)
            }
        },
        PropertyInfo::Array { in_type, .. } => array_handler(in_type),
    }
}

impl PropertyInfo {
    /// The decoding strategy of this field, if there is one.
    pub fn get_parser(&self) -> (r: Option<PropHandler>)
        ensures
            r == handler_of(*self),
    {
        match *self {
            PropertyInfo::Value { in_type, out_type, .. } => {
                match out_type {
                    TdhOutType::OutTypeIpv4 => Some(PropHandler::IpAddr),
                    TdhOutType::OutTypeIpv6 => Some(PropHandler::IpAddr),
                    _ => match in_type {
                        TdhInType::InTypeNull => Some(PropHandler::Null),
                        TdhInType::InTypeUnicodeString => Some(PropHandler::String),
                        TdhInType::InTypeAnsiString => Some(PropHandler::String),
                        TdhInType::InTypeInt8 => Some(PropHandler::Int8),
                        TdhInType::InTypeUInt8 => Some(PropHandler::UInt8),
                        TdhInType::InTypeInt16 => Some(PropHandler::Int16),
                        TdhInType::InTypeUInt16 => Some(PropHandler::UInt16),
                        TdhInType::InTypeInt32 => Some(PropHandler::Int32),
                        TdhInType::InTypeUInt32 => Some(PropHandler::UInt32),
                        TdhInType::InTypeInt64 => Some(PropHandler::Int64),
                        TdhInType::InTypeUInt64 => Some(PropHandler::UInt64),
                        TdhInType::InTypeFloat => Some(PropHandler::Float),
                        TdhInType::InTypeDouble => Some(PropHandler::Double),
                        TdhInType::InTypeBoolean => Some(PropHandler::Bool),
                        TdhInType::InTypeBinary => Some(PropHandler::Binary),
                        TdhInType::InTypeGuid => Some(PropHandler::Guid),
                        TdhInType::InTypePointer => Some(PropHandler::Pointer),
                        TdhInType::InTypeFileTime => Some(PropHandler::FileTime),
                        TdhInType::InTypeSystemTime => Some(PropHandler::SystemTime),
                        TdhInType::InTypeSid => Some(PropHandler::String),
                        TdhInType::InTypeHexInt32 => Some(PropHandler::Int32),
                        TdhInType::InTypeHexInt64 => Some(PropHandler::Int64),
                        TdhInType::InTypeCountedString => None,
                    },
                }
            },
            PropertyInfo::Array { in_type, .. } => {
                match in_type {
                    TdhInType::InTypeInt8 => Some(PropHandler::ArrayInt8),
                    TdhInType::InTypeUInt8 => Some(PropHandler::ArrayUInt8),
                    TdhInType::InTypeInt16 => Some(PropHandler::ArrayInt16),
                    TdhInType::InTypeUInt16 => Some(PropHandler::ArrayUInt16),
                    TdhInType::InTypeInt32 => Some(PropHandler::ArrayInt32),
                    TdhInType::InTypeUInt32 => Some(PropHandler::ArrayUInt32),
                    TdhInType::InTypeInt64 => Some(PropHandler::ArrayInt64),
                    TdhInType::InTypeUInt64 => Some(PropHandler::ArrayUInt64),
                    TdhInType::InTypePointer => Some(PropHandler::ArrayPointer),
                    _ => None,
                }
            },
        }
    }
}

impl Property {
    /// The decoding strategy of this field, if there is one.
    pub fn get_parser(&self) -> (r: Option<PropHandler>)
        ensures
            r == handler_of(self.info),
    {
        self.info.get_parser()
    }
}

/// Resolution is a function of the wire types alone: equal descriptors get equal strategies.
pub proof fn lemma_resolve_deterministic(a: PropertyInfo, b: PropertyInfo)
    requires
        a == b,
    ensures
        handler_of(a) == handler_of(b),
{
}

/// A single value whose out-type is an IPv4 or IPv6 address is decoded as an address,
/// whatever its in-type.
pub proof fn lemma_ip_out_type_wins(in_type: TdhInType, out_type: TdhOutType, length: u16)
    requires
        is_ip_out_type(out_type),
    ensures
        handler_of(PropertyInfo::Value { in_type, out_type, length }) == Some(PropHandler::IpAddr),
{
}

} // verus!
