use ferrisetw::event::{EventDescriptor, EventHeader, EventRecord, Guid};
use ferrisetw::handler::PropHandler;
use ferrisetw::parser::{Parser, ParserError};
use ferrisetw::schema::{DecodingSource, Schema, TraceEventInfo};
use ferrisetw::ser::{event_fields, EventSerializer, EventSerializerOptions, SerError};
use ferrisetw::tdh_types::{
    parse_properties, Property, PropertyError, PropertyInfo, RawProperty, TdhInType, TdhOutType,
};
use ferrisetw::values::{FieldValue, Repr, SystemTime};

const TEST_DOMAIN_NAME: &str = "www.github.com";
const EVENT_ID_DNS_QUERY_INITIATED: u16 = 3006;

const IN_UNICODE: u16 = 1;
const IN_ANSI: u16 = 2;
const IN_INT8: u16 = 3;
const IN_INT16: u16 = 5;
const IN_INT32: u16 = 7;
const IN_UINT32: u16 = 8;
const IN_UINT64: u16 = 10;
const IN_BOOLEAN: u16 = 13;
const IN_BINARY: u16 = 14;
const IN_GUID: u16 = 15;
const IN_POINTER: u16 = 16;
const IN_SYSTEMTIME: u16 = 18;
const IN_SID: u16 = 19;
const IN_HEXINT32: u16 = 20;
const IN_COUNTED: u16 = 300;
const OUT_NULL: u16 = 0;
const OUT_IPV4: u16 = 23;
const OUT_IPV6: u16 = 24;

fn guid(n: u32) -> Guid {
    Guid { data1: n, data2: 2, data3: 3, data4: 4 }
}

fn raw(name: &str, in_type: u16, out_type: u16) -> RawProperty {
    RawProperty { name: name.to_string(), in_type, out_type, is_array: false, count: 0, length: 0 }
}

fn raw_array(name: &str, in_type: u16, count: u16) -> RawProperty {
    RawProperty { name: name.to_string(), in_type, out_type: OUT_NULL, is_array: true, count, length: 0 }
}

fn info(provider: &str, properties: Vec<RawProperty>) -> TraceEventInfo {
    TraceEventInfo {
        event_id: EVENT_ID_DNS_QUERY_INITIATED,
        provider_guid: guid(0x1c95126e),
        event_version: 0,
        decoding_source: DecodingSource::DecodingSourceXMLFile,
        provider_name: provider.to_string(),
        task_name: "Task".to_string(),
        opcode_name: "Info".to_string(),
        properties,
    }
}

fn record(flags: u16, user_data: Vec<u8>) -> EventRecord {
    EventRecord {
        header: EventHeader {
            size: 0,
            header_type: 0,
            flags,
            event_property: 0,
            thread_id: 11,
            process_id: 22,
            time_stamp: 133_000_000_000_000_000,
            provider_id: guid(0x1c95126e),
            descriptor: EventDescriptor {
                id: EVENT_ID_DNS_QUERY_INITIATED,
                version: 0,
                channel: 16,
                level: 4,
                opcode: 0,
                task: 0,
                keyword: 0,
            },
            activity_id: guid(0),
        },
        user_data,
    }
}

fn utf16z(s: &str) -> Vec<u8> {
    let mut out = Vec::new();
    for u in s.encode_utf16() {
        out.extend_from_slice(&u.to_le_bytes());
    }
    out.extend_from_slice(&[0, 0]);
    out
}

fn dns_schema() -> Schema {
    Schema::new(info(
        "Microsoft-Windows-DNS-Client",
        vec![raw("QueryName", IN_UNICODE, OUT_NULL), raw("Status", IN_INT32, OUT_NULL)],
    ))
}

fn dns_record() -> EventRecord {
    let mut data = utf16z(TEST_DOMAIN_NAME);
    data.extend_from_slice(&0i32.to_le_bytes());
    record(0, data)
}

fn text(v: FieldValue) -> String {
    match v {
        FieldValue::Text(s) => s,
        other => panic!("not text: {:?}", other),
    }
}

#[test]
fn dns_tests() {
    let rec = dns_record();
    let mut schema = dns_schema();
    let parser = Parser::create(&rec, &mut schema);
    assert_eq!(rec.event_id(), EVENT_ID_DNS_QUERY_INITIATED);
    let query_name = text(parser.try_parse("QueryName", Repr::Text).unwrap());
    assert_eq!(query_name, TEST_DOMAIN_NAME);
    let wrong_type = parser.try_parse("QueryName", Repr::U32);
    assert!(wrong_type.is_err());
    let wrong_name = parser.try_parse("NoSuchProperty", Repr::U32);
    assert!(wrong_name.is_err());
    assert_eq!(&schema.provider_name(), "Microsoft-Windows-DNS-Client");
}

#[test]
fn round_trip_query_name() {
    let rec = dns_record();
    let mut schema = dns_schema();
    let parser = Parser::create(&rec, &mut schema);
    assert_eq!(text(parser.try_parse("QueryName", Repr::Text).unwrap()), "www.github.com");
    assert_eq!(parser.try_parse("QueryName", Repr::I32).unwrap_err(), ParserError::TypeMismatch);
    assert_eq!(parser.try_parse("NoSuchField", Repr::Text).unwrap_err(), ParserError::FieldNotFound);
    assert!(matches!(parser.try_parse("Status", Repr::I32), Ok(FieldValue::I32(0))));
}

#[test]
fn extraction_is_repeatable() {
    let rec = dns_record();
    let mut schema = dns_schema();
    let parser = Parser::create(&rec, &mut schema);
    let a = text(parser.try_parse("QueryName", Repr::Text).unwrap());
    let b = text(parser.try_parse("QueryName", Repr::Text).unwrap());
    assert_eq!(a, b);
}

#[test]
fn missing_field_on_empty_schema() {
    let rec = record(0, vec![1, 2, 3, 4]);
    let mut schema = Schema::new(info("P", vec![]));
    let parser = Parser::create(&rec, &mut schema);
    assert_eq!(parser.try_parse("Anything", Repr::U32).unwrap_err(), ParserError::FieldNotFound);
}

#[test]
fn no_widening_or_narrowing() {
    let mut data = Vec::new();
    data.extend_from_slice(&7i16.to_le_bytes());
    let rec = record(0, data);
    let mut schema = Schema::new(info("P", vec![raw("Small", IN_INT16, OUT_NULL)]));
    let parser = Parser::create(&rec, &mut schema);
    assert_eq!(parser.try_parse("Small", Repr::I32).unwrap_err(), ParserError::TypeMismatch);
    assert_eq!(parser.try_parse("Small", Repr::I8).unwrap_err(), ParserError::TypeMismatch);
    assert!(matches!(parser.try_parse("Small", Repr::I16), Ok(FieldValue::I16(7))));
}

#[test]
fn first_field_of_a_name_wins() {
    let mut data = Vec::new();
    data.extend_from_slice(&5u32.to_le_bytes());
    data.extend_from_slice(&6u32.to_le_bytes());
    let rec = record(0, data);
    let mut schema = Schema::new(info(
        "P",
        vec![raw("Dup", IN_UINT32, OUT_NULL), raw("Dup", IN_UINT32, OUT_NULL)],
    ));
    let parser = Parser::create(&rec, &mut schema);
    assert!(matches!(parser.try_parse("Dup", Repr::U32), Ok(FieldValue::U32(5))));
}

#[test]
fn ip_out_type_takes_precedence() {
    let p = PropertyInfo::Value {
        in_type: TdhInType::InTypeUInt32,
        out_type: TdhOutType::OutTypeIpv4,
        length: 4,
    };
    assert_eq!(p.get_parser(), Some(PropHandler::IpAddr));
    let p6 = PropertyInfo::Value {
        in_type: TdhInType::InTypeBinary,
        out_type: TdhOutType::OutTypeIpv6,
        length: 16,
    };
    assert_eq!(p6.get_parser(), Some(PropHandler::IpAddr));
    let plain = PropertyInfo::Value {
        in_type: TdhInType::InTypeUInt32,
        out_type: TdhOutType::OutTypeNull,
        length: 4,
    };
    assert_eq!(plain.get_parser(), Some(PropHandler::UInt32));
}

#[test]
fn resolver_table() {
    let v = |t| PropertyInfo::Value { in_type: t, out_type: TdhOutType::OutTypeNull, length: 0 };
    let a = |t| PropertyInfo::Array {
        in_type: t,
        out_type: TdhOutType::OutTypeNull,
        length: 0,
        count: 2,
    };
    assert_eq!(v(TdhInType::InTypeHexInt32).get_parser(), Some(PropHandler::Int32));
    assert_eq!(v(TdhInType::InTypeHexInt64).get_parser(), Some(PropHandler::Int64));
    assert_eq!(v(TdhInType::InTypeSid).get_parser(), Some(PropHandler::String));
    assert_eq!(v(TdhInType::InTypeAnsiString).get_parser(), Some(PropHandler::String));
    assert_eq!(v(TdhInType::InTypePointer).get_parser(), Some(PropHandler::Pointer));
    assert_eq!(v(TdhInType::InTypeNull).get_parser(), Some(PropHandler::Null));
    assert_eq!(v(TdhInType::InTypeCountedString).get_parser(), None);
    assert_eq!(a(TdhInType::InTypeUnicodeString).get_parser(), None);
    assert_eq!(a(TdhInType::InTypeGuid).get_parser(), None);
    assert_eq!(a(TdhInType::InTypeBinary).get_parser(), None);
    assert_eq!(a(TdhInType::InTypeInt8).get_parser(), Some(PropHandler::ArrayInt8));
    assert_eq!(a(TdhInType::InTypeUInt64).get_parser(), Some(PropHandler::ArrayUInt64));
    assert_eq!(a(TdhInType::InTypePointer).get_parser(), Some(PropHandler::ArrayPointer));
    // Same inputs, same strategy.
    assert_eq!(v(TdhInType::InTypeDouble).get_parser(), v(TdhInType::InTypeDouble).get_parser());
}

#[test]
fn wire_codes() {
    assert_eq!(TdhInType::from_code(7), Some(TdhInType::InTypeInt32));
    assert_eq!(TdhInType::from_code(300), Some(TdhInType::InTypeCountedString));
    assert_eq!(TdhInType::from_code(999), None);
    assert_eq!(TdhOutType::from_code(23), Some(TdhOutType::OutTypeIpv4));
    assert_eq!(TdhOutType::from_code(24), Some(TdhOutType::OutTypeIpv6));
    assert_eq!(TdhOutType::from_code(999), None);
}

#[test]
fn unknown_wire_type_fails_schema_parse() {
    let raws = vec![raw("Good", IN_UINT32, OUT_NULL), raw("Bad", 999, OUT_NULL)];
    assert_eq!(parse_properties(&raws).unwrap_err(), PropertyError::UnimplementedType(999));
    let raws = vec![raw("BadOut", IN_UINT32, 999)];
    assert_eq!(parse_properties(&raws).unwrap_err(), PropertyError::UnimplementedType(999));
    let ok = parse_properties(&vec![raw("Good", IN_UINT32, OUT_NULL)]).unwrap();
    assert_eq!(ok.len(), 1);
    assert_eq!(ok[0].name, "Good");
}

#[test]
fn schema_memoizes_success() {
    let mut schema = Schema::new(info("P", vec![raw("A", IN_UINT32, OUT_NULL)]));
    let first = schema.try_properties().unwrap();
    assert_eq!(first.len(), 1);
    // The raw list now would fail to parse; the memoized list is still returned.
    schema.te_info.properties = vec![raw("A", 999, OUT_NULL)];
    let second = schema.try_properties().unwrap();
    assert_eq!(second.len(), 1);
    assert_eq!(second[0].name, "A");
    assert_eq!(schema.properties().len(), 1);
}

#[test]
fn schema_memoizes_failure() {
    let mut schema = Schema::new(info("P", vec![raw("A", 999, OUT_NULL)]));
    assert_eq!(schema.try_properties().unwrap_err(), PropertyError::UnimplementedType(999));
    schema.te_info.properties = vec![raw("A", IN_UINT32, OUT_NULL)];
    assert_eq!(schema.try_properties().unwrap_err(), PropertyError::UnimplementedType(999));
    assert!(schema.properties().is_empty());
}

#[test]
fn schema_identity_equality() {
    let a = Schema::new(info("Provider A", vec![raw("A", IN_UINT32, OUT_NULL)]));
    let b = Schema::new(info("Provider B", vec![]));
    assert!(a == b);
    let mut other = info("Provider A", vec![]);
    other.event_version = 1;
    assert!(a != Schema::new(other));
    let mut other = info("Provider A", vec![]);
    other.event_id = 1;
    assert!(a != Schema::new(other));
}

#[test]
fn schema_names() {
    let schema = dns_schema();
    assert_eq!(schema.task_name(), "Task");
    assert_eq!(schema.opcode_name(), "Info");
    assert_eq!(schema.decoding_source(), DecodingSource::DecodingSourceXMLFile);
}

#[test]
fn pointer_follows_record_bitness() {
    let mut data = Vec::new();
    data.extend_from_slice(&0xdead_beefu32.to_le_bytes());
    data.extend_from_slice(&9u32.to_le_bytes());
    let raws = vec![raw("Ptr", IN_POINTER, OUT_NULL), raw("After", IN_UINT32, OUT_NULL)];

    let rec32 = record(0x0020, data.clone());
    assert_eq!(rec32.pointer_size(), 4);
    let mut schema = Schema::new(info("P", raws.clone()));
    let parser = Parser::create(&rec32, &mut schema);
    assert!(matches!(parser.try_parse("Ptr", Repr::U32), Ok(FieldValue::U32(0xdead_beef))));
    assert_eq!(parser.try_parse("Ptr", Repr::U64).unwrap_err(), ParserError::TypeMismatch);
    assert!(matches!(parser.try_parse("After", Repr::U32), Ok(FieldValue::U32(9))));

    let rec64 = record(0x0040, data);
    assert_eq!(rec64.pointer_size(), 8);
    let mut schema = Schema::new(info("P", raws));
    let parser = Parser::create(&rec64, &mut schema);
    assert!(matches!(
        parser.try_parse("Ptr", Repr::U64),
        Ok(FieldValue::U64(0x0000_0009_dead_beef))
    ));
    assert_eq!(parser.try_parse("Ptr", Repr::U32).unwrap_err(), ParserError::TypeMismatch);
    assert_eq!(parser.try_parse("After", Repr::U32).unwrap_err(), ParserError::MalformedBuffer);
}

#[test]
fn truncated_buffer_is_malformed() {
    let rec = record(0, vec![1, 2]);
    let mut schema = Schema::new(info("P", vec![raw("A", IN_UINT32, OUT_NULL)]));
    let parser = Parser::create(&rec, &mut schema);
    assert_eq!(parser.try_parse("A", Repr::U32).unwrap_err(), ParserError::MalformedBuffer);
    let rec = record(0, vec![b'a', 0, b'b']);
    let mut schema = Schema::new(info("P", vec![raw("S", IN_UNICODE, OUT_NULL)]));
    let parser = Parser::create(&rec, &mut schema);
    assert_eq!(parser.try_parse("S", Repr::Text).unwrap_err(), ParserError::MalformedBuffer);
}

#[test]
fn unimplemented_type_is_reported() {
    let rec = record(0, vec![2, 0, b'h', b'i']);
    let mut schema = Schema::new(info("P", vec![raw("C", IN_COUNTED, OUT_NULL)]));
    let parser = Parser::create(&rec, &mut schema);
    assert_eq!(parser.try_parse("C", Repr::Text).unwrap_err(), ParserError::UnimplementedType);
}

#[test]
fn scalar_values_decode() {
    let mut data = Vec::new();
    data.extend_from_slice(&1u32.to_le_bytes()); // Flag
    data.push(0xff); // Tiny
    data.extend_from_slice(&(-5i32).to_le_bytes()); // Hex
    data.extend_from_slice(&u64::MAX.to_le_bytes()); // Big
    data.extend_from_slice(b"ansi\0"); // Ansi
    data.extend_from_slice(&[0x78, 0x56, 0x34, 0x12, 0x34, 0x12, 0x78, 0x56, 1, 2, 3, 4, 5, 6, 7, 8]); // Id
    for part in [2024u16, 5, 3, 9, 13, 45, 30, 500] {
        data.extend_from_slice(&part.to_le_bytes()); // When
    }
    data.extend_from_slice(&[10, 0, 0, 1]); // Addr
    let raws = vec![
        raw("Flag", IN_BOOLEAN, OUT_NULL),
        raw("Tiny", IN_INT8, OUT_NULL),
        raw("Hex", IN_HEXINT32, OUT_NULL),
        raw("Big", IN_UINT64, OUT_NULL),
        raw("Ansi", IN_ANSI, OUT_NULL),
        raw("Id", IN_GUID, OUT_NULL),
        raw("When", IN_SYSTEMTIME, OUT_NULL),
        raw("Addr", IN_UINT32, OUT_IPV4),
    ];
    let rec = record(0, data);
    let mut schema = Schema::new(info("P", raws));
    let parser = Parser::create(&rec, &mut schema);
    assert!(matches!(parser.try_parse("Flag", Repr::Bool), Ok(FieldValue::Bool(true))));
    assert!(matches!(parser.try_parse("Tiny", Repr::I8), Ok(FieldValue::I8(-1))));
    assert!(matches!(parser.try_parse("Hex", Repr::I32), Ok(FieldValue::I32(-5))));
    assert!(matches!(parser.try_parse("Big", Repr::U64), Ok(FieldValue::U64(u64::MAX))));
    assert_eq!(text(parser.try_parse("Ansi", Repr::Text).unwrap()), "ansi");
    match parser.try_parse("Id", Repr::Guid) {
        Ok(FieldValue::Guid(g)) => {
            assert_eq!(g.data1, 0x1234_5678);
            assert_eq!(g.data2, 0x1234);
            assert_eq!(g.data3, 0x5678);
            assert_eq!(g.data4, 0x0807_0605_0403_0201);
        }
        other => panic!("unexpected {:?}", other),
    }
    match parser.try_parse("When", Repr::SystemTime) {
        Ok(FieldValue::SystemTime(t)) => {
            assert_eq!(
                t,
                SystemTime {
                    year: 2024,
                    month: 5,
                    day_of_week: 3,
                    day: 9,
                    hour: 13,
                    minute: 45,
                    second: 30,
                    milliseconds: 500
                }
            );
        }
        other => panic!("unexpected {:?}", other),
    }
    match parser.try_parse("Addr", Repr::IpAddr) {
        Ok(FieldValue::IpAddr(a)) => assert_eq!(a, vec![10, 0, 0, 1]),
        other => panic!("unexpected {:?}", other),
    }
    assert_eq!(parser.try_parse("Addr", Repr::U32).unwrap_err(), ParserError::TypeMismatch);
}

#[test]
fn ipv4_out_type_on_wrong_size_is_malformed() {
    let rec = record(0, vec![1, 2, 3, 4]);
    let mut schema = Schema::new(info("P", vec![raw("Addr", IN_UINT32, OUT_IPV6)]));
    let parser = Parser::create(&rec, &mut schema);
    assert_eq!(parser.try_parse("Addr", Repr::IpAddr).unwrap_err(), ParserError::MalformedBuffer);
}

#[test]
fn binary_and_sid_decode() {
    let mut data = vec![0xaa, 0xbb, 0xcc];
    // S-1-5-21-7
    data.extend_from_slice(&[1, 2, 0, 0, 0, 0, 0, 5]);
    data.extend_from_slice(&21u32.to_le_bytes());
    data.extend_from_slice(&7u32.to_le_bytes());
    let mut bin = raw("Blob", IN_BINARY, OUT_NULL);
    bin.length = 3;
    let rec = record(0, data);
    let mut schema = Schema::new(info("P", vec![bin, raw("User", IN_SID, OUT_NULL)]));
    let parser = Parser::create(&rec, &mut schema);
    match parser.try_parse("Blob", Repr::Binary) {
        Ok(FieldValue::Binary(b)) => assert_eq!(b, vec![0xaa, 0xbb, 0xcc]),
        other => panic!("unexpected {:?}", other),
    }
    assert_eq!(text(parser.try_parse("User", Repr::Text).unwrap()), "S-1-5-21-7");
}

#[test]
fn arrays_decode() {
    let mut data = vec![0xfe, 0x02];
    for v in [-2i16, 300] {
        data.extend_from_slice(&v.to_le_bytes());
    }
    for v in [1u32, 2, 3] {
        data.extend_from_slice(&v.to_le_bytes());
    }
    let raws = vec![
        raw_array("Bytes", IN_INT8, 2),
        raw_array("Shorts", IN_INT16, 2),
        raw_array("Ptrs", IN_POINTER, 3),
    ];
    let rec = record(0x0020, data);
    let mut schema = Schema::new(info("P", raws));
    let parser = Parser::create(&rec, &mut schema);
    match parser.try_parse("Bytes", Repr::ArrayI8) {
        Ok(FieldValue::ArrayI8(v)) => assert_eq!(v, vec![-2, 2]),
        other => panic!("unexpected {:?}", other),
    }
    match parser.try_parse("Shorts", Repr::ArrayI16) {
        Ok(FieldValue::ArrayI16(v)) => assert_eq!(v, vec![-2, 300]),
        other => panic!("unexpected {:?}", other),
    }
    match parser.try_parse("Ptrs", Repr::ArrayU32) {
        Ok(FieldValue::ArrayU32(v)) => assert_eq!(v, vec![1, 2, 3]),
        other => panic!("unexpected {:?}", other),
    }
}

fn mixed_schema() -> Schema {
    Schema::new(info(
        "P",
        vec![raw("Counted", IN_COUNTED, OUT_NULL), raw("Value", IN_UINT32, OUT_NULL)],
    ))
}

fn mixed_record() -> EventRecord {
    let mut data = vec![2, 0, b'h', b'i'];
    data.extend_from_slice(&42u32.to_le_bytes());
    record(0, data)
}

#[test]
fn unimplemented_field_left_out() {
    let rec = mixed_record();
    let mut schema = mixed_schema();
    let fields = event_fields(&rec, &mut schema, false).unwrap();
    assert_eq!(fields.len(), 1);
    assert_eq!(fields[0].0, "Value");
    assert!(matches!(fields[0].1, FieldValue::U32(42)));
}

#[test]
fn unimplemented_field_fails_when_asked() {
    let rec = mixed_record();
    let mut schema = mixed_schema();
    match event_fields(&rec, &mut schema, true) {
        Err(SerError::NotImplemented { name, info }) => {
            assert_eq!(name, "Counted");
            assert!(matches!(
                info,
                PropertyInfo::Value { in_type: TdhInType::InTypeCountedString, .. }
            ));
        }
        other => panic!("unexpected {:?}", other),
    }
}

#[test]
fn schema_error_in_rendering() {
    let rec = mixed_record();
    let mut schema = Schema::new(info("P", vec![raw("A", 999, OUT_NULL)]));
    assert!(event_fields(&rec, &mut schema, false).unwrap().is_empty());
    let mut schema = Schema::new(info("P", vec![raw("A", 999, OUT_NULL)]));
    assert!(matches!(
        event_fields(&rec, &mut schema, true),
        Err(SerError::Schema(PropertyError::UnimplementedType(999)))
    ));
}

#[test]
fn malformed_field_fails_rendering() {
    let rec = record(0, vec![1, 2]);
    let mut schema = Schema::new(info("P", vec![raw("A", IN_UINT32, OUT_NULL)]));
    match event_fields(&rec, &mut schema, false) {
        Err(SerError::Field { name, error }) => {
            assert_eq!(name, "A");
            assert_eq!(error, ParserError::MalformedBuffer);
        }
        other => panic!("unexpected {:?}", other),
    }
}

#[test]
fn serializer_options() {
    let d = EventSerializerOptions::default();
    assert!(d.include_schema && d.include_header && !d.include_extended_data && !d.fail_unimplemented);

    let rec = dns_record();
    let mut schema = Schema::new(info(
        "  Microsoft-Windows-DNS-Client \t",
        vec![raw("QueryName", IN_UNICODE, OUT_NULL), raw("Status", IN_INT32, OUT_NULL)],
    ));
    let ser = EventSerializer::new(&rec, &mut schema, d);
    let names = ser.schema.unwrap();
    assert_eq!(names.provider, "Microsoft-Windows-DNS-Client");
    assert_eq!(names.task, "Task");
    assert_eq!(ser.header.unwrap().process_id, 22);
    let fields = ser.event.unwrap();
    assert_eq!(fields.len(), 2);
    assert_eq!(text(fields[0].1.clone()), TEST_DOMAIN_NAME);

    let opts = EventSerializerOptions {
        include_schema: false,
        include_header: false,
        include_extended_data: true,
        fail_unimplemented: true,
    };
    let ser = EventSerializer::new(&rec, &mut schema, opts);
    assert!(ser.schema.is_none());
    assert!(ser.header.is_none());
    assert!(matches!(ser.event, Err(SerError::ExtendedData)));
}

#[test]
fn descriptors_copy_and_parse() {
    let p = Property::from_raw(&raw("X", IN_INT32, OUT_NULL)).unwrap();
    let q = p.duplicate();
    assert_eq!(q.name, "X");
    assert_eq!(q.info, PropertyInfo::Value {
        in_type: TdhInType::InTypeInt32,
        out_type: TdhOutType::OutTypeNull,
        length: 0
    });
    assert_eq!(q.get_parser(), Some(PropHandler::Int32));
}
