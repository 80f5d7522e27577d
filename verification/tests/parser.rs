use axml_parser::cursor::ByteCursor;
use axml_parser::data_value_type::DataValueType;
use axml_parser::error::DecodeError;
use axml_parser::namespaces::NamespaceTable;
use axml_parser::parser::attribute_key;
use axml_parser::parser::attribute_value;
use axml_parser::parser::decode_attribute;
use axml_parser::parser::decode_attributes;
use axml_parser::parser::node_fields;
use axml_parser::parser::parse_end_element;
use axml_parser::parser::parse_end_namespace;
use axml_parser::parser::parse_start_element;
use axml_parser::parser::parse_start_namespace;
use axml_parser::parser::render_value;
use axml_parser::parser::start_element_at;
use axml_parser::parser::start_tag_attributes;
use axml_parser::parser::string_at;
use axml_parser::parser::NO_INDEX;
use axml_parser::parser::UNHANDLED_VALUE;
use axml_parser::res_value::ResValue;
use axml_parser::xml_types::XmlTypes;

const INT_DEC: u8 = 0x10;
const INT_HEX: u8 = 0x11;
const INT_BOOLEAN: u8 = 0x12;
const REFERENCE: u8 = 0x01;

struct Attr {
    namespace: u32,
    name: u32,
    raw_value: u32,
    kind: u8,
    data: u32,
}

fn node(tag: u16, first: u32, second: u32) -> Vec<u8> {
    let mut bytes = Vec::new();
    bytes.extend_from_slice(&tag.to_le_bytes());
    bytes.extend_from_slice(&16u16.to_le_bytes());
    bytes.extend_from_slice(&24u32.to_le_bytes());
    bytes.extend_from_slice(&7u32.to_le_bytes());
    bytes.extend_from_slice(&NO_INDEX.to_le_bytes());
    bytes.extend_from_slice(&first.to_le_bytes());
    bytes.extend_from_slice(&second.to_le_bytes());
    bytes
}

fn attribute(attr: &Attr) -> Vec<u8> {
    let mut bytes = Vec::new();
    bytes.extend_from_slice(&attr.namespace.to_le_bytes());
    bytes.extend_from_slice(&attr.name.to_le_bytes());
    bytes.extend_from_slice(&attr.raw_value.to_le_bytes());
    bytes.extend_from_slice(&8u16.to_le_bytes());
    bytes.push(0);
    bytes.push(attr.kind);
    bytes.extend_from_slice(&attr.data.to_le_bytes());
    bytes
}

fn start_element(namespace: u32, name: u32, attrs: &[Attr]) -> Vec<u8> {
    let mut bytes = Vec::new();
    bytes.extend_from_slice(&0x0102u16.to_le_bytes());
    bytes.extend_from_slice(&16u16.to_le_bytes());
    bytes.extend_from_slice(&((36 + 20 * attrs.len()) as u32).to_le_bytes());
    bytes.extend_from_slice(&3u32.to_le_bytes());
    bytes.extend_from_slice(&NO_INDEX.to_le_bytes());
    bytes.extend_from_slice(&namespace.to_le_bytes());
    bytes.extend_from_slice(&name.to_le_bytes());
    bytes.extend_from_slice(&0x0014_0014u32.to_le_bytes());
    bytes.extend_from_slice(&(attrs.len() as u16).to_le_bytes());
    bytes.extend_from_slice(&0u16.to_le_bytes());
    bytes.extend_from_slice(&0u16.to_le_bytes());
    bytes.extend_from_slice(&0u16.to_le_bytes());
    for attr in attrs {
        bytes.extend(attribute(attr));
    }
    bytes
}

fn strings() -> Vec<String> {
    [
        "manifest",
        "package",
        "com.example.app",
        "android",
        "http://schemas.android.com/apk/res/android",
        "name",
        "tools",
        "http://schemas.android.com/tools",
    ]
    .iter()
    .map(|s| s.to_string())
    .collect()
}

fn android() -> NamespaceTable {
    let mut table = NamespaceTable::new();
    table.insert(
        "http://schemas.android.com/apk/res/android".to_string(),
        "android".to_string(),
    );
    table
}

fn value(kind: DataValueType, data: u32) -> ResValue {
    ResValue {
        size: 8,
        res0: 0,
        data_type: kind,
        data,
    }
}

fn pair(key: &str, value: &str) -> (String, String) {
    (key.to_string(), value.to_string())
}

#[test]
fn string_lookup_by_index() {
    let strings = strings();
    assert_eq!(string_at(&strings, 0), Ok(&"manifest".to_string()));
    assert_eq!(string_at(&strings, 7).unwrap(), "http://schemas.android.com/tools");
    assert_eq!(
        string_at(&strings, 8),
        Err(DecodeError::StringIndexOutOfRange(8))
    );
    assert_eq!(
        string_at(&[], 0),
        Err(DecodeError::StringIndexOutOfRange(0))
    );
}

#[test]
fn sentinel_is_never_a_string_index() {
    let strings = strings();
    assert_eq!(NO_INDEX, 0xffff_ffff);
    assert_eq!(
        string_at(&strings, NO_INDEX),
        Err(DecodeError::StringIndexOutOfRange(0xffff_ffff))
    );
    assert_eq!(
        string_at(&[], NO_INDEX),
        Err(DecodeError::StringIndexOutOfRange(0xffff_ffff))
    );
}

#[test]
fn typed_values_are_rendered() {
    assert_eq!(render_value(&value(DataValueType::TypeIntDec, 0)), "0");
    assert_eq!(render_value(&value(DataValueType::TypeIntDec, 7)), "7");
    assert_eq!(render_value(&value(DataValueType::TypeIntDec, 10)), "10");
    assert_eq!(render_value(&value(DataValueType::TypeIntDec, 1234567890)), "1234567890");
    assert_eq!(render_value(&value(DataValueType::TypeIntDec, u32::MAX)), "4294967295");
    assert_eq!(render_value(&value(DataValueType::TypeIntHex, 0)), "0x0");
    assert_eq!(render_value(&value(DataValueType::TypeIntHex, 15)), "0xf");
    assert_eq!(render_value(&value(DataValueType::TypeIntHex, 16)), "0x10");
    assert_eq!(render_value(&value(DataValueType::TypeIntHex, 255)), "0xff");
    assert_eq!(render_value(&value(DataValueType::TypeIntHex, 0xdead_beef)), "0xdeadbeef");
    assert_eq!(render_value(&value(DataValueType::TypeIntHex, u32::MAX)), "0xffffffff");
    assert_eq!(render_value(&value(DataValueType::TypeIntBoolean, 0)), "false");
    assert_eq!(render_value(&value(DataValueType::TypeIntBoolean, 1)), "true");
    assert_eq!(render_value(&value(DataValueType::TypeIntBoolean, 2)), "true");
    assert_eq!(render_value(&value(DataValueType::TypeIntBoolean, u32::MAX)), "true");
    assert_eq!(render_value(&value(DataValueType::TypeReference, 0)), "type1/0");
    assert_eq!(
        render_value(&value(DataValueType::TypeReference, 0x7f01_0000)),
        "type1/2130771968"
    );
}

#[test]
fn other_kinds_are_rendered_as_unhandled() {
    assert_eq!(UNHANDLED_VALUE, "@unhandled");
    for kind in [
        DataValueType::TypeNull,
        DataValueType::TypeAttribute,
        DataValueType::TypeString,
        DataValueType::TypeFloat,
        DataValueType::TypeDimension,
        DataValueType::TypeFraction,
        DataValueType::TypeDynamicReference,
        DataValueType::TypeDynamicAttribute,
        DataValueType::TypeIntColorArgb8,
        DataValueType::TypeIntColorRgb8,
        DataValueType::TypeIntColorArgb4,
        DataValueType::TypeIntColorRgb4,
    ] {
        assert_eq!(render_value(&value(kind, 5)), UNHANDLED_VALUE);
    }
}

#[test]
fn attribute_key_with_and_without_namespace() {
    let strings = strings();
    let table = android();
    assert_eq!(attribute_key(&strings, &table, NO_INDEX, 1).unwrap(), "package");
    assert_eq!(attribute_key(&strings, &table, 4, 5).unwrap(), "android:name");
    assert_eq!(
        attribute_key(&strings, &table, 7, 5),
        Err(DecodeError::UnresolvedNamespace)
    );
    assert_eq!(
        attribute_key(&strings, &table, 100, 5),
        Err(DecodeError::StringIndexOutOfRange(100))
    );
    assert_eq!(
        attribute_key(&strings, &table, 4, 100),
        Err(DecodeError::StringIndexOutOfRange(100))
    );
    assert_eq!(
        attribute_key(&strings, &table, NO_INDEX, NO_INDEX),
        Err(DecodeError::StringIndexOutOfRange(NO_INDEX))
    );
    // The namespace is resolved before the name.
    assert_eq!(
        attribute_key(&strings, &table, 7, 100),
        Err(DecodeError::UnresolvedNamespace)
    );
}

#[test]
fn raw_value_wins_over_typed_value() {
    let strings = strings();
    let typed = value(DataValueType::TypeIntDec, 42);
    assert_eq!(attribute_value(&strings, 2, &typed).unwrap(), "com.example.app");
    let typed = value(DataValueType::TypeIntBoolean, 0);
    assert_eq!(attribute_value(&strings, 2, &typed).unwrap(), "com.example.app");
    let typed = value(DataValueType::TypeString, 5);
    assert_eq!(attribute_value(&strings, 2, &typed).unwrap(), "com.example.app");
    let typed = value(DataValueType::TypeIntDec, 42);
    assert_eq!(attribute_value(&strings, NO_INDEX, &typed).unwrap(), "42");
    assert_eq!(
        attribute_value(&strings, 50, &typed),
        Err(DecodeError::StringIndexOutOfRange(50))
    );
}

#[test]
fn raw_value_wins_in_the_stream() {
    let strings = strings();
    let bytes = start_element(
        NO_INDEX,
        0,
        &[Attr { namespace: NO_INDEX, name: 1, raw_value: 2, kind: INT_HEX, data: 255 }],
    );
    let mut cursor = ByteCursor::new(bytes);
    let (name, attrs) = parse_start_element(&mut cursor, &strings, &android()).unwrap();
    assert_eq!(name, "manifest");
    assert_eq!(attrs, vec![pair("package", "com.example.app")]);
}

#[test]
fn boolean_attribute_without_raw_value() {
    let strings = strings();
    for (data, expected) in [(1u32, "true"), (0, "false")] {
        let bytes = start_element(
            NO_INDEX,
            0,
            &[Attr { namespace: NO_INDEX, name: 5, raw_value: NO_INDEX, kind: INT_BOOLEAN, data }],
        );
        let mut cursor = ByteCursor::new(bytes);
        let (_, attrs) = parse_start_element(&mut cursor, &strings, &android()).unwrap();
        assert_eq!(attrs, vec![pair("name", expected)]);
    }
}

#[test]
fn hex_attribute_without_raw_value() {
    let strings = strings();
    let bytes = start_element(
        NO_INDEX,
        0,
        &[Attr { namespace: NO_INDEX, name: 5, raw_value: NO_INDEX, kind: INT_HEX, data: 255 }],
    );
    let mut cursor = ByteCursor::new(bytes);
    let (_, attrs) = parse_start_element(&mut cursor, &strings, &android()).unwrap();
    assert_eq!(attrs, vec![pair("name", "0xff")]);
}

#[test]
fn attributes_keep_their_order() {
    let strings = strings();
    let attrs = [
        Attr { namespace: 4, name: 5, raw_value: 2, kind: 0x03, data: 2 },
        Attr { namespace: NO_INDEX, name: 1, raw_value: NO_INDEX, kind: INT_DEC, data: 33 },
        Attr { namespace: 4, name: 1, raw_value: NO_INDEX, kind: REFERENCE, data: 9 },
        Attr { namespace: NO_INDEX, name: 0, raw_value: NO_INDEX, kind: 0x04, data: 9 },
    ];
    let mut bytes = start_element(4, 0, &attrs);
    bytes.extend_from_slice(&[0xaa; 3]);
    let mut cursor = ByteCursor::new(bytes);
    let (name, decoded) = parse_start_element(&mut cursor, &strings, &android()).unwrap();
    assert_eq!(name, "manifest");
    assert_eq!(
        decoded,
        vec![
            pair("android:name", "com.example.app"),
            pair("package", "33"),
            pair("android:package", "type1/9"),
            pair("manifest", "@unhandled"),
        ]
    );
    assert_eq!(cursor.position(), 36 + 4 * 20);
}

#[test]
fn element_without_attributes() {
    let strings = strings();
    let bytes = start_element(NO_INDEX, 5, &[]);
    let mut cursor = ByteCursor::new(bytes);
    let (name, attrs) = parse_start_element(&mut cursor, &strings, &NamespaceTable::new()).unwrap();
    assert_eq!(name, "name");
    assert_eq!(attrs, Vec::new());
    assert_eq!(cursor.position(), 36);
}

#[test]
fn element_namespace_is_not_resolved() {
    // The element's own namespace index is read and not looked up.
    let strings = strings();
    let bytes = start_element(7, 0, &[]);
    let mut cursor = ByteCursor::new(bytes);
    let (name, _) = parse_start_element(&mut cursor, &strings, &NamespaceTable::new()).unwrap();
    assert_eq!(name, "manifest");
    let bytes = start_element(1000, 0, &[]);
    let mut cursor = ByteCursor::new(bytes);
    assert!(parse_start_element(&mut cursor, &strings, &NamespaceTable::new()).is_ok());
}

#[test]
fn namespace_registered_earlier_resolves_to_its_prefix() {
    let strings = strings();
    let mut bytes = node(0x0100, 3, 4);
    bytes.extend(start_element(
        NO_INDEX,
        0,
        &[Attr { namespace: 4, name: 5, raw_value: 2, kind: 0x03, data: 2 }],
    ));
    let mut cursor = ByteCursor::new(bytes);
    let mut table = NamespaceTable::new();
    assert_eq!(parse_start_namespace(&mut cursor, &strings, &mut table), Ok(()));
    assert_eq!(cursor.position(), 24);
    assert_eq!(
        table.get("http://schemas.android.com/apk/res/android"),
        Some(&"android".to_string())
    );
    let (_, attrs) = parse_start_element(&mut cursor, &strings, &table).unwrap();
    assert_eq!(attrs, vec![pair("android:name", "com.example.app")]);
}

#[test]
fn unregistered_namespace_is_unresolved() {
    let strings = strings();
    let bytes = start_element(
        NO_INDEX,
        0,
        &[Attr { namespace: 7, name: 5, raw_value: 2, kind: 0x03, data: 2 }],
    );
    let mut cursor = ByteCursor::new(bytes.clone());
    assert_eq!(
        parse_start_element(&mut cursor, &strings, &android()).unwrap_err(),
        DecodeError::UnresolvedNamespace
    );
    assert_eq!(cursor.position(), 0);
    let mut table = android();
    table.insert("http://schemas.android.com/tools".to_string(), "tools".to_string());
    let mut cursor = ByteCursor::new(bytes);
    let (_, attrs) = parse_start_element(&mut cursor, &strings, &table).unwrap();
    assert_eq!(attrs, vec![pair("tools:name", "com.example.app")]);
}

#[test]
fn start_namespace_binds_prefix_to_uri() {
    let strings = strings();
    let mut cursor = ByteCursor::new(node(0x0100, 6, 7));
    let mut table = android();
    assert_eq!(parse_start_namespace(&mut cursor, &strings, &mut table), Ok(()));
    assert_eq!(table.get("http://schemas.android.com/tools"), Some(&"tools".to_string()));
    assert_eq!(
        table.get("http://schemas.android.com/apk/res/android"),
        Some(&"android".to_string())
    );
    assert_eq!(table.get("tools"), None);
    assert_eq!(cursor.position(), 24);
}

#[test]
fn start_namespace_with_bad_index_changes_nothing() {
    let strings = strings();
    for (prefix, uri, bad) in [(100u32, 7u32, 100u32), (6, 200, 200), (100, 200, 100), (NO_INDEX, 7, NO_INDEX), (6, NO_INDEX, NO_INDEX)] {
        let mut cursor = ByteCursor::new(node(0x0100, prefix, uri));
        let mut table = NamespaceTable::new();
        assert_eq!(
            parse_start_namespace(&mut cursor, &strings, &mut table),
            Err(DecodeError::StringIndexOutOfRange(bad))
        );
        assert_eq!(cursor.position(), 0);
        assert_eq!(table.get("http://schemas.android.com/tools"), None);
    }
}

#[test]
fn start_namespace_of_another_type_is_unexpected() {
    let strings = strings();
    let mut cursor = ByteCursor::new(node(0x0101, 6, 7));
    let mut table = NamespaceTable::new();
    assert_eq!(
        parse_start_namespace(&mut cursor, &strings, &mut table),
        Err(DecodeError::UnexpectedChunkType {
            expected: XmlTypes::ResXmlStartNamespaceType,
            found: XmlTypes::ResXmlEndNamespaceType
        })
    );
}

#[test]
fn end_namespace_is_stepped_over() {
    let strings = strings();
    let mut bytes = node(0x0101, 6, 7);
    bytes.push(0);
    let mut cursor = ByteCursor::new(bytes);
    assert_eq!(parse_end_namespace(&mut cursor, &strings), Ok(()));
    assert_eq!(cursor.position(), 24);
    // Its indices are not resolved.
    let mut cursor = ByteCursor::new(node(0x0101, 1000, NO_INDEX));
    assert_eq!(parse_end_namespace(&mut cursor, &strings), Ok(()));
    let mut cursor = ByteCursor::new(node(0x0101, 6, 7)[..23].to_vec());
    assert_eq!(
        parse_end_namespace(&mut cursor, &strings),
        Err(DecodeError::UnexpectedEof)
    );
    assert_eq!(cursor.position(), 0);
}

#[test]
fn end_element_gives_the_name() {
    let strings = strings();
    let mut cursor = ByteCursor::new(node(0x0103, NO_INDEX, 0));
    assert_eq!(parse_end_element(&mut cursor, &strings), Ok("manifest".to_string()));
    assert_eq!(cursor.position(), 24);
    let mut cursor = ByteCursor::new(node(0x0103, NO_INDEX, 8));
    assert_eq!(
        parse_end_element(&mut cursor, &strings),
        Err(DecodeError::StringIndexOutOfRange(8))
    );
    assert_eq!(cursor.position(), 0);
    let mut cursor = ByteCursor::new(node(0x0103, 0, NO_INDEX));
    assert_eq!(
        parse_end_element(&mut cursor, &strings),
        Err(DecodeError::StringIndexOutOfRange(NO_INDEX))
    );
    let mut cursor = ByteCursor::new(node(0x0102, NO_INDEX, 0));
    assert_eq!(
        parse_end_element(&mut cursor, &strings),
        Err(DecodeError::UnexpectedChunkType {
            expected: XmlTypes::ResXmlEndElementType,
            found: XmlTypes::ResXmlStartElementType
        })
    );
}

#[test]
fn malformed_node_header_is_rejected() {
    let strings = strings();
    let mut bytes = node(0x0103, NO_INDEX, 0);
    bytes[2] = 4;
    let mut cursor = ByteCursor::new(bytes);
    assert_eq!(
        parse_end_element(&mut cursor, &strings),
        Err(DecodeError::MalformedHeader)
    );
}

#[test]
fn node_fields_are_the_fifth_and_sixth_words() {
    let bytes = node(0x0100, 0x1122_3344, 0x5566_7788);
    assert_eq!(
        node_fields(&bytes, 0, XmlTypes::ResXmlStartNamespaceType),
        Ok((0x1122_3344, 0x5566_7788))
    );
    for keep in 8..24 {
        assert_eq!(
            node_fields(&bytes[..keep], 0, XmlTypes::ResXmlStartNamespaceType),
            Err(DecodeError::UnexpectedEof)
        );
    }
}

#[test]
fn truncated_start_element_is_eof() {
    let strings = strings();
    let whole = start_element(
        NO_INDEX,
        0,
        &[
            Attr { namespace: NO_INDEX, name: 1, raw_value: 2, kind: INT_DEC, data: 1 },
            Attr { namespace: NO_INDEX, name: 5, raw_value: 2, kind: INT_DEC, data: 1 },
        ],
    );
    for keep in 8..whole.len() {
        let mut cursor = ByteCursor::new(whole[..keep].to_vec());
        assert_eq!(
            parse_start_element(&mut cursor, &strings, &android()).unwrap_err(),
            DecodeError::UnexpectedEof
        );
        assert_eq!(cursor.position(), 0);
    }
}

#[test]
fn nonzero_reserved_byte_in_an_attribute() {
    let strings = strings();
    let mut bytes = start_element(
        NO_INDEX,
        0,
        &[Attr { namespace: NO_INDEX, name: 1, raw_value: 2, kind: INT_DEC, data: 1 }],
    );
    bytes[36 + 14] = 1;
    let mut cursor = ByteCursor::new(bytes);
    assert_eq!(
        parse_start_element(&mut cursor, &strings, &android()).unwrap_err(),
        DecodeError::InvariantViolation
    );
}

#[test]
fn errors_come_in_the_order_of_the_stream() {
    let strings = strings();
    // The first attribute's bad name comes before the second's namespace.
    let bytes = start_element(
        NO_INDEX,
        0,
        &[
            Attr { namespace: NO_INDEX, name: 99, raw_value: 2, kind: INT_DEC, data: 1 },
            Attr { namespace: 7, name: 5, raw_value: 2, kind: INT_DEC, data: 1 },
        ],
    );
    let mut cursor = ByteCursor::new(bytes);
    assert_eq!(
        parse_start_element(&mut cursor, &strings, &android()).unwrap_err(),
        DecodeError::StringIndexOutOfRange(99)
    );
    // An attribute's error comes before the element's own bad name.
    let bytes = start_element(
        NO_INDEX,
        98,
        &[Attr { namespace: 7, name: 5, raw_value: 2, kind: INT_DEC, data: 1 }],
    );
    let mut cursor = ByteCursor::new(bytes);
    assert_eq!(
        parse_start_element(&mut cursor, &strings, &android()).unwrap_err(),
        DecodeError::UnresolvedNamespace
    );
    // Within an attribute: key before value.
    let bytes = start_element(
        NO_INDEX,
        0,
        &[Attr { namespace: NO_INDEX, name: 97, raw_value: 96, kind: INT_DEC, data: 1 }],
    );
    let mut cursor = ByteCursor::new(bytes);
    assert_eq!(
        parse_start_element(&mut cursor, &strings, &android()).unwrap_err(),
        DecodeError::StringIndexOutOfRange(97)
    );
    let bytes = start_element(NO_INDEX, 98, &[]);
    let mut cursor = ByteCursor::new(bytes);
    assert_eq!(
        parse_start_element(&mut cursor, &strings, &android()).unwrap_err(),
        DecodeError::StringIndexOutOfRange(98)
    );
}

#[test]
fn attribute_records_are_decoded_without_a_cursor() {
    let strings = strings();
    let table = android();
    let first = Attr { namespace: 4, name: 5, raw_value: NO_INDEX, kind: INT_DEC, data: 12 };
    let second = Attr { namespace: NO_INDEX, name: 1, raw_value: 2, kind: INT_DEC, data: 12 };
    let mut bytes = vec![0u8; 2];
    bytes.extend(attribute(&first));
    bytes.extend(attribute(&second));
    assert_eq!(
        decode_attribute(&bytes, 2, &strings, &table),
        Ok(pair("android:name", "12"))
    );
    assert_eq!(
        decode_attributes(&bytes, 2, 2, &strings, &table),
        Ok(vec![pair("android:name", "12"), pair("package", "com.example.app")])
    );
    assert_eq!(decode_attributes(&bytes, 2, 0, &strings, &table), Ok(Vec::new()));
    assert_eq!(decode_attributes(&bytes, 1000, 0, &strings, &table), Ok(Vec::new()));
    assert_eq!(
        decode_attributes(&bytes, 2, 3, &strings, &table),
        Err(DecodeError::UnexpectedEof)
    );
    let element = start_element(NO_INDEX, 0, &[first]);
    assert_eq!(
        start_element_at(&element, 0, &strings, &table),
        Ok(("manifest".to_string(), vec![pair("android:name", "12")]))
    );
}

#[test]
fn manifest_start_tag_declares_the_android_namespace() {
    let own = vec![pair("package", "com.example.app"), pair("android:versionCode", "1")];
    let attrs = start_tag_attributes("manifest", own.clone(), &android());
    assert_eq!(
        attrs,
        vec![
            pair("xmlns:android", "http://schemas.android.com/apk/res/android"),
            pair("package", "com.example.app"),
            pair("android:versionCode", "1"),
        ]
    );
    assert_eq!(start_tag_attributes("application", own.clone(), &android()), own);
    assert_eq!(start_tag_attributes("manifest", own.clone(), &NamespaceTable::new()), own);
    let mut tools = NamespaceTable::new();
    tools.insert("http://schemas.android.com/tools".to_string(), "tools".to_string());
    assert_eq!(start_tag_attributes("manifest", own.clone(), &tools), own);
    assert_eq!(
        start_tag_attributes("manifest", Vec::new(), &android()),
        vec![pair("xmlns:android", "http://schemas.android.com/apk/res/android")]
    );
}
