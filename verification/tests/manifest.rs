use axml_parser::cursor::ByteCursor;
use axml_parser::decoder::next_event;
use axml_parser::decoder::XmlEvent;
use axml_parser::error::DecodeError;
use axml_parser::get_manifest_contents;
use axml_parser::manifest::first_value;
use axml_parser::namespaces::NamespaceTable;
use axml_parser::parse_app_manifest;
use axml_parser::xml_types::XmlTypes;
use axml_parser::ManifestContents;

const NO_INDEX: u32 = 0xffff_ffff;

struct Attr {
    namespace: u32,
    name: u32,
    raw_value: u32,
    kind: u8,
    data: u32,
}

fn utf16_pool(strings: &[&str]) -> Vec<u8> {
    let strings_start = 28 + 4 * strings.len();
    let mut offsets = Vec::new();
    let mut data = Vec::new();
    for text in strings {
        offsets.push(data.len() as u32);
        let units: Vec<u16> = text.encode_utf16().collect();
        data.extend_from_slice(&(units.len() as u16).to_le_bytes());
        for unit in units {
            data.extend_from_slice(&unit.to_le_bytes());
        }
        data.extend_from_slice(&[0, 0]);
    }
    while data.len() % 4 != 0 {
        data.push(0);
    }
    let mut bytes = Vec::new();
    bytes.extend_from_slice(&0x0001u16.to_le_bytes());
    bytes.extend_from_slice(&28u16.to_le_bytes());
    bytes.extend_from_slice(&((strings_start + data.len()) as u32).to_le_bytes());
    bytes.extend_from_slice(&(strings.len() as u32).to_le_bytes());
    bytes.extend_from_slice(&0u32.to_le_bytes());
    bytes.extend_from_slice(&0u32.to_le_bytes());
    bytes.extend_from_slice(&(strings_start as u32).to_le_bytes());
    bytes.extend_from_slice(&0u32.to_le_bytes());
    for offset in offsets {
        bytes.extend_from_slice(&offset.to_le_bytes());
    }
    bytes.extend(data);
    bytes
}

fn node(tag: u16, first: u32, second: u32) -> Vec<u8> {
    let mut bytes = Vec::new();
    bytes.extend_from_slice(&tag.to_le_bytes());
    bytes.extend_from_slice(&16u16.to_le_bytes());
    bytes.extend_from_slice(&24u32.to_le_bytes());
    bytes.extend_from_slice(&1u32.to_le_bytes());
    bytes.extend_from_slice(&NO_INDEX.to_le_bytes());
    bytes.extend_from_slice(&first.to_le_bytes());
    bytes.extend_from_slice(&second.to_le_bytes());
    bytes
}

fn start_element(name: u32, attrs: &[Attr]) -> Vec<u8> {
    let mut bytes = Vec::new();
    bytes.extend_from_slice(&0x0102u16.to_le_bytes());
    bytes.extend_from_slice(&16u16.to_le_bytes());
    bytes.extend_from_slice(&((36 + 20 * attrs.len()) as u32).to_le_bytes());
    bytes.extend_from_slice(&1u32.to_le_bytes());
    bytes.extend_from_slice(&NO_INDEX.to_le_bytes());
    bytes.extend_from_slice(&NO_INDEX.to_le_bytes());
    bytes.extend_from_slice(&name.to_le_bytes());
    bytes.extend_from_slice(&0x0014_0014u32.to_le_bytes());
    bytes.extend_from_slice(&(attrs.len() as u16).to_le_bytes());
    bytes.extend_from_slice(&[0; 6]);
    for attr in attrs {
        bytes.extend_from_slice(&attr.namespace.to_le_bytes());
        bytes.extend_from_slice(&attr.name.to_le_bytes());
        bytes.extend_from_slice(&attr.raw_value.to_le_bytes());
        bytes.extend_from_slice(&8u16.to_le_bytes());
        bytes.push(0);
        bytes.push(attr.kind);
        bytes.extend_from_slice(&attr.data.to_le_bytes());
    }
    bytes
}

fn end_element(name: u32) -> Vec<u8> {
    node(0x0103, NO_INDEX, name)
}

fn document(chunks: &[Vec<u8>]) -> Vec<u8> {
    let body: usize = chunks.iter().map(|c| c.len()).sum();
    let mut bytes = Vec::new();
    bytes.extend_from_slice(&0x0003u16.to_le_bytes());
    bytes.extend_from_slice(&8u16.to_le_bytes());
    bytes.extend_from_slice(&((8 + body) as u32).to_le_bytes());
    for chunk in chunks {
        bytes.extend_from_slice(chunk);
    }
    bytes
}

fn pair(key: &str, value: &str) -> (String, String) {
    (key.to_string(), value.to_string())
}

fn owned(strings: &[&str]) -> Vec<String> {
    strings.iter().map(|s| s.to_string()).collect()
}

fn small_document() -> Vec<u8> {
    let mut bytes = utf16_pool(&[
        "manifest",
        "package",
        "com.example.app",
        "android",
        "http://schemas.android.com/apk/res/android",
    ]);
    bytes.extend(node(0x0100, 3, 4));
    bytes.extend(start_element(
        0,
        &[Attr { namespace: NO_INDEX, name: 1, raw_value: 2, kind: 0x03, data: 2 }],
    ));
    bytes.extend(end_element(0));
    bytes.extend(node(0x0101, 3, 4));
    bytes
}

#[test]
fn small_document_reports_the_manifest_element() {
    let mut cursor = ByteCursor::new(small_document());
    let mut strings = Vec::new();
    let mut namespaces = NamespaceTable::new();
    let mut starts = Vec::new();
    let mut ends = Vec::new();
    let mut chunks = Vec::new();
    while let Some(event) = next_event(&mut cursor, &mut strings, &mut namespaces).unwrap() {
        match event {
            XmlEvent::StartElement { name, attributes } => starts.push((name, attributes)),
            XmlEvent::EndElement { name } => ends.push(name),
            XmlEvent::Chunk(chunk_type) => chunks.push(chunk_type),
        }
    }
    assert_eq!(
        starts,
        vec![("manifest".to_string(), vec![pair("package", "com.example.app")])]
    );
    assert_eq!(ends, owned(&["manifest"]));
    assert_eq!(
        chunks,
        vec![
            XmlTypes::ResStringPoolType,
            XmlTypes::ResXmlStartNamespaceType,
            XmlTypes::ResXmlEndNamespaceType,
        ]
    );
    assert_eq!(strings.len(), 5);
    assert_eq!(
        namespaces.get("http://schemas.android.com/apk/res/android"),
        Some(&"android".to_string())
    );
    assert_eq!(cursor.position(), cursor.get_ref().len());
}

#[test]
fn small_document_gives_the_package_name() {
    let contents = parse_app_manifest(small_document()).unwrap();
    assert_eq!(contents.pkg_name, "com.example.app");
    assert_eq!(contents.activities, Vec::<String>::new());
    assert_eq!(contents.main_entry_point, None);
}

fn full_document() -> Vec<u8> {
    let pool = utf16_pool(&[
        "name",                                       // 0
        "android",                                    // 1
        "http://schemas.android.com/apk/res/android", // 2
        "manifest",                                   // 3
        "package",                                    // 4
        "com.example.app",                            // 5
        "application",                                // 6
        "activity",                                   // 7
        ".Settings",                                  // 8
        ".Main",                                      // 9
        "intent-filter",                              // 10
        "action",                                     // 11
        "android.intent.action.MAIN",                 // 12
        "android.intent.action.VIEW",                 // 13
        "service",                                    // 14
        ".Sync",                                      // 15
        "provider",                                   // 16
        ".Files",                                     // 17
        "receiver",                                   // 18
        ".Boot",                                      // 19
        "permission",                                 // 20
        "com.example.app.WRITE",                      // 21
        "uses-permission",                            // 22
        "android.permission.INTERNET",                // 23
        "android.permission.CAMERA",                  // 24
        ".Other",                                     // 25
    ]);
    let named = |tag: u32, name: u32| {
        start_element(
            tag,
            &[Attr { namespace: 2, name: 0, raw_value: name, kind: 0x03, data: name }],
        )
    };
    let mut resource_map = Vec::new();
    resource_map.extend_from_slice(&0x0180u16.to_le_bytes());
    resource_map.extend_from_slice(&8u16.to_le_bytes());
    resource_map.extend_from_slice(&12u32.to_le_bytes());
    resource_map.extend_from_slice(&0x0101_0003u32.to_le_bytes());
    document(&[
        pool,
        resource_map,
        node(0x0100, 1, 2),
        start_element(
            3,
            &[
                Attr { namespace: 2, name: 0, raw_value: NO_INDEX, kind: 0x10, data: 3 },
                Attr { namespace: NO_INDEX, name: 4, raw_value: 5, kind: 0x03, data: 5 },
            ],
        ),
        named(22, 23),
        end_element(22),
        named(22, 24),
        end_element(22),
        named(20, 21),
        end_element(20),
        start_element(6, &[]),
        named(7, 8),
        start_element(10, &[]),
        named(11, 13),
        end_element(11),
        end_element(10),
        end_element(7),
        named(7, 9),
        start_element(10, &[]),
        named(11, 12),
        end_element(11),
        end_element(10),
        end_element(7),
        named(7, 25),
        end_element(7),
        named(14, 15),
        end_element(14),
        named(16, 17),
        end_element(16),
        named(18, 19),
        end_element(18),
        start_element(7, &[]),
        end_element(7),
        end_element(6),
        end_element(3),
        node(0x0101, 1, 2),
    ])
}

#[test]
fn full_document_is_collected() {
    let contents = get_manifest_contents(ByteCursor::new(full_document())).unwrap();
    assert_eq!(contents.pkg_name, "com.example.app");
    assert_eq!(contents.activities, owned(&[".Settings", ".Main", ".Other", ""]));
    assert_eq!(contents.services, owned(&[".Sync"]));
    assert_eq!(contents.providers, owned(&[".Files"]));
    assert_eq!(contents.receivers, owned(&[".Boot"]));
    assert_eq!(contents.created_perms, owned(&["com.example.app.WRITE"]));
    assert_eq!(
        contents.requested_perms,
        owned(&["android.permission.INTERNET", "android.permission.CAMERA"])
    );
    assert_eq!(contents.main_entry_point, Some(".Main".to_string()));
}

#[test]
fn pass_starts_at_the_cursor() {
    let mut bytes = vec![0x99u8; 5];
    bytes.extend(small_document());
    let mut cursor = ByteCursor::new(bytes);
    cursor.set_position(5);
    let contents = get_manifest_contents(cursor).unwrap();
    assert_eq!(contents.pkg_name, "com.example.app");
}

#[test]
fn empty_buffer_gives_empty_contents() {
    let contents = parse_app_manifest(Vec::new()).unwrap();
    assert_eq!(contents.pkg_name, "");
    assert!(contents.activities.is_empty());
    assert!(contents.services.is_empty());
    assert!(contents.providers.is_empty());
    assert!(contents.receivers.is_empty());
    assert!(contents.created_perms.is_empty());
    assert!(contents.requested_perms.is_empty());
    assert_eq!(contents.main_entry_point, None);
}

#[test]
fn one_byte_left_over_ends_the_pass() {
    let mut bytes = small_document();
    bytes.push(0x01);
    let contents = parse_app_manifest(bytes).unwrap();
    assert_eq!(contents.pkg_name, "com.example.app");
}

#[test]
fn null_tags_are_stepped_over() {
    let mut bytes = vec![0u8; 6];
    bytes.extend(small_document());
    bytes.extend_from_slice(&[0, 0, 0, 0]);
    let contents = parse_app_manifest(bytes).unwrap();
    assert_eq!(contents.pkg_name, "com.example.app");
}

#[test]
fn unknown_tag_halts_the_pass() {
    let mut bytes = small_document();
    bytes.extend_from_slice(&[0x99, 0x00, 0x08, 0x00, 0x08, 0x00, 0x00, 0x00]);
    assert_eq!(
        parse_app_manifest(bytes).unwrap_err(),
        DecodeError::UnknownChunkType(0x0099)
    );
    let mut cursor = ByteCursor::new(vec![0x99, 0x00, 0x08, 0x00, 0x08, 0x00, 0x00, 0x00]);
    let mut strings = Vec::new();
    let mut namespaces = NamespaceTable::new();
    assert_eq!(
        next_event(&mut cursor, &mut strings, &mut namespaces).unwrap_err(),
        DecodeError::UnknownChunkType(0x0099)
    );
    assert_eq!(cursor.position(), 0);
}

#[test]
fn chunk_kinds_that_are_not_decoded_are_refused() {
    for (tag, kind) in [
        (0x0104u16, XmlTypes::ResXmlCDataType),
        (0x017f, XmlTypes::ResXmlLastChunkType),
        (0x0200, XmlTypes::ResTablePackageType),
        (0x0201, XmlTypes::ResTableTypeType),
        (0x0202, XmlTypes::ResTableTypeSpecType),
        (0x0203, XmlTypes::ResTableLibraryType),
    ] {
        let mut bytes = small_document();
        bytes.extend_from_slice(&tag.to_le_bytes());
        bytes.extend_from_slice(&[0x08, 0x00, 0x08, 0x00, 0x00, 0x00]);
        assert_eq!(
            parse_app_manifest(bytes).unwrap_err(),
            DecodeError::UnsupportedChunk(kind)
        );
    }
}

#[test]
fn error_in_a_chunk_aborts_the_pass() {
    let mut bytes = small_document();
    bytes.extend(end_element(77));
    assert_eq!(
        parse_app_manifest(bytes).unwrap_err(),
        DecodeError::StringIndexOutOfRange(77)
    );
    let mut bytes = small_document();
    bytes.extend_from_slice(&node(0x0100, 3, 4)[..10]);
    assert_eq!(parse_app_manifest(bytes).unwrap_err(), DecodeError::UnexpectedEof);
}

#[test]
fn element_before_its_string_pool_fails() {
    let mut bytes = end_element(0);
    bytes.extend(utf16_pool(&["manifest"]));
    assert_eq!(
        parse_app_manifest(bytes).unwrap_err(),
        DecodeError::StringIndexOutOfRange(0)
    );
}

#[test]
fn document_header_is_stepped_over_by_itself() {
    let bytes = document(&[small_document()]);
    let mut cursor = ByteCursor::new(bytes);
    let mut strings = Vec::new();
    let mut namespaces = NamespaceTable::new();
    let first = next_event(&mut cursor, &mut strings, &mut namespaces).unwrap();
    assert!(matches!(first, Some(XmlEvent::Chunk(XmlTypes::ResXmlType))));
    assert_eq!(cursor.position(), 8);
    let second = next_event(&mut cursor, &mut strings, &mut namespaces).unwrap();
    assert!(matches!(second, Some(XmlEvent::Chunk(XmlTypes::ResStringPoolType))));
    assert_eq!(strings.len(), 5);
}

#[test]
fn end_of_buffer_is_reported_again_and_again() {
    let mut cursor = ByteCursor::new(vec![0x00, 0x00, 0x01]);
    let mut strings = Vec::new();
    let mut namespaces = NamespaceTable::new();
    let first = next_event(&mut cursor, &mut strings, &mut namespaces).unwrap();
    assert!(matches!(first, Some(XmlEvent::Chunk(XmlTypes::ResNullType))));
    assert_eq!(cursor.position(), 2);
    assert!(next_event(&mut cursor, &mut strings, &mut namespaces).unwrap().is_none());
    assert!(next_event(&mut cursor, &mut strings, &mut namespaces).unwrap().is_none());
    assert_eq!(cursor.position(), 2);
}

#[test]
fn first_value_is_the_first_match() {
    let attrs = vec![pair("a", "1"), pair("b", "2"), pair("a", "3")];
    assert_eq!(first_value(&attrs, "a"), Some(&"1".to_string()));
    assert_eq!(first_value(&attrs, "b"), Some(&"2".to_string()));
    assert_eq!(first_value(&attrs, "c"), None);
    assert_eq!(first_value(&[], "a"), None);
}

#[test]
fn elements_are_recorded_by_tag() {
    let mut contents = ManifestContents::new();
    let named = |name: &str| vec![pair("label", "x"), pair("android:name", name)];
    contents.record_element("activity", &named(".A"));
    contents.record_element("service", &named(".S"));
    contents.record_element("provider", &named(".P"));
    contents.record_element("receiver", &named(".R"));
    contents.record_element("permission", &named("perm.C"));
    contents.record_element("uses-permission", &named("perm.U"));
    contents.record_element("application", &named(".App"));
    contents.record_element("activity", &[]);
    contents.record_element("activity", &[pair("name", "no-prefix")]);
    assert_eq!(contents.activities, owned(&[".A", "", ""]));
    assert_eq!(contents.services, owned(&[".S"]));
    assert_eq!(contents.providers, owned(&[".P"]));
    assert_eq!(contents.receivers, owned(&[".R"]));
    assert_eq!(contents.created_perms, owned(&["perm.C"]));
    assert_eq!(contents.requested_perms, owned(&["perm.U"]));
    assert_eq!(contents.pkg_name, "");
    assert_eq!(contents.main_entry_point, None);
}

#[test]
fn main_action_marks_the_last_activity() {
    let main = vec![pair("android:name", "android.intent.action.MAIN")];
    let mut contents = ManifestContents::new();
    contents.record_element("activity", &[pair("android:name", ".First")]);
    contents.record_element("activity", &[pair("android:name", ".Second")]);
    contents.record_element("action", &[pair("android:name", "android.intent.action.VIEW")]);
    assert_eq!(contents.main_entry_point, None);
    contents.record_element("action", &main);
    assert_eq!(contents.main_entry_point, Some(".Second".to_string()));
    contents.record_element("activity", &[pair("android:name", ".Third")]);
    assert_eq!(contents.main_entry_point, Some(".Second".to_string()));
    contents.record_element("action", &main);
    assert_eq!(contents.main_entry_point, Some(".Third".to_string()));
    contents.record_element("category", &main);
    assert_eq!(contents.main_entry_point, Some(".Third".to_string()));
}

#[test]
fn main_action_without_an_activity_clears_the_entry_point() {
    let main = vec![pair("android:name", "android.intent.action.MAIN")];
    let mut contents = ManifestContents::new();
    contents.main_entry_point = Some("stale".to_string());
    contents.record_element("action", &main);
    assert_eq!(contents.main_entry_point, None);
}

#[test]
fn manifest_element_sets_the_package_name() {
    let mut contents = ManifestContents::new();
    contents.record_element(
        "manifest",
        &[pair("android:name", "n"), pair("package", "a.b"), pair("package", "c.d")],
    );
    assert_eq!(contents.pkg_name, "a.b");
    contents.record_element("manifest", &[pair("other", "x")]);
    assert_eq!(contents.pkg_name, "a.b");
    contents.record_element("application", &[pair("package", "e.f")]);
    assert_eq!(contents.pkg_name, "a.b");
    contents.record_element("manifest", &[pair("package", "g.h")]);
    assert_eq!(contents.pkg_name, "g.h");
    assert!(contents.activities.is_empty());
}

#[test]
fn default_contents_are_empty() {
    let contents = ManifestContents::default();
    assert_eq!(contents.pkg_name, "");
    assert!(contents.activities.is_empty());
    assert_eq!(contents.main_entry_point, None);
}
