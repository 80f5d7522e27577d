//! The chunks of the XML event stream: namespace and element events.
//!
//! Each of them starts with a chunk header, a line number and a comment
//! index, of which only the header is looked at. String indices are
//! resolved against the strings decoded so far, and an attribute's namespace
//! against the bindings made by the start-namespace events before it.

use vstd::prelude::*;
use crate::chunk_header::ChunkHeader;
use crate::cursor::ByteCursor;
use crate::cursor::spec_u16_at;
use crate::cursor::spec_u32_at;
use crate::cursor::u16_at;
use crate::cursor::u32_at;
use crate::data_value_type::DataValueType;
use crate::error::DecodeError;
use crate::namespaces::NamespaceTable;
use crate::res_value::ResValue;
use crate::text::decimal_digits;
use crate::text::lower_hex_digits;
use crate::text::str_equal;
use crate::text::text_pairs;
use crate::text::texts;
use crate::text::u32_to_decimal;
use crate::text::u32_to_lower_hex;
use crate::xml_types::XmlTypes;

verus! {

/// The index that stands for "none": no namespace, no raw value.
pub const NO_INDEX: u32 = 0xFFFF_FFFF;

/// The value given to an attribute whose kind of typed value is not
/// rendered.
pub const UNHANDLED_VALUE: &'static str = "@unhandled";

/// The string that `index` names. `NO_INDEX` names none, however many
/// strings there are.
pub open spec fn spec_string_at(strings: Seq<Seq<char>>, index: u32) -> Result<
    Seq<char>,
    DecodeError,
> {
    if index != NO_INDEX && index < strings.len() {
        Ok(strings[index as int])
    } else {
        Err(DecodeError::StringIndexOutOfRange(index))
    }
}

/// The two 32-bit fields that follow the header, line number and comment
/// index of the node chunk of type `expected` at `pos`.
pub open spec fn spec_node_fields(bytes: Seq<u8>, pos: int, expected: XmlTypes) -> Result<
    (u32, u32),
    DecodeError,
> {
    match ChunkHeader::spec_decode(bytes, pos, expected) {
        Err(e) => Err(e),
        Ok(_) => match (
            spec_u32_at(bytes, pos + 8),
            spec_u32_at(bytes, pos + 12),
            spec_u32_at(bytes, pos + 16),
            spec_u32_at(bytes, pos + 20),
        ) {
            (Some(_), Some(_), Some(first), Some(second)) => Ok((first, second)),
            _ => Err(DecodeError::UnexpectedEof),
        },
    }
}

/// The binding `(uri, prefix)` that the start-namespace chunk at `pos`
/// makes. The prefix is resolved before the URI.
pub open spec fn spec_start_namespace(bytes: Seq<u8>, pos: int, strings: Seq<Seq<char>>) -> Result<
    (Seq<char>, Seq<char>),
    DecodeError,
> {
    match spec_node_fields(bytes, pos, XmlTypes::ResXmlStartNamespaceType) {
        Err(e) => Err(e),
        Ok((prefix, uri)) => match spec_string_at(strings, prefix) {
            Err(e) => Err(e),
            Ok(prefix_text) => match spec_string_at(strings, uri) {
                Err(e) => Err(e),
                Ok(uri_text) => Ok((uri_text, prefix_text)),
            },
        },
    }
}

/// The element name that the end-element chunk at `pos` gives.
pub open spec fn spec_end_element(bytes: Seq<u8>, pos: int, strings: Seq<Seq<char>>) -> Result<
    Seq<char>,
    DecodeError,
> {
    match spec_node_fields(bytes, pos, XmlTypes::ResXmlEndElementType) {
        Err(e) => Err(e),
        Ok((_, name)) => spec_string_at(strings, name),
    }
}

/// The text of a typed value: decimal digits, `0x` and lower-case
/// hexadecimal digits, `true` or `false`, `type1/` and decimal digits for a
/// reference, and `UNHANDLED_VALUE` for every other kind.
pub open spec fn spec_render(value: ResValue) -> Seq<char> {
    match value.data_type {
        DataValueType::TypeIntDec => decimal_digits(value.data as nat),
        DataValueType::TypeIntHex => "0x"@ + lower_hex_digits(value.data as nat),
        DataValueType::TypeIntBoolean => if value.data == 0 {
            "false"@
        } else {
            "true"@
        },
        DataValueType::TypeReference => "type1/"@ + decimal_digits(value.data as nat),
        _ => UNHANDLED_VALUE@,
    }
}

/// The key of an attribute: its name, after the prefix of its namespace
/// and a colon where it has a namespace.
pub open spec fn spec_attribute_key(
    strings: Seq<Seq<char>>,
    namespaces: Map<Seq<char>, Seq<char>>,
    namespace: u32,
    name: u32,
) -> Result<Seq<char>, DecodeError> {
    if namespace != NO_INDEX {
        match spec_string_at(strings, namespace) {
            Err(e) => Err(e),
            Ok(uri) => if !namespaces.contains_key(uri) {
                Err(DecodeError::UnresolvedNamespace)
            } else {
                match spec_string_at(strings, name) {
                    Err(e) => Err(e),
                    Ok(name_text) => Ok(namespaces[uri] + ":"@ + name_text),
                }
            },
        }
    } else {
        spec_string_at(strings, name)
    }
}

/// The value of an attribute: the string that its raw value names where it
/// has one, whatever its typed value holds; else the text of its typed
/// value.
pub open spec fn spec_attribute_value(strings: Seq<Seq<char>>, raw_value: u32, typed: ResValue) -> Result<
    Seq<char>,
    DecodeError,
> {
    if raw_value != NO_INDEX {
        spec_string_at(strings, raw_value)
    } else {
        Ok(spec_render(typed))
    }
}

/// The key and value of the attribute record at `at`: three 32-bit indices
/// (namespace, name, raw value) and a typed value. The record is read as a
/// whole before any index is resolved.
pub open spec fn spec_attribute(
    bytes: Seq<u8>,
    at: int,
    strings: Seq<Seq<char>>,
    namespaces: Map<Seq<char>, Seq<char>>,
) -> Result<(Seq<char>, Seq<char>), DecodeError> {
    match (spec_u32_at(bytes, at), spec_u32_at(bytes, at + 4), spec_u32_at(bytes, at + 8)) {
        (Some(namespace), Some(name), Some(raw_value)) => match ResValue::spec_decode(
            bytes,
            at + 12,
        ) {
            Err(e) => Err(e),
            Ok(typed) => match spec_attribute_key(strings, namespaces, namespace, name) {
                Err(e) => Err(e),
                Ok(key) => match spec_attribute_value(strings, raw_value, typed) {
                    Err(e) => Err(e),
                    Ok(value) => Ok((key, value)),
                },
            },
        },
        _ => Err(DecodeError::UnexpectedEof),
    }
}

/// The first `count` attributes of the records that start at `at`, twenty
/// bytes each; where some fail, the error of the first that does.
pub open spec fn spec_attributes(
    bytes: Seq<u8>,
    at: int,
    count: nat,
    strings: Seq<Seq<char>>,
    namespaces: Map<Seq<char>, Seq<char>>,
) -> Result<Seq<(Seq<char>, Seq<char>)>, DecodeError>
    decreases count,
{
    if count == 0 {
        Ok(Seq::empty())
    } else {
        match spec_attributes(bytes, at, (count - 1) as nat, strings, namespaces) {
            Err(e) => Err(e),
            Ok(before) => match spec_attribute(
                bytes,
                at + 20 * (count - 1),
                strings,
                namespaces,
            ) {
                Err(e) => Err(e),
                Ok(attribute) => Ok(before.push(attribute)),
            },
        }
    }
}

/// The name and the attributes that the start-element chunk at `pos`
/// gives. After the node fields come a 32-bit attribute block size, the
/// 16-bit attribute count and three more 16-bit fields, then the attribute
/// records. The element's own name is resolved last.
pub open spec fn spec_start_element(
    bytes: Seq<u8>,
    pos: int,
    strings: Seq<Seq<char>>,
    namespaces: Map<Seq<char>, Seq<char>>,
) -> Result<(Seq<char>, Seq<(Seq<char>, Seq<char>)>), DecodeError> {
    match spec_node_fields(bytes, pos, XmlTypes::ResXmlStartElementType) {
        Err(e) => Err(e),
        Ok((_, name)) => match (
            spec_u32_at(bytes, pos + 24),
            spec_u16_at(bytes, pos + 28),
            spec_u16_at(bytes, pos + 30),
            spec_u16_at(bytes, pos + 32),
            spec_u16_at(bytes, pos + 34),
        ) {
            (Some(_), Some(count), Some(_), Some(_), Some(_)) => match spec_attributes(
                bytes,
                pos + 36,
                count as nat,
                strings,
                namespaces,
            ) {
                Err(e) => Err(e),
                Ok(attributes) => match spec_string_at(strings, name) {
                    Err(e) => Err(e),
                    Ok(name_text) => Ok((name_text, attributes)),
                },
            },
            _ => Err(DecodeError::UnexpectedEof),
        },
    }
}

/// True where the start tag of an element with this name declares the
/// `android` namespace: the element is `manifest` and some URI is bound to
/// the prefix `android`.
pub open spec fn spec_declares_android(
    element_name: Seq<char>,
    namespaces: Map<Seq<char>, Seq<char>>,
) -> bool {
    &&& element_name == "manifest"@
    &&& exists|uri: Seq<char>| namespaces.contains_key(uri) && #[trigger] namespaces[uri] == "android"@
}

/// An error among the first `k` attributes is the error of all of them.
proof fn lemma_attributes_error_stays(
    bytes: Seq<u8>,
    at: int,
    k: nat,
    count: nat,
    strings: Seq<Seq<char>>,
    namespaces: Map<Seq<char>, Seq<char>>,
)
    requires
        k <= count,
        spec_attributes(bytes, at, k, strings, namespaces) is Err,
    ensures
        spec_attributes(bytes, at, count, strings, namespaces) == spec_attributes(
            bytes,
            at,
            k,
            strings,
            namespaces,
        ),
    decreases count - k,
{
    if k < count {
        lemma_attributes_error_stays(bytes, at, k + 1, count, strings, namespaces);
    }
}

/// Attributes that decode take up twenty bytes each within the buffer.
pub proof fn lemma_attributes_fit(
    bytes: Seq<u8>,
    at: int,
    count: nat,
    strings: Seq<Seq<char>>,
    namespaces: Map<Seq<char>, Seq<char>>,
)
    requires
        0 <= at <= bytes.len(),
        spec_attributes(bytes, at, count, strings, namespaces) is Ok,
    ensures
        at + 20 * count <= bytes.len(),
        spec_attributes(bytes, at, count, strings, namespaces)->Ok_0.len() == count,
    decreases count,
{
    if count > 0 {
        lemma_attributes_fit(bytes, at, (count - 1) as nat, strings, namespaces);
    }
}

/// Looks up the string that `index` names.
pub fn string_at(strings: &[String], index: u32) -> (r: Result<&String, DecodeError>)
    ensures
        match r {
            Ok(s) => spec_string_at(texts(strings@), index) == Ok::<Seq<char>, DecodeError>(s@),
            Err(e) => spec_string_at(texts(strings@), index) == Err::<Seq<char>, DecodeError>(e),
        },
        index == NO_INDEX ==> r is Err,
{
    if index != NO_INDEX && (index as usize) < strings.len() {
        Ok(&strings[index as usize])
    } else {
        Err(DecodeError::StringIndexOutOfRange(index))
    }
}

/// Reads the header and the two 32-bit fields of a node chunk.
pub fn node_fields(data: &[u8], pos: usize, expected: XmlTypes) -> (r: Result<
    (u32, u32),
    DecodeError,
>)
    ensures
        r == spec_node_fields(data@, pos as int, expected),
{
    let _ = ChunkHeader::decode_at(data, pos, expected)?;
    if u32_at(data, pos, 8).is_none() || u32_at(data, pos, 12).is_none() {
        return Err(DecodeError::UnexpectedEof);
    }
    let first: u32 = match u32_at(data, pos, 16) {
        Some(v) => v,
        None => return Err(DecodeError::UnexpectedEof),
    };
    let second: u32 = match u32_at(data, pos, 20) {
        Some(v) => v,
        None => return Err(DecodeError::UnexpectedEof),
    };
    Ok((first, second))
}

/// The text of a typed value.
pub fn render_value(value: &ResValue) -> (s: String)
    ensures
        s@ == spec_render(*value),
{
    match value.data_type {
        DataValueType::TypeIntDec => u32_to_decimal(value.data),
        DataValueType::TypeIntHex => {
            let digits = u32_to_lower_hex(value.data);
            String::from_str("0x").concat(digits.as_str())
        },
        DataValueType::TypeIntBoolean => {
            if value.data == 0 {
                String::from_str("false")
            } else {
                String::from_str("true")
            }
        },
        DataValueType::TypeReference => {
            let digits = u32_to_decimal(value.data);
            String::from_str("type1/").concat(digits.as_str())
        },
        _ => String::from_str(UNHANDLED_VALUE),
    }
}

/// Builds the key of an attribute from its namespace and name indices.
pub fn attribute_key(
    strings: &[String],
    namespace_prefixes: &NamespaceTable,
    namespace: u32,
    name: u32,
) -> (r: Result<String, DecodeError>)
    ensures
        match r {
            Ok(key) => spec_attribute_key(texts(strings@), namespace_prefixes@, namespace, name)
                == Ok::<Seq<char>, DecodeError>(key@),
            Err(e) => spec_attribute_key(texts(strings@), namespace_prefixes@, namespace, name)
                == Err::<Seq<char>, DecodeError>(e),
        },
{
    if namespace != NO_INDEX {
        let uri = string_at(strings, namespace)?;
        let prefix = match namespace_prefixes.get(uri.as_str()) {
            Some(prefix) => prefix,
            None => return Err(DecodeError::UnresolvedNamespace),
        };
        let name_text = string_at(strings, name)?;
        Ok(prefix.clone().concat(":").concat(name_text.as_str()))
    } else {
        let name_text = string_at(strings, name)?;
        Ok(name_text.clone())
    }
}

/// Builds the value of an attribute from its raw value index and its typed
/// value. The raw value wins where there is one.
pub fn attribute_value(strings: &[String], raw_value: u32, typed: &ResValue) -> (r: Result<
    String,
    DecodeError,
>)
    ensures
        match r {
            Ok(value) => spec_attribute_value(texts(strings@), raw_value, *typed) == Ok::<
                Seq<char>,
                DecodeError,
            >(value@),
            Err(e) => spec_attribute_value(texts(strings@), raw_value, *typed) == Err::<
                Seq<char>,
                DecodeError,
            >(e),
        },
{
    if raw_value != NO_INDEX {
        let text = string_at(strings, raw_value)?;
        Ok(text.clone())
    } else {
        Ok(render_value(typed))
    }
}

/// Decodes the attribute record at `at`.
pub fn decode_attribute(
    data: &[u8],
    at: usize,
    strings: &[String],
    namespace_prefixes: &NamespaceTable,
) -> (r: Result<(String, String), DecodeError>)
    ensures
        match r {
            Ok(attribute) => spec_attribute(data@, at as int, texts(strings@), namespace_prefixes@)
                == Ok::<(Seq<char>, Seq<char>), DecodeError>((attribute.0@, attribute.1@)),
            Err(e) => spec_attribute(data@, at as int, texts(strings@), namespace_prefixes@)
                == Err::<(Seq<char>, Seq<char>), DecodeError>(e),
        },
{
    let len: usize = data.len();
    let namespace: u32 = match u32_at(data, at, 0) {
        Some(v) => v,
        None => return Err(DecodeError::UnexpectedEof),
    };
    let name: u32 = match u32_at(data, at, 4) {
        Some(v) => v,
        None => return Err(DecodeError::UnexpectedEof),
    };
    let raw_value: u32 = match u32_at(data, at, 8) {
        Some(v) => v,
        None => return Err(DecodeError::UnexpectedEof),
    };
    let typed = ResValue::decode_at(data, at + 12)?;
    let key = attribute_key(strings, namespace_prefixes, namespace, name)?;
    let value = attribute_value(strings, raw_value, &typed)?;
    Ok((key, value))
}

/// Decodes `count` attribute records that start at `at`.
pub fn decode_attributes(
    data: &[u8],
    at: usize,
    count: u16,
    strings: &[String],
    namespace_prefixes: &NamespaceTable,
) -> (r: Result<Vec<(String, String)>, DecodeError>)
    ensures
        match r {
            Ok(attributes) => spec_attributes(
                data@,
                at as int,
                count as nat,
                texts(strings@),
                namespace_prefixes@,
            ) == Ok::<Seq<(Seq<char>, Seq<char>)>, DecodeError>(text_pairs(attributes@)),
            Err(e) => spec_attributes(
                data@,
                at as int,
                count as nat,
                texts(strings@),
                namespace_prefixes@,
            ) == Err::<Seq<(Seq<char>, Seq<char>)>, DecodeError>(e),
        },
{
    let len: usize = data.len();
    let mut attributes: Vec<(String, String)> = Vec::new();
    let mut i: u16 = 0;
    let mut next: usize = at;
    assert(text_pairs(attributes@) == Seq::<(Seq<char>, Seq<char>)>::empty());
    while i < count
        invariant
            i <= count,
            len == data@.len(),
            next == at + 20 * i,
            spec_attributes(data@, at as int, i as nat, texts(strings@), namespace_prefixes@)
                == Ok::<Seq<(Seq<char>, Seq<char>)>, DecodeError>(text_pairs(attributes@)),
        decreases count - i,
    {
        let ghost before = attributes@;
        match decode_attribute(data, next, strings, namespace_prefixes) {
            Ok(attribute) => {
                attributes.push(attribute);
                assert(text_pairs(attributes@) == text_pairs(before).push(
                    (attribute.0@, attribute.1@),
                ));
            },
            Err(e) => {
                proof {
                    lemma_attributes_error_stays(
                        data@,
                        at as int,
                        (i + 1) as nat,
                        count as nat,
                        texts(strings@),
                        namespace_prefixes@,
                    );
                }
                return Err(e);
            },
        }
        next = next + 20;
        i += 1;
    }
    Ok(attributes)
}

/// Decodes the start-element chunk at `pos`.
pub fn start_element_at(
    data: &[u8],
    pos: usize,
    strings: &[String],
    namespace_prefixes: &NamespaceTable,
) -> (r: Result<(String, Vec<(String, String)>), DecodeError>)
    ensures
        match r {
            Ok(element) => {
                &&& spec_start_element(data@, pos as int, texts(strings@), namespace_prefixes@)
                    == Ok::<(Seq<char>, Seq<(Seq<char>, Seq<char>)>), DecodeError>(
                    (element.0@, text_pairs(element.1@)),
                )
                &&& pos + 36 + 20 * element.1@.len() <= data@.len()
            },
            Err(e) => spec_start_element(data@, pos as int, texts(strings@), namespace_prefixes@)
                == Err::<(Seq<char>, Seq<(Seq<char>, Seq<char>)>), DecodeError>(e),
        },
{
    let len: usize = data.len();
    let (_, name) = node_fields(data, pos, XmlTypes::ResXmlStartElementType)?;
    if u32_at(data, pos, 24).is_none() {
        return Err(DecodeError::UnexpectedEof);
    }
    let count: u16 = match u16_at(data, pos, 28) {
        Some(v) => v,
        None => return Err(DecodeError::UnexpectedEof),
    };
    if u16_at(data, pos, 30).is_none() || u16_at(data, pos, 32).is_none() || u16_at(
        data,
        pos,
        34,
    ).is_none() {
        return Err(DecodeError::UnexpectedEof);
    }
    let attributes = decode_attributes(data, pos + 36, count, strings, namespace_prefixes)?;
    proof {
        lemma_attributes_fit(
            data@,
            pos + 36,
            count as nat,
            texts(strings@),
            namespace_prefixes@,
        );
    }
    let name_text = string_at(strings, name)?;
    Ok((name_text.clone(), attributes))
}

/// Decodes the start-namespace chunk under the cursor and binds its prefix
/// to its URI in `namespaces`.
///
/// Fails with `StringIndexOutOfRange` where the prefix or the URI names no
/// string. On success the cursor has moved over the chunk's 24 bytes; on an
/// error the cursor and `namespaces` stay as they were.
pub fn parse_start_namespace(
    axml_buff: &mut ByteCursor,
    strings: &[String],
    namespaces: &mut NamespaceTable,
) -> (r: Result<(), DecodeError>)
    ensures
        match spec_start_namespace(old(axml_buff).bytes(), old(axml_buff).pos(), texts(strings@)) {
            Ok((uri, prefix)) => {
                &&& r is Ok
                &&& final(namespaces)@ == old(namespaces)@.insert(uri, prefix)
                &&& final(axml_buff).pos() == old(axml_buff).pos() + 24
            },
            Err(e) => {
                &&& r == Err::<(), DecodeError>(e)
                &&& final(namespaces)@ == old(namespaces)@
                &&& final(axml_buff).pos() == old(axml_buff).pos()
            },
        },
        final(axml_buff).bytes() == old(axml_buff).bytes(),
{
    let start: usize = axml_buff.position();
    let (prefix, uri) = node_fields(
        axml_buff.get_ref(),
        start,
        XmlTypes::ResXmlStartNamespaceType,
    )?;
    let prefix_str = string_at(strings, prefix)?;
    let uri_str = string_at(strings, uri)?;
    namespaces.insert(uri_str.clone(), prefix_str.clone());
    axml_buff.set_position(start + 24);
    Ok(())
}

/// Steps over the end-namespace chunk under the cursor. The bindings are
/// left as they are.
///
/// On success the cursor has moved over the chunk's 24 bytes; on an error
/// it stays where it was.
pub fn parse_end_namespace(axml_buff: &mut ByteCursor, strings: &[String]) -> (r: Result<
    (),
    DecodeError,
>)
    ensures
        match spec_node_fields(
            old(axml_buff).bytes(),
            old(axml_buff).pos(),
            XmlTypes::ResXmlEndNamespaceType,
        ) {
            Ok(_) => r is Ok && final(axml_buff).pos() == old(axml_buff).pos() + 24,
            Err(e) => r == Err::<(), DecodeError>(e) && final(axml_buff).pos() == old(
                axml_buff,
            ).pos(),
        },
        final(axml_buff).bytes() == old(axml_buff).bytes(),
{
    let start: usize = axml_buff.position();
    let _ = node_fields(axml_buff.get_ref(), start, XmlTypes::ResXmlEndNamespaceType)?;
    axml_buff.set_position(start + 24);
    Ok(())
}

/// Decodes the start-element chunk under the cursor into the element's
/// name and its attributes, in the order of the stream.
///
/// An attribute's key is `prefix:name` where it has a namespace, and its
/// value is the string that its raw value names where it has one. Fails
/// with `StringIndexOutOfRange` where an index names no string and with
/// `UnresolvedNamespace` where a namespace URI has no prefix. On success
/// the cursor has moved over the 36 bytes of the fixed part and 20 bytes for
/// each attribute; on an error it stays where it was.
pub fn parse_start_element(
    axml_buff: &mut ByteCursor,
    strings: &[String],
    namespace_prefixes: &NamespaceTable,
) -> (r: Result<(String, Vec<(String, String)>), DecodeError>)
    ensures
        match r {
            Ok(element) => {
                &&& spec_start_element(
                    old(axml_buff).bytes(),
                    old(axml_buff).pos(),
                    texts(strings@),
                    namespace_prefixes@,
                ) == Ok::<(Seq<char>, Seq<(Seq<char>, Seq<char>)>), DecodeError>(
                    (element.0@, text_pairs(element.1@)),
                )
                &&& final(axml_buff).pos() == old(axml_buff).pos() + 36 + 20 * element.1@.len()
                &&& final(axml_buff).pos() <= old(axml_buff).bytes().len()
            },
            Err(e) => {
                &&& spec_start_element(
                    old(axml_buff).bytes(),
                    old(axml_buff).pos(),
                    texts(strings@),
                    namespace_prefixes@,
                ) == Err::<(Seq<char>, Seq<(Seq<char>, Seq<char>)>), DecodeError>(e)
                &&& final(axml_buff).pos() == old(axml_buff).pos()
            },
        },
        final(axml_buff).bytes() == old(axml_buff).bytes(),
{
    let start: usize = axml_buff.position();
    let element = start_element_at(axml_buff.get_ref(), start, strings, namespace_prefixes)?;
    axml_buff.set_position(start + 36 + 20 * element.1.len());
    Ok(element)
}

/// Decodes the end-element chunk under the cursor into the element's name.
///
/// Fails with `StringIndexOutOfRange` where the name index names no
/// string. On success the cursor has moved over the chunk's 24 bytes; on an
/// error it stays where it was.
pub fn parse_end_element(axml_buff: &mut ByteCursor, strings: &[String]) -> (r: Result<
    String,
    DecodeError,
>)
    ensures
        match r {
            Ok(name) => {
                &&& spec_end_element(
                    old(axml_buff).bytes(),
                    old(axml_buff).pos(),
                    texts(strings@),
                ) == Ok::<Seq<char>, DecodeError>(name@)
                &&& final(axml_buff).pos() == old(axml_buff).pos() + 24
            },
            Err(e) => {
                &&& spec_end_element(
                    old(axml_buff).bytes(),
                    old(axml_buff).pos(),
                    texts(strings@),
                ) == Err::<Seq<char>, DecodeError>(e)
                &&& final(axml_buff).pos() == old(axml_buff).pos()
            },
        },
        final(axml_buff).bytes() == old(axml_buff).bytes(),
{
    let start: usize = axml_buff.position();
    let (_, name) = node_fields(axml_buff.get_ref(), start, XmlTypes::ResXmlEndElementType)?;
    let name_text = string_at(strings, name)?.clone();
    axml_buff.set_position(start + 24);
    Ok(name_text)
}

/// The attributes that the start tag of an element is written with: its
/// own, after an `xmlns:android` attribute on a `manifest` element where a
/// URI is bound to the prefix `android`. Where several URIs are, the
/// attribute holds one of them.
pub fn start_tag_attributes(
    element_name: &str,
    element_attrs: Vec<(String, String)>,
    namespace_prefixes: &NamespaceTable,
) -> (r: Vec<(String, String)>)
    ensures
        spec_declares_android(element_name@, namespace_prefixes@) ==> {
            &&& r@.len() == element_attrs@.len() + 1
            &&& r@[0].0@ == "xmlns:android"@
            &&& namespace_prefixes@.contains_key(r@[0].1@)
            &&& namespace_prefixes@[r@[0].1@] == "android"@
            &&& text_pairs(r@).skip(1) == text_pairs(element_attrs@)
        },
        !spec_declares_android(element_name@, namespace_prefixes@) ==> text_pairs(r@) == text_pairs(
            element_attrs@,
        ),
{
    let mut element_attrs = element_attrs;
    if str_equal(element_name, "manifest") {
        match namespace_prefixes.uri_for_prefix("android") {
            Some(uri) => {
                let mut attrs: Vec<(String, String)> = Vec::new();
                attrs.push((String::from_str("xmlns:android"), uri));
                attrs.append(&mut element_attrs);
                return attrs;
            },
            None => {},
        }
    }
    element_attrs
}

/// `NO_INDEX` is never a valid string index: as a name it is out of range,
/// as an attribute's namespace it means that the key is the bare name, and
/// as an attribute's raw value it means that the typed value is rendered.
pub proof fn lemma_no_index_names_nothing(
    strings: Seq<Seq<char>>,
    namespaces: Map<Seq<char>, Seq<char>>,
    name: u32,
    typed: ResValue,
)
    ensures
        spec_string_at(strings, NO_INDEX) == Err::<Seq<char>, DecodeError>(
            DecodeError::StringIndexOutOfRange(NO_INDEX),
        ),
        spec_attribute_key(strings, namespaces, NO_INDEX, name) == spec_string_at(strings, name),
        spec_attribute_value(strings, NO_INDEX, typed) == Ok::<Seq<char>, DecodeError>(
            spec_render(typed),
        ),
{
}

/// Where an attribute has a raw value, its value is the string that the raw
/// value names, whatever its typed value holds.
pub proof fn lemma_raw_value_wins(
    strings: Seq<Seq<char>>,
    raw_value: u32,
    typed: ResValue,
    other: ResValue,
)
    requires
        raw_value != NO_INDEX,
    ensures
        spec_attribute_value(strings, raw_value, typed) == spec_string_at(strings, raw_value),
        spec_attribute_value(strings, raw_value, typed) == spec_attribute_value(
            strings,
            raw_value,
            other,
        ),
{
}

/// An attribute whose namespace is the URI that a start-namespace chunk
/// has just bound is given that binding's prefix.
pub proof fn lemma_bound_namespace_resolves(
    bytes: Seq<u8>,
    pos: int,
    strings: Seq<Seq<char>>,
    namespaces: Map<Seq<char>, Seq<char>>,
    namespace: u32,
    name: u32,
)
    requires
        namespace != NO_INDEX,
        spec_start_namespace(bytes, pos, strings) is Ok,
        spec_string_at(strings, namespace) == Ok::<Seq<char>, DecodeError>(
            spec_start_namespace(bytes, pos, strings)->Ok_0.0,
        ),
        spec_string_at(strings, name) is Ok,
    ensures
        ({
            let (uri, prefix) = spec_start_namespace(bytes, pos, strings)->Ok_0;
            spec_attribute_key(strings, namespaces.insert(uri, prefix), namespace, name) == Ok::<
                Seq<char>,
                DecodeError,
            >(prefix + ":"@ + spec_string_at(strings, name)->Ok_0)
        }),
{
}

/// An attribute whose namespace is bound in the table is given the prefix
/// that the table holds for it, whatever else the table holds.
pub proof fn lemma_namespace_in_table_resolves(
    strings: Seq<Seq<char>>,
    namespaces: Map<Seq<char>, Seq<char>>,
    namespace: u32,
    name: u32,
)
    requires
        namespace != NO_INDEX,
        spec_string_at(strings, namespace) is Ok,
        namespaces.contains_key(spec_string_at(strings, namespace)->Ok_0),
        spec_string_at(strings, name) is Ok,
    ensures
        spec_attribute_key(strings, namespaces, namespace, name) == Ok::<Seq<char>, DecodeError>(
            namespaces[spec_string_at(strings, namespace)->Ok_0] + ":"@ + spec_string_at(
                strings,
                name,
            )->Ok_0,
        ),
{
}

/// An attribute whose namespace is a URI that nothing has bound fails with
/// `UnresolvedNamespace`.
pub proof fn lemma_unbound_namespace_fails(
    strings: Seq<Seq<char>>,
    namespaces: Map<Seq<char>, Seq<char>>,
    namespace: u32,
    name: u32,
)
    requires
        namespace != NO_INDEX,
        spec_string_at(strings, namespace) is Ok,
        !namespaces.contains_key(spec_string_at(strings, namespace)->Ok_0),
    ensures
        spec_attribute_key(strings, namespaces, namespace, name) == Err::<Seq<char>, DecodeError>(
            DecodeError::UnresolvedNamespace,
        ),
{
}

} // verus!
