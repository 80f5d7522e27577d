//! One step of a decode pass: the chunk under the cursor, whatever its type.

use vstd::prelude::*;
use crate::chunk_header::ChunkHeader;
use crate::cursor::spec_u16_at;
use crate::cursor::spec_u32_at;
use crate::cursor::ByteCursor;
use crate::error::DecodeError;
use crate::namespaces::NamespaceTable;
use crate::parser::lemma_attributes_fit;
use crate::parser::parse_end_element;
use crate::parser::parse_end_namespace;
use crate::parser::parse_start_element;
use crate::parser::parse_start_namespace;
use crate::parser::spec_end_element;
use crate::parser::spec_node_fields;
use crate::parser::spec_start_element;
use crate::parser::spec_start_namespace;
use crate::res_table::lemma_table_chunks_advance;
use crate::res_table::ResTable;
use crate::resource_map::ResourceMap;
use crate::string_pool::lemma_decoded_pool_is_well_formed;
use crate::string_pool::StringPool;
use crate::text::text_pairs;
use crate::text::texts;
use crate::xml_types::XmlTypes;

verus! {

/// What one step of a decode pass found.
#[derive(Debug)]
pub enum XmlEvent {
    /// An element starts.
    StartElement { name: String, attributes: Vec<(String, String)> },
    /// An element ends.
    EndElement { name: String },
    /// A chunk of this type was decoded that is no element event.
    Chunk(XmlTypes),
}

/// An event as plain values.
pub enum XmlEventView {
    StartElement { name: Seq<char>, attributes: Seq<(Seq<char>, Seq<char>)> },
    EndElement { name: Seq<char> },
    Chunk(XmlTypes),
}

impl View for XmlEvent {
    type V = XmlEventView;

    open spec fn view(&self) -> XmlEventView {
        match self {
            XmlEvent::StartElement { name, attributes } => XmlEventView::StartElement {
                name: name@,
                attributes: text_pairs(attributes@),
            },
            XmlEvent::EndElement { name } => XmlEventView::EndElement { name: name@ },
            XmlEvent::Chunk(chunk_type) => XmlEventView::Chunk(*chunk_type),
        }
    }
}

/// The state of a decode pass after a step, with what the step found.
pub struct Step {
    /// What the step found.
    pub event: XmlEventView,
    /// Where the cursor stands.
    pub pos: int,
    /// The strings decoded so far.
    pub strings: Seq<Seq<char>>,
    /// The namespace bindings made so far.
    pub namespaces: Map<Seq<char>, Seq<char>>,
}

/// The step that a pass takes at `pos`.
///
/// Where fewer than two bytes are left the pass is over: `None`. A null tag
/// is stepped over by itself. A string pool, a resource table, the header of
/// an XML document, a resource map, and the namespace and element events are
/// decoded as their modules say. Every other known chunk type is refused as
/// `UnsupportedChunk`, and a tag that is none is `UnknownChunkType`.
#[verifier::opaque]
pub open spec fn spec_next_event(
    bytes: Seq<u8>,
    pos: int,
    strings: Seq<Seq<char>>,
    namespaces: Map<Seq<char>, Seq<char>>,
) -> Result<Option<Step>, DecodeError> {
    match XmlTypes::spec_decode(bytes, pos) {
        Err(DecodeError::UnexpectedEof) => Ok(None),
        Err(e) => Err(e),
        Ok(tag) => {
            let chunk = XmlEventView::Chunk(tag);
            match tag {
                XmlTypes::ResNullType => Ok(
                    Some(Step { event: chunk, pos: pos + 2, strings, namespaces }),
                ),
                XmlTypes::ResStringPoolType => match StringPool::spec_decode(bytes, pos, strings) {
                    Err(e) => Err(e),
                    Ok(pool) => Ok(
                        Some(
                            Step {
                                event: chunk,
                                pos: StringPool::spec_end(bytes, pos, pool.header),
                                strings: pool.strings,
                                namespaces,
                            },
                        ),
                    ),
                },
                XmlTypes::ResTableType => match ResTable::spec_parse(bytes, pos) {
                    Err(e) => Err(e),
                    Ok((_, end)) => Ok(Some(Step { event: chunk, pos: end, strings, namespaces })),
                },
                XmlTypes::ResXmlType => match ChunkHeader::spec_decode(bytes, pos, tag) {
                    Err(e) => Err(e),
                    Ok(_) => Ok(Some(Step { event: chunk, pos: pos + 8, strings, namespaces })),
                },
                XmlTypes::ResXmlStartNamespaceType => match spec_start_namespace(
                    bytes,
                    pos,
                    strings,
                ) {
                    Err(e) => Err(e),
                    Ok((uri, prefix)) => Ok(
                        Some(
                            Step {
                                event: chunk,
                                pos: pos + 24,
                                strings,
                                namespaces: namespaces.insert(uri, prefix),
                            },
                        ),
                    ),
                },
                XmlTypes::ResXmlEndNamespaceType => match spec_node_fields(bytes, pos, tag) {
                    Err(e) => Err(e),
                    Ok(_) => Ok(Some(Step { event: chunk, pos: pos + 24, strings, namespaces })),
                },
                XmlTypes::ResXmlStartElementType => match spec_start_element(
                    bytes,
                    pos,
                    strings,
                    namespaces,
                ) {
                    Err(e) => Err(e),
                    Ok((name, attributes)) => Ok(
                        Some(
                            Step {
                                event: XmlEventView::StartElement { name, attributes },
                                pos: pos + 36 + 20 * attributes.len(),
                                strings,
                                namespaces,
                            },
                        ),
                    ),
                },
                XmlTypes::ResXmlEndElementType => match spec_end_element(bytes, pos, strings) {
                    Err(e) => Err(e),
                    Ok(name) => Ok(
                        Some(
                            Step {
                                event: XmlEventView::EndElement { name },
                                pos: pos + 24,
                                strings,
                                namespaces,
                            },
                        ),
                    ),
                },
                XmlTypes::ResXmlResourceMapType => match ResourceMap::spec_decode(bytes, pos) {
                    Err(e) => Err(e),
                    Ok(map) => Ok(
                        Some(
                            Step {
                                event: chunk,
                                pos: pos + 8 + 4 * map.resource_ids.len(),
                                strings,
                                namespaces,
                            },
                        ),
                    ),
                },
                _ => Err(DecodeError::UnsupportedChunk(tag)),
            }
        },
    }
}

/// Decodes the chunk under the cursor, whatever its type, and says what it
/// was. `Ok(None)` means that the buffer is used up.
///
/// A string pool adds its strings to `strings`, a start-namespace event its
/// binding to `namespaces`. Every step that finds something moves the
/// cursor forward, and never past the end of the buffer. On an error, and
/// at the end of the buffer, the cursor, `strings` and `namespaces` stay as
/// they were.
pub fn next_event(
    axml_buff: &mut ByteCursor,
    strings: &mut Vec<String>,
    namespaces: &mut NamespaceTable,
) -> (r: Result<Option<XmlEvent>, DecodeError>)
    ensures
        match r {
            Ok(Some(event)) => {
                &&& spec_next_event(
                    old(axml_buff).bytes(),
                    old(axml_buff).pos(),
                    texts(old(strings)@),
                    old(namespaces)@,
                ) == Ok::<Option<Step>, DecodeError>(
                    Some(
                        Step {
                            event: event@,
                            pos: final(axml_buff).pos(),
                            strings: texts(final(strings)@),
                            namespaces: final(namespaces)@,
                        },
                    ),
                )
                &&& old(axml_buff).pos() < final(axml_buff).pos() <= old(axml_buff).bytes().len()
            },
            Ok(None) => {
                &&& spec_next_event(
                    old(axml_buff).bytes(),
                    old(axml_buff).pos(),
                    texts(old(strings)@),
                    old(namespaces)@,
                ) == Ok::<Option<Step>, DecodeError>(None)
                &&& final(axml_buff).pos() == old(axml_buff).pos()
                &&& texts(final(strings)@) == texts(old(strings)@)
                &&& final(namespaces)@ == old(namespaces)@
            },
            Err(e) => {
                &&& spec_next_event(
                    old(axml_buff).bytes(),
                    old(axml_buff).pos(),
                    texts(old(strings)@),
                    old(namespaces)@,
                ) == Err::<Option<Step>, DecodeError>(e)
                &&& final(axml_buff).pos() == old(axml_buff).pos()
                &&& texts(final(strings)@) == texts(old(strings)@)
                &&& final(namespaces)@ == old(namespaces)@
            },
        },
        final(axml_buff).bytes() == old(axml_buff).bytes(),
{
    reveal(spec_next_event);
    let tag = match XmlTypes::peek_block_type(axml_buff) {
        Ok(tag) => tag,
        Err(DecodeError::UnexpectedEof) => return Ok(None),
        Err(e) => return Err(e),
    };
    match tag {
        XmlTypes::ResNullType => {
            let _ = XmlTypes::parse_block_type(axml_buff)?;
            Ok(Some(XmlEvent::Chunk(tag)))
        },
        XmlTypes::ResStringPoolType => {
            let _ = StringPool::from_buff(axml_buff, strings)?;
            Ok(Some(XmlEvent::Chunk(tag)))
        },
        XmlTypes::ResTableType => {
            let _ = ResTable::parse(axml_buff)?;
            Ok(Some(XmlEvent::Chunk(tag)))
        },
        XmlTypes::ResXmlType => {
            let _ = ChunkHeader::from_buff(axml_buff, XmlTypes::ResXmlType)?;
            Ok(Some(XmlEvent::Chunk(tag)))
        },
        XmlTypes::ResXmlStartNamespaceType => {
            parse_start_namespace(axml_buff, strings.as_slice(), namespaces)?;
            Ok(Some(XmlEvent::Chunk(tag)))
        },
        XmlTypes::ResXmlEndNamespaceType => {
            parse_end_namespace(axml_buff, strings.as_slice())?;
            Ok(Some(XmlEvent::Chunk(tag)))
        },
        XmlTypes::ResXmlStartElementType => {
            let (name, attributes) = parse_start_element(
                axml_buff,
                strings.as_slice(),
                namespaces,
            )?;
            Ok(Some(XmlEvent::StartElement { name, attributes }))
        },
        XmlTypes::ResXmlEndElementType => {
            let name = parse_end_element(axml_buff, strings.as_slice())?;
            Ok(Some(XmlEvent::EndElement { name }))
        },
        XmlTypes::ResXmlResourceMapType => {
            let _ = ResourceMap::from_buff(axml_buff)?;
            Ok(Some(XmlEvent::Chunk(tag)))
        },
        _ => Err(DecodeError::UnsupportedChunk(tag)),
    }
}

/// Every step that finds something ends after where it starts, and within
/// the buffer.
pub proof fn lemma_step_advances(
    bytes: Seq<u8>,
    pos: int,
    strings: Seq<Seq<char>>,
    namespaces: Map<Seq<char>, Seq<char>>,
)
    ensures
        spec_next_event(bytes, pos, strings, namespaces) matches Ok(Some(step)) ==> pos < step.pos
            <= bytes.len(),
{
    reveal(spec_next_event);
    match XmlTypes::spec_decode(bytes, pos) {
        Ok(XmlTypes::ResTableType) => {
            if ResTable::spec_parse(bytes, pos) is Ok {
                let count = spec_u32_at(bytes, pos + 8)->0;
                lemma_table_chunks_advance(bytes, pos + 12, Seq::empty(), count as nat);
            }
        },
        Ok(XmlTypes::ResXmlStartElementType) => {
            if spec_start_element(bytes, pos, strings, namespaces) is Ok {
                let count = spec_u16_at(bytes, pos + 28)->0;
                lemma_attributes_fit(bytes, pos + 36, count as nat, strings, namespaces);
            }
        },
        _ => {},
    }
}

/// A step never takes back what the pass has learnt: the strings known
/// before it keep their indices, and every URI that was bound stays bound.
/// A binding changes only where the step binds that very URI anew.
pub proof fn lemma_step_keeps_strings_and_bindings(
    bytes: Seq<u8>,
    pos: int,
    strings: Seq<Seq<char>>,
    namespaces: Map<Seq<char>, Seq<char>>,
)
    requires
        spec_next_event(bytes, pos, strings, namespaces) matches Ok(Some(_)),
    ensures
        ({
            let step = spec_next_event(bytes, pos, strings, namespaces)->Ok_0->0;
            &&& step.strings.len() >= strings.len()
            &&& step.strings.take(strings.len() as int) == strings
            &&& forall|uri: Seq<char>| #[trigger]
                namespaces.contains_key(uri) ==> step.namespaces.contains_key(uri)
            &&& forall|uri: Seq<char>|
                namespaces.contains_key(uri) && #[trigger] step.namespaces[uri] != namespaces[uri]
                    ==> (spec_start_namespace(bytes, pos, strings) matches Ok(binding)
                    && binding.0 == uri)
        }),
{
    reveal(spec_next_event);
    if XmlTypes::spec_decode(bytes, pos) == Ok::<XmlTypes, DecodeError>(
        XmlTypes::ResStringPoolType,
    ) {
        lemma_decoded_pool_is_well_formed(bytes, pos, strings);
    }
}

} // verus!
