//! What a decode pass over an app manifest collects: the package name, the
//! declared components and permissions, and the entry point.

use vstd::prelude::*;
use crate::cursor::ByteCursor;
use crate::decoder::lemma_step_advances;
use crate::decoder::next_event;
use crate::decoder::spec_next_event;
use crate::decoder::XmlEvent;
use crate::decoder::XmlEventView;
use crate::error::DecodeError;
use crate::namespaces::NamespaceTable;
use crate::text::str_equal;
use crate::text::text_pairs;
use crate::text::texts;

verus! {

/// Representation of an app's manifest contents.
#[derive(Debug)]
pub struct ManifestContents {
    pub pkg_name: String,
    pub activities: Vec<String>,
    pub services: Vec<String>,
    pub providers: Vec<String>,
    pub receivers: Vec<String>,
    /// Permissions that the app declares. Those requested from within
    /// components are not included.
    pub created_perms: Vec<String>,
    pub requested_perms: Vec<String>,
    pub main_entry_point: Option<String>,
}

/// Manifest contents as plain values.
pub struct ManifestContentsView {
    pub pkg_name: Seq<char>,
    pub activities: Seq<Seq<char>>,
    pub services: Seq<Seq<char>>,
    pub providers: Seq<Seq<char>>,
    pub receivers: Seq<Seq<char>>,
    pub created_perms: Seq<Seq<char>>,
    pub requested_perms: Seq<Seq<char>>,
    pub main_entry_point: Option<Seq<char>>,
}

impl View for ManifestContents {
    type V = ManifestContentsView;

    open spec fn view(&self) -> ManifestContentsView {
        ManifestContentsView {
            pkg_name: self.pkg_name@,
            activities: texts(self.activities@),
            services: texts(self.services@),
            providers: texts(self.providers@),
            receivers: texts(self.receivers@),
            created_perms: texts(self.created_perms@),
            requested_perms: texts(self.requested_perms@),
            main_entry_point: match self.main_entry_point {
                Some(s) => Some(s@),
                None => None,
            },
        }
    }
}

/// Contents in which nothing has been collected yet.
pub open spec fn spec_empty_contents() -> ManifestContentsView {
    ManifestContentsView {
        pkg_name: Seq::empty(),
        activities: Seq::empty(),
        services: Seq::empty(),
        providers: Seq::empty(),
        receivers: Seq::empty(),
        created_perms: Seq::empty(),
        requested_perms: Seq::empty(),
        main_entry_point: None,
    }
}

/// The value of the first attribute with this key, if there is one.
pub open spec fn spec_first_value(attributes: Seq<(Seq<char>, Seq<char>)>, key: Seq<char>) -> Option<
    Seq<char>,
>
    decreases attributes.len(),
{
    if attributes.len() == 0 {
        None
    } else if attributes[0].0 == key {
        Some(attributes[0].1)
    } else {
        spec_first_value(attributes.skip(1), key)
    }
}

/// The contents after an element with this tag and these attributes.
///
/// The element's own name is the value of its first `android:name`
/// attribute, and empty where it has none. It is added to the list that the
/// tag stands for. An `action` named `android.intent.action.MAIN` makes the
/// activity collected last the entry point. A `manifest` element sets the
/// package name from its first `package` attribute.
pub open spec fn spec_record(
    contents: ManifestContentsView,
    tag: Seq<char>,
    attributes: Seq<(Seq<char>, Seq<char>)>,
) -> ManifestContentsView {
    let name = match spec_first_value(attributes, "android:name"@) {
        Some(value) => value,
        None => Seq::empty(),
    };
    let listed = if tag == "activity"@ {
        ManifestContentsView { activities: contents.activities.push(name), ..contents }
    } else if tag == "service"@ {
        ManifestContentsView { services: contents.services.push(name), ..contents }
    } else if tag == "provider"@ {
        ManifestContentsView { providers: contents.providers.push(name), ..contents }
    } else if tag == "receiver"@ {
        ManifestContentsView { receivers: contents.receivers.push(name), ..contents }
    } else if tag == "permission"@ {
        ManifestContentsView { created_perms: contents.created_perms.push(name), ..contents }
    } else if tag == "uses-permission"@ {
        ManifestContentsView { requested_perms: contents.requested_perms.push(name), ..contents }
    } else if tag == "action"@ && name == "android.intent.action.MAIN"@ {
        ManifestContentsView {
            main_entry_point: if contents.activities.len() > 0 {
                Some(contents.activities.last())
            } else {
                None
            },
            ..contents
        }
    } else {
        contents
    };
    if tag == "manifest"@ {
        match spec_first_value(attributes, "package"@) {
            Some(value) => ManifestContentsView { pkg_name: value, ..listed },
            None => listed,
        }
    } else {
        listed
    }
}

/// The contents after an event: a start of an element is recorded, every
/// other event leaves them as they are.
pub open spec fn spec_apply(contents: ManifestContentsView, event: XmlEventView) -> ManifestContentsView {
    match event {
        XmlEventView::StartElement { name, attributes } => spec_record(contents, name, attributes),
        _ => contents,
    }
}

/// What a pass that stands at `pos` ends with: the contents once the buffer
/// is used up, or the error of the first step that fails.
pub open spec fn spec_contents_from(
    bytes: Seq<u8>,
    pos: int,
    strings: Seq<Seq<char>>,
    namespaces: Map<Seq<char>, Seq<char>>,
    contents: ManifestContentsView,
) -> Result<ManifestContentsView, DecodeError>
    decreases bytes.len() - pos,
{
    match spec_next_event(bytes, pos, strings, namespaces) {
        Err(e) => Err(e),
        Ok(None) => Ok(contents),
        Ok(Some(step)) => if pos < step.pos <= bytes.len() {
            spec_contents_from(
                bytes,
                step.pos,
                step.strings,
                step.namespaces,
                spec_apply(contents, step.event),
            )
        } else {
            Ok(contents)
        },
    }
}

/// What a pass over the whole buffer from `pos` on ends with, starting with
/// no strings, no namespace bindings and empty contents.
pub open spec fn spec_manifest_contents(bytes: Seq<u8>, pos: int) -> Result<
    ManifestContentsView,
    DecodeError,
> {
    spec_contents_from(bytes, pos, Seq::empty(), Map::empty(), spec_empty_contents())
}

/// Finds the value of the first attribute with this key.
pub fn first_value<'a>(attributes: &'a [(String, String)], key: &str) -> (r: Option<&'a String>)
    ensures
        match r {
            Some(value) => spec_first_value(text_pairs(attributes@), key@) == Some(value@),
            None => spec_first_value(text_pairs(attributes@), key@) is None,
        },
{
    let mut i: usize = 0;
    assert(text_pairs(attributes@).skip(0) == text_pairs(attributes@));
    while i < attributes.len()
        invariant
            i <= attributes.len(),
            spec_first_value(text_pairs(attributes@), key@) == spec_first_value(
                text_pairs(attributes@).skip(i as int),
                key@,
            ),
        decreases attributes.len() - i,
    {
        if str_equal(attributes[i].0.as_str(), key) {
            return Some(&attributes[i].1);
        }
        assert(text_pairs(attributes@).skip(i as int).skip(1) == text_pairs(attributes@).skip(
            i + 1,
        ));
        i += 1;
    }
    None
}

impl ManifestContents {
    /// Contents in which nothing has been collected yet.
    pub fn new() -> (contents: ManifestContents)
        ensures
            contents@ == spec_empty_contents(),
    {
        let contents = ManifestContents {
            pkg_name: String::new(),
            activities: Vec::new(),
            services: Vec::new(),
            providers: Vec::new(),
            receivers: Vec::new(),
            created_perms: Vec::new(),
            requested_perms: Vec::new(),
            main_entry_point: None,
        };
        assert(texts(Seq::<String>::empty()) == Seq::<Seq<char>>::empty());
        contents
    }

    /// Records an element with this tag and these attributes.
    pub fn record_element(&mut self, tag: &str, attributes: &[(String, String)])
        ensures
            final(self)@ == spec_record(old(self)@, tag@, text_pairs(attributes@)),
    {
        let name: String = match first_value(attributes, "android:name") {
            Some(value) => value.clone(),
            None => String::new(),
        };
        if str_equal(tag, "activity") {
            let ghost before = self.activities@;
            self.activities.push(name);
            assert(texts(self.activities@) == texts(before).push(name@));
        } else if str_equal(tag, "service") {
            let ghost before = self.services@;
            self.services.push(name);
            assert(texts(self.services@) == texts(before).push(name@));
        } else if str_equal(tag, "provider") {
            let ghost before = self.providers@;
            self.providers.push(name);
            assert(texts(self.providers@) == texts(before).push(name@));
        } else if str_equal(tag, "receiver") {
            let ghost before = self.receivers@;
            self.receivers.push(name);
            assert(texts(self.receivers@) == texts(before).push(name@));
        } else if str_equal(tag, "permission") {
            let ghost before = self.created_perms@;
            self.created_perms.push(name);
            assert(texts(self.created_perms@) == texts(before).push(name@));
        } else if str_equal(tag, "uses-permission") {
            let ghost before = self.requested_perms@;
            self.requested_perms.push(name);
            assert(texts(self.requested_perms@) == texts(before).push(name@));
        } else if str_equal(tag, "action") && str_equal(
            name.as_str(),
            "android.intent.action.MAIN",
        ) {
            let count: usize = self.activities.len();
            if count > 0 {
                self.main_entry_point = Some(self.activities[count - 1].clone());
            } else {
                self.main_entry_point = None;
            }
        }
        if str_equal(tag, "manifest") {
            match first_value(attributes, "package") {
                Some(value) => {
                    self.pkg_name = value.clone();
                },
                None => {},
            }
        }
    }
}

impl Default for ManifestContents {
    fn default() -> (contents: ManifestContents)
        ensures
            contents@ == spec_empty_contents(),
    {
        ManifestContents::new()
    }
}

/// Decodes the chunk stream from the cursor on and collects the manifest
/// contents of its elements.
///
/// The pass ends where fewer than two bytes are left. Every decode error
/// ends it at once, and nothing is returned of what was collected until
/// then.
pub fn get_manifest_contents(axml_cursor: ByteCursor) -> (r: Result<ManifestContents, DecodeError>)
    ensures
        match r {
            Ok(contents) => spec_manifest_contents(axml_cursor.bytes(), axml_cursor.pos()) == Ok::<
                ManifestContentsView,
                DecodeError,
            >(contents@),
            Err(e) => spec_manifest_contents(axml_cursor.bytes(), axml_cursor.pos()) == Err::<
                ManifestContentsView,
                DecodeError,
            >(e),
        },
{
    let mut cursor = axml_cursor;
    let mut contents = ManifestContents::new();
    let mut global_strings: Vec<String> = Vec::new();
    let mut namespace_prefixes = NamespaceTable::new();
    assert(texts(global_strings@) == Seq::<Seq<char>>::empty());
    loop
        invariant
            cursor.bytes() == axml_cursor.bytes(),
            spec_contents_from(
                cursor.bytes(),
                cursor.pos(),
                texts(global_strings@),
                namespace_prefixes@,
                contents@,
            ) == spec_manifest_contents(axml_cursor.bytes(), axml_cursor.pos()),
        decreases cursor.bytes().len() - cursor.pos(),
    {
        match next_event(&mut cursor, &mut global_strings, &mut namespace_prefixes) {
            Err(e) => {
                return Err(e);
            },
            Ok(None) => {
                return Ok(contents);
            },
            Ok(Some(event)) => {
                match event {
                    XmlEvent::StartElement { name, attributes } => {
                        contents.record_element(name.as_str(), attributes.as_slice());
                    },
                    _ => {},
                }
            },
        }
    }
}

/// Convenience function to decode the manifest of an app from the bytes of
/// its binary manifest file.
pub fn parse_app_manifest(data: Vec<u8>) -> (r: Result<ManifestContents, DecodeError>)
    ensures
        match r {
            Ok(contents) => spec_manifest_contents(data@, 0) == Ok::<
                ManifestContentsView,
                DecodeError,
            >(contents@),
            Err(e) => spec_manifest_contents(data@, 0) == Err::<ManifestContentsView, DecodeError>(
                e,
            ),
        },
{
    let cursor = ByteCursor::new(data);
    get_manifest_contents(cursor)
}

/// A pass is one step and then the pass from where that step ends. (The
/// test on the step's end in `spec_contents_from` only serves to show that
/// the pass ends; every step passes it.)
pub proof fn lemma_pass_is_step_by_step(
    bytes: Seq<u8>,
    pos: int,
    strings: Seq<Seq<char>>,
    namespaces: Map<Seq<char>, Seq<char>>,
    contents: ManifestContentsView,
)
    ensures
        spec_contents_from(bytes, pos, strings, namespaces, contents) == match spec_next_event(
            bytes,
            pos,
            strings,
            namespaces,
        ) {
            Err(e) => Err(e),
            Ok(None) => Ok(contents),
            Ok(Some(step)) => spec_contents_from(
                bytes,
                step.pos,
                step.strings,
                step.namespaces,
                spec_apply(contents, step.event),
            ),
        },
{
    lemma_step_advances(bytes, pos, strings, namespaces);
}

} // verus!
