//! Decoder for Android's binary XML and resource-table chunk streams.
//!
//! A document is a sequence of framed chunks. Each chunk starts with an
//! eight-byte header (tag, header size, total size) and is decoded by the
//! module named after it. All decoders work on a [`cursor::ByteCursor`] and
//! either succeed and advance it, or fail and leave it where it was.

pub mod error;
pub mod cursor;
pub mod text;
pub mod xml_types;
pub mod chunk_header;
pub mod string_pool;
pub mod resource_map;
pub mod data_value_type;
pub mod res_value;
pub mod namespaces;
pub mod parser;
pub mod res_table;
pub mod decoder;
pub mod manifest;
pub mod cli;

pub use crate::manifest::get_manifest_contents;
pub use crate::manifest::parse_app_manifest;
pub use crate::manifest::ManifestContents;
