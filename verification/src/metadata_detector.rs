//! Metadata that follows from a file's name: its extension, and the MIME
//! type that a table gives for the extension.

use std::collections::HashMap;
use vstd::prelude::*;

use crate::error::MetadataDetectorError;
use crate::remote::{BlobMeta, BlobMetaModel};
use crate::typing::{find_pair, lemma_pairs_view_push, pairs_view};

verus! {

/// `serde_json::Error`, carried through as an opaque value.
#[verifier::external_type_specification]
#[verifier::external_body]
pub struct ExJsonError(serde_json::Error);

/// The map that `serde_json` reads from `bytes` as a JSON object whose
/// values are strings; `None` where it reads no such object.
pub uninterp spec fn json_string_map(bytes: Seq<u8>) -> Option<Map<Seq<char>, Seq<char>>>;

/// `serde_json::from_slice`, asked for a map from strings to strings. The
/// pairs returned are the entries of the map that was read, each key once,
/// in no particular order.
#[verifier::external_body]
fn parse_string_map(bytes: &[u8]) -> (r: Result<Vec<(String, String)>, serde_json::Error>)
    ensures
        match r {
            Ok(pairs) => json_string_map(bytes@) == Some(pairs_view(pairs@)),
            Err(_) => json_string_map(bytes@) is None,
        },
{
    match serde_json::from_slice::<HashMap<String, String>>(bytes) {
        Ok(map) => Ok(map.into_iter().collect()),
        Err(e) => Err(e),
    }
}

/// The metadata key under which the MIME type is filed.
pub open spec fn content_type_key() -> Seq<char> {
    "content-type"@
}

/// The metadata key under which the extension is filed.
pub open spec fn extension_key() -> Seq<char> {
    "extension"@
}

/// The MIME type that `table` gives for the extension, if there is an
/// extension and the table knows it.
pub open spec fn mime_type_of(table: Map<Seq<char>, Seq<char>>, extension: Option<Seq<char>>)
    -> Option<Seq<char>> {
    match extension {
        Some(extension) => if table.contains_key(extension) {
            Some(table[extension])
        } else {
            None
        },
        None => None,
    }
}

/// The metadata pairs after detection for a file with this extension: the
/// MIME type, where the table gives one, and then the extension, where there
/// is one.
pub open spec fn populated(
    table: Map<Seq<char>, Seq<char>>,
    extension: Option<Seq<char>>,
    metadata: Map<Seq<char>, Seq<char>>,
) -> Map<Seq<char>, Seq<char>> {
    let typed = match mime_type_of(table, extension) {
        Some(mime_type) => metadata.insert(content_type_key(), mime_type),
        None => metadata,
    };
    match extension {
        Some(extension) => typed.insert(extension_key(), extension),
        None => typed,
    }
}

/// Finds the MIME type of a file by its extension.
#[derive(Clone, Debug)]
pub struct MetadataDetector {
    mime_types: Vec<(String, String)>,
}

impl View for MetadataDetector {
    type V = Map<Seq<char>, Seq<char>>;

    closed spec fn view(&self) -> Map<Seq<char>, Seq<char>> {
        pairs_view(self.mime_types@)
    }
}

impl MetadataDetector {
    /// The detector for the table that `bytes` hold: a JSON object that
    /// gives a MIME type for each extension it knows.
    pub fn new(bytes: &[u8]) -> (r: Result<Self, MetadataDetectorError>)
        ensures
            match json_string_map(bytes@) {
                Some(table) => r is Ok && r->Ok_0@ == table,
                None => r == Err::<Self, MetadataDetectorError>(
                    MetadataDetectorError::InvalidMimeTable,
                ),
            },
    {
        match parse_string_map(bytes) {
            Ok(pairs) => Ok(MetadataDetector::from_table(pairs)),
            Err(_) => Err(MetadataDetectorError::InvalidMimeTable),
        }
    }

    /// The detector for a table given as pairs of an extension and its MIME
    /// type. Of two pairs with one extension the later counts.
    pub fn from_table(mime_types: Vec<(String, String)>) -> (detector: Self)
        ensures
            detector@ == pairs_view(mime_types@),
    {
        MetadataDetector { mime_types }
    }

    /// The MIME type for a file with this extension, if the table has one.
    pub fn detect_mime_type(&self, extension: Option<&str>) -> (r: Option<String>)
        ensures
            match mime_type_of(
                self@,
                match extension {
                    Some(e) => Some(e@),
                    None => None,
                },
            ) {
                Some(mime_type) => r is Some && r->Some_0@ == mime_type,
                None => r is None,
            },
    {
        match extension {
            Some(extension) => match find_pair(&self.mime_types, &extension.to_owned()) {
                Some(mime_type) => Some(mime_type.clone()),
                None => None,
            },
            None => None,
        }
    }

    /// Puts into the metadata of `meta` what follows from the extension of
    /// the file's name: under `content-type` the MIME type, where the table
    /// gives one, and under `extension` the extension, where there is one.
    pub fn populate(&self, extension: Option<&str>, meta: &mut BlobMeta) -> (r: Result<
        (),
        MetadataDetectorError,
    >)
        ensures
            r is Ok,
            final(meta)@ == (BlobMetaModel {
                metadata: populated(
                    self@,
                    match extension {
                        Some(e) => Some(e@),
                        None => None,
                    },
                    old(meta)@.metadata,
                ),
                ..old(meta)@
            }),
    {
        if let Some(mime_type) = self.detect_mime_type(extension) {
            let key = "content-type".to_owned();
            proof {
                lemma_pairs_view_push(meta.metadata@, (key, mime_type));
            }
            meta.metadata.push((key, mime_type));
        }
        if let Some(extension) = extension {
            let key = "extension".to_owned();
            let value = extension.to_owned();
            proof {
                lemma_pairs_view_push(meta.metadata@, (key, value));
            }
            meta.metadata.push((key, value));
        }
        Ok(())
    }
}

} // verus!
