//! Schema version registry for configuration documents.
//!
//! The `version` field of a document names the schema revision of the
//! document format (not the project's own version). Unrecognized values are
//! rejected before any other field is read; the rejection message names the
//! offending value and the supported set.

use vstd::prelude::*;
use vstd::string::*;

use crate::error::Error;
use crate::text::str_eq;

verus! {

/// The schema revisions this library recognizes.
#[derive(Debug, Clone, Copy, PartialEq, Eq, Hash, Structural)]
pub enum SchemaVersion {
    /// Revision 0.1, the initial schema.
    V0_1,
}

/// The message carried by the rejection of an unsupported version string.
pub open spec fn spec_unsupported_version_msg(s: Seq<char>) -> Seq<char> {
    "Unsupported schema version: '"@ + s + "'. Supported versions: 0.1"@
}

impl SchemaVersion {
    /// Parse a version string such as `"0.1"` into a schema revision.
    ///
    /// Succeeds exactly on the supported version strings; any other value is
    /// rejected with a message naming it and the supported set.
    pub fn parse(s: &str) -> (r: Result<SchemaVersion, Error>)
        ensures
            (r is Ok) <==> s@ == "0.1"@,
            r is Ok ==> r->Ok_0 == SchemaVersion::V0_1,
            r matches Err(e) ==> e matches Error::InvalidTemplate(m)
                && m@ == spec_unsupported_version_msg(s@),
    {
        if str_eq(s, "0.1") {
            Ok(SchemaVersion::V0_1)
        } else {
            let mut m = "Unsupported schema version: '".to_owned();
            m.append(s);
            m.append("'. Supported versions: 0.1");
            Err(Error::InvalidTemplate(m))
        }
    }

    /// The string form of this schema revision.
    pub fn as_str(&self) -> (r: &'static str)
        ensures
            r@ == "0.1"@,
    {
        match self {
            SchemaVersion::V0_1 => "0.1",
        }
    }

    /// Whether a version string names a supported schema revision.
    pub fn is_supported(s: &str) -> (r: bool)
        ensures
            r == (s@ == "0.1"@),
    {
        match Self::parse(s) {
            Ok(_) => true,
            Err(_) => false,
        }
    }

    /// The schema revision that new documents are written in.
    pub fn default() -> (r: SchemaVersion)
        ensures
            r == SchemaVersion::V0_1,
    {
        SchemaVersion::V0_1
    }
}

} // verus!
