//! The command surface: subcommands and their parameters, as plain data.
//!
//! A schema-source argument is written `file:<path>` or the literal
//! `self-schema`; anything else is rejected before a comparison runs.

use vstd::prelude::*;
use vstd::string::{StrSliceExecFns, StringExecFns};

use crate::text::str_eq;

verus! {

/// Where a schema document comes from: a file on disk, or the running
/// server's own schema.
#[derive(Debug, Clone)]
pub enum SchemaSource {
    File(String),
    SelfSchema,
}

/// The argument text did not name a schema source.
#[derive(Debug, Clone)]
pub struct CannotParseSchemaSource(pub String);

impl CannotParseSchemaSource {
    /// Renders the error as text.
    pub fn display_string(&self) -> (r: String)
        ensures
            r@ == "CannotParseSchemaSource: source = '"@ + self.0@ + "'"@,
    {
        let mut s = "CannotParseSchemaSource: source = '".to_owned();
        s.append(self.0.as_str());
        s.append("'");
        s
    }
}

/// The argument names a file: it starts with the `file:` prefix.
pub open spec fn is_file_source(s: Seq<char>) -> bool {
    s.len() >= 5 && s.subrange(0, 5) == "file:"@
}

/// The argument names the running server's own schema.
pub open spec fn is_self_schema_source(s: Seq<char>) -> bool {
    s == "self-schema"@
}

impl SchemaSource {
    /// Parses a schema-source argument: `file:<path>` names a file,
    /// `self-schema` the live schema, and anything else is rejected.
    pub fn from_str(s: &str) -> (r: Result<SchemaSource, CannotParseSchemaSource>)
        ensures
            match r {
                Ok(SchemaSource::File(path)) => is_file_source(s@) && path@ == s@.subrange(
                    5,
                    s@.len() as int,
                ),
                Ok(SchemaSource::SelfSchema) => !is_file_source(s@) && is_self_schema_source(s@),
                Err(e) => !is_file_source(s@) && !is_self_schema_source(s@) && e.0@ == s@,
            },
    {
        let n = s.unicode_len();
        if n >= 5 && str_eq(s.substring_char(0, 5), "file:") {
            let path = s.substring_char(5, n).to_owned();
            Ok(SchemaSource::File(path))
        } else if str_eq(s, "self-schema") {
            Ok(SchemaSource::SelfSchema)
        } else {
            Err(CannotParseSchemaSource(s.to_owned()))
        }
    }
}

/// Parameters of the server subcommand.
#[derive(Debug, Clone)]
pub struct ServeParams {
    pub listener_address: String,
}

/// Parameters of the schema-comparison subcommand: the two sources to
/// compare. All four combinations of file and self-schema are legal.
#[derive(Debug, Clone)]
pub struct DiffSchemaParams {
    pub schema_source_left: SchemaSource,
    pub schema_source_right: SchemaSource,
}

/// The subcommands the tool accepts.
#[derive(Debug, Clone)]
pub enum Commands {
    Serve(ServeParams),
    Sdl,
    DiffSchema(DiffSchemaParams),
}

/// The whole command line.
#[derive(Debug, Clone)]
pub struct Cli {
    pub command: Commands,
    pub purge_db: bool,
}

} // verus!
