//! Errors shared across the library.

use vstd::prelude::*;
use vstd::string::StringExecFns;

verus! {

/// A demo resolver that has no implementation yet.
#[derive(Debug, Clone)]
pub struct UnimplementedError(pub String);

impl UnimplementedError {
    /// Renders the error as text.
    pub fn display_string(&self) -> (r: String)
        ensures
            r@ == "UnimplementedError: '"@ + self.0@ + "'"@,
    {
        let mut s = "UnimplementedError: '".to_owned();
        s.append(self.0.as_str());
        s.append("'");
        s
    }
}

/// A schema document could not be loaded from a file: the offending path
/// and the underlying failure, rendered as text.
#[derive(Debug, Clone)]
pub struct CannotLoadServiceDocumentFromPath {
    pub path: String,
    pub error: String,
}

impl CannotLoadServiceDocumentFromPath {
    /// Renders the error as text.
    pub fn display_string(&self) -> (r: String)
        ensures
            r@ == "CannotLoadServiceDocumentFromPath: path = '"@ + self.path@ + "', error = "@
                + self.error@,
    {
        let mut s = "CannotLoadServiceDocumentFromPath: path = '".to_owned();
        s.append(self.path.as_str());
        s.append("', error = ");
        s.append(self.error.as_str());
        s
    }
}

/// A schema document could not be parsed from an in-memory string: the
/// underlying failure, rendered as text.
#[derive(Debug, Clone)]
pub struct CannotLoadServiceDocumentFromString(pub String);

impl CannotLoadServiceDocumentFromString {
    /// Renders the error as text.
    pub fn display_string(&self) -> (r: String)
        ensures
            r@ == "CannotLoadServiceDocumentFromString: error = "@ + self.0@,
    {
        let mut s = "CannotLoadServiceDocumentFromString: error = ".to_owned();
        s.append(self.0.as_str());
        s
    }
}

} // verus!
