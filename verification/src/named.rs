//! Stable identity keys for correlation.
//!
//! Every declaration kind that takes part in list correlation exposes a name
//! that identifies it within its containing list. The schema-root definition
//! has no natural name and carries the fixed sentinel label `"schema"`; an
//! enum value's key is the value's literal itself; a directive argument is
//! keyed by its argument name.

use vstd::prelude::*;
use vstd::string::StringExecFns;

use crate::document::{
    ConstDirective, DirectiveArgument, DirectiveDefinition, EnumValueDefinition, FieldDefinition,
    InputValueDefinition, SchemaDefinition, TypeDefinition,
};

verus! {

/// A declaration with a stable identity key for correlation.
pub trait Named {
    /// The identity key as a mathematical character sequence.
    spec fn spec_name(&self) -> Seq<char>;

    /// The identity key.
    fn name(&self) -> (r: String)
        ensures
            r@ == self.spec_name(),
    ;
}

impl Named for DirectiveDefinition {
    open spec fn spec_name(&self) -> Seq<char> {
        self.name@
    }

    fn name(&self) -> (r: String) {
        self.name.clone()
    }
}

impl Named for SchemaDefinition {
    open spec fn spec_name(&self) -> Seq<char> {
        "schema"@
    }

    fn name(&self) -> (r: String) {
        "schema".to_owned()
    }
}

impl Named for TypeDefinition {
    open spec fn spec_name(&self) -> Seq<char> {
        self.name@
    }

    fn name(&self) -> (r: String) {
        self.name.clone()
    }
}

impl Named for ConstDirective {
    open spec fn spec_name(&self) -> Seq<char> {
        self.name@
    }

    fn name(&self) -> (r: String) {
        self.name.clone()
    }
}

impl Named for InputValueDefinition {
    open spec fn spec_name(&self) -> Seq<char> {
        self.name@
    }

    fn name(&self) -> (r: String) {
        self.name.clone()
    }
}

impl Named for FieldDefinition {
    open spec fn spec_name(&self) -> Seq<char> {
        self.name@
    }

    fn name(&self) -> (r: String) {
        self.name.clone()
    }
}

impl Named for EnumValueDefinition {
    open spec fn spec_name(&self) -> Seq<char> {
        self.value@
    }

    fn name(&self) -> (r: String) {
        self.value.clone()
    }
}

impl Named for DirectiveArgument {
    open spec fn spec_name(&self) -> Seq<char> {
        self.name@
    }

    fn name(&self) -> (r: String) {
        self.name.clone()
    }
}

impl Named for String {
    open spec fn spec_name(&self) -> Seq<char> {
        self@
    }

    fn name(&self) -> (r: String) {
        self.clone()
    }
}

} // verus!
