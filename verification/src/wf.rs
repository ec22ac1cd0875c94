//! Document validity.
//!
//! Correlation matches declarations by name, so its behaviour is only
//! meaningful when every declaration used as a correlation key is unique
//! within its containing list; a parser producing well-formed documents
//! guarantees this. These predicates state that requirement for every
//! correlated list in a document, recursively.

use vstd::prelude::*;

use crate::correlate::names_unique;
use crate::document::{
    ConstDirective, DirectiveDefinition, EnumValueDefinition, FieldDefinition,
    InputValueDefinition, SchemaDefinition, ServiceDocument, TypeDefinition, TypeKind,
};

verus! {

/// A directive application's argument names are unique.
pub open spec fn const_directive_wf(d: ConstDirective) -> bool {
    names_unique(d.arguments@)
}

/// A directive-application list has unique directive names and well-formed
/// applications.
pub open spec fn directive_list_wf(ds: Seq<ConstDirective>) -> bool {
    &&& names_unique(ds)
    &&& forall|i: int| 0 <= i < ds.len() ==> const_directive_wf(#[trigger] ds[i])
}

/// An input value's applied directives are well-formed.
pub open spec fn input_value_wf(iv: InputValueDefinition) -> bool {
    directive_list_wf(iv.directives@)
}

/// An input-value list has unique names and well-formed entries.
pub open spec fn input_value_list_wf(s: Seq<InputValueDefinition>) -> bool {
    &&& names_unique(s)
    &&& forall|i: int| 0 <= i < s.len() ==> input_value_wf(#[trigger] s[i])
}

/// A field's argument list and applied directives are well-formed.
pub open spec fn field_wf(f: FieldDefinition) -> bool {
    &&& input_value_list_wf(f.arguments@)
    &&& directive_list_wf(f.directives@)
}

/// A field list has unique names and well-formed entries.
pub open spec fn field_list_wf(s: Seq<FieldDefinition>) -> bool {
    &&& names_unique(s)
    &&& forall|i: int| 0 <= i < s.len() ==> field_wf(#[trigger] s[i])
}

/// An enum value's applied directives are well-formed.
pub open spec fn enum_value_wf(v: EnumValueDefinition) -> bool {
    directive_list_wf(v.directives@)
}

/// An enum-value list has unique value literals and well-formed entries.
pub open spec fn enum_value_list_wf(s: Seq<EnumValueDefinition>) -> bool {
    &&& names_unique(s)
    &&& forall|i: int| 0 <= i < s.len() ==> enum_value_wf(#[trigger] s[i])
}

/// A type definition's kind holds well-formed, uniquely named lists.
pub open spec fn type_kind_wf(k: TypeKind) -> bool {
    match k {
        TypeKind::Scalar => true,
        TypeKind::Object(o) => names_unique(o.implements@) && field_list_wf(o.fields@),
        TypeKind::Interface(i) => names_unique(i.implements@) && field_list_wf(i.fields@),
        TypeKind::Union(u) => names_unique(u.members@),
        TypeKind::Enum(e) => enum_value_list_wf(e.values@),
        TypeKind::InputObject(io) => input_value_list_wf(io.fields@),
    }
}

/// A type definition's directives and kind are well-formed.
pub open spec fn type_definition_wf(t: TypeDefinition) -> bool {
    &&& directive_list_wf(t.directives@)
    &&& type_kind_wf(t.kind)
}

/// A schema-root definition's applied directives are well-formed.
pub open spec fn schema_definition_wf(s: SchemaDefinition) -> bool {
    directive_list_wf(s.directives@)
}

/// A directive definition's argument list is well-formed.
pub open spec fn directive_definition_wf(d: DirectiveDefinition) -> bool {
    input_value_list_wf(d.arguments@)
}

/// A valid document: unique names within every correlated list, and at most
/// one schema-root definition.
pub open spec fn document_wf(doc: ServiceDocument) -> bool {
    &&& names_unique(doc.directive_definitions@)
    &&& forall|i: int|
        0 <= i < doc.directive_definitions@.len() ==> directive_definition_wf(
            #[trigger] doc.directive_definitions@[i],
        )
    &&& doc.schema_definitions@.len() <= 1
    &&& forall|i: int|
        0 <= i < doc.schema_definitions@.len() ==> schema_definition_wf(
            #[trigger] doc.schema_definitions@[i],
        )
    &&& names_unique(doc.type_definitions@)
    &&& forall|i: int|
        0 <= i < doc.type_definitions@.len() ==> type_definition_wf(
            #[trigger] doc.type_definitions@[i],
        )
}

} // verus!
