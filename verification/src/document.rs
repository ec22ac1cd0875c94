//! The schema document model the diff engine consumes.
//!
//! A document is an already-parsed description of an API type system: its
//! directive definitions, at most one schema-root definition, and its type
//! definitions, partitioned by kind. Values are plain data — names and
//! literals are held as strings, type references as a recursive structure —
//! so the engine is agnostic to where a document came from.

use vstd::prelude::*;

verus! {

/// A type reference, for example `String` or `[String!]!`: recursively either
/// a named type or a list, each level carrying its own nullability flag.
#[derive(Debug)]
pub struct TypeRef {
    pub base: BaseTypeRef,
    pub nullable: bool,
}

/// The base of a type reference, without its nullability flag.
#[derive(Debug)]
pub enum BaseTypeRef {
    /// A named type, such as `String`.
    Named(String),
    /// A list type, such as `[String]`.
    List(Box<TypeRef>),
}

/// One named argument of a directive application, with its literal value
/// rendered as text.
#[derive(Debug)]
pub struct DirectiveArgument {
    pub name: String,
    pub value: String,
}

/// A directive application: a name plus an ordered list of named arguments.
#[derive(Debug)]
pub struct ConstDirective {
    pub name: String,
    pub arguments: Vec<DirectiveArgument>,
}

/// An input value definition, used for field arguments and input-object
/// fields. The optional default value is a literal rendered as text.
#[derive(Debug)]
pub struct InputValueDefinition {
    pub description: Option<String>,
    pub name: String,
    pub ty: TypeRef,
    pub default_value: Option<String>,
    pub directives: Vec<ConstDirective>,
}

/// A field definition of an object or interface type.
#[derive(Debug)]
pub struct FieldDefinition {
    pub description: Option<String>,
    pub name: String,
    pub arguments: Vec<InputValueDefinition>,
    pub ty: TypeRef,
    pub directives: Vec<ConstDirective>,
}

/// One value of an enum type; its identity is the value's literal itself.
#[derive(Debug)]
pub struct EnumValueDefinition {
    pub description: Option<String>,
    pub value: String,
    pub directives: Vec<ConstDirective>,
}

/// An object type: implemented interfaces plus an ordered field list.
#[derive(Debug)]
pub struct ObjectType {
    pub implements: Vec<String>,
    pub fields: Vec<FieldDefinition>,
}

/// An interface type: implemented interfaces plus an ordered field list.
#[derive(Debug)]
pub struct InterfaceType {
    pub implements: Vec<String>,
    pub fields: Vec<FieldDefinition>,
}

/// A union type: an ordered list of member type names.
#[derive(Debug)]
pub struct UnionType {
    pub members: Vec<String>,
}

/// An enum type: an ordered list of values.
#[derive(Debug)]
pub struct EnumType {
    pub values: Vec<EnumValueDefinition>,
}

/// An input object type: an ordered list of input fields.
#[derive(Debug)]
pub struct InputObjectType {
    pub fields: Vec<InputValueDefinition>,
}

/// The kind of a type definition, a closed sum over every declarable kind.
#[derive(Debug)]
pub enum TypeKind {
    Scalar,
    Object(ObjectType),
    Interface(InterfaceType),
    Union(UnionType),
    Enum(EnumType),
    InputObject(InputObjectType),
}

/// A type definition: a name plus exactly one kind, with an optional
/// description and applied directives.
#[derive(Debug)]
pub struct TypeDefinition {
    pub extend: bool,
    pub description: Option<String>,
    pub name: String,
    pub directives: Vec<ConstDirective>,
    pub kind: TypeKind,
}

/// The schema-root definition: the names of the root operation types, plus
/// applied directives.
#[derive(Debug)]
pub struct SchemaDefinition {
    pub extend: bool,
    pub directives: Vec<ConstDirective>,
    pub query: Option<String>,
    pub mutation: Option<String>,
    pub subscription: Option<String>,
}

/// A directive definition: name, arguments and the `isRepeatable` flag.
/// The locations a directive may be applied at do not take part in
/// comparison and are not modelled.
#[derive(Debug)]
pub struct DirectiveDefinition {
    pub description: Option<String>,
    pub name: String,
    pub arguments: Vec<InputValueDefinition>,
    pub is_repeatable: bool,
}

/// A parsed schema document: its top-level declarations, partitioned by
/// kind. Order within each list is the declaration order of the source;
/// comparison correlates by name, not position.
#[derive(Debug)]
pub struct ServiceDocument {
    pub directive_definitions: Vec<DirectiveDefinition>,
    pub schema_definitions: Vec<SchemaDefinition>,
    pub type_definitions: Vec<TypeDefinition>,
}

} // verus!
