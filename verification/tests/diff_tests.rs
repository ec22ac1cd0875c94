use graphql_cli_tools::document::{
    BaseTypeRef, ConstDirective, DirectiveArgument, DirectiveDefinition, EnumType,
    EnumValueDefinition, FieldDefinition, InputObjectType, InputValueDefinition, InterfaceType,
    ObjectType, SchemaDefinition, ServiceDocument, TypeDefinition, TypeKind, TypeRef, UnionType,
};
use graphql_cli_tools::report::render_report_entry;
use graphql_cli_tools::schema_diff::diff_schema;

fn named(name: &str, nullable: bool) -> TypeRef {
    TypeRef { base: BaseTypeRef::Named(name.to_string()), nullable }
}

fn list(inner: TypeRef, nullable: bool) -> TypeRef {
    TypeRef { base: BaseTypeRef::List(Box::new(inner)), nullable }
}

fn field(name: &str, ty: TypeRef) -> FieldDefinition {
    FieldDefinition {
        description: None,
        name: name.to_string(),
        arguments: Vec::new(),
        ty,
        directives: Vec::new(),
    }
}

fn argument(name: &str, ty: TypeRef, default_value: Option<&str>) -> InputValueDefinition {
    InputValueDefinition {
        description: None,
        name: name.to_string(),
        ty,
        default_value: default_value.map(|v| v.to_string()),
        directives: Vec::new(),
    }
}

fn object(name: &str, implements: Vec<&str>, fields: Vec<FieldDefinition>) -> TypeDefinition {
    TypeDefinition {
        extend: false,
        description: None,
        name: name.to_string(),
        directives: Vec::new(),
        kind: TypeKind::Object(ObjectType {
            implements: implements.iter().map(|s| s.to_string()).collect(),
            fields,
        }),
    }
}

fn document(types: Vec<TypeDefinition>) -> ServiceDocument {
    ServiceDocument {
        directive_definitions: Vec::new(),
        schema_definitions: Vec::new(),
        type_definitions: types,
    }
}

fn lines(left: &ServiceDocument, right: &ServiceDocument) -> Vec<String> {
    diff_schema(left, right).iter().map(render_report_entry).collect()
}

/// A document exercising directives, interfaces, unions, enums, input
/// objects and default values compares equal to itself.
#[test]
fn identity_full_document() {
    let build = || ServiceDocument {
        directive_definitions: vec![DirectiveDefinition {
            description: Some("marks a field".to_string()),
            name: "mark".to_string(),
            arguments: vec![argument("reason", named("String", true), Some("\"legacy\""))],
            is_repeatable: true,
        }],
        schema_definitions: vec![SchemaDefinition {
            extend: false,
            directives: vec![ConstDirective {
                name: "mark".to_string(),
                arguments: vec![DirectiveArgument {
                    name: "reason".to_string(),
                    value: "\"root\"".to_string(),
                }],
            }],
            query: Some("Query".to_string()),
            mutation: None,
            subscription: None,
        }],
        type_definitions: vec![
            TypeDefinition {
                extend: false,
                description: Some("a node".to_string()),
                name: "Node".to_string(),
                directives: Vec::new(),
                kind: TypeKind::Interface(InterfaceType {
                    implements: Vec::new(),
                    fields: vec![field("id", named("ID", false))],
                }),
            },
            object("User", vec!["Node"], vec![
                field("id", named("ID", false)),
                field("tags", list(named("String", false), true)),
            ]),
            TypeDefinition {
                extend: false,
                description: None,
                name: "Pet".to_string(),
                directives: Vec::new(),
                kind: TypeKind::Union(UnionType {
                    members: vec!["Cat".to_string(), "Dog".to_string()],
                }),
            },
            TypeDefinition {
                extend: false,
                description: None,
                name: "Color".to_string(),
                directives: Vec::new(),
                kind: TypeKind::Enum(EnumType {
                    values: vec![
                        EnumValueDefinition {
                            description: None,
                            value: "RED".to_string(),
                            directives: Vec::new(),
                        },
                        EnumValueDefinition {
                            description: None,
                            value: "BLUE".to_string(),
                            directives: Vec::new(),
                        },
                    ],
                }),
            },
            TypeDefinition {
                extend: false,
                description: None,
                name: "UserFilter".to_string(),
                directives: Vec::new(),
                kind: TypeKind::InputObject(InputObjectType {
                    fields: vec![argument("limit", named("Int", true), Some("10"))],
                }),
            },
            TypeDefinition {
                extend: false,
                description: None,
                name: "Time".to_string(),
                directives: Vec::new(),
                kind: TypeKind::Scalar,
            },
        ],
    };
    let left = build();
    let right = build();
    assert_eq!(lines(&left, &right).len(), 0);
    assert_eq!(lines(&left, &left).len(), 0);
}

/// One added field reports as a non-breaking addition; swapping the sides
/// reports the same field as a removal, which is breaking.
#[test]
fn added_field_reverses_to_breaking_removal() {
    let left = document(vec![object("User", Vec::new(), vec![field("id", named("ID", false))])]);
    let right = document(vec![object(
        "User",
        Vec::new(),
        vec![field("id", named("ID", false)), field("name", named("String", true))],
    )]);

    let forward = lines(&left, &right);
    assert_eq!(forward, vec![
        "ObjectDefinition(User) -> Field: item is added to the right, name = 'name' (breaking = non-breaking)"
            .to_string(),
    ]);

    let backward = lines(&right, &left);
    assert_eq!(backward, vec![
        "ObjectDefinition(User) -> Field: item is removed, name = 'name' (breaking = breaking)"
            .to_string(),
    ]);
}

/// The extra field is detected wherever it stands in the list, not only at
/// the end.
#[test]
fn field_inserted_in_the_middle_is_detected() {
    let left = document(vec![object(
        "User",
        Vec::new(),
        vec![field("id", named("ID", false)), field("name", named("String", true))],
    )]);
    let right = document(vec![object(
        "User",
        Vec::new(),
        vec![
            field("id", named("ID", false)),
            field("nickname", named("String", true)),
            field("name", named("String", true)),
        ],
    )]);
    assert_eq!(lines(&left, &right), vec![
        "ObjectDefinition(User) -> Field: item is added to the right, name = 'nickname' (breaking = non-breaking)"
            .to_string(),
    ]);
    assert_eq!(lines(&right, &left), vec![
        "ObjectDefinition(User) -> Field: item is removed, name = 'nickname' (breaking = breaking)"
            .to_string(),
    ]);
}

fn with_argument(arg: InputValueDefinition) -> ServiceDocument {
    let mut f = field("find", named("User", true));
    f.arguments.push(arg);
    document(vec![object("Query", Vec::new(), vec![f])])
}

/// Adding a nullable argument with no default is non-breaking.
#[test]
fn added_nullable_argument_is_non_breaking() {
    let left = document(vec![object("Query", Vec::new(), vec![field("find", named("User", true))])]);
    let right = with_argument(argument("filter", named("String", true), None));
    assert_eq!(lines(&left, &right), vec![
        "ObjectDefinition(Query) -> Field(find) -> InputArgument: item is added to the right, name = 'filter' (breaking = non-breaking)"
            .to_string(),
    ]);
}

/// Adding a non-nullable argument with no default is breaking.
#[test]
fn added_required_argument_is_breaking() {
    let left = document(vec![object("Query", Vec::new(), vec![field("find", named("User", true))])]);
    let right = with_argument(argument("filter", named("String", false), None));
    assert_eq!(lines(&left, &right), vec![
        "ObjectDefinition(Query) -> Field(find) -> InputArgument: item is added to the right, name = 'filter' (breaking = breaking)"
            .to_string(),
    ]);
}

/// Adding an argument with a default value is non-breaking even when it is
/// non-nullable.
#[test]
fn added_defaulted_argument_is_non_breaking() {
    let left = document(vec![object("Query", Vec::new(), vec![field("find", named("User", true))])]);
    let right = with_argument(argument("filter", named("String", false), Some("\"all\"")));
    assert_eq!(lines(&left, &right), vec![
        "ObjectDefinition(Query) -> Field(find) -> InputArgument: item is added to the right, name = 'filter' (breaking = non-breaking)"
            .to_string(),
    ]);
}

/// A list-shape mismatch on the same named type is breaking.
#[test]
fn list_shape_mismatch_is_breaking() {
    let left = document(vec![object("User", Vec::new(), vec![field("tags", named("String", true))])]);
    let right = document(vec![object(
        "User",
        Vec::new(),
        vec![field("tags", list(named("String", true), true))],
    )]);
    assert_eq!(lines(&left, &right), vec![
        "ObjectDefinition(User) -> Field(tags) -> Type: left value = String, right value = [String] (breaking = breaking)"
            .to_string(),
    ]);
    assert_eq!(lines(&right, &left), vec![
        "ObjectDefinition(User) -> Field(tags) -> Type: left value = [String], right value = String (breaking = breaking)"
            .to_string(),
    ]);
}

/// Tightening nullability is breaking; relaxing it is non-breaking.
#[test]
fn nullability_tightening_is_breaking() {
    let left = document(vec![object("User", Vec::new(), vec![field("name", named("String", true))])]);
    let right = document(vec![object("User", Vec::new(), vec![field("name", named("String", false))])]);
    assert_eq!(lines(&left, &right), vec![
        "ObjectDefinition(User) -> Field(name) -> Type: left value = String, right value = String! (breaking = breaking)"
            .to_string(),
    ]);
    assert_eq!(lines(&right, &left), vec![
        "ObjectDefinition(User) -> Field(name) -> Type: left value = String!, right value = String (breaking = non-breaking)"
            .to_string(),
    ]);
}

/// A nullability difference on a list level itself is reported: tightening
/// the list is breaking, relaxing it is non-breaking.
#[test]
fn list_level_nullability_is_compared() {
    let doc_with_tags = |ty: TypeRef| {
        document(vec![object("User", Vec::new(), vec![field("tags", ty)])])
    };
    let nullable_list = || doc_with_tags(list(named("String", true), true));
    let required_list = || doc_with_tags(list(named("String", true), false));
    assert_eq!(lines(&nullable_list(), &required_list()), vec![
        "ObjectDefinition(User) -> Field(tags) -> Type: left value = [String], right value = [String]! (breaking = breaking)"
            .to_string(),
    ]);
    assert_eq!(lines(&required_list(), &nullable_list()), vec![
        "ObjectDefinition(User) -> Field(tags) -> Type: left value = [String]!, right value = [String] (breaking = non-breaking)"
            .to_string(),
    ]);
}

/// Nullability of an inner list level is compared too, and a breaking
/// difference at one level outweighs a non-breaking one at another.
#[test]
fn inner_list_nullability_is_compared() {
    let doc_with_tags = |ty: TypeRef| {
        document(vec![object("User", Vec::new(), vec![field("tags", ty)])])
    };
    let inner_nullable = || doc_with_tags(list(named("String", true), true));
    let inner_required = || doc_with_tags(list(named("String", false), true));
    assert_eq!(lines(&inner_nullable(), &inner_required()), vec![
        "ObjectDefinition(User) -> Field(tags) -> Type: left value = [String], right value = [String!] (breaking = breaking)"
            .to_string(),
    ]);

    // the outer level relaxes (non-breaking) while the inner one tightens
    // (breaking); the breaking difference decides
    let outer_required = || doc_with_tags(list(named("String", true), false));
    assert_eq!(lines(&outer_required(), &inner_required()), vec![
        "ObjectDefinition(User) -> Field(tags) -> Type: left value = [String]!, right value = [String!] (breaking = breaking)"
            .to_string(),
    ]);
}

/// A type whose kind changes yields a single breaking mismatch entry and
/// its fields are not compared across the two kinds.
#[test]
fn kind_change_reports_single_mismatch() {
    let left = document(vec![object("Foo", Vec::new(), vec![field("id", named("ID", false))])]);
    let right = document(vec![TypeDefinition {
        extend: false,
        description: None,
        name: "Foo".to_string(),
        directives: Vec::new(),
        kind: TypeKind::Interface(InterfaceType {
            implements: Vec::new(),
            fields: vec![field("other", named("String", true))],
        }),
    }]);
    assert_eq!(lines(&left, &right), vec![
        "TypeDefinition(Foo): type mismatch, name = 'Foo' (breaking = breaking)".to_string(),
    ]);
}

/// The full scenario: a tightened field type is reported first, then the
/// added field, in traversal order.
#[test]
fn end_to_end_user_scenario() {
    let left = document(vec![object(
        "User",
        Vec::new(),
        vec![field("id", named("ID", false)), field("name", named("String", true))],
    )]);
    let right = document(vec![object(
        "User",
        Vec::new(),
        vec![
            field("id", named("ID", false)),
            field("name", named("String", false)),
            field("nickname", named("String", true)),
        ],
    )]);
    assert_eq!(lines(&left, &right), vec![
        "ObjectDefinition(User) -> Field(name) -> Type: left value = String, right value = String! (breaking = breaking)"
            .to_string(),
        "ObjectDefinition(User) -> Field: item is added to the right, name = 'nickname' (breaking = non-breaking)"
            .to_string(),
    ]);
}

/// A union member differing on either side is breaking in both directions.
#[test]
fn union_member_changes_are_breaking() {
    let union_of = |members: Vec<&str>| {
        document(vec![TypeDefinition {
            extend: false,
            description: None,
            name: "Pet".to_string(),
            directives: Vec::new(),
            kind: TypeKind::Union(UnionType {
                members: members.iter().map(|s| s.to_string()).collect(),
            }),
        }])
    };
    let left = union_of(vec!["Cat", "Dog"]);
    let right = union_of(vec!["Cat", "Dog", "Bird"]);
    assert_eq!(lines(&left, &right), vec![
        "UnionDefinition(Pet) -> UnionMemberDefinition: item is added to the right, name = 'Bird' (breaking = breaking)"
            .to_string(),
    ]);
    assert_eq!(lines(&right, &left), vec![
        "UnionDefinition(Pet) -> UnionMemberDefinition: item is removed, name = 'Bird' (breaking = breaking)"
            .to_string(),
    ]);
}

/// A new enum value is non-breaking; a removed one is breaking.
#[test]
fn enum_value_addition_and_removal() {
    let enum_of = |values: Vec<&str>| {
        document(vec![TypeDefinition {
            extend: false,
            description: None,
            name: "Color".to_string(),
            directives: Vec::new(),
            kind: TypeKind::Enum(EnumType {
                values: values
                    .iter()
                    .map(|v| EnumValueDefinition {
                        description: None,
                        value: v.to_string(),
                        directives: Vec::new(),
                    })
                    .collect(),
            }),
        }])
    };
    let left = enum_of(vec!["RED"]);
    let right = enum_of(vec!["RED", "BLUE"]);
    assert_eq!(lines(&left, &right), vec![
        "EnumDefinition(Color) -> EnumValueDefinition: item is added to the right, name = 'BLUE' (breaking = non-breaking)"
            .to_string(),
    ]);
    assert_eq!(lines(&right, &left), vec![
        "EnumDefinition(Color) -> EnumValueDefinition: item is removed, name = 'BLUE' (breaking = breaking)"
            .to_string(),
    ]);
}

/// A default value removed or changed is breaking; one added is
/// non-breaking.
#[test]
fn default_value_changes() {
    let doc_with_default = |default_value: Option<&str>| {
        with_argument(argument("filter", named("String", true), default_value))
    };
    let none = doc_with_default(None);
    let ten = doc_with_default(Some("10"));
    let twenty = doc_with_default(Some("20"));
    assert_eq!(lines(&ten, &twenty), vec![
        "ObjectDefinition(Query) -> Field(find) -> InputArgument(filter) -> DefaultValue: left value = '10', right value = '20' (breaking = breaking)"
            .to_string(),
    ]);
    assert_eq!(lines(&ten, &none), vec![
        "ObjectDefinition(Query) -> Field(find) -> InputArgument(filter) -> DefaultValue: item is removed, value = '10' (breaking = breaking)"
            .to_string(),
    ]);
    assert_eq!(lines(&none, &ten), vec![
        "ObjectDefinition(Query) -> Field(find) -> InputArgument(filter) -> DefaultValue: added to right, value = '10' (breaking = non-breaking)"
            .to_string(),
    ]);
}

/// A description change is non-breaking and the text is not echoed.
#[test]
fn description_change_is_masked_and_non_breaking() {
    let doc_with_description = |text: &str| {
        let mut f = field("id", named("ID", false));
        f.description = Some(text.to_string());
        document(vec![object("User", Vec::new(), vec![f])])
    };
    let left = doc_with_description("old words");
    let right = doc_with_description("new words");
    assert_eq!(lines(&left, &right), vec![
        "ObjectDefinition(User) -> Field(id) -> Description: left value = '?', right value = '?' (breaking = non-breaking)"
            .to_string(),
    ]);
}

/// A directive application added on the right has unknown impact; a changed
/// argument value has unknown impact too.
#[test]
fn directive_application_changes_are_unknown() {
    let doc_with_directive = |value: Option<&str>| {
        let mut t = object("User", Vec::new(), vec![field("id", named("ID", false))]);
        if let Some(v) = value {
            t.directives.push(ConstDirective {
                name: "mark".to_string(),
                arguments: vec![DirectiveArgument {
                    name: "level".to_string(),
                    value: v.to_string(),
                }],
            });
        }
        document(vec![t])
    };
    let bare = doc_with_directive(None);
    let one = doc_with_directive(Some("1"));
    let two = doc_with_directive(Some("2"));
    assert_eq!(lines(&bare, &one), vec![
        "ObjectDefinition(User) -> Directive: item is added to the right, name = 'mark' (breaking = unknown)"
            .to_string(),
    ]);
    assert_eq!(lines(&one, &two), vec![
        "ObjectDefinition(User) -> Directive(mark) -> DirectiveArgument(level) -> DirectiveArgument: left value = 1, right value = 2 (breaking = unknown)"
            .to_string(),
    ]);
}

/// Losing repeatability on a directive definition is breaking; gaining it
/// is non-breaking.
#[test]
fn directive_repeatability() {
    let doc_with_repeatable = |is_repeatable: bool| ServiceDocument {
        directive_definitions: vec![DirectiveDefinition {
            description: None,
            name: "mark".to_string(),
            arguments: Vec::new(),
            is_repeatable,
        }],
        schema_definitions: Vec::new(),
        type_definitions: Vec::new(),
    };
    let on = doc_with_repeatable(true);
    let off = doc_with_repeatable(false);
    assert_eq!(lines(&on, &off), vec![
        "DirectiveDefinition(mark) -> IsRepeatable: left value = true, right value = false (breaking = breaking)"
            .to_string(),
    ]);
    assert_eq!(lines(&off, &on), vec![
        "DirectiveDefinition(mark) -> IsRepeatable: left value = false, right value = true (breaking = non-breaking)"
            .to_string(),
    ]);
}

/// A root operation type added is non-breaking; changed or removed it is
/// breaking, and the type name is echoed.
#[test]
fn schema_root_operation_changes() {
    let doc_with_mutation = |mutation: Option<&str>| ServiceDocument {
        directive_definitions: Vec::new(),
        schema_definitions: vec![SchemaDefinition {
            extend: false,
            directives: Vec::new(),
            query: Some("Query".to_string()),
            mutation: mutation.map(|m| m.to_string()),
            subscription: None,
        }],
        type_definitions: Vec::new(),
    };
    let bare = doc_with_mutation(None);
    let with_m = doc_with_mutation(Some("Mutation"));
    let with_other = doc_with_mutation(Some("Mutation2"));
    assert_eq!(lines(&bare, &with_m), vec![
        "SchemaDefinition(schema) -> Mutation: added to right, value = 'Mutation' (breaking = non-breaking)"
            .to_string(),
    ]);
    assert_eq!(lines(&with_m, &bare), vec![
        "SchemaDefinition(schema) -> Mutation: item is removed, value = 'Mutation' (breaking = breaking)"
            .to_string(),
    ]);
    assert_eq!(lines(&with_m, &with_other), vec![
        "SchemaDefinition(schema) -> Mutation: left value = 'Mutation', right value = 'Mutation2' (breaking = breaking)"
            .to_string(),
    ]);
}

/// A whole type added on the right is non-breaking; one removed is
/// breaking; a schema-root definition appearing is breaking.
#[test]
fn top_level_additions_and_removals() {
    let empty = document(Vec::new());
    let with_type = document(vec![object("User", Vec::new(), vec![field("id", named("ID", false))])]);
    assert_eq!(lines(&empty, &with_type), vec![
        "TypeDefinition: item is added to the right, name = 'User' (breaking = non-breaking)"
            .to_string(),
    ]);
    assert_eq!(lines(&with_type, &empty), vec![
        "TypeDefinition: item is removed, name = 'User' (breaking = breaking)".to_string(),
    ]);

    let with_schema = ServiceDocument {
        directive_definitions: Vec::new(),
        schema_definitions: vec![SchemaDefinition {
            extend: false,
            directives: Vec::new(),
            query: Some("Query".to_string()),
            mutation: None,
            subscription: None,
        }],
        type_definitions: Vec::new(),
    };
    assert_eq!(lines(&empty, &with_schema), vec![
        "SchemaDefinition: item is added to the right, name = 'schema' (breaking = breaking)"
            .to_string(),
    ]);
}

/// An implemented interface added to an object is non-breaking; one removed
/// is breaking.
#[test]
fn implements_list_changes() {
    let left = document(vec![object("User", Vec::new(), vec![field("id", named("ID", false))])]);
    let right = document(vec![object("User", vec!["Node"], vec![field("id", named("ID", false))])]);
    assert_eq!(lines(&left, &right), vec![
        "ObjectDefinition(User) -> Implements: item is added to the right, name = 'Node' (breaking = non-breaking)"
            .to_string(),
    ]);
    assert_eq!(lines(&right, &left), vec![
        "ObjectDefinition(User) -> Implements: item is removed, name = 'Node' (breaking = breaking)"
            .to_string(),
    ]);
}

/// An input-object field added without a default and non-nullable is
/// breaking, under the input object's own location.
#[test]
fn input_object_gains_required_field() {
    let input_object_of = |fields: Vec<InputValueDefinition>| {
        document(vec![TypeDefinition {
            extend: false,
            description: None,
            name: "UserFilter".to_string(),
            directives: Vec::new(),
            kind: TypeKind::InputObject(InputObjectType { fields }),
        }])
    };
    let left = input_object_of(vec![argument("limit", named("Int", true), None)]);
    let right = input_object_of(vec![
        argument("limit", named("Int", true), None),
        argument("owner", named("ID", false), None),
    ]);
    assert_eq!(lines(&left, &right), vec![
        "InputObject(UserFilter) -> Field: item is added to the right, name = 'owner' (breaking = breaking)"
            .to_string(),
    ]);
}

/// A matched interface field's type change is reported under the interface
/// definition's location.
#[test]
fn interface_field_type_change() {
    let interface_of = |ty: TypeRef| {
        document(vec![TypeDefinition {
            extend: false,
            description: None,
            name: "Node".to_string(),
            directives: Vec::new(),
            kind: TypeKind::Interface(InterfaceType {
                implements: Vec::new(),
                fields: vec![field("id", ty)],
            }),
        }])
    };
    let left = interface_of(named("ID", true));
    let right = interface_of(named("ID", false));
    assert_eq!(lines(&left, &right), vec![
        "InterfaceDefinition(Node) -> Field(id) -> Type: left value = ID, right value = ID! (breaking = breaking)"
            .to_string(),
    ]);
}

/// A directive definition gaining a required argument is breaking, under
/// the definition's own location.
#[test]
fn directive_definition_gains_required_argument() {
    let directive_with_args = |arguments: Vec<InputValueDefinition>| ServiceDocument {
        directive_definitions: vec![DirectiveDefinition {
            description: None,
            name: "mark".to_string(),
            arguments,
            is_repeatable: false,
        }],
        schema_definitions: Vec::new(),
        type_definitions: Vec::new(),
    };
    let left = directive_with_args(Vec::new());
    let right = directive_with_args(vec![argument("level", named("Int", false), None)]);
    assert_eq!(lines(&left, &right), vec![
        "DirectiveDefinition(mark) -> InputArgument: item is added to the right, name = 'level' (breaking = breaking)"
            .to_string(),
    ]);
}

/// The extend marker differing is non-breaking.
#[test]
fn extend_marker_change_is_non_breaking() {
    let doc_with_extend = |extend: bool| {
        let mut t = object("User", Vec::new(), vec![field("id", named("ID", false))]);
        t.extend = extend;
        document(vec![t])
    };
    let left = doc_with_extend(false);
    let right = doc_with_extend(true);
    assert_eq!(lines(&left, &right), vec![
        "ObjectDefinition(User) -> Extends: left value = false, right value = true (breaking = non-breaking)"
            .to_string(),
    ]);
}
