use cdecl_model::aggregate::{EnumDeclare, Member, StructDeclare, UnionDeclare};
use cdecl_model::declaration::TypeDeclare;
use cdecl_model::error::WalkError;
use cdecl_model::frontend::{Entity, EntityKind, PresumedLocation, TypeHandle, TypeKind};
use cdecl_model::function::FunctionDeclare;
use cdecl_model::leaf::{EnumConstantDeclare, EnumConstantValue, FieldDeclare, ParameterDeclare};
use cdecl_model::source_file::{find_tagged, SourceFile};
use cdecl_model::types::{SourceLocation, Type};

fn entity(kind: EntityKind, name: Option<&str>) -> Entity {
    Entity::new(kind, name.map(|s| s.to_string()))
}

fn handle(kind: TypeKind, name: &str) -> TypeHandle {
    TypeHandle { kind, display_name: name.to_string(), pointee: None }
}

fn pointer_to(target: TypeHandle, name: &str) -> TypeHandle {
    TypeHandle {
        kind: TypeKind::Pointer,
        display_name: name.to_string(),
        pointee: Some(Box::new(target)),
    }
}

fn int_type() -> TypeHandle {
    handle(TypeKind::Int, "int")
}

fn at(line: u32, column: u32) -> Option<PresumedLocation> {
    Some(PresumedLocation { path: "main.c".to_string(), line, column })
}

fn with_children(kind: EntityKind, name: Option<&str>, children: Vec<Entity>) -> Entity {
    let mut e = entity(kind, name);
    e.children = children;
    e
}

fn field(name: &str, t: TypeHandle) -> Entity {
    let mut e = entity(EntityKind::FieldDecl, Some(name));
    e.declared_type = Some(t);
    e
}

fn parameter(name: Option<&str>, t: TypeHandle) -> Entity {
    let mut e = entity(EntityKind::ParmDecl, name);
    e.declared_type = Some(t);
    e
}

fn constant(name: &str, signed: i64, unsigned: u64) -> Entity {
    let mut e = entity(EntityKind::EnumConstantDecl, Some(name));
    e.enum_constant_value = Some((signed, unsigned));
    e
}

fn typedef(name: Option<&str>, target: Option<Entity>) -> Entity {
    let mut e = entity(EntityKind::TypedefDecl, name);
    e.typedef_declaration = target.map(Box::new);
    e
}

fn function(name: Option<&str>, result: TypeHandle, arguments: Vec<Entity>) -> Entity {
    let mut e = entity(EntityKind::FunctionDecl, name);
    e.result_type = Some(result);
    e.arguments = Some(arguments);
    e
}

fn unit(children: Vec<Entity>) -> Entity {
    with_children(EntityKind::TranslationUnit, Some("main.c"), children)
}

fn walk(children: Vec<Entity>) -> Result<SourceFile, WalkError> {
    SourceFile::from_translation_unit("main.c".to_string(), &unit(children))
}

fn point_struct(name: Option<&str>) -> Entity {
    with_children(
        EntityKind::StructDecl,
        name,
        vec![field("x", int_type()), field("y", int_type())],
    )
}

fn tags(model: &SourceFile) -> Vec<(Option<String>, Option<String>)> {
    model
        .type_declares
        .iter()
        .map(|d| (d.name().map(|s| s.to_string()), d.typedef_name().map(|s| s.to_string())))
        .collect()
}

fn pair(tag: Option<&str>, alias: Option<&str>) -> (Option<String>, Option<String>) {
    (tag.map(|s| s.to_string()), alias.map(|s| s.to_string()))
}

#[test]
fn typedef_of_same_name_merges_into_the_tag() {
    let model = walk(vec![
        point_struct(Some("Point")),
        typedef(Some("Point"), Some(point_struct(Some("Point")))),
    ])
    .unwrap();
    assert_eq!(model.type_declares.len(), 1);
    match &model.type_declares[0] {
        TypeDeclare::Struct(s) => {
            assert_eq!(s.struct_name.as_deref(), Some("Point"));
            assert_eq!(s.typedef_name.as_deref(), Some("Point"));
            assert_eq!(s.fields.len(), 2);
        }
        other => panic!("not a struct: {:?}", other),
    }
    assert!(model.function_declares.is_empty());
}

#[test]
fn typedef_of_anonymous_struct_yields_one_node_under_the_alias() {
    let model = walk(vec![
        with_children(EntityKind::StructDecl, None, vec![field("x", int_type())]),
        typedef(
            Some("Vec2"),
            Some(with_children(EntityKind::StructDecl, None, vec![field("x", int_type())])),
        ),
    ])
    .unwrap();
    assert_eq!(model.type_declares.len(), 1);
    match &model.type_declares[0] {
        TypeDeclare::Struct(s) => {
            assert_eq!(s.struct_name, None);
            assert_eq!(s.typedef_name.as_deref(), Some("Vec2"));
            assert_eq!(s.fields.len(), 1);
            match &s.fields[0] {
                Member::Field(f) => {
                    assert_eq!(f.name.as_deref(), Some("x"));
                    assert_eq!(
                        f.field_type,
                        Some(Type::new(TypeKind::Int, "int".to_string(), None))
                    );
                }
                other => panic!("not a field: {:?}", other),
            }
        }
        other => panic!("not a struct: {:?}", other),
    }
}

#[test]
fn merge_updates_in_place_and_keeps_the_order() {
    let model = walk(vec![
        entity(EntityKind::StructDecl, Some("A")),
        entity(EntityKind::StructDecl, Some("B")),
        typedef(Some("A"), Some(entity(EntityKind::StructDecl, Some("A")))),
    ])
    .unwrap();
    assert_eq!(tags(&model), vec![pair(Some("A"), Some("A")), pair(Some("B"), None)]);
}

#[test]
fn typedef_under_another_name_appends_a_node_of_its_own() {
    let model = walk(vec![
        entity(EntityKind::StructDecl, Some("A")),
        entity(EntityKind::StructDecl, Some("B")),
        typedef(Some("TA"), Some(entity(EntityKind::StructDecl, Some("A")))),
    ])
    .unwrap();
    assert_eq!(
        tags(&model),
        vec![pair(Some("A"), None), pair(Some("B"), None), pair(None, Some("TA"))]
    );
}

#[test]
fn merge_takes_the_first_of_two_equal_tags() {
    let model = walk(vec![
        entity(EntityKind::StructDecl, Some("A")),
        entity(EntityKind::EnumDecl, Some("A")),
        typedef(Some("A"), Some(entity(EntityKind::EnumDecl, Some("A")))),
    ])
    .unwrap();
    assert_eq!(tags(&model), vec![pair(Some("A"), Some("A")), pair(Some("A"), None)]);
    assert!(matches!(model.type_declares[0], TypeDeclare::Struct(_)));
}

#[test]
fn merge_does_not_look_at_the_kind_of_what_the_typedef_names() {
    let model = walk(vec![
        entity(EntityKind::StructDecl, Some("A")),
        typedef(Some("A"), Some(entity(EntityKind::Other, None))),
    ])
    .unwrap();
    assert_eq!(tags(&model), vec![pair(Some("A"), Some("A"))]);
}

#[test]
fn pointer_to_pointer_parameter_has_two_links() {
    let int_pp = pointer_to(pointer_to(int_type(), "int *"), "int **");
    let model = walk(vec![function(
        Some("g"),
        handle(TypeKind::Void, "void"),
        vec![parameter(Some("p"), int_pp)],
    )])
    .unwrap();
    let p = &model.function_declares[0].parameters[0];
    let outer = p.parameter_type.as_ref().unwrap();
    assert_eq!(outer.kind, TypeKind::Pointer);
    assert_eq!(outer.display_name, "int **");
    let inner = outer.pointee.as_ref().unwrap();
    assert_eq!(inner.kind, TypeKind::Pointer);
    assert_eq!(inner.display_name, "int *");
    let leaf = inner.pointee.as_ref().unwrap();
    assert_eq!(leaf.kind, TypeKind::Int);
    assert_eq!(leaf.display_name, "int");
    assert!(leaf.pointee.is_none());
}

#[test]
fn type_copy_differs_from_its_parts_alone() {
    let t = Type::from_clang(&pointer_to(int_type(), "int *"));
    assert_eq!(
        t,
        Type::new(
            TypeKind::Pointer,
            "int *".to_string(),
            Some(Box::new(Type::new(TypeKind::Int, "int".to_string(), None))),
        )
    );
    assert_eq!(Type::from_optional(&None), None);
    assert!(TypeKind::Pointer.is_pointer());
    assert!(TypeKind::BlockPointer.is_pointer());
    assert!(!TypeKind::Int.is_pointer());
}

#[test]
fn enum_constant_keeps_both_readings() {
    let mut e = with_children(
        EntityKind::EnumDecl,
        Some("E"),
        vec![constant("MINUS_ONE", -1, 0xFFFF_FFFF)],
    );
    e.enum_underlying_type = Some(int_type());
    let model = walk(vec![e]).unwrap();
    match &model.type_declares[0] {
        TypeDeclare::Enum(d) => {
            assert_eq!(d.enum_type, Some(Type::new(TypeKind::Int, "int".to_string(), None)));
            assert_eq!(d.constants.len(), 1);
            assert_eq!(d.constants[0].name, "MINUS_ONE");
            assert_eq!(
                d.constants[0].constant_value,
                Some(EnumConstantValue { signed: -1, unsigned: 0xFFFF_FFFF })
            );
        }
        other => panic!("not an enum: {:?}", other),
    }
}

#[test]
fn unnamed_parameter_aborts_the_walk() {
    let root = unit(vec![
        entity(EntityKind::StructDecl, Some("A")),
        function(Some("f"), handle(TypeKind::Void, "void"), vec![parameter(None, int_type())]),
    ]);
    assert_eq!(
        SourceFile::from_translation_unit("main.c".to_string(), &root),
        Err(WalkError::MissingName)
    );
    let mut model = SourceFile::new("main.c".to_string());
    assert_eq!(model.visit_entity(&root), Err(WalkError::MissingName));
    assert_eq!(model, SourceFile::new("main.c".to_string()));
}

#[test]
fn enum_and_function_end_to_end() {
    let color = with_children(
        EntityKind::EnumDecl,
        Some("Color"),
        vec![constant("RED", 0, 0), constant("GREEN", 5, 5)],
    );
    let f = function(
        Some("f"),
        handle(TypeKind::Void, "void"),
        vec![parameter(Some("c"), handle(TypeKind::Enum, "enum Color"))],
    );
    let model = walk(vec![color, f]).unwrap();
    assert_eq!(model.path, "main.c");
    assert_eq!(model.type_declares.len(), 1);
    match &model.type_declares[0] {
        TypeDeclare::Enum(d) => {
            assert_eq!(d.enum_name.as_deref(), Some("Color"));
            assert_eq!(d.typedef_name, None);
            assert_eq!(d.constants.len(), 2);
            assert_eq!(d.constants[0].name, "RED");
            assert_eq!(
                d.constants[0].constant_value,
                Some(EnumConstantValue { signed: 0, unsigned: 0 })
            );
            assert_eq!(d.constants[1].name, "GREEN");
            assert_eq!(
                d.constants[1].constant_value,
                Some(EnumConstantValue { signed: 5, unsigned: 5 })
            );
        }
        other => panic!("not an enum: {:?}", other),
    }
    assert_eq!(model.function_declares.len(), 1);
    let fd = &model.function_declares[0];
    assert_eq!(fd.function_name, "f");
    assert_eq!(fd.return_type, Some(Type::new(TypeKind::Void, "void".to_string(), None)));
    assert_eq!(fd.parameters.len(), 1);
    assert_eq!(fd.parameters[0].name, "c");
    assert_eq!(
        fd.parameters[0].parameter_type,
        Some(Type::new(TypeKind::Enum, "enum Color".to_string(), None))
    );
}

#[test]
fn entities_outside_the_main_file_leave_no_trace() {
    let mut included_struct = point_struct(Some("FromHeader"));
    included_struct.in_main_file = false;
    let mut included_function = function(Some("puts"), int_type(), vec![]);
    included_function.in_main_file = false;
    let mut included_other = entity(EntityKind::Other, None);
    included_other.in_main_file = false;
    let with = walk(vec![
        included_struct,
        entity(EntityKind::StructDecl, Some("A")),
        included_other,
        function(Some("f"), int_type(), vec![]),
        included_function,
    ])
    .unwrap();
    let without = walk(vec![
        entity(EntityKind::StructDecl, Some("A")),
        function(Some("f"), int_type(), vec![]),
    ])
    .unwrap();
    assert_eq!(with, without);
    assert_eq!(tags(&with), vec![pair(Some("A"), None)]);
    assert_eq!(with.function_declares.len(), 1);
}

#[test]
fn typedef_is_not_merged_into_a_tag_outside_the_main_file() {
    let mut included = entity(EntityKind::StructDecl, Some("A"));
    included.in_main_file = false;
    let model = walk(vec![
        included,
        typedef(Some("A"), Some(entity(EntityKind::StructDecl, Some("A")))),
    ])
    .unwrap();
    assert_eq!(tags(&model), vec![pair(None, Some("A"))]);
}

#[test]
fn unexpected_top_level_entity_is_refused() {
    assert_eq!(walk(vec![entity(EntityKind::Other, Some("x"))]), Err(WalkError::UnexpectedEntity));
    assert_eq!(
        walk(vec![entity(EntityKind::FieldDecl, Some("x"))]),
        Err(WalkError::UnexpectedEntity)
    );
}

#[test]
fn root_of_another_kind_is_refused() {
    let root = entity(EntityKind::StructDecl, Some("A"));
    assert_eq!(
        SourceFile::from_translation_unit("main.c".to_string(), &root),
        Err(WalkError::KindMismatch)
    );
}

#[test]
fn typedef_of_unsupported_declaration_is_refused() {
    assert_eq!(
        walk(vec![typedef(Some("T"), Some(entity(EntityKind::TypedefDecl, Some("U"))))]),
        Err(WalkError::UnsupportedTypedef)
    );
}

#[test]
fn typedef_without_declaration_or_name_is_passed_over() {
    let model = walk(vec![
        typedef(Some("myint"), None),
        typedef(None, Some(entity(EntityKind::StructDecl, None))),
    ])
    .unwrap();
    assert!(model.type_declares.is_empty());
}

#[test]
fn unnamed_aggregates_are_passed_over() {
    let model = walk(vec![
        entity(EntityKind::StructDecl, None),
        entity(EntityKind::EnumDecl, None),
        entity(EntityKind::UnionDecl, None),
    ])
    .unwrap();
    assert!(model.type_declares.is_empty());
}

#[test]
fn named_union_is_recorded_at_top_level() {
    let u = with_children(
        EntityKind::UnionDecl,
        Some("U"),
        vec![field("i", int_type()), field("p", pointer_to(int_type(), "int *"))],
    );
    let model = walk(vec![u]).unwrap();
    match &model.type_declares[0] {
        TypeDeclare::Union(d) => {
            assert_eq!(d.union_name.as_deref(), Some("U"));
            assert_eq!(d.fields.len(), 2);
            assert_eq!(d.fields[0].name.as_deref(), Some("i"));
            assert_eq!(d.fields[1].name.as_deref(), Some("p"));
        }
        other => panic!("not a union: {:?}", other),
    }
}

#[test]
fn typedef_of_enum_and_union_appends_under_the_alias() {
    let model = walk(vec![
        typedef(
            Some("E"),
            Some(with_children(EntityKind::EnumDecl, None, vec![constant("ONE", 1, 1)])),
        ),
        typedef(
            Some("U"),
            Some(with_children(EntityKind::UnionDecl, None, vec![field("i", int_type())])),
        ),
    ])
    .unwrap();
    assert_eq!(tags(&model), vec![pair(None, Some("E")), pair(None, Some("U"))]);
    assert!(matches!(model.type_declares[0], TypeDeclare::Enum(_)));
    assert!(matches!(model.type_declares[1], TypeDeclare::Union(_)));
    assert_eq!(model.type_declares[0].entity_kind(), EntityKind::EnumDecl);
    assert_eq!(model.type_declares[1].entity_kind(), EntityKind::UnionDecl);
}

#[test]
fn unnamed_function_is_refused() {
    assert_eq!(walk(vec![function(None, int_type(), vec![])]), Err(WalkError::MissingName));
}

#[test]
fn function_without_argument_list_has_no_parameters() {
    let mut f = entity(EntityKind::FunctionDecl, Some("f"));
    f.location = at(3, 5);
    let model = walk(vec![f]).unwrap();
    let fd = &model.function_declares[0];
    assert_eq!(fd.return_type, None);
    assert!(fd.parameters.is_empty());
    assert_eq!(fd.location, Some(SourceLocation::new(("main.c".to_string(), 3, 5))));
}

#[test]
fn argument_of_another_kind_is_refused() {
    let f = function(Some("f"), int_type(), vec![field("x", int_type())]);
    assert_eq!(walk(vec![f]), Err(WalkError::KindMismatch));
}

#[test]
fn functions_keep_their_order() {
    let model = walk(vec![
        function(Some("b"), int_type(), vec![]),
        entity(EntityKind::StructDecl, Some("S")),
        function(Some("a"), int_type(), vec![]),
    ])
    .unwrap();
    let names: Vec<&str> =
        model.function_declares.iter().map(|f| f.function_name.as_str()).collect();
    assert_eq!(names, vec!["b", "a"]);
}

#[test]
fn struct_holds_fields_and_nested_unions_in_order() {
    let nested = with_children(
        EntityKind::UnionDecl,
        None,
        vec![field("a", int_type()), field("b", int_type())],
    );
    let s = with_children(
        EntityKind::StructDecl,
        Some("S"),
        vec![field("head", int_type()), nested, field("tail", int_type())],
    );
    let model = walk(vec![s]).unwrap();
    match &model.type_declares[0] {
        TypeDeclare::Struct(d) => {
            assert_eq!(d.fields.len(), 3);
            assert!(matches!(&d.fields[0], Member::Field(f) if f.name.as_deref() == Some("head")));
            match &d.fields[1] {
                Member::NestedUnion(u) => {
                    assert_eq!(u.union_name, None);
                    assert_eq!(u.typedef_name, None);
                    assert_eq!(u.fields.len(), 2);
                    assert_eq!(u.fields[1].name.as_deref(), Some("b"));
                }
                other => panic!("not a union: {:?}", other),
            }
            assert!(matches!(&d.fields[2], Member::Field(f) if f.name.as_deref() == Some("tail")));
        }
        other => panic!("not a struct: {:?}", other),
    }
}

#[test]
fn struct_member_of_another_kind_is_refused() {
    let s = with_children(
        EntityKind::StructDecl,
        Some("S"),
        vec![field("x", int_type()), entity(EntityKind::StructDecl, Some("Inner"))],
    );
    assert_eq!(walk(vec![s]), Err(WalkError::KindMismatch));
}

#[test]
fn union_member_of_another_kind_is_refused() {
    let u = with_children(
        EntityKind::UnionDecl,
        Some("U"),
        vec![entity(EntityKind::UnionDecl, None)],
    );
    assert_eq!(walk(vec![u]), Err(WalkError::KindMismatch));
}

#[test]
fn enum_child_without_name_or_of_another_kind_is_refused() {
    let unnamed = with_children(
        EntityKind::EnumDecl,
        Some("E"),
        vec![constant("A", 0, 0), entity(EntityKind::EnumConstantDecl, None)],
    );
    assert_eq!(walk(vec![unnamed]), Err(WalkError::MissingName));
    let wrong =
        with_children(EntityKind::EnumDecl, Some("E"), vec![field("x", int_type())]);
    assert_eq!(walk(vec![wrong]), Err(WalkError::KindMismatch));
}

#[test]
fn first_refusal_decides() {
    let s = with_children(
        EntityKind::StructDecl,
        Some("S"),
        vec![entity(EntityKind::Other, None)],
    );
    assert_eq!(
        walk(vec![function(None, int_type(), vec![]), s, entity(EntityKind::Other, None)]),
        Err(WalkError::MissingName)
    );
}

#[test]
fn refused_walk_clears_the_model() {
    let mut model = SourceFile::new("main.c".to_string());
    assert_eq!(model.visit_entity(&unit(vec![entity(EntityKind::StructDecl, Some("A"))])), Ok(()));
    assert_eq!(model.type_declares.len(), 1);
    let bad = unit(vec![
        entity(EntityKind::StructDecl, Some("B")),
        entity(EntityKind::Other, None),
    ]);
    assert_eq!(model.visit_entity(&bad), Err(WalkError::UnexpectedEntity));
    assert_eq!(model, SourceFile::new("main.c".to_string()));
    model.type_declares.push(TypeDeclare::Struct(StructDeclare::new(None, None)));
    model.clear();
    assert_eq!(model, SourceFile::new("main.c".to_string()));
}

#[test]
fn second_walk_continues_from_the_first() {
    let mut model = SourceFile::new("main.c".to_string());
    model.visit_entity(&unit(vec![entity(EntityKind::StructDecl, Some("A"))])).unwrap();
    model
        .visit_entity(&unit(vec![typedef(
            Some("A"),
            Some(entity(EntityKind::StructDecl, Some("A"))),
        )]))
        .unwrap();
    assert_eq!(tags(&model), vec![pair(Some("A"), Some("A"))]);
}

#[test]
fn parse_type_declare_refuses_and_leaves_the_list() {
    let mut declares = vec![TypeDeclare::Enum(EnumDeclare::new(Some("E".to_string()), None))];
    assert_eq!(
        SourceFile::parse_type_declare(&function(Some("f"), int_type(), vec![]), &mut declares),
        Err(WalkError::UnexpectedEntity)
    );
    assert_eq!(declares.len(), 1);
    assert_eq!(
        SourceFile::parse_type_declare(
            &typedef(Some("E"), Some(entity(EntityKind::EnumDecl, None))),
            &mut declares
        ),
        Ok(())
    );
    assert_eq!(declares.len(), 1);
    assert_eq!(declares[0].typedef_name(), Some("E"));
    assert_eq!(declares[0].name(), Some("E"));
}

#[test]
fn visit_child_acts_on_one_entity() {
    let mut model = SourceFile::new("main.c".to_string());
    assert_eq!(model.visit_child(&entity(EntityKind::UnionDecl, Some("U"))), Ok(()));
    assert_eq!(model.visit_child(&entity(EntityKind::Other, None)), Err(WalkError::UnexpectedEntity));
    assert_eq!(tags(&model), vec![pair(Some("U"), None)]);
}

#[test]
fn find_tagged_gives_the_first_position() {
    let declares = vec![
        TypeDeclare::Enum(EnumDeclare::new(None, Some("B".to_string()))),
        TypeDeclare::Struct(StructDeclare::new(Some("B".to_string()), None)),
        TypeDeclare::Union(UnionDeclare::new(Some("B".to_string()), None)),
    ];
    assert_eq!(find_tagged(&declares, &"B".to_string()), Some(1));
    assert_eq!(find_tagged(&declares, &"C".to_string()), None);
    assert_eq!(find_tagged(&Vec::new(), &"B".to_string()), None);
    assert!(declares[1].has_tag(&"B".to_string()));
    assert!(!declares[0].has_tag(&"B".to_string()));
}

#[test]
fn locations_are_the_presumed_ones() {
    let mut s = with_children(EntityKind::StructDecl, Some("S"), vec![]);
    s.location = at(10, 8);
    let mut f = field("x", int_type());
    f.location = at(11, 9);
    s.children.push(f);
    let model = walk(vec![s]).unwrap();
    match &model.type_declares[0] {
        TypeDeclare::Struct(d) => {
            let loc = d.location.as_ref().unwrap();
            assert_eq!(loc.path, "main.c");
            assert_eq!(loc.line_number, 10);
            assert_eq!(loc.column_number, 8);
            match &d.fields[0] {
                Member::Field(f) => {
                    assert_eq!(f.location, Some(SourceLocation::new(("main.c".to_string(), 11, 9))))
                }
                other => panic!("not a field: {:?}", other),
            }
        }
        other => panic!("not a struct: {:?}", other),
    }
    let copy = SourceLocation::from_clang(&PresumedLocation {
        path: "a.h".to_string(),
        line: 1,
        column: 2,
    });
    assert_eq!(copy, SourceLocation::new(("a.h".to_string(), 1, 2)));
    assert_eq!(SourceLocation::from_optional(&None), None);
}

#[test]
fn leaf_nodes_refuse_entities_of_another_kind() {
    let mut c = EnumConstantDeclare::new("A".to_string());
    assert_eq!(c.visit_entity(&field("x", int_type())), Err(WalkError::KindMismatch));
    assert_eq!(c, EnumConstantDeclare::new("A".to_string()));
    let mut f = FieldDeclare::new(None);
    assert_eq!(f.visit_entity(&constant("A", 1, 1)), Err(WalkError::KindMismatch));
    assert_eq!(f, FieldDeclare::new(None));
    let mut p = ParameterDeclare::new("p".to_string());
    assert_eq!(p.visit_entity(&field("x", int_type())), Err(WalkError::KindMismatch));
    assert_eq!(p, ParameterDeclare::new("p".to_string()));
}

#[test]
fn aggregate_nodes_refuse_entities_of_another_kind() {
    let mut e = EnumDeclare::new(Some("E".to_string()), None);
    assert_eq!(e.visit_entity(&entity(EntityKind::StructDecl, None)), Err(WalkError::KindMismatch));
    let mut s = StructDeclare::new(Some("S".to_string()), None);
    assert_eq!(s.visit_entity(&entity(EntityKind::UnionDecl, None)), Err(WalkError::KindMismatch));
    let mut u = UnionDeclare::new(Some("U".to_string()), None);
    assert_eq!(u.visit_entity(&entity(EntityKind::EnumDecl, None)), Err(WalkError::KindMismatch));
    let mut f = FunctionDeclare::new("f".to_string());
    assert_eq!(f.visit_entity(&entity(EntityKind::EnumDecl, None)), Err(WalkError::KindMismatch));
    assert_eq!(f, FunctionDeclare::new("f".to_string()));
}

#[test]
fn visit_appends_to_what_the_node_holds() {
    let mut e = EnumDeclare::new(Some("E".to_string()), None);
    let first = with_children(EntityKind::EnumDecl, None, vec![constant("A", 0, 0)]);
    let second = with_children(EntityKind::EnumDecl, None, vec![constant("B", 1, 1)]);
    e.visit_entity(&first).unwrap();
    e.visit_entity(&second).unwrap();
    let names: Vec<&str> = e.constants.iter().map(|c| c.name.as_str()).collect();
    assert_eq!(names, vec!["A", "B"]);
    let bad = with_children(
        EntityKind::EnumDecl,
        None,
        vec![constant("C", 2, 2), entity(EntityKind::EnumConstantDecl, None)],
    );
    assert_eq!(e.visit_entity(&bad), Err(WalkError::MissingName));
    assert_eq!(e.constants.len(), 2);
}

#[test]
fn constant_without_value_keeps_the_value_it_had() {
    let mut c = EnumConstantDeclare::new("A".to_string());
    c.visit_entity(&constant("A", 7, 7)).unwrap();
    c.visit_entity(&entity(EntityKind::EnumConstantDecl, Some("A"))).unwrap();
    assert_eq!(c.constant_value, Some(EnumConstantValue { signed: 7, unsigned: 7 }));
    let fresh =
        EnumConstantDeclare::from_entity(&entity(EntityKind::EnumConstantDecl, Some("B"))).unwrap();
    assert_eq!(fresh.constant_value, None);
}

#[test]
fn names_can_be_read_and_set() {
    let mut file = SourceFile::new("a.c".to_string());
    assert_eq!(file.name(), Some("a.c"));
    file.set_name("b.c".to_string());
    assert_eq!(file.name(), Some("b.c"));
    assert_eq!(file.entity_kind(), EntityKind::TranslationUnit);

    let mut c = EnumConstantDeclare::new("A".to_string());
    c.set_name("B".to_string());
    assert_eq!(c.name(), Some("B"));
    assert_eq!(c.entity_kind(), EntityKind::EnumConstantDecl);

    let mut f = FieldDeclare::new(None);
    assert_eq!(f.name(), None);
    f.set_name("x".to_string());
    assert_eq!(f.name(), Some("x"));
    assert_eq!(f.entity_kind(), EntityKind::FieldDecl);

    let mut p = ParameterDeclare::new("p".to_string());
    p.set_name("q".to_string());
    assert_eq!(p.name(), Some("q"));
    assert_eq!(p.entity_kind(), EntityKind::ParmDecl);

    let mut func = FunctionDeclare::new("f".to_string());
    func.set_name("g".to_string());
    assert_eq!(func.name(), Some("g"));
    assert_eq!(func.entity_kind(), EntityKind::FunctionDecl);

    let mut e = EnumDeclare::new(None, None);
    assert_eq!(e.name(), None);
    assert_eq!(e.typedef_name(), None);
    e.set_name("E".to_string());
    e.set_typedef_name("TE".to_string());
    assert_eq!(e.name(), Some("E"));
    assert_eq!(e.typedef_name(), Some("TE"));
    assert_eq!(e.entity_kind(), EntityKind::EnumDecl);

    let mut s = StructDeclare::new(Some("S".to_string()), None);
    s.set_typedef_name("TS".to_string());
    s.set_name("S2".to_string());
    assert_eq!(s.name(), Some("S2"));
    assert_eq!(s.typedef_name(), Some("TS"));
    assert_eq!(s.entity_kind(), EntityKind::StructDecl);

    let mut u = UnionDeclare::new(None, Some("TU".to_string()));
    u.set_name("U".to_string());
    assert_eq!(u.name(), Some("U"));
    assert_eq!(u.typedef_name(), Some("TU"));
    u.set_typedef_name("TU2".to_string());
    assert_eq!(u.typedef_name(), Some("TU2"));
    assert_eq!(u.entity_kind(), EntityKind::UnionDecl);

    let mut d = TypeDeclare::Union(u);
    d.set_typedef_name("TU3".to_string());
    assert_eq!(d.typedef_name(), Some("TU3"));
    assert_eq!(d.name(), Some("U"));
}

#[test]
fn new_entity_is_bare_and_in_the_main_file() {
    let e = Entity::new(EntityKind::StructDecl, Some("S".to_string()));
    assert_eq!(e.kind, EntityKind::StructDecl);
    assert_eq!(e.name.as_deref(), Some("S"));
    assert!(e.in_main_file);
    assert!(e.location.is_none());
    assert!(e.declared_type.is_none());
    assert!(e.arguments.is_none());
    assert!(e.children.is_empty());
}

#[test]
fn merging_the_same_typedef_twice_changes_nothing() {
    let alias = || typedef(Some("A"), Some(entity(EntityKind::StructDecl, Some("A"))));
    let once = walk(vec![entity(EntityKind::StructDecl, Some("A")), alias()]).unwrap();
    let twice = walk(vec![entity(EntityKind::StructDecl, Some("A")), alias(), alias()]).unwrap();
    assert_eq!(once, twice);
    assert_eq!(tags(&twice), vec![pair(Some("A"), Some("A"))]);
}

#[test]
fn every_recorded_declaration_has_a_tag_or_an_alias() {
    let model = walk(vec![
        entity(EntityKind::StructDecl, None),
        entity(EntityKind::StructDecl, Some("S")),
        typedef(None, Some(entity(EntityKind::EnumDecl, None))),
        typedef(Some("E"), Some(entity(EntityKind::EnumDecl, None))),
        typedef(Some("S"), Some(entity(EntityKind::StructDecl, Some("S")))),
    ])
    .unwrap();
    assert_eq!(tags(&model), vec![pair(Some("S"), Some("S")), pair(None, Some("E"))]);
    assert!(model.type_declares.iter().all(|d| d.name().is_some() || d.typedef_name().is_some()));
}

#[test]
fn walk_never_moves_what_was_recorded() {
    let mut model = SourceFile::new("main.c".to_string());
    model
        .visit_entity(&unit(vec![
            entity(EntityKind::StructDecl, Some("A")),
            function(Some("f"), int_type(), vec![]),
            entity(EntityKind::UnionDecl, Some("B")),
        ]))
        .unwrap();
    model
        .visit_entity(&unit(vec![
            entity(EntityKind::EnumDecl, Some("C")),
            typedef(Some("B"), Some(entity(EntityKind::UnionDecl, Some("B")))),
            function(Some("g"), int_type(), vec![]),
        ]))
        .unwrap();
    assert_eq!(
        tags(&model),
        vec![pair(Some("A"), None), pair(Some("B"), Some("B")), pair(Some("C"), None)]
    );
    assert!(matches!(model.type_declares[1], TypeDeclare::Union(_)));
    let names: Vec<&str> =
        model.function_declares.iter().map(|f| f.function_name.as_str()).collect();
    assert_eq!(names, vec!["f", "g"]);
}

#[test]
fn each_refusal_names_its_rule() {
    assert_eq!(
        WalkError::UnexpectedEntity.message(),
        "unexpected entity at the top level of the main file"
    );
    assert_eq!(
        WalkError::KindMismatch.message(),
        "entity of another kind than the declaration it should fill"
    );
    assert_eq!(
        WalkError::MissingName.message(),
        "function, parameter or enum constant without a name"
    );
    assert_eq!(
        WalkError::UnsupportedTypedef.message(),
        "typedef of a declaration that is no enum, struct or union"
    );
}
