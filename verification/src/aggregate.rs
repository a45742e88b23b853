//! Aggregate declarations: enums, unions and structs, and the closed family
//! of type declarations that a source file holds.

use vstd::prelude::*;
use crate::error::WalkError;
use crate::frontend::{Entity, EntityKind};
use crate::leaf::{
    clone_name, constant_models, constant_views, field_model, field_models, field_views,
    optional_name_view, EnumConstantDeclare, EnumConstantView, FieldDeclare, FieldView,
};
use crate::outcome::{lemma_sequence_error_stays, lemma_sequence_step, sequence};
use crate::types::{
    optional_location_model, optional_location_view, optional_type_model, optional_type_view,
    SourceLocation, SourceLocationView, Type, TypeView,
};

verus! {

/// The name behind an optional borrowed name.
pub open spec fn optional_str_view(name: Option<&str>) -> Option<Seq<char>> {
    match name {
        Some(n) => Some(n@),
        None => None,
    }
}

/// Borrows an optional name.
pub fn borrow_name(name: &Option<String>) -> (r: Option<&str>)
    ensures
        optional_str_view(r) == optional_name_view(*name),
{
    match name {
        Some(n) => Some(n.as_str()),
        None => None,
    }
}

/// One constant for each entity in order, or the first refusal.
pub fn collect_constants(children: &Vec<Entity>) -> (r: Result<Vec<EnumConstantDeclare>, WalkError>)
    ensures
        match sequence(constant_models(children@)) {
            Ok(v) => r is Ok && constant_views(r->Ok_0@) == v,
            Err(err) => r == Err::<Vec<EnumConstantDeclare>, WalkError>(err),
        },
{
    let mut out: Vec<EnumConstantDeclare> = Vec::new();
    let ghost rs = constant_models(children@);
    let mut i: usize = 0;
    proof {
        assert(rs.take(0) =~= Seq::empty());
        assert(constant_views(out@) =~= Seq::empty());
    }
    while i < children.len()
        invariant
            i <= children.len(),
            rs == constant_models(children@),
            sequence(rs.take(i as int)) == Ok::<Seq<EnumConstantView>, WalkError>(constant_views(out@)),
        decreases children.len() - i,
    {
        proof {
            lemma_sequence_step(rs, i as int);
        }
        match EnumConstantDeclare::from_entity(&children[i]) {
            Ok(item) => {
                proof {
                    assert(constant_views(out@.push(item)) =~= constant_views(out@).push(item@));
                }
                out.push(item);
            },
            Err(err) => {
                proof {
                    lemma_sequence_error_stays(rs, i as int + 1);
                }
                return Err(err);
            },
        }
        i += 1;
    }
    proof {
        assert(rs.take(i as int) =~= rs);
    }
    Ok(out)
}

/// The mathematical value of an [`EnumDeclare`].
pub struct EnumView {
    pub tag: Option<Seq<char>>,
    pub alias: Option<Seq<char>>,
    pub constants: Seq<EnumConstantView>,
    pub enum_type: Option<TypeView>,
    pub location: Option<SourceLocationView>,
}

/// An enum declaration with its constants in declaration order.
#[derive(Debug, PartialEq, Eq)]
pub struct EnumDeclare {
    pub enum_name: Option<String>,
    pub typedef_name: Option<String>,
    pub constants: Vec<EnumConstantDeclare>,
    pub enum_type: Option<Type>,
    pub location: Option<SourceLocation>,
}

impl View for EnumDeclare {
    type V = EnumView;

    open spec fn view(&self) -> EnumView {
        EnumView {
            tag: optional_name_view(self.enum_name),
            alias: optional_name_view(self.typedef_name),
            constants: constant_views(self.constants@),
            enum_type: optional_type_view(self.enum_type),
            location: optional_location_view(self.location),
        }
    }
}

/// The enum that an entity stands for under the given tag and alias: its
/// underlying type, its location, and one constant for each child in order.
/// The entity must be an enum declaration and each child a named constant.
pub open spec fn enum_model(e: Entity, tag: Option<Seq<char>>, alias: Option<Seq<char>>) -> Result<
    EnumView,
    WalkError,
> {
    if e.kind != EntityKind::EnumDecl {
        Err(WalkError::KindMismatch)
    } else {
        match sequence(constant_models(e.children@)) {
            Err(err) => Err(err),
            Ok(constants) => Ok(
                EnumView {
                    tag,
                    alias,
                    constants,
                    enum_type: optional_type_model(e.enum_underlying_type),
                    location: optional_location_model(e.location),
                },
            ),
        }
    }
}

impl EnumDeclare {
    /// An enum of the given tag and alias, with no constants yet.
    pub fn new(enum_name: Option<String>, typedef_name: Option<String>) -> (r: EnumDeclare)
        ensures
            r.enum_name == enum_name,
            r.typedef_name == typedef_name,
            r.constants@.len() == 0,
            r.enum_type is None,
            r.location is None,
    {
        EnumDeclare {
            enum_name,
            typedef_name,
            constants: Vec::new(),
            enum_type: None,
            location: None,
        }
    }

    /// The tag name, where the declaration has one.
    pub fn name(&self) -> (r: Option<&str>)
        ensures
            optional_str_view(r) == self@.tag,
    {
        borrow_name(&self.enum_name)
    }

    /// Gives the declaration a tag name and changes nothing else.
    pub fn set_name(&mut self, new_name: String)
        ensures
            final(self).enum_name == Some(new_name),
            final(self).typedef_name == old(self).typedef_name,
            final(self).constants == old(self).constants,
            final(self).enum_type == old(self).enum_type,
            final(self).location == old(self).location,
    {
        self.enum_name = Some(new_name);
    }

    /// The kind of entity that this node is populated from.
    pub fn entity_kind(&self) -> (r: EntityKind)
        ensures
            r == EntityKind::EnumDecl,
    {
        EntityKind::EnumDecl
    }

    /// The typedef alias, where the declaration has one.
    pub fn typedef_name(&self) -> (r: Option<&str>)
        ensures
            optional_str_view(r) == self@.alias,
    {
        borrow_name(&self.typedef_name)
    }

    /// Gives the declaration a typedef alias and changes nothing else.
    pub fn set_typedef_name(&mut self, new_typedef_name: String)
        ensures
            final(self).typedef_name == Some(new_typedef_name),
            final(self).enum_name == old(self).enum_name,
            final(self).constants == old(self).constants,
            final(self).enum_type == old(self).enum_type,
            final(self).location == old(self).location,
    {
        self.typedef_name = Some(new_typedef_name);
    }

    /// Takes the underlying type and the location from an enum declaration
    /// and appends one constant for each of its children. Where the entity or
    /// one of its children is refused, the node stays as it was.
    pub fn visit_entity(&mut self, current_entity: &Entity) -> (r: Result<(), WalkError>)
        ensures
            match enum_model(*current_entity, old(self)@.tag, old(self)@.alias) {
                Ok(v) => r is Ok && final(self)@ == (EnumView {
                    tag: v.tag,
                    alias: v.alias,
                    constants: old(self)@.constants + v.constants,
                    enum_type: v.enum_type,
                    location: v.location,
                }),
                Err(err) => r == Err::<(), WalkError>(err) && *final(self) == *old(self),
            },
    {
        if current_entity.kind != self.entity_kind() {
            return Err(WalkError::KindMismatch);
        }
        let mut constants = match collect_constants(&current_entity.children) {
            Ok(c) => c,
            Err(err) => {
                return Err(err);
            },
        };
        proof {
            assert(constant_views(self.constants@ + constants@) =~= constant_views(
                self.constants@,
            ) + constant_views(constants@));
        }
        self.enum_type = Type::from_optional(&current_entity.enum_underlying_type);
        self.location = SourceLocation::from_optional(&current_entity.location);
        self.constants.append(&mut constants);
        Ok(())
    }

    /// The enum that an entity stands for under the given tag and alias.
    pub fn from_entity(e: &Entity, tag: Option<String>, alias: Option<String>) -> (r: Result<
        EnumDeclare,
        WalkError,
    >)
        ensures
            match enum_model(*e, optional_name_view(tag), optional_name_view(alias)) {
                Ok(v) => r is Ok && r->Ok_0@ == v,
                Err(err) => r == Err::<EnumDeclare, WalkError>(err),
            },
    {
        let mut d = EnumDeclare::new(tag, alias);
        proof {
            assert(constant_views(d.constants@) =~= Seq::empty());
        }
        match d.visit_entity(e) {
            Ok(()) => {
                proof {
                    let v = enum_model(*e, optional_name_view(tag), optional_name_view(alias))->Ok_0;
                    assert(Seq::<EnumConstantView>::empty() + v.constants =~= v.constants);
                }
                Ok(d)
            },
            Err(err) => Err(err),
        }
    }
}

/// One field for each entity in order, or the first refusal.
pub fn collect_fields(children: &Vec<Entity>) -> (r: Result<Vec<FieldDeclare>, WalkError>)
    ensures
        match sequence(field_models(children@)) {
            Ok(v) => r is Ok && field_views(r->Ok_0@) == v,
            Err(err) => r == Err::<Vec<FieldDeclare>, WalkError>(err),
        },
{
    let mut out: Vec<FieldDeclare> = Vec::new();
    let ghost rs = field_models(children@);
    let mut i: usize = 0;
    proof {
        assert(rs.take(0) =~= Seq::empty());
        assert(field_views(out@) =~= Seq::empty());
    }
    while i < children.len()
        invariant
            i <= children.len(),
            rs == field_models(children@),
            sequence(rs.take(i as int)) == Ok::<Seq<FieldView>, WalkError>(field_views(out@)),
        decreases children.len() - i,
    {
        proof {
            lemma_sequence_step(rs, i as int);
        }
        match FieldDeclare::from_entity(&children[i]) {
            Ok(item) => {
                proof {
                    assert(field_views(out@.push(item)) =~= field_views(out@).push(item@));
                }
                out.push(item);
            },
            Err(err) => {
                proof {
                    lemma_sequence_error_stays(rs, i as int + 1);
                }
                return Err(err);
            },
        }
        i += 1;
    }
    proof {
        assert(rs.take(i as int) =~= rs);
    }
    Ok(out)
}

/// The mathematical value of a [`UnionDeclare`].
pub struct UnionView {
    pub tag: Option<Seq<char>>,
    pub alias: Option<Seq<char>>,
    pub fields: Seq<FieldView>,
    pub location: Option<SourceLocationView>,
}

/// A union declaration with its fields in declaration order.
#[derive(Debug, PartialEq, Eq)]
pub struct UnionDeclare {
    pub union_name: Option<String>,
    pub typedef_name: Option<String>,
    pub fields: Vec<FieldDeclare>,
    pub location: Option<SourceLocation>,
}

impl View for UnionDeclare {
    type V = UnionView;

    open spec fn view(&self) -> UnionView {
        UnionView {
            tag: optional_name_view(self.union_name),
            alias: optional_name_view(self.typedef_name),
            fields: field_views(self.fields@),
            location: optional_location_view(self.location),
        }
    }
}

/// The union that an entity stands for under the given tag and alias: its
/// location, and one field for each child in order. The entity must be a
/// union declaration and each child a field declaration.
pub open spec fn union_model(e: Entity, tag: Option<Seq<char>>, alias: Option<Seq<char>>) -> Result<
    UnionView,
    WalkError,
> {
    if e.kind != EntityKind::UnionDecl {
        Err(WalkError::KindMismatch)
    } else {
        match sequence(field_models(e.children@)) {
            Err(err) => Err(err),
            Ok(fields) => Ok(
                UnionView {
                    tag,
                    alias,
                    fields,
                    location: optional_location_model(e.location),
                },
            ),
        }
    }
}

impl UnionDeclare {
    /// A union of the given tag and alias, with no fields yet.
    pub fn new(union_name: Option<String>, typedef_name: Option<String>) -> (r: UnionDeclare)
        ensures
            r.union_name == union_name,
            r.typedef_name == typedef_name,
            r.fields@.len() == 0,
            r.location is None,
    {
        UnionDeclare {
            union_name,
            typedef_name,
            fields: Vec::new(),
            location: None,
        }
    }

    /// The tag name, where the declaration has one.
    pub fn name(&self) -> (r: Option<&str>)
        ensures
            optional_str_view(r) == self@.tag,
    {
        borrow_name(&self.union_name)
    }

    /// Gives the declaration a tag name and changes nothing else.
    pub fn set_name(&mut self, new_name: String)
        ensures
            final(self).union_name == Some(new_name),
            final(self).typedef_name == old(self).typedef_name,
            final(self).fields == old(self).fields,
            final(self).location == old(self).location,
    {
        self.union_name = Some(new_name);
    }

    /// The kind of entity that this node is populated from.
    pub fn entity_kind(&self) -> (r: EntityKind)
        ensures
            r == EntityKind::UnionDecl,
    {
        EntityKind::UnionDecl
    }

    /// The typedef alias, where the declaration has one.
    pub fn typedef_name(&self) -> (r: Option<&str>)
        ensures
            optional_str_view(r) == self@.alias,
    {
        borrow_name(&self.typedef_name)
    }

    /// Gives the declaration a typedef alias and changes nothing else.
    pub fn set_typedef_name(&mut self, new_typedef_name: String)
        ensures
            final(self).typedef_name == Some(new_typedef_name),
            final(self).union_name == old(self).union_name,
            final(self).fields == old(self).fields,
            final(self).location == old(self).location,
    {
        self.typedef_name = Some(new_typedef_name);
    }

    /// Takes the location from a union declaration and appends one field for
    /// each of its children. Where the entity or
    /// one of its children is refused, the node stays as it was.
    pub fn visit_entity(&mut self, current_entity: &Entity) -> (r: Result<(), WalkError>)
        ensures
            match union_model(*current_entity, old(self)@.tag, old(self)@.alias) {
                Ok(v) => r is Ok && final(self)@ == (UnionView {
                    tag: v.tag,
                    alias: v.alias,
                    fields: old(self)@.fields + v.fields,
                    location: v.location,
                }),
                Err(err) => r == Err::<(), WalkError>(err) && *final(self) == *old(self),
            },
    {
        if current_entity.kind != self.entity_kind() {
            return Err(WalkError::KindMismatch);
        }
        let mut fields = match collect_fields(&current_entity.children) {
            Ok(f) => f,
            Err(err) => {
                return Err(err);
            },
        };
        proof {
            assert(field_views(self.fields@ + fields@) =~= field_views(
                self.fields@,
            ) + field_views(fields@));
        }
        self.location = SourceLocation::from_optional(&current_entity.location);
        self.fields.append(&mut fields);
        Ok(())
    }

    /// The union that an entity stands for under the given tag and alias.
    pub fn from_entity(e: &Entity, tag: Option<String>, alias: Option<String>) -> (r: Result<
        UnionDeclare,
        WalkError,
    >)
        ensures
            match union_model(*e, optional_name_view(tag), optional_name_view(alias)) {
                Ok(v) => r is Ok && r->Ok_0@ == v,
                Err(err) => r == Err::<UnionDeclare, WalkError>(err),
            },
    {
        let mut d = UnionDeclare::new(tag, alias);
        proof {
            assert(field_views(d.fields@) =~= Seq::empty());
        }
        match d.visit_entity(e) {
            Ok(()) => {
                proof {
                    let v = union_model(*e, optional_name_view(tag), optional_name_view(alias))->Ok_0;
                    assert(Seq::<FieldView>::empty() + v.fields =~= v.fields);
                }
                Ok(d)
            },
            Err(err) => Err(err),
        }
    }
}

/// The mathematical value of a [`Member`].
pub enum MemberView {
    Field(FieldView),
    NestedUnion(UnionView),
}

/// One member of a struct: a field, or a union declared inside the struct.
#[derive(Debug, PartialEq, Eq)]
pub enum Member {
    Field(FieldDeclare),
    NestedUnion(UnionDeclare),
}

impl View for Member {
    type V = MemberView;

    open spec fn view(&self) -> MemberView {
        match self {
            Member::Field(f) => MemberView::Field(f@),
            Member::NestedUnion(u) => MemberView::NestedUnion(u@),
        }
    }
}

/// The member that an entity among a struct's children stands for: a field
/// for a field declaration, a union under the entity's own name for a union
/// declaration. No other kind of entity is a member.
pub open spec fn member_model(e: Entity) -> Result<MemberView, WalkError> {
    if e.kind == EntityKind::FieldDecl {
        match field_model(e) {
            Ok(f) => Ok(MemberView::Field(f)),
            Err(err) => Err(err),
        }
    } else if e.kind == EntityKind::UnionDecl {
        match union_model(e, optional_name_view(e.name), None) {
            Ok(u) => Ok(MemberView::NestedUnion(u)),
            Err(err) => Err(err),
        }
    } else {
        Err(WalkError::KindMismatch)
    }
}

/// The outcome for each entity read as a member of a struct.
pub open spec fn member_models(s: Seq<Entity>) -> Seq<Result<MemberView, WalkError>> {
    s.map_values(|e: Entity| member_model(e))
}

/// The views of a sequence of members.
pub open spec fn member_views(s: Seq<Member>) -> Seq<MemberView> {
    s.map_values(|m: Member| m@)
}

impl Member {
    /// The member that an entity among a struct's children stands for.
    pub fn from_entity(e: &Entity) -> (r: Result<Member, WalkError>)
        ensures
            match member_model(*e) {
                Ok(v) => r is Ok && r->Ok_0@ == v,
                Err(err) => r == Err::<Member, WalkError>(err),
            },
    {
        match e.kind {
            EntityKind::FieldDecl => match FieldDeclare::from_entity(e) {
                Ok(f) => Ok(Member::Field(f)),
                Err(err) => Err(err),
            },
            EntityKind::UnionDecl => match UnionDeclare::from_entity(e, clone_name(&e.name), None) {
                Ok(u) => Ok(Member::NestedUnion(u)),
                Err(err) => Err(err),
            },
            _ => Err(WalkError::KindMismatch),
        }
    }
}

/// One member for each entity in order, or the first refusal.
pub fn collect_members(children: &Vec<Entity>) -> (r: Result<Vec<Member>, WalkError>)
    ensures
        match sequence(member_models(children@)) {
            Ok(v) => r is Ok && member_views(r->Ok_0@) == v,
            Err(err) => r == Err::<Vec<Member>, WalkError>(err),
        },
{
    let mut out: Vec<Member> = Vec::new();
    let ghost rs = member_models(children@);
    let mut i: usize = 0;
    proof {
        assert(rs.take(0) =~= Seq::empty());
        assert(member_views(out@) =~= Seq::empty());
    }
    while i < children.len()
        invariant
            i <= children.len(),
            rs == member_models(children@),
            sequence(rs.take(i as int)) == Ok::<Seq<MemberView>, WalkError>(member_views(out@)),
        decreases children.len() - i,
    {
        proof {
            lemma_sequence_step(rs, i as int);
        }
        match Member::from_entity(&children[i]) {
            Ok(item) => {
                proof {
                    assert(member_views(out@.push(item)) =~= member_views(out@).push(item@));
                }
                out.push(item);
            },
            Err(err) => {
                proof {
                    lemma_sequence_error_stays(rs, i as int + 1);
                }
                return Err(err);
            },
        }
        i += 1;
    }
    proof {
        assert(rs.take(i as int) =~= rs);
    }
    Ok(out)
}

/// The mathematical value of a [`StructDeclare`].
pub struct StructView {
    pub tag: Option<Seq<char>>,
    pub alias: Option<Seq<char>>,
    pub fields: Seq<MemberView>,
    pub location: Option<SourceLocationView>,
}

/// A struct declaration with its members in declaration order.
#[derive(Debug, PartialEq, Eq)]
pub struct StructDeclare {
    pub struct_name: Option<String>,
    pub typedef_name: Option<String>,
    pub fields: Vec<Member>,
    pub location: Option<SourceLocation>,
}

impl View for StructDeclare {
    type V = StructView;

    open spec fn view(&self) -> StructView {
        StructView {
            tag: optional_name_view(self.struct_name),
            alias: optional_name_view(self.typedef_name),
            fields: member_views(self.fields@),
            location: optional_location_view(self.location),
        }
    }
}

/// The struct that an entity stands for under the given tag and alias: its
/// location, and one member for each child in order. The entity must be a
/// struct declaration and each child a field or union declaration.
pub open spec fn struct_model(e: Entity, tag: Option<Seq<char>>, alias: Option<Seq<char>>) -> Result<
    StructView,
    WalkError,
> {
    if e.kind != EntityKind::StructDecl {
        Err(WalkError::KindMismatch)
    } else {
        match sequence(member_models(e.children@)) {
            Err(err) => Err(err),
            Ok(fields) => Ok(
                StructView {
                    tag,
                    alias,
                    fields,
                    location: optional_location_model(e.location),
                },
            ),
        }
    }
}

impl StructDeclare {
    /// A struct of the given tag and alias, with no members yet.
    pub fn new(struct_name: Option<String>, typedef_name: Option<String>) -> (r: StructDeclare)
        ensures
            r.struct_name == struct_name,
            r.typedef_name == typedef_name,
            r.fields@.len() == 0,
            r.location is None,
    {
        StructDeclare {
            struct_name,
            typedef_name,
            fields: Vec::new(),
            location: None,
        }
    }

    /// The tag name, where the declaration has one.
    pub fn name(&self) -> (r: Option<&str>)
        ensures
            optional_str_view(r) == self@.tag,
    {
        borrow_name(&self.struct_name)
    }

    /// Gives the declaration a tag name and changes nothing else.
    pub fn set_name(&mut self, new_name: String)
        ensures
            final(self).struct_name == Some(new_name),
            final(self).typedef_name == old(self).typedef_name,
            final(self).fields == old(self).fields,
            final(self).location == old(self).location,
    {
        self.struct_name = Some(new_name);
    }

    /// The kind of entity that this node is populated from.
    pub fn entity_kind(&self) -> (r: EntityKind)
        ensures
            r == EntityKind::StructDecl,
    {
        EntityKind::StructDecl
    }

    /// The typedef alias, where the declaration has one.
    pub fn typedef_name(&self) -> (r: Option<&str>)
        ensures
            optional_str_view(r) == self@.alias,
    {
        borrow_name(&self.typedef_name)
    }

    /// Gives the declaration a typedef alias and changes nothing else.
    pub fn set_typedef_name(&mut self, new_typedef_name: String)
        ensures
            final(self).typedef_name == Some(new_typedef_name),
            final(self).struct_name == old(self).struct_name,
            final(self).fields == old(self).fields,
            final(self).location == old(self).location,
    {
        self.typedef_name = Some(new_typedef_name);
    }

    /// Takes the location from a struct declaration and appends one member
    /// for each of its children. Where the entity or
    /// one of its children is refused, the node stays as it was.
    pub fn visit_entity(&mut self, current_entity: &Entity) -> (r: Result<(), WalkError>)
        ensures
            match struct_model(*current_entity, old(self)@.tag, old(self)@.alias) {
                Ok(v) => r is Ok && final(self)@ == (StructView {
                    tag: v.tag,
                    alias: v.alias,
                    fields: old(self)@.fields + v.fields,
                    location: v.location,
                }),
                Err(err) => r == Err::<(), WalkError>(err) && *final(self) == *old(self),
            },
    {
        if current_entity.kind != self.entity_kind() {
            return Err(WalkError::KindMismatch);
        }
        let mut fields = match collect_members(&current_entity.children) {
            Ok(f) => f,
            Err(err) => {
                return Err(err);
            },
        };
        proof {
            assert(member_views(self.fields@ + fields@) =~= member_views(
                self.fields@,
            ) + member_views(fields@));
        }
        self.location = SourceLocation::from_optional(&current_entity.location);
        self.fields.append(&mut fields);
        Ok(())
    }

    /// The struct that an entity stands for under the given tag and alias.
    pub fn from_entity(e: &Entity, tag: Option<String>, alias: Option<String>) -> (r: Result<
        StructDeclare,
        WalkError,
    >)
        ensures
            match struct_model(*e, optional_name_view(tag), optional_name_view(alias)) {
                Ok(v) => r is Ok && r->Ok_0@ == v,
                Err(err) => r == Err::<StructDeclare, WalkError>(err),
            },
    {
        let mut d = StructDeclare::new(tag, alias);
        proof {
            assert(member_views(d.fields@) =~= Seq::empty());
        }
        match d.visit_entity(e) {
            Ok(()) => {
                proof {
                    let v = struct_model(*e, optional_name_view(tag), optional_name_view(alias))->Ok_0;
                    assert(Seq::<MemberView>::empty() + v.fields =~= v.fields);
                }
                Ok(d)
            },
            Err(err) => Err(err),
        }
    }
}

} // verus!
