//! Leaf declarations: enum constants, fields and parameters.

use vstd::prelude::*;
use crate::error::WalkError;
use crate::frontend::{Entity, EntityKind};
use crate::types::{
    optional_location_model, optional_location_view, optional_type_model, optional_type_view,
    SourceLocation, SourceLocationView, Type, TypeView,
};

verus! {

/// The view of an optional name.
pub open spec fn optional_name_view(name: Option<String>) -> Option<Seq<char>> {
    match name {
        Some(n) => Some(n@),
        None => None,
    }
}

/// A copy of an optional name.
pub fn clone_name(name: &Option<String>) -> (r: Option<String>)
    ensures
        r == *name,
{
    match name {
        Some(n) => Some(n.clone()),
        None => None,
    }
}

/// The value of an enum constant, read as a signed and as an unsigned integer.
#[derive(Clone, Copy, Debug, PartialEq, Eq, Structural)]
pub struct EnumConstantValue {
    pub signed: i64,
    pub unsigned: u64,
}

/// The value that the model records for what the frontend reports of an
/// enum constant: both readings, or none.
pub open spec fn constant_value_model(v: Option<(i64, u64)>) -> Option<EnumConstantValue> {
    match v {
        Some(p) => Some(EnumConstantValue { signed: p.0, unsigned: p.1 }),
        None => None,
    }
}

/// The mathematical value of an [`EnumConstantDeclare`].
pub struct EnumConstantView {
    pub name: Seq<char>,
    pub location: Option<SourceLocationView>,
    pub constant_value: Option<EnumConstantValue>,
}

/// One constant of an enum.
#[derive(Debug, PartialEq, Eq)]
pub struct EnumConstantDeclare {
    pub name: String,
    pub location: Option<SourceLocation>,
    pub constant_value: Option<EnumConstantValue>,
}

impl View for EnumConstantDeclare {
    type V = EnumConstantView;

    open spec fn view(&self) -> EnumConstantView {
        EnumConstantView {
            name: self.name@,
            location: optional_location_view(self.location),
            constant_value: self.constant_value,
        }
    }
}

/// The constant that an entity among an enum's children stands for. It must
/// have a name and be an enum constant declaration.
pub open spec fn constant_model(e: Entity) -> Result<EnumConstantView, WalkError> {
    if e.name is None {
        Err(WalkError::MissingName)
    } else if e.kind != EntityKind::EnumConstantDecl {
        Err(WalkError::KindMismatch)
    } else {
        Ok(
            EnumConstantView {
                name: e.name->Some_0@,
                location: optional_location_model(e.location),
                constant_value: constant_value_model(e.enum_constant_value),
            },
        )
    }
}

/// The outcome for each entity read as an enum constant.
pub open spec fn constant_models(s: Seq<Entity>) -> Seq<Result<EnumConstantView, WalkError>> {
    s.map_values(|e: Entity| constant_model(e))
}

/// The views of a sequence of constants.
pub open spec fn constant_views(s: Seq<EnumConstantDeclare>) -> Seq<EnumConstantView> {
    s.map_values(|c: EnumConstantDeclare| c@)
}

impl EnumConstantDeclare {
    /// A constant of the given name, with no value and no location yet.
    pub fn new(name: String) -> (r: EnumConstantDeclare)
        ensures
            r.name == name,
            r.location is None,
            r.constant_value is None,
    {
        EnumConstantDeclare { name, location: None, constant_value: None }
    }

    /// The name that the node goes by.
    pub fn name(&self) -> (r: Option<&str>)
        ensures
            r matches Some(s) && s@ == self.name@,
    {
        Some(self.name.as_str())
    }

    /// Gives the node a new name and changes nothing else.
    pub fn set_name(&mut self, new_name: String)
        ensures
            final(self).name == new_name,
            final(self).location == old(self).location,
            final(self).constant_value == old(self).constant_value,
    {
        self.name = new_name;
    }

    /// The kind of entity that this node is populated from.
    pub fn entity_kind(&self) -> (r: EntityKind)
        ensures
            r == EntityKind::EnumConstantDecl,
    {
        EntityKind::EnumConstantDecl
    }

    /// Takes the value and the location from an enum constant declaration.
    /// An entity of another kind is refused and leaves the node as it was.
    /// Where the entity reports no value, the node keeps the value it had.
    pub fn visit_entity(&mut self, current_entity: &Entity) -> (r: Result<(), WalkError>)
        ensures
            current_entity.kind != EntityKind::EnumConstantDecl ==> r == Err::<(), WalkError>(
                WalkError::KindMismatch,
            ) && *final(self) == *old(self),
            current_entity.kind == EntityKind::EnumConstantDecl ==> r is Ok && final(self)@ == (
            EnumConstantView {
                name: old(self)@.name,
                location: optional_location_model(current_entity.location),
                constant_value: match current_entity.enum_constant_value {
                    Some(p) => Some(EnumConstantValue { signed: p.0, unsigned: p.1 }),
                    None => old(self).constant_value,
                },
            }),
    {
        if current_entity.kind != self.entity_kind() {
            return Err(WalkError::KindMismatch);
        }
        match current_entity.enum_constant_value {
            Some((signed_value, unsigned_value)) => {
                self.constant_value = Some(
                    EnumConstantValue { unsigned: unsigned_value, signed: signed_value },
                );
            },
            None => {},
        }
        self.location = SourceLocation::from_optional(&current_entity.location);
        Ok(())
    }

    /// The constant that an entity among an enum's children stands for.
    pub fn from_entity(e: &Entity) -> (r: Result<EnumConstantDeclare, WalkError>)
        ensures
            match constant_model(*e) {
                Ok(v) => r is Ok && r->Ok_0@ == v,
                Err(err) => r == Err::<EnumConstantDeclare, WalkError>(err),
            },
    {
        match &e.name {
            None => Err(WalkError::MissingName),
            Some(n) => {
                let mut c = EnumConstantDeclare::new(n.clone());
                match c.visit_entity(e) {
                    Ok(()) => Ok(c),
                    Err(err) => Err(err),
                }
            },
        }
    }
}

/// The mathematical value of a [`FieldDeclare`].
pub struct FieldView {
    pub name: Option<Seq<char>>,
    pub field_type: Option<TypeView>,
    pub location: Option<SourceLocationView>,
}

/// One field of a struct or union.
#[derive(Debug, PartialEq, Eq)]
pub struct FieldDeclare {
    pub name: Option<String>,
    pub field_type: Option<Type>,
    pub location: Option<SourceLocation>,
}

impl View for FieldDeclare {
    type V = FieldView;

    open spec fn view(&self) -> FieldView {
        FieldView {
            name: optional_name_view(self.name),
            field_type: optional_type_view(self.field_type),
            location: optional_location_view(self.location),
        }
    }
}

/// The field that an entity among a struct's or union's children stands for.
/// It must be a field declaration.
pub open spec fn field_model(e: Entity) -> Result<FieldView, WalkError> {
    if e.kind != EntityKind::FieldDecl {
        Err(WalkError::KindMismatch)
    } else {
        Ok(
            FieldView {
                name: optional_name_view(e.name),
                field_type: optional_type_model(e.declared_type),
                location: optional_location_model(e.location),
            },
        )
    }
}

/// The outcome for each entity read as a field.
pub open spec fn field_models(s: Seq<Entity>) -> Seq<Result<FieldView, WalkError>> {
    s.map_values(|e: Entity| field_model(e))
}

/// The views of a sequence of fields.
pub open spec fn field_views(s: Seq<FieldDeclare>) -> Seq<FieldView> {
    s.map_values(|f: FieldDeclare| f@)
}

impl FieldDeclare {
    /// A field of the given name, with no type and no location yet.
    pub fn new(name: Option<String>) -> (r: FieldDeclare)
        ensures
            r.name == name,
            r.field_type is None,
            r.location is None,
    {
        FieldDeclare { name, field_type: None, location: None }
    }

    /// The name that the node goes by.
    pub fn name(&self) -> (r: Option<&str>)
        ensures
            match r {
                Some(s) => self.name is Some && s@ == self.name->Some_0@,
                None => self.name is None,
            },
    {
        match &self.name {
            Some(n) => Some(n.as_str()),
            None => None,
        }
    }

    /// Gives the node a new name and changes nothing else.
    pub fn set_name(&mut self, new_name: String)
        ensures
            final(self).name == Some(new_name),
            final(self).field_type == old(self).field_type,
            final(self).location == old(self).location,
    {
        self.name = Some(new_name);
    }

    /// The kind of entity that this node is populated from.
    pub fn entity_kind(&self) -> (r: EntityKind)
        ensures
            r == EntityKind::FieldDecl,
    {
        EntityKind::FieldDecl
    }

    /// Takes the type and the location from a field declaration. An entity
    /// of another kind is refused and leaves the node as it was.
    pub fn visit_entity(&mut self, current_entity: &Entity) -> (r: Result<(), WalkError>)
        ensures
            current_entity.kind != EntityKind::FieldDecl ==> r == Err::<(), WalkError>(
                WalkError::KindMismatch,
            ) && *final(self) == *old(self),
            current_entity.kind == EntityKind::FieldDecl ==> r is Ok && final(self)@ == (FieldView {
                name: old(self)@.name,
                field_type: optional_type_model(current_entity.declared_type),
                location: optional_location_model(current_entity.location),
            }),
    {
        if current_entity.kind != self.entity_kind() {
            return Err(WalkError::KindMismatch);
        }
        self.field_type = Type::from_optional(&current_entity.declared_type);
        self.location = SourceLocation::from_optional(&current_entity.location);
        Ok(())
    }

    /// The field that an entity among a struct's or union's children stands
    /// for.
    pub fn from_entity(e: &Entity) -> (r: Result<FieldDeclare, WalkError>)
        ensures
            match field_model(*e) {
                Ok(v) => r is Ok && r->Ok_0@ == v,
                Err(err) => r == Err::<FieldDeclare, WalkError>(err),
            },
    {
        let mut f = FieldDeclare::new(clone_name(&e.name));
        match f.visit_entity(e) {
            Ok(()) => Ok(f),
            Err(err) => Err(err),
        }
    }
}

/// The mathematical value of a [`ParameterDeclare`].
pub struct ParameterView {
    pub name: Seq<char>,
    pub parameter_type: Option<TypeView>,
    pub location: Option<SourceLocationView>,
}

/// One parameter of a function.
#[derive(Debug, PartialEq, Eq)]
pub struct ParameterDeclare {
    pub name: String,
    pub parameter_type: Option<Type>,
    pub location: Option<SourceLocation>,
}

impl View for ParameterDeclare {
    type V = ParameterView;

    open spec fn view(&self) -> ParameterView {
        ParameterView {
            name: self.name@,
            parameter_type: optional_type_view(self.parameter_type),
            location: optional_location_view(self.location),
        }
    }
}

/// The parameter that an entity among a function's arguments stands for. It
/// must have a name and be a parameter declaration.
pub open spec fn parameter_model(e: Entity) -> Result<ParameterView, WalkError> {
    if e.name is None {
        Err(WalkError::MissingName)
    } else if e.kind != EntityKind::ParmDecl {
        Err(WalkError::KindMismatch)
    } else {
        Ok(
            ParameterView {
                name: e.name->Some_0@,
                parameter_type: optional_type_model(e.declared_type),
                location: optional_location_model(e.location),
            },
        )
    }
}

/// The outcome for each entity read as a parameter.
pub open spec fn parameter_models(s: Seq<Entity>) -> Seq<Result<ParameterView, WalkError>> {
    s.map_values(|e: Entity| parameter_model(e))
}

/// The views of a sequence of parameters.
pub open spec fn parameter_views(s: Seq<ParameterDeclare>) -> Seq<ParameterView> {
    s.map_values(|p: ParameterDeclare| p@)
}

impl ParameterDeclare {
    /// A parameter of the given name, with no type and no location yet.
    pub fn new(name: String) -> (r: ParameterDeclare)
        ensures
            r.name == name,
            r.parameter_type is None,
            r.location is None,
    {
        ParameterDeclare { name, parameter_type: None, location: None }
    }

    /// The name that the node goes by.
    pub fn name(&self) -> (r: Option<&str>)
        ensures
            r matches Some(s) && s@ == self.name@,
    {
        Some(self.name.as_str())
    }

    /// Gives the node a new name and changes nothing else.
    pub fn set_name(&mut self, new_name: String)
        ensures
            final(self).name == new_name,
            final(self).parameter_type == old(self).parameter_type,
            final(self).location == old(self).location,
    {
        self.name = new_name;
    }

    /// The kind of entity that this node is populated from.
    pub fn entity_kind(&self) -> (r: EntityKind)
        ensures
            r == EntityKind::ParmDecl,
    {
        EntityKind::ParmDecl
    }

    /// Takes the type and the location from a parameter declaration. An
    /// entity of another kind is refused and leaves the node as it was.
    pub fn visit_entity(&mut self, current_entity: &Entity) -> (r: Result<(), WalkError>)
        ensures
            current_entity.kind != EntityKind::ParmDecl ==> r == Err::<(), WalkError>(
                WalkError::KindMismatch,
            ) && *final(self) == *old(self),
            current_entity.kind == EntityKind::ParmDecl ==> r is Ok && final(self)@ == (
            ParameterView {
                name: old(self)@.name,
                parameter_type: optional_type_model(current_entity.declared_type),
                location: optional_location_model(current_entity.location),
            }),
    {
        if current_entity.kind != self.entity_kind() {
            return Err(WalkError::KindMismatch);
        }
        self.parameter_type = Type::from_optional(&current_entity.declared_type);
        self.location = SourceLocation::from_optional(&current_entity.location);
        Ok(())
    }

    /// The parameter that an entity among a function's arguments stands for.
    pub fn from_entity(e: &Entity) -> (r: Result<ParameterDeclare, WalkError>)
        ensures
            match parameter_model(*e) {
                Ok(v) => r is Ok && r->Ok_0@ == v,
                Err(err) => r == Err::<ParameterDeclare, WalkError>(err),
            },
    {
        match &e.name {
            None => Err(WalkError::MissingName),
            Some(n) => {
                let mut p = ParameterDeclare::new(n.clone());
                match p.visit_entity(e) {
                    Ok(()) => Ok(p),
                    Err(err) => Err(err),
                }
            },
        }
    }
}

} // verus!
