//! The closed family of type declarations that a source file holds.

use vstd::prelude::*;
use crate::aggregate::{
    enum_model, optional_str_view, struct_model, union_model, EnumDeclare, EnumView, StructDeclare,
    StructView, UnionDeclare, UnionView,
};
use crate::error::WalkError;
use crate::frontend::{Entity, EntityKind};
use crate::leaf::optional_name_view;

verus! {

/// The mathematical value of a [`TypeDeclare`].
pub enum TypeDeclareView {
    Enum(EnumView),
    Struct(StructView),
    Union(UnionView),
}

impl TypeDeclareView {
    /// The tag name, where the declaration has one.
    pub open spec fn tag(self) -> Option<Seq<char>> {
        match self {
            TypeDeclareView::Enum(d) => d.tag,
            TypeDeclareView::Struct(d) => d.tag,
            TypeDeclareView::Union(d) => d.tag,
        }
    }

    /// The typedef alias, where the declaration has one.
    pub open spec fn alias(self) -> Option<Seq<char>> {
        match self {
            TypeDeclareView::Enum(d) => d.alias,
            TypeDeclareView::Struct(d) => d.alias,
            TypeDeclareView::Union(d) => d.alias,
        }
    }

    /// The same declaration under the given typedef alias.
    pub open spec fn with_alias(self, alias: Seq<char>) -> TypeDeclareView {
        match self {
            TypeDeclareView::Enum(d) => TypeDeclareView::Enum(
                EnumView { alias: Some(alias), ..d },
            ),
            TypeDeclareView::Struct(d) => TypeDeclareView::Struct(
                StructView { alias: Some(alias), ..d },
            ),
            TypeDeclareView::Union(d) => TypeDeclareView::Union(
                UnionView { alias: Some(alias), ..d },
            ),
        }
    }

    /// The declaration can be named: it has a tag or a typedef alias.
    pub open spec fn is_named(self) -> bool {
        self.tag() is Some || self.alias() is Some
    }
}

/// An enum, struct or union declaration.
#[derive(Debug, PartialEq, Eq)]
pub enum TypeDeclare {
    Enum(EnumDeclare),
    Struct(StructDeclare),
    Union(UnionDeclare),
}

impl View for TypeDeclare {
    type V = TypeDeclareView;

    open spec fn view(&self) -> TypeDeclareView {
        match self {
            TypeDeclare::Enum(d) => TypeDeclareView::Enum(d@),
            TypeDeclare::Struct(d) => TypeDeclareView::Struct(d@),
            TypeDeclare::Union(d) => TypeDeclareView::Union(d@),
        }
    }
}

/// The declaration that an entity stands for under the given tag and alias:
/// an enum, struct or union after the entity's kind. An entity of another
/// kind stands for none.
pub open spec fn declaration_model(
    e: Entity,
    tag: Option<Seq<char>>,
    alias: Option<Seq<char>>,
) -> Result<TypeDeclareView, WalkError> {
    if e.kind == EntityKind::EnumDecl {
        match enum_model(e, tag, alias) {
            Ok(d) => Ok(TypeDeclareView::Enum(d)),
            Err(err) => Err(err),
        }
    } else if e.kind == EntityKind::StructDecl {
        match struct_model(e, tag, alias) {
            Ok(d) => Ok(TypeDeclareView::Struct(d)),
            Err(err) => Err(err),
        }
    } else if e.kind == EntityKind::UnionDecl {
        match union_model(e, tag, alias) {
            Ok(d) => Ok(TypeDeclareView::Union(d)),
            Err(err) => Err(err),
        }
    } else {
        Err(WalkError::UnsupportedTypedef)
    }
}

/// Every declaration of the sequence has a tag or a typedef alias.
pub open spec fn all_named(decls: Seq<TypeDeclareView>) -> bool {
    forall|i: int| 0 <= i < decls.len() ==> (#[trigger] decls[i]).is_named()
}

/// The views of a sequence of type declarations.
pub open spec fn declare_views(s: Seq<TypeDeclare>) -> Seq<TypeDeclareView> {
    s.map_values(|d: TypeDeclare| d@)
}

impl TypeDeclare {
    /// The tag name, where the declaration has one.
    pub fn name(&self) -> (r: Option<&str>)
        ensures
            optional_str_view(r) == self@.tag(),
    {
        match self {
            TypeDeclare::Enum(d) => d.name(),
            TypeDeclare::Struct(d) => d.name(),
            TypeDeclare::Union(d) => d.name(),
        }
    }

    /// The typedef alias, where the declaration has one.
    pub fn typedef_name(&self) -> (r: Option<&str>)
        ensures
            optional_str_view(r) == self@.alias(),
    {
        match self {
            TypeDeclare::Enum(d) => d.typedef_name(),
            TypeDeclare::Struct(d) => d.typedef_name(),
            TypeDeclare::Union(d) => d.typedef_name(),
        }
    }

    /// The kind of entity that the declaration is populated from.
    pub fn entity_kind(&self) -> (r: EntityKind)
        ensures
            r == (match self@ {
                TypeDeclareView::Enum(_) => EntityKind::EnumDecl,
                TypeDeclareView::Struct(_) => EntityKind::StructDecl,
                TypeDeclareView::Union(_) => EntityKind::UnionDecl,
            }),
    {
        match self {
            TypeDeclare::Enum(d) => d.entity_kind(),
            TypeDeclare::Struct(d) => d.entity_kind(),
            TypeDeclare::Union(d) => d.entity_kind(),
        }
    }

    /// Gives the declaration a typedef alias and changes nothing else.
    pub fn set_typedef_name(&mut self, new_typedef_name: String)
        ensures
            final(self)@ == old(self)@.with_alias(new_typedef_name@),
    {
        match self {
            TypeDeclare::Enum(d) => d.set_typedef_name(new_typedef_name),
            TypeDeclare::Struct(d) => d.set_typedef_name(new_typedef_name),
            TypeDeclare::Union(d) => d.set_typedef_name(new_typedef_name),
        }
    }

    /// Whether the declaration's tag is the given name.
    pub fn has_tag(&self, name: &String) -> (r: bool)
        ensures
            r == (self@.tag() == Some(name@)),
    {
        let tag = match self {
            TypeDeclare::Enum(d) => &d.enum_name,
            TypeDeclare::Struct(d) => &d.struct_name,
            TypeDeclare::Union(d) => &d.union_name,
        };
        match tag {
            Some(t) => *t == *name,
            None => false,
        }
    }

    /// The declaration that an entity stands for under the given tag and
    /// alias.
    pub fn from_entity(e: &Entity, tag: Option<String>, alias: Option<String>) -> (r: Result<
        TypeDeclare,
        WalkError,
    >)
        ensures
            match declaration_model(*e, optional_name_view(tag), optional_name_view(alias)) {
                Ok(v) => r is Ok && r->Ok_0@ == v,
                Err(err) => r == Err::<TypeDeclare, WalkError>(err),
            },
    {
        match e.kind {
            EntityKind::EnumDecl => match EnumDeclare::from_entity(e, tag, alias) {
                Ok(d) => Ok(TypeDeclare::Enum(d)),
                Err(err) => Err(err),
            },
            EntityKind::StructDecl => match StructDeclare::from_entity(e, tag, alias) {
                Ok(d) => Ok(TypeDeclare::Struct(d)),
                Err(err) => Err(err),
            },
            EntityKind::UnionDecl => match UnionDeclare::from_entity(e, tag, alias) {
                Ok(d) => Ok(TypeDeclare::Union(d)),
                Err(err) => Err(err),
            },
            _ => Err(WalkError::UnsupportedTypedef),
        }
    }
}

} // verus!
