//! The root of the model and the walk that fills it: one pass over the
//! top-level entities of the main file, which reconciles each typedef with
//! the tag of the same name.

use vstd::prelude::*;
use crate::declaration::{
    all_named, declaration_model, declare_views, TypeDeclare, TypeDeclareView,
};
use crate::error::WalkError;
use crate::frontend::{Entity, EntityKind};
use crate::function::{function_views, named_function_model, FunctionDeclare, FunctionView};
use crate::laws::{lemma_type_step_keeps_named, lemma_walk_keeps_named};

verus! {

/// The mathematical value of a [`SourceFile`].
pub struct SourceFileView {
    pub path: Seq<char>,
    pub type_declares: Seq<TypeDeclareView>,
    pub function_declares: Seq<FunctionView>,
}

/// The declarations of one translation unit's main file, in source order.
#[derive(Debug, PartialEq, Eq)]
pub struct SourceFile {
    pub path: String,
    pub type_declares: Vec<TypeDeclare>,
    pub function_declares: Vec<FunctionDeclare>,
}

impl View for SourceFile {
    type V = SourceFileView;

    open spec fn view(&self) -> SourceFileView {
        SourceFileView {
            path: self.path@,
            type_declares: declare_views(self.type_declares@),
            function_declares: function_views(self.function_declares@),
        }
    }
}

impl SourceFileView {
    /// Every type declaration of the model can be named: it has a tag or a
    /// typedef alias.
    pub open spec fn well_formed(self) -> bool {
        all_named(self.type_declares)
    }
}

/// The position of the first declaration whose tag is `name`, if any.
pub open spec fn first_tagged(decls: Seq<TypeDeclareView>, name: Seq<char>) -> Option<int>
    decreases decls.len(),
{
    if decls.len() == 0 {
        None
    } else {
        match first_tagged(decls.drop_last(), name) {
            Some(i) => Some(i),
            None => if decls.last().tag() == Some(name) {
                Some(decls.len() - 1)
            } else {
                None
            },
        }
    }
}

/// What one type-like entity does to the type declarations recorded so far.
///
/// A named enum, struct or union is appended under its tag; an unnamed one is
/// passed over. A typedef that names a declaration gives its name as alias to
/// the first recorded declaration whose tag is that name; where there is
/// none, the declaration it names is appended under the alias alone, and must
/// be an enum, struct or union. A typedef that names no declaration, or has
/// no name itself, is passed over. Any other entity is refused.
pub open spec fn type_step(decls: Seq<TypeDeclareView>, e: Entity) -> Result<
    Seq<TypeDeclareView>,
    WalkError,
> {
    if e.kind == EntityKind::EnumDecl || e.kind == EntityKind::StructDecl || e.kind
        == EntityKind::UnionDecl {
        match e.name {
            None => Ok(decls),
            Some(n) => match declaration_model(e, Some(n@), None) {
                Ok(d) => Ok(decls.push(d)),
                Err(err) => Err(err),
            },
        }
    } else if e.kind == EntityKind::TypedefDecl {
        match (e.typedef_declaration, e.name) {
            (Some(target), Some(n)) => match first_tagged(decls, n@) {
                Some(i) => Ok(decls.update(i, decls[i].with_alias(n@))),
                None => match declaration_model(*target, None, Some(n@)) {
                    Ok(d) => Ok(decls.push(d)),
                    Err(err) => Err(err),
                },
            },
            _ => Ok(decls),
        }
    } else {
        Err(WalkError::UnexpectedEntity)
    }
}

/// What one top-level entity does to the model. An entity outside the main
/// file does nothing, whatever its kind. A function declaration is appended
/// to the functions and must have a name. Enums, structs, unions and typedefs
/// act on the type declarations. Any other entity is refused.
pub open spec fn top_step(m: SourceFileView, e: Entity) -> Result<SourceFileView, WalkError> {
    if !e.in_main_file {
        Ok(m)
    } else if e.kind == EntityKind::FunctionDecl {
        match named_function_model(e) {
            Ok(f) => Ok(
                SourceFileView {
                    path: m.path,
                    type_declares: m.type_declares,
                    function_declares: m.function_declares.push(f),
                },
            ),
            Err(err) => Err(err),
        }
    } else if e.kind == EntityKind::EnumDecl || e.kind == EntityKind::StructDecl || e.kind
        == EntityKind::UnionDecl || e.kind == EntityKind::TypedefDecl {
        match type_step(m.type_declares, e) {
            Ok(t) => Ok(
                SourceFileView {
                    path: m.path,
                    type_declares: t,
                    function_declares: m.function_declares,
                },
            ),
            Err(err) => Err(err),
        }
    } else {
        Err(WalkError::UnexpectedEntity)
    }
}

/// The model after the entities of `children` have acted on `m` one after
/// another, or the first refusal.
pub open spec fn walk_children(m: SourceFileView, children: Seq<Entity>) -> Result<
    SourceFileView,
    WalkError,
>
    decreases children.len(),
{
    if children.len() == 0 {
        Ok(m)
    } else {
        match walk_children(m, children.drop_last()) {
            Ok(before) => top_step(before, children.last()),
            Err(err) => Err(err),
        }
    }
}

/// The model after a walk over a translation unit, which the root must be.
pub open spec fn walk(m: SourceFileView, root: Entity) -> Result<SourceFileView, WalkError> {
    if root.kind != EntityKind::TranslationUnit {
        Err(WalkError::KindMismatch)
    } else {
        walk_children(m, root.children@)
    }
}

/// The model of the given path with no declarations.
pub open spec fn empty_model(path: Seq<char>) -> SourceFileView {
    SourceFileView { path, type_declares: Seq::empty(), function_declares: Seq::empty() }
}

/// Scanning one declaration further finds what was found before, or else
/// that declaration where its tag is the name.
pub proof fn lemma_first_tagged_step(decls: Seq<TypeDeclareView>, name: Seq<char>, i: int)
    requires
        0 <= i < decls.len(),
    ensures
        first_tagged(decls.take(i + 1), name) == (match first_tagged(decls.take(i), name) {
            Some(j) => Some(j),
            None => if decls[i].tag() == Some(name) {
                Some(i)
            } else {
                None
            },
        }),
{
    assert(decls.take(i + 1).drop_last() =~= decls.take(i));
    assert(decls.take(i + 1).last() == decls[i]);
}

/// What is found among the first `k` declarations is found in the whole
/// sequence.
pub proof fn lemma_first_tagged_stays(decls: Seq<TypeDeclareView>, name: Seq<char>, k: int)
    requires
        0 <= k <= decls.len(),
        first_tagged(decls.take(k), name) is Some,
    ensures
        first_tagged(decls, name) == first_tagged(decls.take(k), name),
    decreases decls.len() - k,
{
    if k == decls.len() {
        assert(decls.take(k) =~= decls);
    } else {
        lemma_first_tagged_step(decls, name, k);
        lemma_first_tagged_stays(decls, name, k + 1);
    }
}

/// Walking one entity further is one step from the walk so far.
pub proof fn lemma_walk_children_step(m: SourceFileView, children: Seq<Entity>, i: int)
    requires
        0 <= i < children.len(),
    ensures
        walk_children(m, children.take(i + 1)) == (match walk_children(m, children.take(i)) {
            Ok(before) => top_step(before, children[i]),
            Err(err) => Err(err),
        }),
{
    assert(children.take(i + 1).drop_last() =~= children.take(i));
    assert(children.take(i + 1).last() == children[i]);
}

/// A refusal among the first `k` entities is the outcome of the whole walk.
pub proof fn lemma_walk_children_error_stays(m: SourceFileView, children: Seq<Entity>, k: int)
    requires
        0 <= k <= children.len(),
        walk_children(m, children.take(k)) is Err,
    ensures
        walk_children(m, children) == walk_children(m, children.take(k)),
    decreases children.len() - k,
{
    if k == children.len() {
        assert(children.take(k) =~= children);
    } else {
        lemma_walk_children_step(m, children, k);
        lemma_walk_children_error_stays(m, children, k + 1);
    }
}

/// The position of the first declaration whose tag is `name`, if any.
pub fn find_tagged(declares: &Vec<TypeDeclare>, name: &String) -> (r: Option<usize>)
    ensures
        match r {
            Some(i) => i < declares@.len() && first_tagged(declare_views(declares@), name@)
                == Some(i as int),
            None => first_tagged(declare_views(declares@), name@) is None,
        },
{
    let ghost views = declare_views(declares@);
    let mut i: usize = 0;
    while i < declares.len()
        invariant
            i <= declares.len(),
            views == declare_views(declares@),
            first_tagged(views.take(i as int), name@) is None,
        decreases declares.len() - i,
    {
        proof {
            lemma_first_tagged_step(views, name@, i as int);
        }
        if declares[i].has_tag(name) {
            proof {
                lemma_first_tagged_stays(views, name@, i as int + 1);
            }
            return Some(i);
        }
        i += 1;
    }
    proof {
        assert(views.take(i as int) =~= views);
    }
    None
}

impl SourceFile {
    /// A model of the given path with no declarations.
    pub fn new(path: String) -> (r: SourceFile)
        ensures
            r.path == path,
            r@ == empty_model(path@),
            r@.well_formed(),
    {
        let r = SourceFile { path, type_declares: Vec::new(), function_declares: Vec::new() };
        proof {
            assert(declare_views(r.type_declares@) =~= Seq::empty());
            assert(function_views(r.function_declares@) =~= Seq::empty());
        }
        r
    }

    /// Lets one enum, struct, union or typedef entity act on the recorded
    /// type declarations. A refused entity leaves them as they were.
    pub fn parse_type_declare(current_entity: &Entity, declares: &mut Vec<TypeDeclare>) -> (r:
        Result<(), WalkError>)
        ensures
            match type_step(declare_views(old(declares)@), *current_entity) {
                Ok(v) => r is Ok && declare_views(final(declares)@) == v,
                Err(err) => r == Err::<(), WalkError>(err) && *final(declares) == *old(declares),
            },
            all_named(declare_views(old(declares)@)) ==> all_named(declare_views(final(declares)@)),
    {
        proof {
            if all_named(declare_views(declares@)) {
                lemma_type_step_keeps_named(declare_views(declares@), *current_entity);
            }
        }
        match current_entity.kind {
            EntityKind::EnumDecl | EntityKind::StructDecl | EntityKind::UnionDecl => {
                match &current_entity.name {
                    None => Ok(()),
                    Some(name) => {
                        match TypeDeclare::from_entity(current_entity, Some(name.clone()), None) {
                            Ok(declare) => {
                                proof {
                                    assert(declare_views(declares@.push(declare)) =~= declare_views(
                                        declares@,
                                    ).push(declare@));
                                }
                                declares.push(declare);
                                Ok(())
                            },
                            Err(err) => Err(err),
                        }
                    },
                }
            },
            EntityKind::TypedefDecl => {
                match (&current_entity.typedef_declaration, &current_entity.name) {
                    (Some(declaration_entity), Some(typedef_name)) => {
                        match find_tagged(declares, typedef_name) {
                            Some(i) => {
                                let ghost before = declares@;
                                declares[i].set_typedef_name(typedef_name.clone());
                                proof {
                                    assert(declare_views(declares@) =~= declare_views(
                                        before,
                                    ).update(
                                        i as int,
                                        declare_views(before)[i as int].with_alias(typedef_name@),
                                    ));
                                }
                                Ok(())
                            },
                            None => {
                                match TypeDeclare::from_entity(
                                    &**declaration_entity,
                                    None,
                                    Some(typedef_name.clone()),
                                ) {
                                    Ok(declare) => {
                                        proof {
                                            assert(declare_views(declares@.push(declare))
                                                =~= declare_views(declares@).push(declare@));
                                        }
                                        declares.push(declare);
                                        Ok(())
                                    },
                                    Err(err) => Err(err),
                                }
                            },
                        }
                    },
                    _ => Ok(()),
                }
            },
            _ => Err(WalkError::UnexpectedEntity),
        }
    }

    /// The path of the file.
    pub fn name(&self) -> (r: Option<&str>)
        ensures
            r matches Some(s) && s@ == self.path@,
    {
        Some(self.path.as_str())
    }

    /// Gives the node a new name and changes nothing else.
    pub fn set_name(&mut self, new_name: String)
        ensures
            final(self).path == new_name,
            final(self).type_declares == old(self).type_declares,
            final(self).function_declares == old(self).function_declares,
    {
        self.path = new_name;
    }

    /// The kind of entity that the model is populated from.
    pub fn entity_kind(&self) -> (r: EntityKind)
        ensures
            r == EntityKind::TranslationUnit,
    {
        EntityKind::TranslationUnit
    }

    /// Lets one top-level entity act on the model. A refused entity leaves
    /// the model as it was.
    pub fn visit_child(&mut self, next_entity: &Entity) -> (r: Result<(), WalkError>)
        ensures
            match top_step(old(self)@, *next_entity) {
                Ok(v) => r is Ok && final(self)@ == v,
                Err(err) => r == Err::<(), WalkError>(err) && *final(self) == *old(self),
            },
            old(self)@.well_formed() ==> final(self)@.well_formed(),
    {
        if !next_entity.in_main_file {
            return Ok(());
        }
        match next_entity.kind {
            EntityKind::EnumDecl | EntityKind::StructDecl | EntityKind::UnionDecl
            | EntityKind::TypedefDecl => {
                SourceFile::parse_type_declare(next_entity, &mut self.type_declares)
            },
            EntityKind::FunctionDecl => {
                match FunctionDeclare::from_entity(next_entity) {
                    Ok(function_declare) => {
                        proof {
                            assert(function_views(self.function_declares@.push(function_declare))
                                =~= function_views(self.function_declares@).push(
                                function_declare@,
                            ));
                        }
                        self.function_declares.push(function_declare);
                        Ok(())
                    },
                    Err(err) => Err(err),
                }
            },
            _ => Err(WalkError::UnexpectedEntity),
        }
    }

    /// Walks the top-level entities of a translation unit in order and lets
    /// each one in the main file act on the model. Where the root or any
    /// entity is refused, the walk stops with that refusal and the model is
    /// left with its path and no declarations.
    pub fn visit_entity(&mut self, current_entity: &Entity) -> (r: Result<(), WalkError>)
        ensures
            match walk(old(self)@, *current_entity) {
                Ok(v) => r is Ok && final(self)@ == v,
                Err(err) => r == Err::<(), WalkError>(err) && final(self)@ == empty_model(
                    old(self)@.path,
                ),
            },
            old(self)@.well_formed() ==> final(self)@.well_formed(),
    {
        proof {
            if self@.well_formed() {
                lemma_walk_keeps_named(self@, current_entity.children@);
            }
        }
        if current_entity.kind != self.entity_kind() {
            self.clear();
            return Err(WalkError::KindMismatch);
        }
        let ghost start = self@;
        let mut i: usize = 0;
        proof {
            assert(current_entity.children@.take(0) =~= Seq::empty());
        }
        while i < current_entity.children.len()
            invariant
                i <= current_entity.children.len(),
                current_entity.kind == EntityKind::TranslationUnit,
                start == old(self)@,
                start.path == self@.path,
                walk_children(start, current_entity.children@.take(i as int)) == Ok::<
                    SourceFileView,
                    WalkError,
                >(self@),
            decreases current_entity.children.len() - i,
        {
            proof {
                lemma_walk_children_step(start, current_entity.children@, i as int);
            }
            match self.visit_child(&current_entity.children[i]) {
                Ok(()) => {},
                Err(err) => {
                    proof {
                        lemma_walk_children_error_stays(
                            start,
                            current_entity.children@,
                            i as int + 1,
                        );
                    }
                    self.clear();
                    return Err(err);
                },
            }
            proof {
                lemma_walk_children_path(start, current_entity.children@.take(i as int + 1));
            }
            i += 1;
        }
        proof {
            assert(current_entity.children@.take(i as int) =~= current_entity.children@);
        }
        Ok(())
    }

    /// Drops every declaration and keeps the path.
    pub fn clear(&mut self)
        ensures
            final(self).path == old(self).path,
            final(self)@ == empty_model(old(self)@.path),
            final(self)@.well_formed(),
    {
        self.type_declares = Vec::new();
        self.function_declares = Vec::new();
        proof {
            assert(declare_views(self.type_declares@) =~= Seq::empty());
            assert(function_views(self.function_declares@) =~= Seq::empty());
        }
    }

    /// The model of a translation unit under the given path, or the refusal
    /// that ended the walk; no model comes out of a refused walk.
    pub fn from_translation_unit(path: String, root: &Entity) -> (r: Result<SourceFile, WalkError>)
        ensures
            match walk(empty_model(path@), *root) {
                Ok(v) => r is Ok && r->Ok_0@ == v,
                Err(err) => r == Err::<SourceFile, WalkError>(err),
            },
            r matches Ok(model) ==> model@.well_formed(),
    {
        let mut source_file = SourceFile::new(path);
        match source_file.visit_entity(root) {
            Ok(()) => Ok(source_file),
            Err(err) => Err(err),
        }
    }
}

/// A walk never changes the path of the model.
pub proof fn lemma_walk_children_path(m: SourceFileView, children: Seq<Entity>)
    ensures
        walk_children(m, children) matches Ok(v) ==> v.path == m.path,
    decreases children.len(),
{
    if children.len() > 0 {
        lemma_walk_children_path(m, children.drop_last());
    }
}

} // verus!
