//! What holds of every walk: scoping to the main file, stable positions,
//! nameable declarations, and refusal of unnamed parameters.

use vstd::prelude::*;
use crate::aggregate::{EnumView, StructView, UnionView};
use crate::declaration::{all_named, declaration_model, TypeDeclareView};
use crate::error::WalkError;
use crate::frontend::{Entity, EntityKind};
use crate::function::{argument_entities, named_function_model};
use crate::leaf::{parameter_models, ParameterView};
use crate::outcome::{lemma_sequence_error_stays, lemma_sequence_step, sequence};
use crate::source_file::{
    first_tagged, lemma_walk_children_error_stays, lemma_walk_children_step, type_step, walk,
    walk_children, SourceFileView,
};

verus! {

/// The entities of a sequence that are located in the main file, in order.
pub open spec fn main_file_entities(s: Seq<Entity>) -> Seq<Entity>
    decreases s.len(),
{
    if s.len() == 0 {
        Seq::empty()
    } else if s.last().in_main_file {
        main_file_entities(s.drop_last()).push(s.last())
    } else {
        main_file_entities(s.drop_last())
    }
}

/// A declaration with its typedef alias taken away.
pub open spec fn without_alias(d: TypeDeclareView) -> TypeDeclareView {
    match d {
        TypeDeclareView::Enum(v) => TypeDeclareView::Enum(EnumView { alias: None, ..v }),
        TypeDeclareView::Struct(v) => TypeDeclareView::Struct(StructView { alias: None, ..v }),
        TypeDeclareView::Union(v) => TypeDeclareView::Union(UnionView { alias: None, ..v }),
    }
}

/// `after` holds the declarations of `before` at their positions, each
/// unchanged but possibly for its alias, followed by what was appended.
pub open spec fn keeps_positions(
    before: Seq<TypeDeclareView>,
    after: Seq<TypeDeclareView>,
) -> bool {
    &&& before.len() <= after.len()
    &&& forall|i: int|
        0 <= i < before.len() ==> without_alias(#[trigger] after[i]) == without_alias(before[i])
}

/// Scoping: entities outside the main file have no part in the outcome of a
/// walk. The walk over all entities is the walk over those of the main file.
pub proof fn lemma_walk_sees_main_file_only(m: SourceFileView, children: Seq<Entity>)
    ensures
        walk_children(m, children) == walk_children(m, main_file_entities(children)),
    decreases children.len(),
{
    if children.len() > 0 {
        let rest = children.drop_last();
        lemma_walk_sees_main_file_only(m, rest);
        if children.last().in_main_file {
            let kept = main_file_entities(rest).push(children.last());
            assert(kept.drop_last() =~= main_file_entities(rest));
            assert(kept.last() == children.last());
        }
    }
}

/// The entities that a walk sees are all located in the main file, and
/// where every entity is in the main file the walk sees them all.
pub proof fn lemma_main_file_entities(s: Seq<Entity>)
    ensures
        main_file_entities(s).len() <= s.len(),
        forall|i: int|
            0 <= i < main_file_entities(s).len() ==> (#[trigger] main_file_entities(
                s,
            )[i]).in_main_file,
        (forall|i: int| 0 <= i < s.len() ==> (#[trigger] s[i]).in_main_file)
            ==> main_file_entities(s) == s,
    decreases s.len(),
{
    if s.len() > 0 {
        lemma_main_file_entities(s.drop_last());
        if forall|i: int| 0 <= i < s.len() ==> (#[trigger] s[i]).in_main_file {
            assert forall|i: int| 0 <= i < s.drop_last().len() implies (#[trigger] s.drop_last()[
                i
            ]).in_main_file by {
                assert(s.drop_last()[i] == s[i]);
            }
            assert(s.drop_last().push(s.last()) =~= s);
        }
    } else {
        assert(main_file_entities(s) =~= s);
    }
}

/// What is found by name is the first declaration with that tag.
pub proof fn lemma_first_tagged_is_first(decls: Seq<TypeDeclareView>, name: Seq<char>)
    ensures
        match first_tagged(decls, name) {
            Some(i) => 0 <= i < decls.len() && decls[i].tag() == Some(name) && forall|j: int|
                0 <= j < i ==> (#[trigger] decls[j]).tag() != Some(name),
            None => forall|j: int|
                0 <= j < decls.len() ==> (#[trigger] decls[j]).tag() != Some(name),
        },
    decreases decls.len(),
{
    if decls.len() > 0 {
        lemma_first_tagged_is_first(decls.drop_last(), name);
        match first_tagged(decls.drop_last(), name) {
            Some(i) => {
                assert(decls.drop_last()[i] == decls[i]);
                assert forall|j: int| 0 <= j < i implies (#[trigger] decls[j]).tag() != Some(
                    name,
                ) by {
                    assert(decls.drop_last()[j] == decls[j]);
                }
            },
            None => {
                assert forall|j: int| 0 <= j < decls.len() - 1 implies (#[trigger] decls[j]).tag()
                    != Some(name) by {
                    assert(decls.drop_last()[j] == decls[j]);
                }
            },
        }
    }
}

/// A declaration is modelled under the tag and the alias it was asked for.
pub proof fn lemma_declaration_model_names(
    e: Entity,
    tag: Option<Seq<char>>,
    alias: Option<Seq<char>>,
)
    ensures
        declaration_model(e, tag, alias) matches Ok(d) ==> d.tag() == tag && d.alias() == alias,
{
}

/// Merging: a typedef whose name is the tag of a recorded declaration adds
/// no declaration. It gives the first declaration of that tag the name as its
/// alias and leaves every other declaration as it was.
pub proof fn lemma_typedef_merges_into_tag(decls: Seq<TypeDeclareView>, e: Entity, i: int)
    requires
        e.kind == EntityKind::TypedefDecl,
        e.typedef_declaration is Some,
        e.name is Some,
        first_tagged(decls, e.name->Some_0@) == Some(i),
    ensures
        0 <= i < decls.len(),
        type_step(decls, e) matches Ok(after) && after.len() == decls.len() && after[i].tag()
            == Some(e.name->Some_0@) && after[i].alias() == Some(e.name->Some_0@) && forall|j: int|
            0 <= j < decls.len() && j != i ==> #[trigger] after[j] == decls[j],
{
    lemma_first_tagged_is_first(decls, e.name->Some_0@);
}

/// What is found by name depends on the tags alone.
pub proof fn lemma_first_tagged_same_tags(
    a: Seq<TypeDeclareView>,
    b: Seq<TypeDeclareView>,
    name: Seq<char>,
)
    requires
        a.len() == b.len(),
        forall|i: int| 0 <= i < a.len() ==> (#[trigger] a[i]).tag() == b[i].tag(),
    ensures
        first_tagged(a, name) == first_tagged(b, name),
    decreases a.len(),
{
    if a.len() > 0 {
        assert forall|i: int| 0 <= i < a.drop_last().len() implies (#[trigger] a.drop_last()[
            i
        ]).tag() == b.drop_last()[i].tag() by {
            assert(a.drop_last()[i] == a[i]);
            assert(b.drop_last()[i] == b[i]);
        }
        lemma_first_tagged_same_tags(a.drop_last(), b.drop_last(), name);
        assert(a.last() == a[a.len() - 1]);
        assert(b.last() == b[b.len() - 1]);
    }
}

/// Merging is idempotent: a typedef that was merged into a tag changes
/// nothing when it is seen once more.
pub proof fn lemma_typedef_merge_is_idempotent(decls: Seq<TypeDeclareView>, e: Entity)
    requires
        e.kind == EntityKind::TypedefDecl,
        e.typedef_declaration is Some,
        e.name is Some,
        first_tagged(decls, e.name->Some_0@) is Some,
    ensures
        type_step(decls, e) matches Ok(after) && type_step(after, e) == Ok::<
            Seq<TypeDeclareView>,
            WalkError,
        >(after),
{
    let name = e.name->Some_0@;
    let i = first_tagged(decls, name)->Some_0;
    lemma_first_tagged_is_first(decls, name);
    let after = decls.update(i, decls[i].with_alias(name));
    lemma_first_tagged_same_tags(decls, after, name);
    assert(after.update(i, after[i].with_alias(name)) =~= after);
}

/// A typedef whose name is the tag of no recorded declaration appends the
/// declaration that it names, with no tag and the typedef's name as alias,
/// and leaves what was recorded as it was.
pub proof fn lemma_typedef_appends_under_alias(decls: Seq<TypeDeclareView>, e: Entity)
    requires
        e.kind == EntityKind::TypedefDecl,
        e.typedef_declaration is Some,
        e.name is Some,
        first_tagged(decls, e.name->Some_0@) is None,
    ensures
        match declaration_model(*e.typedef_declaration->Some_0, None, Some(e.name->Some_0@)) {
            Ok(d) => type_step(decls, e) == Ok::<Seq<TypeDeclareView>, WalkError>(decls.push(d))
                && d.tag() is None && d.alias() == Some(e.name->Some_0@),
            Err(err) => type_step(decls, e) == Err::<Seq<TypeDeclareView>, WalkError>(err),
        },
{
}

/// Order: one entity leaves every recorded declaration at its position,
/// unchanged but possibly for its alias, and appends at most one.
pub proof fn lemma_type_step_keeps_positions(decls: Seq<TypeDeclareView>, e: Entity)
    ensures
        type_step(decls, e) matches Ok(after) ==> keeps_positions(decls, after) && after.len()
            <= decls.len() + 1,
{
    if e.kind == EntityKind::TypedefDecl && e.name is Some {
        lemma_first_tagged_is_first(decls, e.name->Some_0@);
    }
}

/// Order: a walk leaves every declaration that the model held at its
/// position, unchanged but possibly for its alias, and the functions that it
/// held at the front of the functions, unchanged.
pub proof fn lemma_walk_keeps_positions(m: SourceFileView, children: Seq<Entity>)
    ensures
        walk_children(m, children) matches Ok(v) ==> keeps_positions(
            m.type_declares,
            v.type_declares,
        ) && m.function_declares.is_prefix_of(v.function_declares) && v.type_declares.len()
            + v.function_declares.len() <= m.type_declares.len() + m.function_declares.len()
            + children.len(),
    decreases children.len(),
{
    if children.len() > 0 {
        lemma_walk_keeps_positions(m, children.drop_last());
        match walk_children(m, children.drop_last()) {
            Ok(before) => {
                lemma_type_step_keeps_positions(before.type_declares, children.last());
            },
            Err(_) => {},
        }
    }
}

/// One entity keeps every declaration nameable.
pub proof fn lemma_type_step_keeps_named(decls: Seq<TypeDeclareView>, e: Entity)
    requires
        all_named(decls),
    ensures
        type_step(decls, e) matches Ok(after) ==> all_named(after),
{
    if e.kind == EntityKind::TypedefDecl && e.name is Some {
        lemma_first_tagged_is_first(decls, e.name->Some_0@);
    }
}

/// Every declaration that a walk records has a tag or a typedef alias, where
/// those that the model held before had one.
pub proof fn lemma_walk_keeps_named(m: SourceFileView, children: Seq<Entity>)
    requires
        all_named(m.type_declares),
    ensures
        walk_children(m, children) matches Ok(v) ==> all_named(v.type_declares),
    decreases children.len(),
{
    if children.len() > 0 {
        lemma_walk_keeps_named(m, children.drop_last());
        match walk_children(m, children.drop_last()) {
            Ok(before) => {
                lemma_type_step_keeps_named(before.type_declares, children.last());
            },
            Err(_) => {},
        }
    }
}

/// One pass in order: a walk over two runs of entities, one after the
/// other, is the walk over the second run from where the first one ended.
pub proof fn lemma_walk_in_two_parts(m: SourceFileView, first: Seq<Entity>, second: Seq<Entity>)
    ensures
        walk_children(m, first + second) == (match walk_children(m, first) {
            Ok(v) => walk_children(v, second),
            Err(err) => Err(err),
        }),
    decreases second.len(),
{
    if second.len() == 0 {
        assert(first + second =~= first);
    } else {
        lemma_walk_in_two_parts(m, first, second.drop_last());
        assert((first + second).drop_last() =~= first + second.drop_last());
        assert((first + second).last() == second.last());
    }
}

/// One failed outcome fails the sequence.
pub proof fn lemma_sequence_fails<T>(rs: Seq<Result<T, WalkError>>, j: int)
    requires
        0 <= j < rs.len(),
        rs[j] is Err,
    ensures
        sequence(rs) is Err,
{
    lemma_sequence_step(rs, j);
    lemma_sequence_error_stays(rs, j + 1);
}

/// A function of the main file with a parameter that has no name makes the
/// whole walk fail: no model comes out of it.
pub proof fn lemma_unnamed_parameter_refuses(m: SourceFileView, root: Entity, i: int, j: int)
    requires
        0 <= i < root.children@.len(),
        root.children@[i].in_main_file,
        root.children@[i].kind == EntityKind::FunctionDecl,
        0 <= j < argument_entities(root.children@[i]).len(),
        argument_entities(root.children@[i])[j].name is None,
    ensures
        walk(m, root) is Err,
{
    if root.kind == EntityKind::TranslationUnit {
        let f = root.children@[i];
        let rs = parameter_models(argument_entities(f));
        assert(rs[j] == Err::<ParameterView, WalkError>(WalkError::MissingName));
        lemma_sequence_fails(rs, j);
        assert(named_function_model(f) is Err);
        lemma_walk_children_step(m, root.children@, i);
        lemma_walk_children_error_stays(m, root.children@, i + 1);
    }
}

} // verus!
