//! Function declarations.

use vstd::prelude::*;
use crate::error::WalkError;
use crate::frontend::{Entity, EntityKind};
use crate::leaf::{parameter_models, parameter_views, ParameterDeclare, ParameterView};
use crate::outcome::{lemma_sequence_error_stays, lemma_sequence_step, sequence};
use crate::types::{
    optional_location_model, optional_location_view, optional_type_model, optional_type_view,
    SourceLocation, SourceLocationView, Type, TypeView,
};

verus! {

/// One parameter for each entity in order, or the first refusal.
pub fn collect_parameters(children: &Vec<Entity>) -> (r: Result<Vec<ParameterDeclare>, WalkError>)
    ensures
        match sequence(parameter_models(children@)) {
            Ok(v) => r is Ok && parameter_views(r->Ok_0@) == v,
            Err(err) => r == Err::<Vec<ParameterDeclare>, WalkError>(err),
        },
{
    let mut out: Vec<ParameterDeclare> = Vec::new();
    let ghost rs = parameter_models(children@);
    let mut i: usize = 0;
    proof {
        assert(rs.take(0) =~= Seq::empty());
        assert(parameter_views(out@) =~= Seq::empty());
    }
    while i < children.len()
        invariant
            i <= children.len(),
            rs == parameter_models(children@),
            sequence(rs.take(i as int)) == Ok::<Seq<ParameterView>, WalkError>(parameter_views(out@)),
        decreases children.len() - i,
    {
        proof {
            lemma_sequence_step(rs, i as int);
        }
        match ParameterDeclare::from_entity(&children[i]) {
            Ok(item) => {
                proof {
                    assert(parameter_views(out@.push(item)) =~= parameter_views(out@).push(item@));
                }
                out.push(item);
            },
            Err(err) => {
                proof {
                    lemma_sequence_error_stays(rs, i as int + 1);
                }
                return Err(err);
            },
        }
        i += 1;
    }
    proof {
        assert(rs.take(i as int) =~= rs);
    }
    Ok(out)
}

/// The mathematical value of a [`FunctionDeclare`].
pub struct FunctionView {
    pub name: Seq<char>,
    pub return_type: Option<TypeView>,
    pub parameters: Seq<ParameterView>,
    pub location: Option<SourceLocationView>,
}

/// A function declaration with its parameters in declaration order.
#[derive(Debug, PartialEq, Eq)]
pub struct FunctionDeclare {
    pub function_name: String,
    pub return_type: Option<Type>,
    pub parameters: Vec<ParameterDeclare>,
    pub location: Option<SourceLocation>,
}

impl View for FunctionDeclare {
    type V = FunctionView;

    open spec fn view(&self) -> FunctionView {
        FunctionView {
            name: self.function_name@,
            return_type: optional_type_view(self.return_type),
            parameters: parameter_views(self.parameters@),
            location: optional_location_view(self.location),
        }
    }
}

/// The argument entities of a function declaration, none where the frontend
/// reports none.
pub open spec fn argument_entities(e: Entity) -> Seq<Entity> {
    match e.arguments {
        Some(a) => a@,
        None => Seq::empty(),
    }
}

/// The function that an entity stands for under the given name: its result
/// type, its location, and one parameter for each argument in order. The
/// entity must be a function declaration and each argument a named parameter.
pub open spec fn function_model(e: Entity, name: Seq<char>) -> Result<FunctionView, WalkError> {
    if e.kind != EntityKind::FunctionDecl {
        Err(WalkError::KindMismatch)
    } else {
        match sequence(parameter_models(argument_entities(e))) {
            Err(err) => Err(err),
            Ok(parameters) => Ok(
                FunctionView {
                    name,
                    return_type: optional_type_model(e.result_type),
                    parameters,
                    location: optional_location_model(e.location),
                },
            ),
        }
    }
}

/// The function that an entity stands for under its own name, which it must
/// have.
pub open spec fn named_function_model(e: Entity) -> Result<FunctionView, WalkError> {
    match e.name {
        None => Err(WalkError::MissingName),
        Some(n) => function_model(e, n@),
    }
}

/// The views of a sequence of functions.
pub open spec fn function_views(s: Seq<FunctionDeclare>) -> Seq<FunctionView> {
    s.map_values(|f: FunctionDeclare| f@)
}

impl FunctionDeclare {
    /// A function of the given name, with no parameters yet.
    pub fn new(function_name: String) -> (r: FunctionDeclare)
        ensures
            r.function_name == function_name,
            r.return_type is None,
            r.parameters@.len() == 0,
            r.location is None,
    {
        FunctionDeclare { function_name, return_type: None, parameters: Vec::new(), location: None }
    }

    /// The name that the node goes by.
    pub fn name(&self) -> (r: Option<&str>)
        ensures
            r matches Some(s) && s@ == self.function_name@,
    {
        Some(self.function_name.as_str())
    }

    /// Gives the node a new name and changes nothing else.
    pub fn set_name(&mut self, new_function_name: String)
        ensures
            final(self).function_name == new_function_name,
            final(self).return_type == old(self).return_type,
            final(self).parameters == old(self).parameters,
            final(self).location == old(self).location,
    {
        self.function_name = new_function_name;
    }

    /// The kind of entity that this node is populated from.
    pub fn entity_kind(&self) -> (r: EntityKind)
        ensures
            r == EntityKind::FunctionDecl,
    {
        EntityKind::FunctionDecl
    }

    /// Takes the result type and the location from a function declaration
    /// and appends one parameter for each of its arguments. Where the entity
    /// or one of its arguments is refused, the node stays as it was.
    pub fn visit_entity(&mut self, current_entity: &Entity) -> (r: Result<(), WalkError>)
        ensures
            match function_model(*current_entity, old(self)@.name) {
                Ok(v) => r is Ok && final(self)@ == (FunctionView {
                    name: v.name,
                    return_type: v.return_type,
                    parameters: old(self)@.parameters + v.parameters,
                    location: v.location,
                }),
                Err(err) => r == Err::<(), WalkError>(err) && *final(self) == *old(self),
            },
    {
        if current_entity.kind != self.entity_kind() {
            return Err(WalkError::KindMismatch);
        }
        let mut parameters = match &current_entity.arguments {
            Some(arguments) => match collect_parameters(arguments) {
                Ok(p) => p,
                Err(err) => {
                    return Err(err);
                },
            },
            None => {
                proof {
                    assert(parameter_models(Seq::empty()) =~= Seq::empty());
                    assert(parameter_views(Seq::empty()) =~= Seq::empty());
                }
                Vec::new()
            },
        };
        proof {
            assert(parameter_views(self.parameters@ + parameters@) =~= parameter_views(
                self.parameters@,
            ) + parameter_views(parameters@));
        }
        self.location = SourceLocation::from_optional(&current_entity.location);
        self.return_type = Type::from_optional(&current_entity.result_type);
        self.parameters.append(&mut parameters);
        Ok(())
    }

    /// The function that an entity stands for under its own name.
    pub fn from_entity(e: &Entity) -> (r: Result<FunctionDeclare, WalkError>)
        ensures
            match named_function_model(*e) {
                Ok(v) => r is Ok && r->Ok_0@ == v,
                Err(err) => r == Err::<FunctionDeclare, WalkError>(err),
            },
    {
        match &e.name {
            None => Err(WalkError::MissingName),
            Some(n) => {
                let mut f = FunctionDeclare::new(n.clone());
                proof {
                    assert(parameter_views(f.parameters@) =~= Seq::empty());
                }
                match f.visit_entity(e) {
                    Ok(()) => {
                        proof {
                            let v = function_model(*e, n@)->Ok_0;
                            assert(Seq::<ParameterView>::empty() + v.parameters =~= v.parameters);
                        }
                        Ok(f)
                    },
                    Err(err) => Err(err),
                }
            },
        }
    }
}

} // verus!
