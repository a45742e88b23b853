//! The value objects of the model: source locations and type references.

use vstd::prelude::*;
use crate::frontend::{PresumedLocation, TypeHandle, TypeKind};

verus! {

/// The mathematical value of a [`SourceLocation`].
pub struct SourceLocationView {
    pub path: Seq<char>,
    pub line: nat,
    pub column: nat,
}

/// Where a declaration stands in the source text.
#[derive(Debug, PartialEq, Eq)]
pub struct SourceLocation {
    pub path: String,
    pub line_number: u32,
    pub column_number: u32,
}

impl View for SourceLocation {
    type V = SourceLocationView;

    open spec fn view(&self) -> SourceLocationView {
        SourceLocationView {
            path: self.path@,
            line: self.line_number as nat,
            column: self.column_number as nat,
        }
    }
}

/// The location that the model records for a frontend location.
pub open spec fn location_model(loc: PresumedLocation) -> SourceLocationView {
    SourceLocationView { path: loc.path@, line: loc.line as nat, column: loc.column as nat }
}

/// The location that the model records for an entity's optional location.
pub open spec fn optional_location_model(loc: Option<PresumedLocation>) -> Option<
    SourceLocationView,
> {
    match loc {
        Some(l) => Some(location_model(l)),
        None => None,
    }
}

/// The view of an optional location.
pub open spec fn optional_location_view(loc: Option<SourceLocation>) -> Option<
    SourceLocationView,
> {
    match loc {
        Some(l) => Some(l@),
        None => None,
    }
}

impl SourceLocation {
    /// A location from its path, line and column.
    pub fn new(loc: (String, u32, u32)) -> (r: SourceLocation)
        ensures
            r.path == loc.0,
            r.line_number == loc.1,
            r.column_number == loc.2,
            r@ == (SourceLocationView {
                path: loc.0@,
                line: loc.1 as nat,
                column: loc.2 as nat,
            }),
    {
        SourceLocation { path: loc.0, line_number: loc.1, column_number: loc.2 }
    }

    /// The model's copy of a presumed location.
    pub fn from_clang(loc: &PresumedLocation) -> (r: SourceLocation)
        ensures
            r@ == location_model(*loc),
    {
        SourceLocation::new((loc.path.clone(), loc.line, loc.column))
    }

    /// The model's copy of an entity's location, absent where the entity has
    /// none.
    pub fn from_optional(loc: &Option<PresumedLocation>) -> (r: Option<SourceLocation>)
        ensures
            optional_location_view(r) == optional_location_model(*loc),
    {
        match loc {
            Some(l) => Some(SourceLocation::from_clang(l)),
            None => None,
        }
    }
}

/// The mathematical value of a [`Type`]: a finite chain of links.
pub struct TypeView {
    pub kind: TypeKind,
    pub name: Seq<char>,
    pub pointee: Option<Box<TypeView>>,
}

impl TypeView {
    /// The number of pointee links below this type.
    pub open spec fn depth(self) -> nat
        decreases self,
    {
        match self.pointee {
            Some(p) => 1 + (*p).depth(),
            None => 0,
        }
    }

    /// A pointee is present exactly where the kind denotes a pointer, at
    /// every link of the chain.
    pub open spec fn well_formed(self) -> bool
        decreases self,
    {
        match self.pointee {
            Some(p) => self.kind.denotes_pointer() && (*p).well_formed(),
            None => !self.kind.denotes_pointer(),
        }
    }
}

/// A reference to a C type, owned by the declaration that mentions it.
#[derive(Debug, PartialEq, Eq)]
pub struct Type {
    pub kind: TypeKind,
    pub display_name: String,
    pub pointee: Option<Box<Type>>,
}

impl View for Type {
    type V = TypeView;

    open spec fn view(&self) -> TypeView
        decreases self,
    {
        TypeView {
            kind: self.kind,
            name: self.display_name@,
            pointee: match self.pointee {
                Some(p) => Some(Box::new((*p).view())),
                None => None,
            },
        }
    }
}

/// The type reference that the model records for a frontend type.
pub open spec fn type_model(t: TypeHandle) -> TypeView
    decreases t,
{
    TypeView {
        kind: t.kind,
        name: t.display_name@,
        pointee: match t.pointee {
            Some(p) => Some(Box::new(type_model(*p))),
            None => None,
        },
    }
}

/// The type reference that the model records for an optional frontend type.
pub open spec fn optional_type_model(t: Option<TypeHandle>) -> Option<TypeView> {
    match t {
        Some(h) => Some(type_model(h)),
        None => None,
    }
}

/// The view of an optional type reference.
pub open spec fn optional_type_view(t: Option<Type>) -> Option<TypeView> {
    match t {
        Some(h) => Some(h@),
        None => None,
    }
}

impl Type {
    /// A type reference from its parts.
    pub fn new(kind: TypeKind, name: String, pointee: Option<Box<Type>>) -> (r: Type)
        ensures
            r.kind == kind,
            r.display_name == name,
            r.pointee == pointee,
    {
        Type { kind, display_name: name, pointee }
    }

    /// The model's copy of a frontend type, link by link down the pointee
    /// chain.
    pub fn from_clang(t: &TypeHandle) -> (r: Type)
        ensures
            r@ == type_model(*t),
            r@.depth() == t.depth(),
            r@.well_formed() == t.well_formed(),
        decreases *t,
    {
        proof {
            lemma_type_model_depth(*t);
            lemma_type_model_well_formed(*t);
        }
        let pointee = match &t.pointee {
            Some(p) => Some(Box::new(Type::from_clang(&**p))),
            None => None,
        };
        Type::new(t.kind, t.display_name.clone(), pointee)
    }

    /// The model's copy of an optional frontend type.
    pub fn from_optional(t: &Option<TypeHandle>) -> (r: Option<Type>)
        ensures
            optional_type_view(r) == optional_type_model(*t),
    {
        match t {
            Some(h) => Some(Type::from_clang(h)),
            None => None,
        }
    }
}

/// A type reference has as many pointee links as the frontend type it was
/// taken from.
pub proof fn lemma_type_model_depth(t: TypeHandle)
    ensures
        type_model(t).depth() == t.depth(),
    decreases t,
{
    match t.pointee {
        Some(p) => lemma_type_model_depth(*p),
        None => {},
    }
}

/// A type reference is well formed exactly where the frontend type it was
/// taken from is.
pub proof fn lemma_type_model_well_formed(t: TypeHandle)
    ensures
        type_model(t).well_formed() == t.well_formed(),
    decreases t,
{
    match t.pointee {
        Some(p) => lemma_type_model_well_formed(*p),
        None => {},
    }
}

} // verus!
