//! Plain-value snapshot of what the C frontend reports about a translation
//! unit: entities, their types and their presumed locations.

use vstd::prelude::*;

verus! {

/// The kind of a frontend entity, as far as the model distinguishes it.
#[derive(Clone, Copy, Debug, PartialEq, Eq, Structural)]
pub enum EntityKind {
    TranslationUnit,
    EnumDecl,
    StructDecl,
    UnionDecl,
    TypedefDecl,
    FunctionDecl,
    FieldDecl,
    ParmDecl,
    EnumConstantDecl,
    /// Any entity kind that the model has no node for.
    Other,
}

/// The kind of a C type.
#[derive(Clone, Copy, Debug, PartialEq, Eq, Structural)]
pub enum TypeKind {
    Unexposed,
    Void,
    Bool,
    CharS,
    CharU,
    SChar,
    UChar,
    Short,
    UShort,
    Int,
    UInt,
    Long,
    ULong,
    LongLong,
    ULongLong,
    Int128,
    UInt128,
    Float,
    Double,
    LongDouble,
    Pointer,
    BlockPointer,
    Record,
    Enum,
    Typedef,
    Elaborated,
    FunctionPrototype,
    FunctionNoPrototype,
    ConstantArray,
    IncompleteArray,
    VariableArray,
    Complex,
    Vector,
    /// Any type kind not listed above.
    Other,
}

impl TypeKind {
    /// Whether a type of this kind points at another type.
    pub open spec fn denotes_pointer(self) -> bool {
        self == TypeKind::Pointer || self == TypeKind::BlockPointer
    }

    /// Whether a type of this kind points at another type.
    pub fn is_pointer(self) -> (r: bool)
        ensures
            r == self.denotes_pointer(),
    {
        self == TypeKind::Pointer || self == TypeKind::BlockPointer
    }
}

/// A type as the frontend reports it: its kind, its display name and, for a
/// pointer, the type it points at.
#[derive(Debug)]
pub struct TypeHandle {
    pub kind: TypeKind,
    pub display_name: String,
    pub pointee: Option<Box<TypeHandle>>,
}

impl TypeHandle {
    /// The number of pointee links below this type.
    pub open spec fn depth(self) -> nat
        decreases self,
    {
        match self.pointee {
            Some(p) => 1 + (*p).depth(),
            None => 0,
        }
    }

    /// A pointee is present exactly where the kind denotes a pointer, at
    /// every link of the chain.
    pub open spec fn well_formed(self) -> bool
        decreases self,
    {
        match self.pointee {
            Some(p) => self.kind.denotes_pointer() && (*p).well_formed(),
            None => !self.kind.denotes_pointer(),
        }
    }
}

/// A presumed location: the file, line and column that a reader of the source
/// text would name, with line directives and macro expansion resolved.
#[derive(Debug)]
pub struct PresumedLocation {
    pub path: String,
    pub line: u32,
    pub column: u32,
}

/// One entity of the frontend's tree, with every attribute that the model
/// reads held as a plain value.
#[derive(Debug)]
pub struct Entity {
    pub kind: EntityKind,
    pub name: Option<String>,
    /// Whether the entity is located in the main file, not in an included one.
    pub in_main_file: bool,
    pub location: Option<PresumedLocation>,
    /// The declared type of a field or parameter.
    pub declared_type: Option<TypeHandle>,
    /// The underlying integer type of an enum declaration.
    pub enum_underlying_type: Option<TypeHandle>,
    /// The signed and the unsigned reading of an enum constant's value.
    pub enum_constant_value: Option<(i64, u64)>,
    /// The declaration that a typedef's underlying type names.
    pub typedef_declaration: Option<Box<Entity>>,
    /// The result type of a function declaration.
    pub result_type: Option<TypeHandle>,
    /// The parameters of a function declaration.
    pub arguments: Option<Vec<Entity>>,
    pub children: Vec<Entity>,
}

impl Entity {
    /// An entity of the given kind and name in the main file, with no other
    /// attribute and no children.
    pub fn new(kind: EntityKind, name: Option<String>) -> (r: Entity)
        ensures
            r.kind == kind,
            r.name == name,
            r.in_main_file,
            r.location.is_none(),
            r.declared_type.is_none(),
            r.enum_underlying_type.is_none(),
            r.enum_constant_value.is_none(),
            r.typedef_declaration.is_none(),
            r.result_type.is_none(),
            r.arguments.is_none(),
            r.children@.len() == 0,
    {
        Entity {
            kind,
            name,
            in_main_file: true,
            location: None,
            declared_type: None,
            enum_underlying_type: None,
            enum_constant_value: None,
            typedef_declaration: None,
            result_type: None,
            arguments: None,
            children: Vec::new(),
        }
    }

    /// The name as a sequence of characters, where there is one.
    pub open spec fn name_view(self) -> Option<Seq<char>> {
        match self.name {
            Some(n) => Some(n@),
            None => None,
        }
    }
}

} // verus!
