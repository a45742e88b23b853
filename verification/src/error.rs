use vstd::prelude::*;

verus! {

/// Why a walk over an entity tree was abandoned.
#[derive(Clone, Copy, Debug, PartialEq, Eq, Structural)]
pub enum WalkError {
    /// A top-level entity of the main file is not an enum, struct, union,
    /// typedef or function declaration.
    UnexpectedEntity,
    /// An entity was handed to a node that models another kind of entity.
    KindMismatch,
    /// A function, a parameter or an enum constant has no name.
    MissingName,
    /// A typedef names a declaration that is not an enum, struct or union.
    UnsupportedTypedef,
}

impl WalkError {
    /// The sentence that names the violated rule.
    pub open spec fn message_text(self) -> Seq<char> {
        match self {
            WalkError::UnexpectedEntity => {
                "unexpected entity at the top level of the main file"@
            },
            WalkError::KindMismatch => {
                "entity of another kind than the declaration it should fill"@
            },
            WalkError::MissingName => {
                "function, parameter or enum constant without a name"@
            },
            WalkError::UnsupportedTypedef => {
                "typedef of a declaration that is no enum, struct or union"@
            },
        }
    }

    /// The sentence that names the violated rule.
    pub fn message(self) -> (r: &'static str)
        ensures
            r@ == self.message_text(),
    {
        match self {
            WalkError::UnexpectedEntity => {
                "unexpected entity at the top level of the main file"
            },
            WalkError::KindMismatch => {
                "entity of another kind than the declaration it should fill"
            },
            WalkError::MissingName => {
                "function, parameter or enum constant without a name"
            },
            WalkError::UnsupportedTypedef => {
                "typedef of a declaration that is no enum, struct or union"
            },
        }
    }
}

} // verus!
