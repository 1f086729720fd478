//! Why generation stops.

use vstd::prelude::*;

verus! {

/// A reason to abort generation. Nothing is emitted once one is returned.
#[derive(Clone, Copy, PartialEq, Eq, Hash, Debug, Structural)]
pub enum GenError {
    /// The owner of an associated function is not a struct.
    OwnerNotStruct,
    /// A sequence whose elements are sequences occurs in a type.
    NestedSequence,
    /// An enum is used as a return type.
    EnumReturn,
    /// A sequence is returned by a function that reports no error code.
    SequenceReturnWithoutErrorCode,
    /// A dependency was declared without any key.
    NoDependencyKeys,
    /// A scope was closed while none was open.
    NoOpenContext,
}

impl GenError {
    /// What `message` says for each error.
    pub open spec fn message_text(self) -> Seq<char> {
        match self {
            GenError::OwnerNotStruct => "Expecting Struct argument type as struct_ty"@,
            GenError::NestedSequence => "A buffer of buffers is not supported"@,
            GenError::EnumReturn => "An enum return type is not supported"@,
            GenError::SequenceReturnWithoutErrorCode =>
                "A buffer return type requires an error code"@,
            GenError::NoDependencyKeys => "Cargo.toml crate requires at least one key."@,
            GenError::NoOpenContext => "No context to pop"@,
        }
    }

    /// A sentence for the person who runs the generator.
    pub fn message(&self) -> (res: String)
        ensures
            res@ == self.message_text(),
    {
        match self {
            GenError::OwnerNotStruct => "Expecting Struct argument type as struct_ty".to_owned(),
            GenError::NestedSequence => "A buffer of buffers is not supported".to_owned(),
            GenError::EnumReturn => "An enum return type is not supported".to_owned(),
            GenError::SequenceReturnWithoutErrorCode =>
                "A buffer return type requires an error code".to_owned(),
            GenError::NoDependencyKeys => "Cargo.toml crate requires at least one key.".to_owned(),
            GenError::NoOpenContext => "No context to pop".to_owned(),
        }
    }
}

} // verus!
