use vstd::prelude::*;

verus! {

/// Why a contract call was refused.
#[derive(Debug, Clone, Copy, PartialEq, Eq, Structural)]
pub enum ContractError {
    /// The sender of a mint or burn is not the stored owner.
    Unauthorized,
    /// A mint, burn or query needs the identifier, and none has been stored yet.
    NotFound,
    /// The artist's name is shorter than the identifier's prefix, or its
    /// prefix would end inside a multi-byte character.
    InvalidLabel,
    /// The collection or token was already created on this instance: a second
    /// creation is refused and leaves owner and identifier as they were.
    AlreadyCreated,
}

} // verus!
