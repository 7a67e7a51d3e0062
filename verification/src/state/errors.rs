use vstd::prelude::*;

verus! {

/// Errors of the snowball-NFT instructions.
#[derive(Clone, Copy, Debug, PartialEq, Eq, Structural)]
pub enum SynftError {
    NotEnoughNFTCount,
    MetadataCollectionIsNone,
    CollectionMintNotEqual,
    CollectionNotVerified,
    LamportsNotEnough,
    NftMetadataNotMatch,
    NumericalOverflowError,
    MissingRequiredSignature,
}


/// Why the token metadata of an NFT is refused.
#[derive(Clone, Copy, Debug, PartialEq, Eq, Structural)]
pub enum MetadataError {
    /// The metadata account's bytes are not token metadata.
    NotDecoded,
    /// The metadata account does not belong to the token-metadata program.
    IncorrectOwner,
    /// The token account is not the holder's.
    InvalidOwner,
    /// The token account, the mint and the metadata do not name the same mint.
    MintMismatch,
    /// The token account holds no token.
    NotEnoughTokens,
}

/// Why an instruction is refused.
#[derive(Clone, Copy, Debug, PartialEq, Eq, Structural)]
pub enum InstructionError {
    /// A constraint on the instruction's accounts does not hold.
    ConstraintRaw,
    /// An error of the snowball-NFT instructions.
    Synft(SynftError),
    /// An error of the tree instructions.
    Program(crate::state::metadata::ErrorCode),
    /// The NFT's token metadata is refused.
    Metadata(MetadataError),
}

} // verus!
