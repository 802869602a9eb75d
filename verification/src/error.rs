use vstd::prelude::*;

verus! {

/// Every way a pool operation can fail. The mint-to and set-authority kinds
/// are declared for completeness; no operation of this library raises them.
#[derive(Clone, Copy, PartialEq, Eq, Structural, Debug)]
pub enum PoolError {
    TokenMintToFailed,
    TokenSetAuthorityFailed,
    TokenTransferFailed,
    InvalidTokenAccount,
    InvalidTokenMint,
    InvalidMetadata,
    InvalidPeriod,
    InvalidTime,
}

} // verus!
