use vstd::prelude::*;
use crate::key::Key;

verus! {

/// One owner's published context pointer.
#[derive(Debug)]
pub struct ContextVault {
    pub owner: Key,
    pub context_uri: String,
    pub version: u64,
    pub created_at: i64,
    pub updated_at: i64,
}

impl ContextVault {
    /// Largest length of `context_uri`, in bytes.
    pub const MAX_URI_LEN: usize = 256;
    /// Size of a stored vault: header, owner, length prefix, uri, version and two timestamps.
    pub const LEN: usize = 8 + 32 + 4 + ContextVault::MAX_URI_LEN + 8 + 8 + 8;
}

/// One owner's authorisation of one grantee for one opaque scope.
#[derive(Debug, Clone, Copy)]
pub struct AccessGrant {
    pub owner: Key,
    pub grantee: Key,
    pub scope_hash: [u8; 32],
    pub expires_at: i64,
    pub revoked: bool,
    pub created_at: i64,
}

impl AccessGrant {
    /// Size of a stored grant: header, owner, grantee, scope, expiry, flag, timestamp.
    pub const LEN: usize = 8 + 32 + 32 + 32 + 8 + 1 + 8;
}

/// The tombstone that proves a grant was revoked.
#[derive(Debug, Clone, Copy)]
pub struct RevocationRegistry {
    pub grant: Key,
    pub revoked_at: i64,
}

impl RevocationRegistry {
    /// Size of a stored tombstone: header, grant address, timestamp.
    pub const LEN: usize = 8 + 32 + 8;
}

/// What a slot of the store holds.
#[derive(Debug)]
pub enum Record {
    Vault(ContextVault),
    Grant(AccessGrant),
    Tombstone(RevocationRegistry),
}

/// Why an operation was refused. A refused operation changes nothing.
#[derive(Debug, Clone, Copy, PartialEq, Eq, Structural)]
pub enum VaultError {
    /// The slot that the operation creates is already occupied.
    AlreadyExists,
    /// The slot that the operation reads holds no record of the expected kind.
    NotFound,
    /// The signer is not the record's stored owner.
    Unauthorized,
    /// The grant already has a tombstone.
    AlreadyRevoked,
    /// An argument is out of range, or names no derivable, self-consistent address.
    InvalidInput,
}

} // verus!
