pub mod address;
pub mod key;
pub mod laws;
pub mod ledger;
pub mod program;
pub mod records;

pub use address::{derive_grant_address, derive_tombstone_address, derive_vault_address};
pub use key::Key;
pub use ledger::Ledger;
pub use program::{
    grant_access, grant_access_at, init_context_vault, init_context_vault_at, revoke_access,
    revoke_access_at, update_context_vault, update_context_vault_at, GrantAccess,
    InitContextVault, RevokeAccess, UpdateContextVault,
};
pub use records::{AccessGrant, ContextVault, Record, RevocationRegistry, VaultError};
