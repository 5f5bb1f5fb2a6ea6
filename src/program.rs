use vstd::prelude::*;
use vstd::utf8::encode_utf8;
use crate::address::{
    derive_grant_address, derive_tombstone_address, derive_vault_address, grant_address, key_opt,
    tombstone_address, vault_address,
};
use crate::key::Key;
use crate::ledger::{Ledger, LedgerView};
use crate::records::{AccessGrant, ContextVault, Record, RevocationRegistry, VaultError};

verus! {

/// Accounts of `init_context_vault`: who funds the new slot, and whose vault it is.
#[derive(Clone, Copy, Debug)]
pub struct InitContextVault {
    pub payer: Key,
    pub owner: Key,
}

/// Accounts of `grant_access`: the signing owner and the grantee.
#[derive(Clone, Copy, Debug)]
pub struct GrantAccess {
    pub owner: Key,
    pub grantee: Key,
}

/// Accounts of `update_context_vault`: the signing owner.
#[derive(Clone, Copy, Debug)]
pub struct UpdateContextVault {
    pub owner: Key,
}

/// Accounts of `revoke_access`: the signing owner and the address of the grant.
#[derive(Clone, Copy, Debug)]
pub struct RevokeAccess {
    pub owner: Key,
    pub grant: Key,
}

/// Length of `s` in bytes, as UTF-8.
pub open spec fn byte_len(s: String) -> nat {
    encode_utf8(s@).len()
}

/// Whether `s` fits in a vault's `context_uri`.
fn uri_fits(s: &String) -> (r: bool)
    ensures
        r == (byte_len(*s) <= 256),
{
    s.as_str().as_bytes().len() <= ContextVault::MAX_URI_LEN
}

/// Outcome of creating the vault of `ctx.owner` in `l`, where `address` is the
/// vault address derived for the owner: the result and the ledger after it.
pub open spec fn init_at_outcome(
    l: LedgerView,
    address: Option<Seq<u8>>,
    ctx: InitContextVault,
    uri: String,
    now: i64,
) -> (Result<(), VaultError>, LedgerView) {
    match address {
        None => (Err(VaultError::InvalidInput), l),
        Some(a) => if l.slots.contains_key(a) {
            (Err(VaultError::AlreadyExists), l)
        } else if byte_len(uri) > 256 {
            (Err(VaultError::InvalidInput), l)
        } else {
            (
                Ok(()),
                l.with_slots(
                    l.slots.insert(
                        a,
                        Record::Vault(
                            ContextVault {
                                owner: ctx.owner,
                                context_uri: uri,
                                version: 1,
                                created_at: now,
                                updated_at: now,
                            },
                        ),
                    ),
                ),
            )
        },
    }
}

/// Outcome of `init_context_vault` on `l`.
pub open spec fn init_outcome(l: LedgerView, ctx: InitContextVault, uri: String, now: i64) -> (
    Result<(), VaultError>,
    LedgerView,
) {
    init_at_outcome(l, vault_address(l.program, ctx.owner@), ctx, uri, now)
}

/// Creates the vault of `ctx.owner` at `address`, the vault address derived for the
/// owner (none where no address could be derived).
pub fn init_context_vault_at(
    ledger: &mut Ledger,
    address: Option<Key>,
    ctx: &InitContextVault,
    context_uri: String,
    now: i64,
) -> (r: Result<(), VaultError>)
    ensures
        (r, final(ledger)@) == init_at_outcome(old(ledger)@, key_opt(address), *ctx, context_uri, now),
        old(ledger)@.consistent() && key_opt(address) == vault_address(
            old(ledger)@.program,
            ctx.owner@,
        ) ==> final(ledger)@.consistent(),
{
    let address = match address {
        Some(a) => a,
        None => return Err(VaultError::InvalidInput),
    };
    if ledger.contains(&address) {
        return Err(VaultError::AlreadyExists);
    }
    if !uri_fits(&context_uri) {
        return Err(VaultError::InvalidInput);
    }
    let vault = ContextVault {
        owner: ctx.owner,
        context_uri,
        version: 1,
        created_at: now,
        updated_at: now,
    };
    ledger.create(address, Record::Vault(vault));
    Ok(())
}

/// Creates the context vault of `ctx.owner`, with version 1, at the address derived from
/// the owner; the slot must be empty.
pub fn init_context_vault(
    ledger: &mut Ledger,
    ctx: &InitContextVault,
    context_uri: String,
    now: i64,
) -> (r: Result<(), VaultError>)
    ensures
        (r, final(ledger)@) == init_outcome(old(ledger)@, *ctx, context_uri, now),
        old(ledger)@.consistent() ==> final(ledger)@.consistent(),
{
    let program = ledger.program_id();
    let address = derive_vault_address(&program, &ctx.owner);
    init_context_vault_at(ledger, address, ctx, context_uri, now)
}

/// Outcome of updating the vault of the signer `ctx.owner` in `l`, where `address` is
/// the vault address derived for the signer.
pub open spec fn update_at_outcome(
    l: LedgerView,
    address: Option<Seq<u8>>,
    ctx: UpdateContextVault,
    uri: String,
    now: i64,
) -> (Result<(), VaultError>, LedgerView) {
    match address {
        None => (Err(VaultError::NotFound), l),
        Some(a) => if !(l.slots.contains_key(a) && l.slots[a] is Vault) {
            (Err(VaultError::NotFound), l)
        } else if l.slots[a]->Vault_0.owner@ != ctx.owner@ {
            (Err(VaultError::Unauthorized), l)
        } else if byte_len(uri) > 256 {
            (Err(VaultError::InvalidInput), l)
        } else {
            let v = l.slots[a]->Vault_0;
            (
                Ok(()),
                l.with_slots(
                    l.slots.insert(
                        a,
                        Record::Vault(
                            ContextVault {
                                owner: v.owner,
                                context_uri: uri,
                                version: v.version.saturating_add(1),
                                created_at: v.created_at,
                                updated_at: now,
                            },
                        ),
                    ),
                ),
            )
        },
    }
}

/// Outcome of `update_context_vault` on `l`.
pub open spec fn update_outcome(l: LedgerView, ctx: UpdateContextVault, uri: String, now: i64) -> (
    Result<(), VaultError>,
    LedgerView,
) {
    update_at_outcome(l, vault_address(l.program, ctx.owner@), ctx, uri, now)
}

/// Updates the vault at `address`, the vault address derived for the signer
/// `ctx.owner` (none where no address could be derived).
pub fn update_context_vault_at(
    ledger: &mut Ledger,
    address: Option<Key>,
    ctx: &UpdateContextVault,
    context_uri: String,
    now: i64,
) -> (r: Result<(), VaultError>)
    ensures
        (r, final(ledger)@) == update_at_outcome(
            old(ledger)@,
            key_opt(address),
            *ctx,
            context_uri,
            now,
        ),
        old(ledger)@.consistent() ==> final(ledger)@.consistent(),
{
    let address = match address {
        Some(a) => a,
        None => return Err(VaultError::NotFound),
    };
    let (owner, version, created_at) = match ledger.get(&address) {
        Some(Record::Vault(v)) => (v.owner, v.version, v.created_at),
        _ => return Err(VaultError::NotFound),
    };
    if !owner.same_as(&ctx.owner) {
        return Err(VaultError::Unauthorized);
    }
    if !uri_fits(&context_uri) {
        return Err(VaultError::InvalidInput);
    }
    let vault = ContextVault {
        owner,
        context_uri,
        version: version.saturating_add(1),
        created_at,
        updated_at: now,
    };
    ledger.replace(&address, Record::Vault(vault));
    Ok(())
}

/// Points the vault of the signer `ctx.owner` at `context_uri`, bumps its version
/// (saturating) and stamps it with `now`.
pub fn update_context_vault(
    ledger: &mut Ledger,
    ctx: &UpdateContextVault,
    context_uri: String,
    now: i64,
) -> (r: Result<(), VaultError>)
    ensures
        (r, final(ledger)@) == update_outcome(old(ledger)@, *ctx, context_uri, now),
        old(ledger)@.consistent() ==> final(ledger)@.consistent(),
{
    let program = ledger.program_id();
    let address = derive_vault_address(&program, &ctx.owner);
    update_context_vault_at(ledger, address, ctx, context_uri, now)
}

/// Outcome of creating the grant of (`ctx.owner`, `ctx.grantee`, `scope_hash`) in `l`,
/// where `address` is the grant address derived for the triple.
pub open spec fn grant_at_outcome(
    l: LedgerView,
    address: Option<Seq<u8>>,
    ctx: GrantAccess,
    scope_hash: [u8; 32],
    expires_at: i64,
    now: i64,
) -> (Result<(), VaultError>, LedgerView) {
    match address {
        None => (Err(VaultError::InvalidInput), l),
        Some(a) => if l.slots.contains_key(a) {
            (Err(VaultError::AlreadyExists), l)
        } else {
            (
                Ok(()),
                l.with_slots(
                    l.slots.insert(
                        a,
                        Record::Grant(
                            AccessGrant {
                                owner: ctx.owner,
                                grantee: ctx.grantee,
                                scope_hash,
                                expires_at,
                                revoked: false,
                                created_at: now,
                            },
                        ),
                    ),
                ),
            )
        },
    }
}

/// Outcome of `grant_access` on `l`.
pub open spec fn grant_outcome(
    l: LedgerView,
    ctx: GrantAccess,
    scope_hash: [u8; 32],
    expires_at: i64,
    now: i64,
) -> (Result<(), VaultError>, LedgerView) {
    grant_at_outcome(
        l,
        grant_address(l.program, ctx.owner@, ctx.grantee@, scope_hash@),
        ctx,
        scope_hash,
        expires_at,
        now,
    )
}

/// Creates the grant at `address`, the grant address derived for (`ctx.owner`,
/// `ctx.grantee`, `scope_hash`) (none where no address could be derived).
pub fn grant_access_at(
    ledger: &mut Ledger,
    address: Option<Key>,
    ctx: &GrantAccess,
    scope_hash: [u8; 32],
    expires_at: i64,
    now: i64,
) -> (r: Result<(), VaultError>)
    ensures
        (r, final(ledger)@) == grant_at_outcome(
            old(ledger)@,
            key_opt(address),
            *ctx,
            scope_hash,
            expires_at,
            now,
        ),
        old(ledger)@.consistent() && key_opt(address) == grant_address(
            old(ledger)@.program,
            ctx.owner@,
            ctx.grantee@,
            scope_hash@,
        ) ==> final(ledger)@.consistent(),
{
    let address = match address {
        Some(a) => a,
        None => return Err(VaultError::InvalidInput),
    };
    if ledger.contains(&address) {
        return Err(VaultError::AlreadyExists);
    }
    let grant = AccessGrant {
        owner: ctx.owner,
        grantee: ctx.grantee,
        scope_hash,
        expires_at,
        revoked: false,
        created_at: now,
    };
    ledger.create(address, Record::Grant(grant));
    Ok(())
}

/// Grants `ctx.grantee` access to the scope `scope_hash` of the signer `ctx.owner`
/// until `expires_at`, at the address derived from the triple; the slot must be empty.
pub fn grant_access(
    ledger: &mut Ledger,
    ctx: &GrantAccess,
    scope_hash: [u8; 32],
    expires_at: i64,
    now: i64,
) -> (r: Result<(), VaultError>)
    ensures
        (r, final(ledger)@) == grant_outcome(old(ledger)@, *ctx, scope_hash, expires_at, now),
        old(ledger)@.consistent() ==> final(ledger)@.consistent(),
{
    let program = ledger.program_id();
    let address = derive_grant_address(&program, &ctx.owner, &ctx.grantee, &scope_hash);
    grant_access_at(ledger, address, ctx, scope_hash, expires_at, now)
}

/// Outcome of revoking the grant at `ctx.grant` in `l`, where `derived` is the grant
/// address derived from the stored grant's own fields and `tombstone` the tombstone
/// address derived from `ctx.grant`.
pub open spec fn revoke_at_outcome(
    l: LedgerView,
    ctx: RevokeAccess,
    derived: Option<Seq<u8>>,
    tombstone: Option<Seq<u8>>,
    now: i64,
) -> (Result<(), VaultError>, LedgerView) {
    let a = ctx.grant@;
    if !(l.slots.contains_key(a) && l.slots[a] is Grant) {
        (Err(VaultError::NotFound), l)
    } else {
        let g = l.slots[a]->Grant_0;
        if derived != Some(a) {
            (Err(VaultError::InvalidInput), l)
        } else if g.owner@ != ctx.owner@ {
            (Err(VaultError::Unauthorized), l)
        } else {
            match tombstone {
                None => (Err(VaultError::InvalidInput), l),
                Some(t) => if l.slots.contains_key(t) {
                    (Err(VaultError::AlreadyRevoked), l)
                } else {
                    (
                        Ok(()),
                        l.with_slots(
                            l.slots.insert(a, Record::Grant(AccessGrant { revoked: true, ..g })).insert(
                                t,
                                Record::Tombstone(
                                    RevocationRegistry { grant: ctx.grant, revoked_at: now },
                                ),
                            ),
                        ),
                    )
                },
            }
        }
    }
}

/// The grant address derived from the fields of the grant stored at `a`, if any.
pub open spec fn stored_grant_address(l: LedgerView, a: Seq<u8>) -> Option<Seq<u8>> {
    if l.slots.contains_key(a) && l.slots[a] is Grant {
        let g = l.slots[a]->Grant_0;
        grant_address(l.program, g.owner@, g.grantee@, g.scope_hash@)
    } else {
        None
    }
}

/// Outcome of `revoke_access` on `l`.
pub open spec fn revoke_outcome(l: LedgerView, ctx: RevokeAccess, now: i64) -> (
    Result<(), VaultError>,
    LedgerView,
) {
    revoke_at_outcome(
        l,
        ctx,
        stored_grant_address(l, ctx.grant@),
        tombstone_address(l.program, ctx.grant@),
        now,
    )
}

/// Revokes the grant at `ctx.grant`, given `derived`, the grant address derived from
/// the stored grant's fields, and `tombstone`, the tombstone address derived from
/// `ctx.grant` (each none where it could not be derived).
pub fn revoke_access_at(
    ledger: &mut Ledger,
    ctx: &RevokeAccess,
    derived: Option<Key>,
    tombstone: Option<Key>,
    now: i64,
) -> (r: Result<(), VaultError>)
    ensures
        (r, final(ledger)@) == revoke_at_outcome(
            old(ledger)@,
            *ctx,
            key_opt(derived),
            key_opt(tombstone),
            now,
        ),
        old(ledger)@.consistent() && key_opt(tombstone) == tombstone_address(
            old(ledger)@.program,
            ctx.grant@,
        ) ==> final(ledger)@.consistent(),
{
    let grant: AccessGrant = match ledger.get(&ctx.grant) {
        Some(Record::Grant(g)) => *g,
        _ => return Err(VaultError::NotFound),
    };
    match derived {
        Some(a) => {
            if !a.same_as(&ctx.grant) {
                return Err(VaultError::InvalidInput);
            }
        },
        None => return Err(VaultError::InvalidInput),
    }
    if !grant.owner.same_as(&ctx.owner) {
        return Err(VaultError::Unauthorized);
    }
    let tombstone = match tombstone {
        Some(t) => t,
        None => return Err(VaultError::InvalidInput),
    };
    if ledger.contains(&tombstone) {
        return Err(VaultError::AlreadyRevoked);
    }
    let revoked = AccessGrant { revoked: true, ..grant };
    ledger.replace(&ctx.grant, Record::Grant(revoked));
    ledger.create(
        tombstone,
        Record::Tombstone(RevocationRegistry { grant: ctx.grant, revoked_at: now }),
    );
    Ok(())
}

/// Revokes the grant at `ctx.grant` on behalf of its owner `ctx.owner`: sets its
/// `revoked` flag and creates its tombstone, stamped with `now`; the tombstone slot
/// must be empty.
pub fn revoke_access(ledger: &mut Ledger, ctx: &RevokeAccess, now: i64) -> (r: Result<
    (),
    VaultError,
>)
    ensures
        (r, final(ledger)@) == revoke_outcome(old(ledger)@, *ctx, now),
        old(ledger)@.consistent() ==> final(ledger)@.consistent(),
{
    let program = ledger.program_id();
    let derived = match ledger.get(&ctx.grant) {
        Some(Record::Grant(g)) => derive_grant_address(&program, &g.owner, &g.grantee, &g.scope_hash),
        _ => None,
    };
    let tombstone = derive_tombstone_address(&program, &ctx.grant);
    revoke_access_at(ledger, ctx, derived, tombstone, now)
}

} // verus!
