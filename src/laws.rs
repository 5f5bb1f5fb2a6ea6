use vstd::prelude::*;
use crate::address::{grant_address, tombstone_address, vault_address};
use crate::ledger::{at_home, LedgerView};
use crate::program::{
    grant_outcome, init_outcome, revoke_outcome, update_outcome, GrantAccess, InitContextVault,
    RevokeAccess, UpdateContextVault,
};
use crate::records::{AccessGrant, Record, RevocationRegistry, VaultError};

verus! {

/// In a consistent ledger an owner has at most one vault: two vault records with the
/// same owner sit in the same slot.
pub proof fn lemma_one_vault_per_owner(l: LedgerView, a: Seq<u8>, b: Seq<u8>)
    requires
        l.consistent(),
        l.slots.contains_key(a),
        l.slots.contains_key(b),
        l.slots[a] is Vault,
        l.slots[b] is Vault,
        l.slots[a]->Vault_0.owner@ == l.slots[b]->Vault_0.owner@,
    ensures
        a == b,
{
    assert(at_home(l.program, a, l.slots[a]));
    assert(at_home(l.program, b, l.slots[b]));
}

/// In a consistent ledger a triple (owner, grantee, scope) has at most one grant: two
/// grant records with the same triple sit in the same slot.
pub proof fn lemma_one_grant_per_triple(l: LedgerView, a: Seq<u8>, b: Seq<u8>)
    requires
        l.consistent(),
        l.slots.contains_key(a),
        l.slots.contains_key(b),
        l.slots[a] is Grant,
        l.slots[b] is Grant,
        l.slots[a]->Grant_0.owner@ == l.slots[b]->Grant_0.owner@,
        l.slots[a]->Grant_0.grantee@ == l.slots[b]->Grant_0.grantee@,
        l.slots[a]->Grant_0.scope_hash@ == l.slots[b]->Grant_0.scope_hash@,
    ensures
        a == b,
{
    assert(at_home(l.program, a, l.slots[a]));
    assert(at_home(l.program, b, l.slots[b]));
}

/// An owner has one vault slot: a successful `init_context_vault` fills exactly the
/// slot derived from the owner, and any later `init_context_vault` for the same owner
/// fails with `AlreadyExists` and leaves the ledger, and so the vault, as it was.
pub proof fn lemma_init_once(
    l: LedgerView,
    first: InitContextVault,
    uri: String,
    now: i64,
    second: InitContextVault,
    uri2: String,
    now2: i64,
)
    requires
        second.owner@ == first.owner@,
    ensures
        ({
            let (r, l1) = init_outcome(l, first, uri, now);
            r is Ok ==> {
                &&& vault_address(l.program, first.owner@) is Some
                &&& !l.slots.contains_key(vault_address(l.program, first.owner@)->0)
                &&& l1.slots.dom() == l.slots.dom().insert(
                    vault_address(l.program, first.owner@)->0,
                )
                &&& init_outcome(l1, second, uri2, now2) == (
                    Err::<(), VaultError>(VaultError::AlreadyExists),
                    l1,
                )
            }
        }),
{
    let (r, l1) = init_outcome(l, first, uri, now);
    if r is Ok {
        let a = vault_address(l.program, first.owner@)->0;
        assert(l1.slots.contains_key(a));
        assert(l1.slots.dom() =~= l.slots.dom().insert(a));
    }
}

/// A successful `update_context_vault` keeps the vault's owner and creation time and
/// raises its version by exactly one, unless the version already stands at
/// `u64::MAX`, where it stays.
pub proof fn lemma_update_bumps_version(
    l: LedgerView,
    ctx: UpdateContextVault,
    uri: String,
    now: i64,
)
    ensures
        ({
            let (r, l1) = update_outcome(l, ctx, uri, now);
            let a = vault_address(l.program, ctx.owner@)->0;
            r is Ok ==> {
                let v = l.slots[a]->Vault_0;
                let w = l1.slots[a]->Vault_0;
                &&& l1.slots.dom() == l.slots.dom()
                &&& l1.slots[a] is Vault
                &&& w.owner == v.owner
                &&& w.created_at == v.created_at
                &&& w.context_uri == uri
                &&& w.updated_at == now
                &&& v.version < u64::MAX ==> w.version == v.version + 1
                &&& v.version == u64::MAX ==> w.version == v.version
            }
        }),
{
    let (r, l1) = update_outcome(l, ctx, uri, now);
    if r is Ok {
        let a = vault_address(l.program, ctx.owner@)->0;
        assert(l1.slots.dom() =~= l.slots.dom());
    }
}

/// A triple (owner, grantee, scope) has one grant slot: a successful `grant_access`
/// fills exactly the slot derived from the triple, and any later `grant_access` for
/// the same triple fails with `AlreadyExists` and leaves the ledger as it was.
pub proof fn lemma_grant_once(
    l: LedgerView,
    first: GrantAccess,
    scope_hash: [u8; 32],
    expires_at: i64,
    now: i64,
    second: GrantAccess,
    expires_at2: i64,
    now2: i64,
)
    requires
        second.owner@ == first.owner@,
        second.grantee@ == first.grantee@,
    ensures
        ({
            let (r, l1) = grant_outcome(l, first, scope_hash, expires_at, now);
            let a = grant_address(l.program, first.owner@, first.grantee@, scope_hash@);
            r is Ok ==> {
                &&& a is Some
                &&& !l.slots.contains_key(a->0)
                &&& l1.slots.dom() == l.slots.dom().insert(a->0)
                &&& l1.slots[a->0] is Grant
                &&& !l1.slots[a->0]->Grant_0.revoked
                &&& grant_outcome(l1, second, scope_hash, expires_at2, now2) == (
                    Err::<(), VaultError>(VaultError::AlreadyExists),
                    l1,
                )
            }
        }),
{
    let (r, l1) = grant_outcome(l, first, scope_hash, expires_at, now);
    if r is Ok {
        let a = grant_address(l.program, first.owner@, first.grantee@, scope_hash@)->0;
        assert(l1.slots.contains_key(a));
        assert(l1.slots.dom() =~= l.slots.dom().insert(a));
    }
}

/// A successful `revoke_access` sets the grant's `revoked` flag, changes nothing
/// else in it, and creates exactly one new slot: the tombstone derived from the grant
/// address. Revoking the same grant again fails with `AlreadyRevoked` and leaves the
/// ledger as it was, so no second tombstone appears.
pub proof fn lemma_revoke_once(
    l: LedgerView,
    first: RevokeAccess,
    now: i64,
    second: RevokeAccess,
    now2: i64,
)
    requires
        second.owner@ == first.owner@,
        second.grant@ == first.grant@,
    ensures
        ({
            let (r, l1) = revoke_outcome(l, first, now);
            let a = first.grant@;
            let t = tombstone_address(l.program, a);
            r is Ok ==> {
                let g = l.slots[a]->Grant_0;
                &&& l.slots[a] is Grant
                &&& l1.slots[a] == Record::Grant(AccessGrant { revoked: true, ..g })
                &&& t is Some
                &&& !l.slots.contains_key(t->0)
                &&& l1.slots.dom() == l.slots.dom().insert(t->0)
                &&& l1.slots[t->0] == Record::Tombstone(
                    RevocationRegistry { grant: first.grant, revoked_at: now },
                )
                &&& revoke_outcome(l1, second, now2) == (
                    Err::<(), VaultError>(VaultError::AlreadyRevoked),
                    l1,
                )
            }
        }),
{
    let (r, l1) = revoke_outcome(l, first, now);
    if r is Ok {
        let a = first.grant@;
        let t = tombstone_address(l.program, a)->0;
        assert(a != t);
        assert(l1.slots.contains_key(a));
        assert(l1.slots.contains_key(t));
        assert(l1.slots.dom() =~= l.slots.dom().insert(t));
    }
}

/// On a consistent ledger (`Ledger::new` makes one and the deriving operations keep
/// it so), `revoke_access` by a signer who is not the grant's stored owner fails with
/// `Unauthorized` and leaves the ledger as it was.
pub proof fn lemma_revoke_by_stranger(l: LedgerView, ctx: RevokeAccess, now: i64)
    requires
        l.consistent(),
        l.slots.contains_key(ctx.grant@),
        l.slots[ctx.grant@] is Grant,
        l.slots[ctx.grant@]->Grant_0.owner@ != ctx.owner@,
    ensures
        revoke_outcome(l, ctx, now) == (Err::<(), VaultError>(VaultError::Unauthorized), l),
{
    assert(l.slots.contains_key(ctx.grant@));
}

} // verus!
