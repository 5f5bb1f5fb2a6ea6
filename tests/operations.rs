use anchor_lang::prelude::Pubkey;
use echovault::{
    derive_grant_address, derive_tombstone_address, derive_vault_address, grant_access,
    init_context_vault, revoke_access, update_context_vault, AccessGrant, ContextVault,
    GrantAccess, InitContextVault, Key, Ledger, Record, RevocationRegistry, RevokeAccess,
    UpdateContextVault, VaultError,
};

fn key(b: u8) -> Key {
    Key::new([b; 32])
}

fn program() -> Key {
    key(0x11)
}

fn vault_of(ledger: &Ledger, owner: &Key) -> ContextVault {
    let a = derive_vault_address(&ledger.program_id(), owner).unwrap();
    match ledger.get(&a) {
        Some(Record::Vault(v)) => ContextVault {
            owner: v.owner,
            context_uri: v.context_uri.clone(),
            version: v.version,
            created_at: v.created_at,
            updated_at: v.updated_at,
        },
        other => panic!("no vault: {:?}", other),
    }
}

fn grant_at(ledger: &Ledger, address: &Key) -> AccessGrant {
    match ledger.get(address) {
        Some(Record::Grant(g)) => *g,
        other => panic!("no grant: {:?}", other),
    }
}

fn tombstone_at(ledger: &Ledger, address: &Key) -> Option<RevocationRegistry> {
    match ledger.get(address) {
        Some(Record::Tombstone(t)) => Some(*t),
        _ => None,
    }
}

#[test]
fn full_lifecycle_scenario() {
    let mut ledger = Ledger::new(program());
    let (p, o, g) = (key(1), key(2), key(3));
    let init = InitContextVault { payer: p, owner: o };
    assert_eq!(init_context_vault(&mut ledger, &init, "ipfs://abc".to_string(), 100), Ok(()));
    let v = vault_of(&ledger, &o);
    assert_eq!(v.owner, o);
    assert_eq!(v.context_uri, "ipfs://abc");
    assert_eq!(v.version, 1);
    assert_eq!(v.created_at, 100);
    assert_eq!(v.updated_at, 100);

    let upd = UpdateContextVault { owner: o };
    assert_eq!(update_context_vault(&mut ledger, &upd, "ipfs://def".to_string(), 200), Ok(()));
    let v = vault_of(&ledger, &o);
    assert_eq!(v.context_uri, "ipfs://def");
    assert_eq!(v.version, 2);
    assert_eq!(v.created_at, 100);
    assert_eq!(v.updated_at, 200);

    let scope = [0xAAu8; 32];
    let ga = GrantAccess { owner: o, grantee: g };
    assert_eq!(grant_access(&mut ledger, &ga, scope, 1000, 300), Ok(()));
    let addr = derive_grant_address(&program(), &o, &g, &scope).unwrap();
    let grant = grant_at(&ledger, &addr);
    assert_eq!(grant.owner, o);
    assert_eq!(grant.grantee, g);
    assert_eq!(grant.scope_hash, scope);
    assert_eq!(grant.expires_at, 1000);
    assert!(!grant.revoked);
    assert_eq!(grant.created_at, 300);

    let rv = RevokeAccess { owner: o, grant: addr };
    assert_eq!(revoke_access(&mut ledger, &rv, 400), Ok(()));
    assert!(grant_at(&ledger, &addr).revoked);
    let t = derive_tombstone_address(&program(), &addr).unwrap();
    let stone = tombstone_at(&ledger, &t).unwrap();
    assert_eq!(stone.grant, addr);
    assert_eq!(stone.revoked_at, 400);

    assert_eq!(revoke_access(&mut ledger, &rv, 500), Err(VaultError::AlreadyRevoked));
    assert_eq!(tombstone_at(&ledger, &t).unwrap().revoked_at, 400);
}

#[test]
fn second_init_for_same_owner_is_refused() {
    let mut ledger = Ledger::new(program());
    let o = key(2);
    let first = InitContextVault { payer: key(1), owner: o };
    let second = InitContextVault { payer: key(9), owner: o };
    assert_eq!(init_context_vault(&mut ledger, &first, "ipfs://one".to_string(), 10), Ok(()));
    assert_eq!(
        init_context_vault(&mut ledger, &second, "ipfs://two".to_string(), 20),
        Err(VaultError::AlreadyExists)
    );
    let v = vault_of(&ledger, &o);
    assert_eq!(v.context_uri, "ipfs://one");
    assert_eq!(v.version, 1);
    assert_eq!(v.created_at, 10);
    assert_eq!(v.updated_at, 10);
}

#[test]
fn payer_may_differ_from_owner() {
    let mut ledger = Ledger::new(program());
    let ctx = InitContextVault { payer: key(7), owner: key(8) };
    assert_eq!(init_context_vault(&mut ledger, &ctx, String::new(), 1), Ok(()));
    assert_eq!(vault_of(&ledger, &key(8)).owner, key(8));
    assert!(derive_vault_address(&program(), &key(7))
        .map(|a| !ledger.contains(&a))
        .unwrap());
}

#[test]
fn uri_of_256_bytes_is_accepted_and_257_refused() {
    let mut ledger = Ledger::new(program());
    let ok = InitContextVault { payer: key(1), owner: key(2) };
    let long = InitContextVault { payer: key(1), owner: key(3) };
    assert_eq!(
        init_context_vault(&mut ledger, &long, "x".repeat(257), 1),
        Err(VaultError::InvalidInput)
    );
    let a = derive_vault_address(&program(), &key(3)).unwrap();
    assert!(!ledger.contains(&a));
    assert_eq!(init_context_vault(&mut ledger, &ok, "x".repeat(256), 1), Ok(()));
    let upd = UpdateContextVault { owner: key(2) };
    assert_eq!(
        update_context_vault(&mut ledger, &upd, "x".repeat(257), 2),
        Err(VaultError::InvalidInput)
    );
    assert_eq!(vault_of(&ledger, &key(2)).version, 1);
}

#[test]
fn uri_limit_counts_bytes_not_characters() {
    let mut ledger = Ledger::new(program());
    let ctx = InitContextVault { payer: key(1), owner: key(2) };
    // 129 two-byte characters: 258 bytes.
    assert_eq!(
        init_context_vault(&mut ledger, &ctx, "é".repeat(129), 1),
        Err(VaultError::InvalidInput)
    );
    assert_eq!(init_context_vault(&mut ledger, &ctx, "é".repeat(128), 1), Ok(()));
}

#[test]
fn update_without_vault_is_not_found() {
    let mut ledger = Ledger::new(program());
    let upd = UpdateContextVault { owner: key(4) };
    assert_eq!(
        update_context_vault(&mut ledger, &upd, "ipfs://x".to_string(), 1),
        Err(VaultError::NotFound)
    );
}

#[test]
fn update_increments_version_each_time() {
    let mut ledger = Ledger::new(program());
    let o = key(5);
    let init = InitContextVault { payer: o, owner: o };
    assert_eq!(init_context_vault(&mut ledger, &init, "a".to_string(), 1), Ok(()));
    let upd = UpdateContextVault { owner: o };
    for n in 2u64..=6 {
        assert_eq!(update_context_vault(&mut ledger, &upd, format!("v{}", n), n as i64), Ok(()));
        let v = vault_of(&ledger, &o);
        assert_eq!(v.version, n);
        assert_eq!(v.owner, o);
        assert_eq!(v.created_at, 1);
        assert_eq!(v.updated_at, n as i64);
        assert_eq!(v.context_uri, format!("v{}", n));
    }
}

#[test]
fn other_owner_updates_only_own_vault() {
    let mut ledger = Ledger::new(program());
    let (a, b) = (key(1), key(2));
    assert_eq!(
        init_context_vault(&mut ledger, &InitContextVault { payer: a, owner: a }, "a".to_string(), 1),
        Ok(())
    );
    assert_eq!(
        update_context_vault(&mut ledger, &UpdateContextVault { owner: b }, "b".to_string(), 2),
        Err(VaultError::NotFound)
    );
    assert_eq!(vault_of(&ledger, &a).context_uri, "a");
}

#[test]
fn second_grant_for_same_triple_is_refused() {
    let mut ledger = Ledger::new(program());
    let (o, g) = (key(1), key(2));
    let scope = [7u8; 32];
    let ga = GrantAccess { owner: o, grantee: g };
    assert_eq!(grant_access(&mut ledger, &ga, scope, 50, 10), Ok(()));
    assert_eq!(grant_access(&mut ledger, &ga, scope, 99, 20), Err(VaultError::AlreadyExists));
    let addr = derive_grant_address(&program(), &o, &g, &scope).unwrap();
    let grant = grant_at(&ledger, &addr);
    assert_eq!(grant.expires_at, 50);
    assert_eq!(grant.created_at, 10);
    assert!(!grant.revoked);
}

#[test]
fn grants_differing_in_scope_or_grantee_are_independent() {
    let mut ledger = Ledger::new(program());
    let o = key(1);
    let ga = GrantAccess { owner: o, grantee: key(2) };
    let gb = GrantAccess { owner: o, grantee: key(3) };
    assert_eq!(grant_access(&mut ledger, &ga, [1u8; 32], 5, 1), Ok(()));
    assert_eq!(grant_access(&mut ledger, &ga, [2u8; 32], 5, 1), Ok(()));
    assert_eq!(grant_access(&mut ledger, &gb, [1u8; 32], 5, 1), Ok(()));
}

#[test]
fn grant_needs_no_vault_and_may_already_be_expired() {
    let mut ledger = Ledger::new(program());
    let ga = GrantAccess { owner: key(1), grantee: key(2) };
    assert_eq!(grant_access(&mut ledger, &ga, [0u8; 32], -5, 100), Ok(()));
    let addr = derive_grant_address(&program(), &key(1), &key(2), &[0u8; 32]).unwrap();
    assert_eq!(grant_at(&ledger, &addr).expires_at, -5);
}

#[test]
fn revoke_by_stranger_is_unauthorized_and_changes_nothing() {
    let mut ledger = Ledger::new(program());
    let (o, g, x) = (key(1), key(2), key(3));
    let scope = [9u8; 32];
    assert_eq!(grant_access(&mut ledger, &GrantAccess { owner: o, grantee: g }, scope, 5, 1), Ok(()));
    let addr = derive_grant_address(&program(), &o, &g, &scope).unwrap();
    assert_eq!(
        revoke_access(&mut ledger, &RevokeAccess { owner: x, grant: addr }, 2),
        Err(VaultError::Unauthorized)
    );
    assert!(!grant_at(&ledger, &addr).revoked);
    let t = derive_tombstone_address(&program(), &addr).unwrap();
    assert!(!ledger.contains(&t));
    // the grantee is no owner either
    assert_eq!(
        revoke_access(&mut ledger, &RevokeAccess { owner: g, grant: addr }, 2),
        Err(VaultError::Unauthorized)
    );
}

#[test]
fn revoke_of_missing_grant_is_not_found() {
    let mut ledger = Ledger::new(program());
    assert_eq!(
        revoke_access(&mut ledger, &RevokeAccess { owner: key(1), grant: key(42) }, 1),
        Err(VaultError::NotFound)
    );
}

#[test]
fn revoke_of_a_vault_address_is_not_found() {
    let mut ledger = Ledger::new(program());
    let o = key(1);
    assert_eq!(
        init_context_vault(&mut ledger, &InitContextVault { payer: o, owner: o }, "u".to_string(), 1),
        Ok(())
    );
    let a = derive_vault_address(&program(), &o).unwrap();
    assert_eq!(
        revoke_access(&mut ledger, &RevokeAccess { owner: o, grant: a }, 2),
        Err(VaultError::NotFound)
    );
}

#[test]
fn addresses_match_program_derived_addresses() {
    let pid = Pubkey::new_from_array(program().bytes);
    let o = key(2);
    let g = key(3);
    let scope = [0xAAu8; 32];
    let (v, _) = Pubkey::find_program_address(&[b"vault", &o.bytes], &pid);
    assert_eq!(derive_vault_address(&program(), &o).unwrap().bytes, v.to_bytes());
    let (ga, _) = Pubkey::find_program_address(&[b"grant", &o.bytes, &g.bytes, &scope], &pid);
    let grant = derive_grant_address(&program(), &o, &g, &scope).unwrap();
    assert_eq!(grant.bytes, ga.to_bytes());
    let (t, _) = Pubkey::find_program_address(&[b"revoke", &grant.bytes], &pid);
    assert_eq!(derive_tombstone_address(&program(), &grant).unwrap().bytes, t.to_bytes());
}

#[test]
fn addresses_are_deterministic_and_separated_by_domain() {
    let o = key(2);
    let v1 = derive_vault_address(&program(), &o).unwrap();
    let v2 = derive_vault_address(&program(), &o).unwrap();
    assert_eq!(v1, v2);
    assert_ne!(v1, o);
    assert_ne!(v1, program());
    let t = derive_tombstone_address(&program(), &o).unwrap();
    assert_ne!(v1, t);
    let other_program = derive_vault_address(&key(0x22), &o).unwrap();
    assert_ne!(v1, other_program);
    assert_ne!(v1, derive_vault_address(&program(), &key(3)).unwrap());
}

#[test]
fn key_equality_is_bytewise() {
    let mut b = [5u8; 32];
    assert!(Key::new(b).same_as(&Key::new(b)));
    b[31] = 6;
    assert!(!Key::new(b).same_as(&key(5)));
    assert_eq!(key(5).to_vec(), vec![5u8; 32]);
}

#[test]
fn record_sizes() {
    assert_eq!(ContextVault::MAX_URI_LEN, 256);
    assert_eq!(ContextVault::LEN, 324);
    assert_eq!(AccessGrant::LEN, 121);
    assert_eq!(RevocationRegistry::LEN, 48);
}
