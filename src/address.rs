use vstd::prelude::*;
use crate::key::Key;
use anchor_lang::prelude::Pubkey;

verus! {

/// The program-derived address that `program` owns for `seeds`, if one can be found.
pub uninterp spec fn program_address(program: Seq<u8>, seeds: Seq<Seq<u8>>) -> Option<Seq<u8>>;

/// The contents of a list of seeds.
pub open spec fn seeds_view(seeds: Seq<Vec<u8>>) -> Seq<Seq<u8>> {
    seeds.map_values(|s: Vec<u8>| s@)
}

/// Relies on `Pubkey::try_find_program_address`: a pure function of the seeds and
/// the program id, which yields the address for the first bump seed that is off
/// the curve, or nothing when no bump seed serves.
#[verifier::external_body]
fn find_program_address(program: &Key, seeds: &Vec<Vec<u8>>) -> (r: Option<Key>)
    ensures
        key_opt(r) == program_address(program@, seeds_view(seeds@)),
{
    let slices: Vec<&[u8]> = seeds.iter().map(|s| s.as_slice()).collect();
    let id = Pubkey::new_from_array(program.bytes);
    Pubkey::try_find_program_address(&slices, &id).map(|(a, _bump)| Key { bytes: a.to_bytes() })
}

/// The view of an optional key.
pub open spec fn key_opt(k: Option<Key>) -> Option<Seq<u8>> {
    match k {
        Some(k) => Some(k@),
        None => None,
    }
}

/// Domain tag of context vaults: the ASCII bytes of "vault".
pub open spec fn vault_tag() -> Seq<u8> {
    seq![118u8, 97, 117, 108, 116]
}

/// Domain tag of access grants: the ASCII bytes of "grant".
pub open spec fn grant_tag() -> Seq<u8> {
    seq![103u8, 114, 97, 110, 116]
}

/// Domain tag of revocation tombstones: the ASCII bytes of "revoke".
pub open spec fn revoke_tag() -> Seq<u8> {
    seq![114u8, 101, 118, 111, 107, 101]
}

/// Address of the one vault that `owner` can have.
pub open spec fn vault_address(program: Seq<u8>, owner: Seq<u8>) -> Option<Seq<u8>> {
    program_address(program, seq![vault_tag(), owner])
}

/// Address of the one grant for the triple (`owner`, `grantee`, `scope`).
pub open spec fn grant_address(program: Seq<u8>, owner: Seq<u8>, grantee: Seq<u8>, scope: Seq<u8>)
    -> Option<Seq<u8>> {
    program_address(program, seq![grant_tag(), owner, grantee, scope])
}

/// Address of the one tombstone that can attest the revocation of the grant at `grant`.
pub open spec fn tombstone_address(program: Seq<u8>, grant: Seq<u8>) -> Option<Seq<u8>> {
    program_address(program, seq![revoke_tag(), grant])
}

/// Derives the vault address of `owner` under `program`.
pub fn derive_vault_address(program: &Key, owner: &Key) -> (r: Option<Key>)
    ensures
        key_opt(r) == vault_address(program@, owner@),
{
    let seeds: Vec<Vec<u8>> = vec![vec![118u8, 97, 117, 108, 116], owner.to_vec()];
    assert(seeds_view(seeds@) =~= seq![vault_tag(), owner@]);
    find_program_address(program, &seeds)
}

/// Derives the grant address of (`owner`, `grantee`, `scope`) under `program`.
pub fn derive_grant_address(program: &Key, owner: &Key, grantee: &Key, scope: &[u8; 32]) -> (r:
    Option<Key>)
    ensures
        key_opt(r) == grant_address(program@, owner@, grantee@, scope@),
{
    let scope_key = Key::new(*scope);
    let seeds: Vec<Vec<u8>> = vec![
        vec![103u8, 114, 97, 110, 116],
        owner.to_vec(),
        grantee.to_vec(),
        scope_key.to_vec(),
    ];
    assert(seeds_view(seeds@) =~= seq![grant_tag(), owner@, grantee@, scope@]);
    find_program_address(program, &seeds)
}

/// Derives the tombstone address for the grant at `grant` under `program`.
pub fn derive_tombstone_address(program: &Key, grant: &Key) -> (r: Option<Key>)
    ensures
        key_opt(r) == tombstone_address(program@, grant@),
{
    let seeds: Vec<Vec<u8>> = vec![vec![114u8, 101, 118, 111, 107, 101], grant.to_vec()];
    assert(seeds_view(seeds@) =~= seq![revoke_tag(), grant@]);
    find_program_address(program, &seeds)
}

} // verus!
