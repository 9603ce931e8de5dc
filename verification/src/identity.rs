//! Ledger identities and the derived-authority resolver.
//!
//! Every party, account and authority on the ledger is named by a 32-byte
//! address. The protocol itself controls custodied value through a keyless
//! identity derived deterministically from a fixed seed and the protocol's
//! own program identity; nobody holds a signing key for it, so only the
//! protocol's own proof can authorize transfers out of a custody vault.

use vstd::prelude::*;

verus! {

/// The 32-byte address of a ledger entity: a party's signing identity, a
/// value account, or a derived authority.
#[derive(Clone, Copy, Debug)]
pub struct Identity {
    pub bytes: [u8; 32],
}

impl View for Identity {
    type V = Seq<u8>;

    open spec fn view(&self) -> Seq<u8> {
        self.bytes@
    }
}

impl Identity {
    pub fn new(bytes: [u8; 32]) -> (r: Identity)
        ensures
            r@ == bytes@,
    {
        Identity { bytes }
    }

    /// Address equality: two references name the same ledger entity exactly
    /// when their addresses agree byte for byte.
    pub fn same_as(&self, other: &Identity) -> (r: bool)
        ensures
            r == (self@ == other@),
    {
        let mut i: usize = 0;
        while i < 32
            invariant
                i <= 32,
                forall|j: int| 0 <= j < i ==> self.bytes@[j] == other.bytes@[j],
            decreases 32 - i,
        {
            if self.bytes[i] != other.bytes[i] {
                assert(self@[i as int] != other@[i as int]);
                return false;
            }
            i += 1;
        }
        proof {
            assert(self@ =~= other@);
        }
        true
    }
}

/// What `Pubkey::try_find_program_address` returns for the given seed and
/// program identity: the derived address and its bump seed, or nothing when
/// no bump yields a valid off-curve address. The result is a function of the
/// two arguments alone.
pub uninterp spec fn derived_authority_of(seed: Seq<u8>, program_id: Seq<u8>) -> Option<(
    Seq<u8>,
    u8,
)>;

/// The fixed protocol seed, the bytes of "offer".
pub open spec fn offer_seed_spec() -> Seq<u8> {
    seq![111u8, 102u8, 102u8, 101u8, 114u8]
}

/// The derived authority that controls every custody vault of this protocol.
pub open spec fn vault_authority_of(program_id: Seq<u8>) -> Option<(Seq<u8>, u8)> {
    derived_authority_of(offer_seed_spec(), program_id)
}

/// The address of the derived vault authority, when one is derivable.
pub open spec fn vault_authority_id(program_id: Seq<u8>) -> Seq<u8>
    recommends
        vault_authority_of(program_id) is Some,
{
    (vault_authority_of(program_id)->0).0
}

/// The fixed protocol seed as a byte vector.
pub fn offer_seed() -> (s: Vec<u8>)
    ensures
        s@ == offer_seed_spec(),
{
    let mut s: Vec<u8> = Vec::new();
    s.push(111u8);
    s.push(102u8);
    s.push(102u8);
    s.push(101u8);
    s.push(114u8);
    proof {
        assert(s@ =~= offer_seed_spec());
    }
    s
}

/// Relies on solana_pubkey's `Pubkey::try_find_program_address`: the derived
/// address and bump seed are computed from the seed and the program identity
/// alone (a bounded search over bump seeds, hashing with sha-256 and
/// rejecting on-curve results), so the result is deterministic; the search
/// returns `None` instead of panicking when it fails.
#[verifier::external_body]
fn derive_authority(seed: &Vec<u8>, program_id: &Identity) -> (r: Option<(Identity, u8)>)
    ensures
        ({
            let d = derived_authority_of(seed@, program_id@);
            match r {
                Some(p) => d matches Some(q) && p.0@ == q.0 && p.1 == q.1,
                None => d is None,
            }
        }),
{
    let pid = solana_pubkey::Pubkey::new_from_array(program_id.bytes);
    match solana_pubkey::Pubkey::try_find_program_address(&[seed.as_slice()], &pid) {
        Some((key, bump)) => Some((Identity { bytes: key.to_bytes() }, bump)),
        None => None,
    }
}

/// The derived-authority resolver: the control identity for this protocol's
/// custody vaults under the given program identity, together with the bump
/// seed that is the proof material for signing as that identity.
pub fn vault_authority(program_id: &Identity) -> (r: Option<(Identity, u8)>)
    ensures
        ({
            let d = vault_authority_of(program_id@);
            match r {
                Some(p) => d matches Some(q) && p.0@ == q.0 && p.1 == q.1,
                None => d is None,
            }
        }),
{
    let seed = offer_seed();
    derive_authority(&seed, program_id)
}

} // verus!
