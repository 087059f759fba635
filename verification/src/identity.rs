use vstd::prelude::*;

verus! {

/// A 32-byte ledger address.  Token accounts, offer records, asset mints and
/// the program itself are all named by one of these; the ledger holds at most
/// one entity per address.
#[derive(Clone, Copy, Debug, PartialEq, Eq)]
pub struct AccountId {
    pub bytes: [u8; 32],
}

impl View for AccountId {
    type V = Seq<u8>;

    open spec fn view(&self) -> Seq<u8> {
        self.bytes@
    }
}

impl AccountId {
    /// Wraps raw address bytes.
    pub fn new(bytes: [u8; 32]) -> (r: AccountId)
        ensures
            r@ == bytes@,
    {
        AccountId { bytes }
    }

    /// Byte-for-byte equality of two addresses.
    pub fn eq_id(&self, other: &AccountId) -> (r: bool)
        ensures
            r == (self@ == other@),
    {
        let mut i: usize = 0;
        while i < 32
            invariant
                i <= 32,
                forall|j: int| 0 <= j < i ==> self.bytes@[j] == other.bytes@[j],
            decreases 32 - i,
        {
            if self.bytes[i] != other.bytes[i] {
                proof {
                    assert(self@[i as int] != other@[i as int]);
                }
                return false;
            }
            i += 1;
        }
        proof {
            assert(self@ =~= other@);
        }
        true
    }
}

/// The seed sequence that fixes an offer record's storage identity: the
/// initializer's source account, the give amount, the bound counterparty
/// account and the receive amount, amounts in little-endian bytes.
pub open spec fn offer_seed_views(src: Seq<u8>, give: u64, tgt: Seq<u8>, recv: u64) -> Seq<Seq<u8>> {
    seq![
        src,
        vstd::bytes::spec_u64_to_le_bytes(give),
        tgt,
        vstd::bytes::spec_u64_to_le_bytes(recv),
    ]
}

/// The seed sequence that fixes a custody account's storage identity: the
/// initializer's source account and the bound counterparty account alone.
pub open spec fn vault_seed_views(src: Seq<u8>, tgt: Seq<u8>) -> Seq<Seq<u8>> {
    seq![src, tgt]
}

/// The address and bump that the keyed one-way derivation yields for a seed
/// sequence under a program identity, or `None` in the statistically
/// improbable event that no usable address exists.  The derivation is a
/// deterministic function of its two arguments, which is what lets the accept
/// operation re-derive the very identity that the create operation used.
pub uninterp spec fn derived_identity(seeds: Seq<Seq<u8>>, program_id: Seq<u8>) -> Option<(Seq<u8>, u8)>;

/// The derived storage identity of the offer record with these terms.
pub open spec fn spec_offer_identity(
    src: Seq<u8>,
    give: u64,
    tgt: Seq<u8>,
    recv: u64,
    program_id: Seq<u8>,
) -> Option<(Seq<u8>, u8)> {
    derived_identity(offer_seed_views(src, give, tgt, recv), program_id)
}

/// The derived storage identity of the custody account for this pair.
pub open spec fn spec_vault_identity(src: Seq<u8>, tgt: Seq<u8>, program_id: Seq<u8>) -> Option<(
    Seq<u8>,
    u8,
)> {
    derived_identity(vault_seed_views(src, tgt), program_id)
}

/// Relies on `solana_program::pubkey::Pubkey::try_find_program_address`: for
/// fixed seeds and program id the result is deterministic (a bump search over
/// a keyed hash of the seeds), and `None` comes back only when no bump yields
/// a usable address.
#[verifier::external_body]
fn derive_address(seeds: &Vec<Vec<u8>>, program_id: &AccountId) -> (r: Option<(AccountId, u8)>)
    ensures
        match r {
            Some(p) => derived_identity(seeds.deep_view(), program_id@) == Some((p.0@, p.1)),
            None => derived_identity(seeds.deep_view(), program_id@) is None,
        },
{
    let refs: Vec<&[u8]> = seeds.iter().map(|s| s.as_slice()).collect();
    let pk = solana_program::pubkey::Pubkey::new_from_array(program_id.bytes);
    solana_program::pubkey::Pubkey::try_find_program_address(&refs, &pk)
        .map(|(addr, bump)| (AccountId { bytes: addr.to_bytes() }, bump))
}

/// Builds the offer seed sequence as concrete byte vectors.
fn offer_seeds(src: &AccountId, give: u64, tgt: &AccountId, recv: u64) -> (r: Vec<Vec<u8>>)
    ensures
        r.deep_view() == offer_seed_views(src@, give, tgt@, recv),
{
    let mut r: Vec<Vec<u8>> = Vec::new();
    r.push(vstd::slice::slice_to_vec(src.bytes.as_slice()));
    r.push(vstd::bytes::u64_to_le_bytes(give));
    r.push(vstd::slice::slice_to_vec(tgt.bytes.as_slice()));
    r.push(vstd::bytes::u64_to_le_bytes(recv));
    proof {
        assert(r.deep_view() =~~= offer_seed_views(src@, give, tgt@, recv));
    }
    r
}

/// Builds the custody seed sequence as concrete byte vectors.
fn vault_seeds(src: &AccountId, tgt: &AccountId) -> (r: Vec<Vec<u8>>)
    ensures
        r.deep_view() == vault_seed_views(src@, tgt@),
{
    let mut r: Vec<Vec<u8>> = Vec::new();
    r.push(vstd::slice::slice_to_vec(src.bytes.as_slice()));
    r.push(vstd::slice::slice_to_vec(tgt.bytes.as_slice()));
    proof {
        assert(r.deep_view() =~~= vault_seed_views(src@, tgt@));
    }
    r
}

/// Derives the storage identity and bump of the offer record with these
/// terms.
pub fn derive_offer_identity(
    src: &AccountId,
    give: u64,
    tgt: &AccountId,
    recv: u64,
    program_id: &AccountId,
) -> (r: Option<(AccountId, u8)>)
    ensures
        match r {
            Some(p) => spec_offer_identity(src@, give, tgt@, recv, program_id@) == Some(
                (p.0@, p.1),
            ),
            None => spec_offer_identity(src@, give, tgt@, recv, program_id@) is None,
        },
{
    let seeds = offer_seeds(src, give, tgt, recv);
    derive_address(&seeds, program_id)
}

/// Derives the storage identity and bump of the custody account for this
/// pair of bound accounts.
pub fn derive_vault_identity(src: &AccountId, tgt: &AccountId, program_id: &AccountId) -> (r:
    Option<(AccountId, u8)>)
    ensures
        match r {
            Some(p) => spec_vault_identity(src@, tgt@, program_id@) == Some((p.0@, p.1)),
            None => spec_vault_identity(src@, tgt@, program_id@) is None,
        },
{
    let seeds = vault_seeds(src, tgt);
    derive_address(&seeds, program_id)
}

} // verus!
