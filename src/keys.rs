use anchor_lang::prelude::Pubkey;
use vstd::prelude::*;

verus! {

/// A 32-byte account identity.
#[derive(Clone, Copy, Debug)]
pub struct Key {
    pub bytes: [u8; 32],
}

impl View for Key {
    type V = Seq<u8>;

    open spec fn view(&self) -> Seq<u8> {
        self.bytes@
    }
}

impl Key {
    pub fn new(bytes: [u8; 32]) -> (r: Key)
        ensures
            r@ == bytes@,
    {
        Key { bytes }
    }

    /// Byte-wise comparison of two identities.
    pub fn same(&self, other: &Key) -> (r: bool)
        ensures
            r == (self@ == other@),
    {
        let mut i: usize = 0;
        while i < 32
            invariant
                i <= 32,
                self@.len() == 32,
                other@.len() == 32,
                forall|j: int| 0 <= j < i ==> self@[j] == other@[j],
            decreases 32 - i,
        {
            if self.bytes[i] != other.bytes[i] {
                return false;
            }
            i = i + 1;
        }
        assert(self@ =~= other@);
        true
    }

    /// The bytes of the identity, as a seed.
    pub fn to_seed(&self) -> (r: Vec<u8>)
        ensures
            r@ == self@,
    {
        let mut r: Vec<u8> = Vec::new();
        let mut i: usize = 0;
        while i < 32
            invariant
                i <= 32,
                self@.len() == 32,
                r@ == self@.subrange(0, i as int),
            decreases 32 - i,
        {
            r.push(self.bytes[i]);
            i = i + 1;
            assert(r@ =~= self@.subrange(0, i as int));
        }
        assert(self@.subrange(0, 32) =~= self@);
        r
    }
}

/// The program-derived address and bump seed for a list of seeds under a
/// program id, or `None` where no bump seed gives an address off the curve.
pub uninterp spec fn derived_address(seeds: Seq<Seq<u8>>, program_id: Seq<u8>) -> Option<(Seq<u8>, u8)>;

pub open spec fn seeds_view(seeds: Seq<Vec<u8>>) -> Seq<Seq<u8>> {
    seeds.map_values(|s: Vec<u8>| s@)
}

/// Relies on `Pubkey::try_find_program_address`: a deterministic search for
/// the first bump seed, from 255 down, whose hash with the seeds and the
/// program id is not a curve point.
#[verifier::external_body]
pub(crate) fn find_program_address(seeds: &Vec<Vec<u8>>, program_id: &Key) -> (r: Option<(Key, u8)>)
    ensures
        derived_address(seeds_view(seeds@), program_id@) == match r {
            Some(p) => Some((p.0@, p.1)),
            None => None::<(Seq<u8>, u8)>,
        },
{
    let s: Vec<&[u8]> = seeds.iter().map(|v| v.as_slice()).collect();
    let pid = Pubkey::new_from_array(program_id.bytes);
    Pubkey::try_find_program_address(&s, &pid).map(|(k, b)| (Key { bytes: k.to_bytes() }, b))
}

/// `b"escrow_vault"`
pub open spec fn escrow_seed_spec() -> Seq<u8> {
    seq![101u8, 115, 99, 114, 111, 119, 95, 118, 97, 117, 108, 116]
}

/// `b"vault_nft"`
pub open spec fn vault_nft_seed_spec() -> Seq<u8> {
    seq![118u8, 97, 117, 108, 116, 95, 110, 102, 116]
}

/// `b"vault_token"`
pub open spec fn vault_token_seed_spec() -> Seq<u8> {
    seq![118u8, 97, 117, 108, 116, 95, 116, 111, 107, 101, 110]
}

/// `b"authority"`
pub open spec fn authority_seed_spec() -> Seq<u8> {
    seq![97u8, 117, 116, 104, 111, 114, 105, 116, 121]
}

pub fn escrow_seed() -> (r: Vec<u8>)
    ensures
        r@ == escrow_seed_spec(),
{
    let r = vec![101u8, 115, 99, 114, 111, 119, 95, 118, 97, 117, 108, 116];
    assert(r@ =~= escrow_seed_spec());
    r
}

pub fn vault_nft_seed() -> (r: Vec<u8>)
    ensures
        r@ == vault_nft_seed_spec(),
{
    let r = vec![118u8, 97, 117, 108, 116, 95, 110, 102, 116];
    assert(r@ =~= vault_nft_seed_spec());
    r
}

pub fn vault_token_seed() -> (r: Vec<u8>)
    ensures
        r@ == vault_token_seed_spec(),
{
    let r = vec![118u8, 97, 117, 108, 116, 95, 116, 111, 107, 101, 110];
    assert(r@ =~= vault_token_seed_spec());
    r
}

pub fn authority_seed() -> (r: Vec<u8>)
    ensures
        r@ == authority_seed_spec(),
{
    let r = vec![97u8, 117, 116, 104, 111, 114, 105, 116, 121];
    assert(r@ =~= authority_seed_spec());
    r
}

/// The address found for a seed list, without its bump seed.
pub open spec fn address_of(seeds: Seq<Seq<u8>>, program_id: Seq<u8>) -> Option<Seq<u8>> {
    match derived_address(seeds, program_id) {
        Some(p) => Some(p.0),
        None => None,
    }
}

/// Address of the escrow record for one {alice, collectible, bob} triple.
pub open spec fn escrow_address_spec(program_id: Seq<u8>, alice: Seq<u8>, nft: Seq<u8>, bob: Seq<u8>) -> Option<Seq<u8>> {
    address_of(seq![escrow_seed_spec(), alice, nft, bob], program_id)
}

/// Address of the vault that holds the collectible of an escrow record.
pub open spec fn vault_nft_address_spec(program_id: Seq<u8>, escrow: Seq<u8>, nft: Seq<u8>) -> Option<Seq<u8>> {
    address_of(seq![vault_nft_seed_spec(), escrow, nft], program_id)
}

/// Address of the vault that holds the payment of an escrow record.
pub open spec fn vault_token_address_spec(program_id: Seq<u8>, escrow: Seq<u8>, token: Seq<u8>) -> Option<Seq<u8>> {
    address_of(seq![vault_token_seed_spec(), escrow, token], program_id)
}

/// Identity of the custodial authority of an escrow record.
pub open spec fn authority_address_spec(program_id: Seq<u8>, escrow: Seq<u8>) -> Option<Seq<u8>> {
    address_of(seq![authority_seed_spec(), escrow], program_id)
}

/// Looks up the address for a seed list, dropping the bump seed.
fn address_for(seeds: Vec<Vec<u8>>, program_id: &Key) -> (r: Option<Key>)
    ensures
        address_of(seeds_view(seeds@), program_id@) == match r {
            Some(k) => Some(k@),
            None => None::<Seq<u8>>,
        },
{
    match find_program_address(&seeds, program_id) {
        Some(p) => Some(p.0),
        None => None,
    }
}

/// Opt-key view used by the address contracts.
pub open spec fn opt_view(k: Option<Key>) -> Option<Seq<u8>> {
    match k {
        Some(k) => Some(k@),
        None => None,
    }
}

pub fn escrow_address(program_id: &Key, alice: &Key, nft: &Key, bob: &Key) -> (r: Option<Key>)
    ensures
        opt_view(r) == escrow_address_spec(program_id@, alice@, nft@, bob@),
{
    let seeds = vec![escrow_seed(), alice.to_seed(), nft.to_seed(), bob.to_seed()];
    assert(seeds_view(seeds@) =~= seq![escrow_seed_spec(), alice@, nft@, bob@]);
    address_for(seeds, program_id)
}

pub fn vault_nft_address(program_id: &Key, escrow: &Key, nft: &Key) -> (r: Option<Key>)
    ensures
        opt_view(r) == vault_nft_address_spec(program_id@, escrow@, nft@),
{
    let seeds = vec![vault_nft_seed(), escrow.to_seed(), nft.to_seed()];
    assert(seeds_view(seeds@) =~= seq![vault_nft_seed_spec(), escrow@, nft@]);
    address_for(seeds, program_id)
}

pub fn vault_token_address(program_id: &Key, escrow: &Key, token: &Key) -> (r: Option<Key>)
    ensures
        opt_view(r) == vault_token_address_spec(program_id@, escrow@, token@),
{
    let seeds = vec![vault_token_seed(), escrow.to_seed(), token.to_seed()];
    assert(seeds_view(seeds@) =~= seq![vault_token_seed_spec(), escrow@, token@]);
    address_for(seeds, program_id)
}

pub fn authority_address(program_id: &Key, escrow: &Key) -> (r: Option<Key>)
    ensures
        opt_view(r) == authority_address_spec(program_id@, escrow@),
{
    let seeds = vec![authority_seed(), escrow.to_seed()];
    assert(seeds_view(seeds@) =~= seq![authority_seed_spec(), escrow@]);
    address_for(seeds, program_id)
}

/// Whether `key` is the address derived for the seeds; `false` where none is.
pub open spec fn is_address(key: Seq<u8>, a: Option<Seq<u8>>) -> bool {
    a == Some(key)
}

/// Tells whether a found address is the expected one.
pub fn matches_address(found: &Option<Key>, key: &Key) -> (r: bool)
    ensures
        r == is_address(key@, opt_view(*found)),
{
    match found {
        Some(k) => k.same(key),
        None => false,
    }
}

} // verus!
