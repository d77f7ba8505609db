//! The address and the authority that a listing derives from its asset.
//!
//! A listing lives at an address computed from the identity of the market and
//! the identity of the asset. The same address owns the escrow in which the
//! asset waits, so that only the market itself can release it.

use crate::pubkey::Pubkey;
use vstd::prelude::*;

verus! {

/// What `Pubkey::try_find_program_address` of `solana_program` returns for
/// the given seeds and program identity: the derived address with its bump
/// seed, or nothing where no address can be derived.
pub uninterp spec fn program_address(seeds: Seq<Seq<u8>>, program_id: Seq<u8>) -> Option<
    (Seq<u8>, u8),
>;

/// Calls `Pubkey::try_find_program_address` of `solana_program`. Not proved:
/// the result is a function of the seeds and the program identity alone,
/// which [`program_address`] names.
#[verifier::external_body]
fn try_find_program_address(seeds: &Vec<Vec<u8>>, program_id: &Pubkey) -> (found: Option<
    (Pubkey, u8),
>)
    ensures
        found matches Some((address, bump)) ==> program_address(seeds.deep_view(), program_id@)
            == Some((address@, bump)),
        found is None ==> program_address(seeds.deep_view(), program_id@) is None,
{
    let parts: Vec<&[u8]> = seeds.iter().map(|seed| seed.as_slice()).collect();
    let id = anchor_lang::prelude::Pubkey::new_from_array(program_id.to_bytes());
    match anchor_lang::prelude::Pubkey::try_find_program_address(&parts, &id) {
        Some((address, bump)) => Some((Pubkey::new_from_array(address.to_bytes()), bump)),
        None => None,
    }
}

/// The bytes of the word `listing`, the first seed of every listing address.
pub open spec fn listing_prefix() -> Seq<u8> {
    seq![108u8, 105u8, 115u8, 116u8, 105u8, 110u8, 103u8]
}

/// The seeds from which the address of the listing of an asset is derived:
/// the word `listing`, then the identity of the asset.
pub open spec fn listing_seeds(nft_mint: Pubkey) -> Seq<Seq<u8>> {
    seq![listing_prefix(), nft_mint@]
}

/// The address and bump seed of the listing of an asset in the market with
/// the given identity, where one can be derived.
pub open spec fn listing_address(program_id: Pubkey, nft_mint: Pubkey) -> Option<(Pubkey, u8)> {
    match program_address(listing_seeds(nft_mint), program_id@) {
        Some((address, bump)) => Some((Pubkey::with_bytes(address), bump)),
        None => None,
    }
}

/// The bytes of an identity, as a seed.
fn seed_of(key: &Pubkey) -> (seed: Vec<u8>)
    ensures
        seed@ == key@,
{
    let bytes = key.to_bytes();
    let mut seed: Vec<u8> = Vec::new();
    let mut i: usize = 0;
    while i < 32
        invariant
            i <= 32,
            bytes@.len() == 32,
            seed@ == bytes@.subrange(0, i as int),
        decreases 32 - i,
    {
        seed.push(bytes[i]);
        i = i + 1;
        assert(seed@ == bytes@.subrange(0, i as int));
    }
    assert(seed@ == bytes@);
    seed
}

/// The seeds of the listing of an asset.
fn seeds_of(nft_mint: &Pubkey) -> (seeds: Vec<Vec<u8>>)
    ensures
        seeds@.len() == 2,
        seeds.deep_view() == listing_seeds(*nft_mint),
{
    let prefix: Vec<u8> = vec![108u8, 105u8, 115u8, 116u8, 105u8, 110u8, 103u8];
    let mut seeds: Vec<Vec<u8>> = Vec::new();
    seeds.push(prefix);
    seeds.push(seed_of(nft_mint));
    proof {
        assert(seeds@[0]@ =~= listing_prefix());
        assert(seeds@[0].deep_view() =~= listing_prefix());
        assert(seeds@[1].deep_view() =~= nft_mint@);
        assert(seeds.deep_view() =~= listing_seeds(*nft_mint));
    }
    seeds
}

/// The authority of one listing over its escrow: a token that only the
/// derivation of the listing's address gives out. It stands for the consent
/// of the market itself; no party holds a key for it.
#[derive(Clone, Copy, Debug)]
pub struct ListingAuthority {
    program_id: Pubkey,
    nft_mint: Pubkey,
    address: Pubkey,
    bump: u8,
}

impl ListingAuthority {
    /// The address was derived from the asset, with this bump seed.
    #[verifier::type_invariant]
    closed spec fn derived(self) -> bool {
        listing_address(self.program_id, self.nft_mint) == Some((self.address, self.bump))
    }

    /// The identity of the market.
    pub closed spec fn spec_program_id(&self) -> Pubkey {
        self.program_id
    }

    /// The asset of the listing.
    pub closed spec fn spec_nft_mint(&self) -> Pubkey {
        self.nft_mint
    }

    /// The address of the listing.
    pub closed spec fn spec_address(&self) -> Pubkey {
        self.address
    }

    /// The bump seed of the address.
    pub closed spec fn spec_bump(&self) -> u8 {
        self.bump
    }

    /// Derives the address of the listing of an asset, and with it the
    /// authority over the listing's escrow.
    pub fn find(program_id: &Pubkey, nft_mint: &Pubkey) -> (found: Option<ListingAuthority>)
        ensures
            match listing_address(*program_id, *nft_mint) {
                Some((address, bump)) => found matches Some(authority)
                    && authority.spec_program_id() == *program_id
                    && authority.spec_nft_mint() == *nft_mint
                    && authority.spec_address() == address
                    && authority.spec_bump() == bump,
                None => found is None,
            },
    {
        let seeds = seeds_of(nft_mint);
        match try_find_program_address(&seeds, program_id) {
            Some((address, bump)) => {
                proof {
                    address.lemma_with_bytes();
                }
                Some(
                    ListingAuthority {
                        program_id: *program_id,
                        nft_mint: *nft_mint,
                        address,
                        bump,
                    },
                )
            },
            None => None,
        }
    }

    /// The identity of the market.
    #[verifier::when_used_as_spec(spec_program_id)]
    pub fn program_id(&self) -> (program_id: Pubkey)
        ensures
            program_id == self.spec_program_id(),
    {
        self.program_id
    }

    /// The asset of the listing.
    #[verifier::when_used_as_spec(spec_nft_mint)]
    pub fn nft_mint(&self) -> (nft_mint: Pubkey)
        ensures
            nft_mint == self.spec_nft_mint(),
    {
        self.nft_mint
    }

    /// The address of the listing, which is the one derived from its asset.
    #[verifier::when_used_as_spec(spec_address)]
    pub fn address(&self) -> (address: Pubkey)
        ensures
            address == self.spec_address(),
            listing_address(self.program_id(), self.nft_mint()) == Some((address, self.bump())),
    {
        proof {
            use_type_invariant(self);
        }
        self.address
    }

    /// The bump seed of the address.
    #[verifier::when_used_as_spec(spec_bump)]
    pub fn bump(&self) -> (bump: u8)
        ensures
            bump == self.spec_bump(),
    {
        self.bump
    }

    /// The seeds by which the market signs for the listing: the seeds of the
    /// address, then the bump seed.
    pub fn signer_seeds(&self) -> (seeds: Vec<Vec<u8>>)
        ensures
            seeds.deep_view() == listing_seeds(self.nft_mint()).push(seq![self.bump()]),
    {
        let mut seeds = seeds_of(&self.nft_mint);
        let ghost before = seeds;
        let last: Vec<u8> = vec![self.bump];
        seeds.push(last);
        proof {
            assert(seeds@[2].deep_view() =~= seq![self.bump]);
            assert forall|i: int| 0 <= i < 2 implies seeds.deep_view()[i]
                == before.deep_view()[i] by {
                assert(seeds@[i] == before@[i]);
            }
            assert(seeds.deep_view() =~= before.deep_view().push(seq![self.bump]));
        }
        seeds
    }
}

} // verus!
