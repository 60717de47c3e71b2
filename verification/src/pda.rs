use crate::address::{bytes_of, Address};
use crate::bytes::{lemma_u64_le_bytes_injective, push_u64_le, u64_le_bytes};
use crate::error::RelayError;
use crate::models::message::Info;
use solana_sdk::pubkey::Pubkey;
use vstd::prelude::*;

verus! {

/// The address off the curve that a program owns for a list of seeds, with
/// the bump seed that leads to it; nothing where no bump seed does, or
/// where the seeds are too many or too long.
pub uninterp spec fn program_address(seeds: Seq<Seq<u8>>, program_id: Address) -> Option<
    (Address, u8),
>;

/// The seeds as plain values.
pub open spec fn seeds_view(seeds: Seq<Vec<u8>>) -> Seq<Seq<u8>> {
    seeds.map_values(|seed: Vec<u8>| seed@)
}

/// `Pubkey::try_find_program_address` of solana_sdk: the program-derived
/// address for the seeds and the bump seed found for it. The result is a
/// function of the seeds and of the program's identity alone; the call
/// returns `None` where `find_program_address` would panic.
#[verifier::external_body]
pub(crate) fn try_find_program_address(seeds: &Vec<Vec<u8>>, program_id: &Address) -> (r: Option<
    (Address, u8),
>)
    ensures
        r == program_address(seeds_view(seeds@), *program_id),
{
    let slices: Vec<&[u8]> = seeds.iter().map(|seed| seed.as_slice()).collect();
    Pubkey::try_find_program_address(&slices, &Pubkey::from(program_id.bytes))
        .map(|(key, bump)| (Address { bytes: key.to_bytes() }, bump))
}

/// Finds, for each event index, the account of the source program that
/// holds the event's transfer record.
#[derive(Clone, Copy, Debug, PartialEq, Eq)]
pub struct PdaManager {
    pub program_id: Address,
    pub base_account: Address,
}

impl PdaManager {
    pub fn new(program_id: Address, base_account: Address) -> (m: PdaManager)
        ensures
            m.program_id == program_id,
            m.base_account == base_account,
    {
        PdaManager { program_id, base_account }
    }

    /// The seeds of the record of event `nonce`: the watched account, then
    /// the event index in little-endian bytes.
    pub open spec fn seeds_of(base_account: Seq<u8>, nonce: u64) -> Seq<Seq<u8>> {
        seq![base_account, u64_le_bytes(nonce)]
    }

    /// Where the record of event `nonce` is looked for.
    pub open spec fn address_of(self, nonce: u64) -> Option<(Address, u8)> {
        program_address(Self::seeds_of(self.base_account@, nonce), self.program_id)
    }

    /// The seeds that the address of event `nonce` is derived from.
    pub fn seeds(&self, nonce: u64) -> (seeds: Vec<Vec<u8>>)
        ensures
            seeds_view(seeds@) == Self::seeds_of(self.base_account@, nonce),
    {
        let base = bytes_of(&self.base_account.bytes);
        let mut index: Vec<u8> = Vec::new();
        push_u64_le(&mut index, nonce);
        let mut seeds: Vec<Vec<u8>> = Vec::new();
        seeds.push(base);
        seeds.push(index);
        assert(seeds_view(seeds@) =~= Self::seeds_of(self.base_account@, nonce));
        seeds
    }

    /// Derives the address of the record of event `nonce`, with its bump
    /// seed. The same index always leads to the same address.
    pub fn find_address(&self, nonce: u64) -> (r: Option<(Address, u8)>)
        ensures
            r == self.address_of(nonce),
    {
        let seeds = self.seeds(nonce);
        try_find_program_address(&seeds, &self.program_id)
    }

    /// What the data of a record's account asks to transfer: the amount and
    /// the destination.
    pub open spec fn transfer_of(data: Seq<u8>) -> Result<(u64, Address), RelayError> {
        match Info::decoded(data) {
            Ok(info) => Ok((info.amount, info.to)),
            Err(e) => Err(e),
        }
    }

    /// Reads the amount and the destination out of the data of a record's
    /// account.
    pub fn get_transfer_info(&self, data: &[u8]) -> (r: Result<(u64, Address), RelayError>)
        ensures
            r == Self::transfer_of(data@),
    {
        match Info::from_bytes(data) {
            Ok(info) => Ok((info.amount, info.to)),
            Err(e) => Err(e),
        }
    }
}

/// Two event indices never share their seeds: for one watched account the
/// seeds name the index.
pub proof fn lemma_seeds_name_the_index(base_account: Seq<u8>, i: u64, j: u64)
    requires
        PdaManager::seeds_of(base_account, i) == PdaManager::seeds_of(base_account, j),
    ensures
        i == j,
{
    assert(PdaManager::seeds_of(base_account, i)[1] == u64_le_bytes(i));
    assert(PdaManager::seeds_of(base_account, j)[1] == u64_le_bytes(j));
    lemma_u64_le_bytes_injective(i, j);
}

} // verus!
