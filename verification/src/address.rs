use solana_sdk::pubkey::Pubkey;
use std::str::FromStr;
use vstd::prelude::*;

verus! {

/// The 32 bytes that name an account or a program on either chain.
#[derive(Clone, Copy, Debug, PartialEq, Eq)]
pub struct Address {
    pub bytes: [u8; 32],
}

impl View for Address {
    type V = Seq<u8>;

    open spec fn view(&self) -> Seq<u8> {
        self.bytes@
    }
}

/// The freshness token of the destination chain: the 32 bytes of a recent
/// block hash, without which a transaction is rejected as stale.
#[derive(Clone, Copy, Debug, PartialEq, Eq)]
pub struct Blockhash {
    pub bytes: [u8; 32],
}

impl View for Blockhash {
    type V = Seq<u8>;

    open spec fn view(&self) -> Seq<u8> {
        self.bytes@
    }
}

/// The address that has the given 32 bytes.
pub open spec fn address_from(bytes: Seq<u8>) -> Address {
    Address { bytes: choose|a: [u8; 32]| a@ == bytes }
}

/// An address is known by its bytes.
pub proof fn lemma_address_from_view(a: Address)
    ensures
        address_from(a@) == a,
{
    let chosen = choose|b: [u8; 32]| b@ == a@;
    assert(a.bytes@ == a@);
    assert(chosen@ == a@);
    assert(chosen =~= a.bytes);
}

/// Whether two arrays of 32 bytes hold the same bytes.
pub fn same_bytes(a: &[u8; 32], b: &[u8; 32]) -> (r: bool)
    ensures
        r == (a@ == b@),
        r == (*a == *b),
{
    let mut i: usize = 0;
    while i < 32
        invariant
            i <= 32,
            forall|j: int| 0 <= j < i ==> a@[j] == b@[j],
        decreases 32 - i,
    {
        if a[i] != b[i] {
            return false;
        }
        i += 1;
    }
    assert(a@ =~= b@);
    assert(*a =~= *b);
    true
}

/// The bytes of an array, copied into a vector.
pub fn bytes_of(a: &[u8; 32]) -> (v: Vec<u8>)
    ensures
        v@ == a@,
{
    let mut v: Vec<u8> = Vec::new();
    let mut i: usize = 0;
    while i < 32
        invariant
            i <= 32,
            v@ == a@.subrange(0, i as int),
        decreases 32 - i,
    {
        v.push(a[i]);
        assert(v@ =~= a@.subrange(0, i + 1));
        i += 1;
    }
    assert(v@ =~= a@);
    v
}

/// Reads the 32 bytes that start at `offset`.
pub fn read_bytes32(data: &[u8], offset: usize) -> (a: [u8; 32])
    requires
        offset + 32 <= data@.len(),
    ensures
        a@ == data@.subrange(offset as int, offset + 32),
{
    let n: usize = data.len();
    let mut a: [u8; 32] = [0u8; 32];
    let mut i: usize = 0;
    while i < 32
        invariant
            i <= 32,
            offset + 32 <= data@.len(),
            data@.len() == n,
            forall|j: int| 0 <= j < i ==> a@[j] == data@[offset + j],
        decreases 32 - i,
    {
        a[i] = data[offset + i];
        i += 1;
    }
    assert(a@ =~= data@.subrange(offset as int, offset + 32));
    a
}

/// Reads the address that starts at `offset`.
pub fn read_address(data: &[u8], offset: usize) -> (a: Address)
    requires
        offset + 32 <= data@.len(),
    ensures
        a == address_from(data@.subrange(offset as int, offset + 32)),
        a@ == data@.subrange(offset as int, offset + 32),
{
    let a = Address { bytes: read_bytes32(data, offset) };
    proof {
        lemma_address_from_view(a);
    }
    a
}

impl Address {
    pub fn new(bytes: [u8; 32]) -> (a: Address)
        ensures
            a.bytes == bytes,
    {
        Address { bytes }
    }

    /// Whether `self` and `other` name the same account.
    pub fn same(&self, other: &Address) -> (r: bool)
        ensures
            r == (*self == *other),
    {
        same_bytes(&self.bytes, &other.bytes)
    }
}

/// What the base58 text of an address decodes to: the address, or nothing
/// where the text is no base58 or does not spell 32 bytes.
pub uninterp spec fn base58_address(text: Seq<char>) -> Option<Address>;

/// `Pubkey::from_str` of solana_sdk: the address that base58 text spells.
/// The result is a function of the text alone.
#[verifier::external_body]
pub(crate) fn parse_address(text: &str) -> (r: Option<Address>)
    ensures
        r == base58_address(text@),
{
    Pubkey::from_str(text).ok().map(|key| Address { bytes: key.to_bytes() })
}

} // verus!
