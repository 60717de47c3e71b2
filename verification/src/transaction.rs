use crate::address::{address_from, bytes_of, lemma_address_from_view, read_address, Address, Blockhash};
use crate::bytes::{le_u64, lemma_le_u64_of_bytes, push_u64_le, read_u64_le, u64_le_bytes};
use crate::error::RelayError;
use solana_sdk::hash;
use solana_sdk::instruction::{AccountMeta, CompiledInstruction, Instruction};
use solana_sdk::message::Message;
use solana_sdk::pubkey::Pubkey;
use solana_sdk::signature::Keypair;
use solana_sdk::signer::Signer;
use vstd::prelude::*;

verus! {

/// The length of the data of a transfer call: the amount, then the
/// destination.
pub const TRANSFER_DATA_LEN: usize = 40;

/// The most accounts that a call may name.
pub const MAX_CALL_ACCOUNTS: usize = 64;

/// The most keys that a message may list: a call names its accounts by a
/// one-byte index.
pub const MAX_MESSAGE_KEYS: usize = 256;

/// The most items that the wire format can count.
pub const MAX_WIRE_ITEMS: usize = 0xffff;

/// The key pair that signs for the relayer: 32 secret bytes, then the 32
/// bytes of the public key.
#[derive(Clone, Copy, PartialEq, Eq)]
pub struct SigningKey {
    pub bytes: [u8; 64],
}

/// A signature over the bytes of a message.
#[derive(Clone, Copy, Debug, PartialEq, Eq)]
pub struct Signature {
    pub bytes: [u8; 64],
}

/// One account that a program call touches, and how.
#[derive(Clone, Copy, Debug, PartialEq, Eq)]
pub struct AccountRef {
    pub address: Address,
    pub is_signer: bool,
    pub is_writable: bool,
}

/// A call of a program on the destination chain, before it is compiled
/// into a message.
#[derive(Clone, Debug, PartialEq, Eq)]
pub struct ProgramCall {
    pub program_id: Address,
    pub accounts: Vec<AccountRef>,
    pub data: Vec<u8>,
}

pub struct ProgramCallView {
    pub program_id: Address,
    pub accounts: Seq<AccountRef>,
    pub data: Seq<u8>,
}

impl View for ProgramCall {
    type V = ProgramCallView;

    open spec fn view(&self) -> ProgramCallView {
        ProgramCallView { program_id: self.program_id, accounts: self.accounts@, data: self.data@ }
    }
}

/// How many of a message's keys sign, and how many may only be read.
#[derive(Clone, Copy, Debug, PartialEq, Eq, Structural)]
pub struct MessageHeader {
    pub num_required_signatures: u8,
    pub num_readonly_signed_accounts: u8,
    pub num_readonly_unsigned_accounts: u8,
}

/// A program call inside a message: the program and the accounts are
/// indices into the message's list of keys.
#[derive(Clone, Debug, PartialEq, Eq)]
pub struct CompiledCall {
    pub program_id_index: u8,
    pub accounts: Vec<u8>,
    pub data: Vec<u8>,
}

pub struct CompiledCallView {
    pub program_id_index: u8,
    pub accounts: Seq<u8>,
    pub data: Seq<u8>,
}

impl View for CompiledCall {
    type V = CompiledCallView;

    open spec fn view(&self) -> CompiledCallView {
        CompiledCallView {
            program_id_index: self.program_id_index,
            accounts: self.accounts@,
            data: self.data@,
        }
    }
}

/// The calls as plain values.
pub open spec fn calls_view(calls: Seq<CompiledCall>) -> Seq<CompiledCallView> {
    calls.map_values(|call: CompiledCall| call@)
}

/// The message of a transaction: what is signed.
#[derive(Clone, Debug, PartialEq, Eq)]
pub struct CompiledMessage {
    pub header: MessageHeader,
    pub account_keys: Vec<Address>,
    pub recent_blockhash: Blockhash,
    pub calls: Vec<CompiledCall>,
}

pub struct CompiledMessageView {
    pub header: MessageHeader,
    pub account_keys: Seq<Address>,
    pub recent_blockhash: Blockhash,
    pub calls: Seq<CompiledCallView>,
}

impl View for CompiledMessage {
    type V = CompiledMessageView;

    open spec fn view(&self) -> CompiledMessageView {
        CompiledMessageView {
            header: self.header,
            account_keys: self.account_keys@,
            recent_blockhash: self.recent_blockhash,
            calls: calls_view(self.calls@),
        }
    }
}

/// A message with the signatures over it, ready to be submitted.
#[derive(Clone, Debug, PartialEq, Eq)]
pub struct SignedTransaction {
    pub signatures: Vec<Signature>,
    pub message: CompiledMessage,
}

pub struct SignedTransactionView {
    pub signatures: Seq<Signature>,
    pub message: CompiledMessageView,
}

impl View for SignedTransaction {
    type V = SignedTransactionView;

    open spec fn view(&self) -> SignedTransactionView {
        SignedTransactionView { signatures: self.signatures@, message: self.message@ }
    }
}

/// The address that a key pair signs for; nothing where the 64 bytes are
/// no key pair.
pub uninterp spec fn keypair_address(key: SigningKey) -> Option<Address>;

/// The header, the keys and the compiled call of the message that holds
/// one call and is paid for by `payer`.
pub uninterp spec fn compiled_keys(call: ProgramCallView, payer: Address) -> (
    MessageHeader,
    Seq<Address>,
    Seq<CompiledCallView>,
);

/// The bytes of a message on the wire: what a signature is made over.
pub uninterp spec fn serialized_message(message: CompiledMessageView) -> Seq<u8>;

/// The signature of a key pair over a message's bytes; nothing where the
/// 64 bytes are no key pair.
pub uninterp spec fn message_signature(key: SigningKey, message: Seq<u8>) -> Option<Signature>;

/// `Keypair::from_bytes` and `Signer::pubkey` of solana_sdk: the public
/// key of the key pair that the 64 bytes hold, or `None` where they hold
/// none. The result is a function of the bytes alone.
#[verifier::external_body]
pub(crate) fn public_key(key: &SigningKey) -> (r: Option<Address>)
    ensures
        r == keypair_address(*key),
{
    Keypair::from_bytes(&key.bytes).ok().map(|pair| Address { bytes: pair.pubkey().to_bytes() })
}

/// `Message::new` of solana_sdk, on one instruction with a payer: the
/// header, the list of keys and the compiled instruction of the message.
/// The result is a function of the call and of the payer alone. The call
/// may name at most 64 accounts: the outside function panics where a
/// message would need more than 255 keys of one kind.
#[verifier::external_body]
pub(crate) fn compile_call(call: &ProgramCall, payer: &Address) -> (r: (
    (u8, u8, u8),
    Vec<Address>,
    Vec<CompiledCall>,
))
    requires
        call.accounts@.len() <= MAX_CALL_ACCOUNTS,
    ensures
        (
            (MessageHeader {
                num_required_signatures: r.0.0,
                num_readonly_signed_accounts: r.0.1,
                num_readonly_unsigned_accounts: r.0.2,
            }),
            r.1@,
            calls_view(r.2@),
        ) == compiled_keys(call@, *payer),
{
    let outside = Instruction {
        program_id: call.program_id.bytes.into(),
        accounts: call.accounts.iter().map(|a| AccountMeta { pubkey: a.address.bytes.into(), is_signer: a.is_signer, is_writable: a.is_writable }).collect(),
        data: call.data.clone(),
    };
    let m = Message::new(&[outside], Some(&payer.bytes.into()));
    (
        (m.header.num_required_signatures, m.header.num_readonly_signed_accounts, m.header.num_readonly_unsigned_accounts),
        m.account_keys.iter().map(|key| Address { bytes: key.to_bytes() }).collect(),
        m.instructions.into_iter().map(|c| CompiledCall { program_id_index: c.program_id_index, accounts: c.accounts, data: c.data }).collect(),
    )
}

/// `Message::serialize` of solana_sdk: the bytes of the message on the
/// wire. The result is a function of the message alone. No list of the
/// message may be longer than the wire format can count: the outside
/// function panics on a longer one.
#[verifier::external_body]
pub(crate) fn serialize_message(message: &CompiledMessage) -> (r: Vec<u8>)
    requires
        message@.fits_wire(),
    ensures
        r@ == serialized_message(message@),
{
    let outside = Message {
        header: solana_sdk::message::MessageHeader {
            num_required_signatures: message.header.num_required_signatures,
            num_readonly_signed_accounts: message.header.num_readonly_signed_accounts,
            num_readonly_unsigned_accounts: message.header.num_readonly_unsigned_accounts,
        },
        account_keys: message.account_keys.iter().map(|key| Pubkey::from(key.bytes)).collect(),
        recent_blockhash: hash::Hash::from(message.recent_blockhash.bytes),
        instructions: message.calls.iter().map(|c| CompiledInstruction { program_id_index: c.program_id_index, accounts: c.accounts.clone(), data: c.data.clone() }).collect(),
    };
    outside.serialize()
}

/// `Keypair::from_bytes` and `Signer::sign_message` of solana_sdk: the
/// signature of the key pair over the bytes, or `None` where the 64 bytes
/// hold no key pair. The result is a function of the key and of the bytes
/// alone.
#[verifier::external_body]
pub(crate) fn sign_bytes(key: &SigningKey, message: &[u8]) -> (r: Option<Signature>)
    ensures
        r == message_signature(*key, message@),
{
    Keypair::from_bytes(&key.bytes).ok().map(|pair| Signature { bytes: pair.sign_message(message).into() })
}

/// Whether two byte strings are the same.
pub fn same_data(a: &[u8], b: &[u8]) -> (r: bool)
    ensures
        r == (a@ == b@),
{
    if a.len() != b.len() {
        return false;
    }
    let mut i: usize = 0;
    while i < a.len()
        invariant
            i <= a@.len(),
            a@.len() == b@.len(),
            forall|j: int| 0 <= j < i ==> a@[j] == b@[j],
        decreases a@.len() - i,
    {
        if a[i] != b[i] {
            return false;
        }
        i += 1;
    }
    assert(a@ =~= b@);
    true
}

impl CompiledMessageView {
    /// No list of the message is longer than the wire format can count.
    pub open spec fn fits_wire(self) -> bool {
        &&& self.account_keys.len() <= MAX_WIRE_ITEMS
        &&& self.calls.len() <= MAX_WIRE_ITEMS
        &&& forall|i: int|
            0 <= i < self.calls.len() ==> (#[trigger] self.calls[i]).accounts.len()
                <= MAX_WIRE_ITEMS && self.calls[i].data.len() <= MAX_WIRE_ITEMS
    }

    /// The message holds `call` and nothing else, and `payer` alone signs
    /// and pays for it: the one compiled call names the program, the
    /// accounts in their order and the data of `call`.
    pub open spec fn carries(self, call: ProgramCallView, payer: Address) -> bool {
        &&& self.header.num_required_signatures == 1
        &&& 0 < self.account_keys.len() <= MAX_MESSAGE_KEYS
        &&& self.account_keys[0] == payer
        &&& self.calls.len() == 1
        &&& self.calls[0].program_id_index < self.account_keys.len()
        &&& self.account_keys[self.calls[0].program_id_index as int] == call.program_id
        &&& self.calls[0].data == call.data
        &&& self.calls[0].accounts.len() == call.accounts.len()
        &&& forall|j: int|
            0 <= j < call.accounts.len() ==> (#[trigger] self.calls[0].accounts[j])
                < self.account_keys.len() && self.account_keys[self.calls[0].accounts[j] as int]
                == call.accounts[j].address
    }
}

impl CompiledMessage {
    /// Whether the message holds `call` and nothing else, signed and paid
    /// for by `payer` alone.
    pub fn carries(&self, call: &ProgramCall, payer: &Address) -> (r: bool)
        ensures
            r == self@.carries(call@, *payer),
    {
        let n: usize = self.account_keys.len();
        if self.header.num_required_signatures != 1 || n == 0 || n > MAX_MESSAGE_KEYS {
            return false;
        }
        if !self.account_keys[0].same(payer) || self.calls.len() != 1 {
            return false;
        }
        let compiled = &self.calls[0];
        assert(self@.calls[0] == compiled@);
        let program: usize = compiled.program_id_index as usize;
        if program >= n || !self.account_keys[program].same(&call.program_id) {
            return false;
        }
        if !same_data(compiled.data.as_slice(), call.data.as_slice()) {
            return false;
        }
        if compiled.accounts.len() != call.accounts.len() {
            return false;
        }
        let mut j: usize = 0;
        while j < compiled.accounts.len()
            invariant
                j <= compiled.accounts@.len(),
                compiled.accounts@.len() == call.accounts@.len(),
                n == self.account_keys@.len(),
                self@.calls.len() == 1,
                self@.calls[0] == compiled@,
                forall|k: int|
                    0 <= k < j ==> (#[trigger] compiled.accounts@[k]) < n
                        && self.account_keys@[compiled.accounts@[k] as int]
                        == call.accounts@[k].address,
            decreases compiled.accounts@.len() - j,
        {
            let index: usize = compiled.accounts[j] as usize;
            if index >= n || !self.account_keys[index].same(&call.accounts[j].address) {
                assert(self@.calls[0].accounts[j as int] == compiled.accounts@[j as int]);
                return false;
            }
            j += 1;
        }
        true
    }
}

/// Builds the transfers of the destination chain: calls of one program on
/// one fixed account and one sequencing account.
#[derive(Clone, Copy, Debug, PartialEq, Eq)]
pub struct TransactionBuilder {
    pub program_id: Address,
    pub fixed_account: Address,
    pub nonce_account: Address,
}

impl TransactionBuilder {
    pub fn new(program_id: Address, fixed_account: Address, nonce_account: Address) -> (b:
        TransactionBuilder)
        ensures
            b.program_id == program_id,
            b.fixed_account == fixed_account,
            b.nonce_account == nonce_account,
    {
        TransactionBuilder { program_id, fixed_account, nonce_account }
    }

    /// The data of a transfer call: the amount in little-endian bytes, then
    /// the destination.
    pub open spec fn encoded_transfer(amount: u64, to: Address) -> Seq<u8> {
        u64_le_bytes(amount) + to@
    }

    /// The amount and the destination that the data of a call asks for;
    /// nothing where the data has not the length of a transfer.
    pub open spec fn decoded_transfer(data: Seq<u8>) -> Option<(u64, Address)> {
        if data.len() == TRANSFER_DATA_LEN {
            Some((le_u64(data.subrange(0, 8)) as u64, address_from(data.subrange(8, 40))))
        } else {
            None
        }
    }

    /// The accounts of a transfer call, in the order in which the program
    /// expects them: the payer, who signs; the destination; the fixed
    /// account; the sequencing account. All four may be written.
    pub open spec fn accounts_of(self, to: Address, payer: Address) -> Seq<AccountRef> {
        seq![
            AccountRef { address: payer, is_signer: true, is_writable: true },
            AccountRef { address: to, is_signer: false, is_writable: true },
            AccountRef { address: self.fixed_account, is_signer: false, is_writable: true },
            AccountRef { address: self.nonce_account, is_signer: false, is_writable: true },
        ]
    }

    /// The call that transfers `amount` to `to`.
    pub open spec fn call_of(self, amount: u64, to: Address, payer: Address) -> ProgramCallView {
        ProgramCallView {
            program_id: self.program_id,
            accounts: self.accounts_of(to, payer),
            data: Self::encoded_transfer(amount, to),
        }
    }

    /// The message that carries the transfer, as far as it was compiled
    /// into one that holds the call and nothing else.
    pub open spec fn message_of(
        self,
        amount: u64,
        to: Address,
        payer: Address,
        blockhash: Blockhash,
    ) -> Option<CompiledMessageView> {
        let call = self.call_of(amount, to, payer);
        let parts = compiled_keys(call, payer);
        let message = CompiledMessageView {
            header: parts.0,
            account_keys: parts.1,
            recent_blockhash: blockhash,
            calls: parts.2,
        };
        if message.carries(call, payer) {
            Some(message)
        } else {
            None
        }
    }

    /// The signed transaction that transfers `amount` to `to`, fresh as of
    /// `blockhash`; nothing where the key is no key pair or the compiled
    /// message does not carry the transfer.
    pub open spec fn built(self, amount: u64, to: Address, key: SigningKey, blockhash: Blockhash)
        -> Option<SignedTransactionView> {
        match keypair_address(key) {
            None => None,
            Some(payer) => match self.message_of(amount, to, payer, blockhash) {
                None => None,
                Some(message) => match message_signature(key, serialized_message(message)) {
                    None => None,
                    Some(signature) => Some(
                        SignedTransactionView { signatures: seq![signature], message },
                    ),
                },
            },
        }
    }

    /// Writes the data of the call that transfers `amount` to `to`.
    pub fn transfer_data(amount: u64, to: &Address) -> (data: Vec<u8>)
        ensures
            data@ == Self::encoded_transfer(amount, *to),
            data@.len() == TRANSFER_DATA_LEN,
    {
        let mut data: Vec<u8> = Vec::new();
        push_u64_le(&mut data, amount);
        let mut tail = bytes_of(&to.bytes);
        data.append(&mut tail);
        data
    }

    /// Reads the amount and the destination out of the data of a call.
    pub fn decode_transfer(data: &[u8]) -> (r: Option<(u64, Address)>)
        ensures
            r == Self::decoded_transfer(data@),
    {
        if data.len() != TRANSFER_DATA_LEN {
            return None;
        }
        let amount: u64 = read_u64_le(data, 0);
        let to = read_address(data, 8);
        Some((amount, to))
    }

    /// The call that transfers `amount` to `to`, signed and paid for by
    /// `payer`.
    pub fn transfer_call(&self, amount: u64, to: &Address, payer: &Address) -> (call: ProgramCall)
        ensures
            call@ == self.call_of(amount, *to, *payer),
    {
        let mut accounts: Vec<AccountRef> = Vec::new();
        accounts.push(AccountRef { address: *payer, is_signer: true, is_writable: true });
        accounts.push(AccountRef { address: *to, is_signer: false, is_writable: true });
        accounts.push(
            AccountRef { address: self.fixed_account, is_signer: false, is_writable: true },
        );
        accounts.push(
            AccountRef { address: self.nonce_account, is_signer: false, is_writable: true },
        );
        assert(accounts@ =~= self.accounts_of(*to, *payer));
        ProgramCall { program_id: self.program_id, accounts, data: Self::transfer_data(amount, to) }
    }

    /// Builds and signs the transaction that transfers `amount` to `to`.
    /// The message is compiled and signed by solana_sdk; it is handed out
    /// only where it carries the transfer that was asked for.
    pub fn build_transfer_transaction(
        &self,
        amount: u64,
        to: &Address,
        key: &SigningKey,
        blockhash: &Blockhash,
    ) -> (r: Result<SignedTransaction, RelayError>)
        ensures
            match r {
                Ok(tx) => self.built(amount, *to, *key, *blockhash) == Some(tx@),
                Err(e) => e == RelayError::Build && self.built(amount, *to, *key, *blockhash)
                    is None,
            },
    {
        let payer = match public_key(key) {
            Some(payer) => payer,
            None => {
                return Err(RelayError::Build);
            },
        };
        let call = self.transfer_call(amount, to, &payer);
        let (counts, account_keys, calls) = compile_call(&call, &payer);
        let message = CompiledMessage {
            header: MessageHeader {
                num_required_signatures: counts.0,
                num_readonly_signed_accounts: counts.1,
                num_readonly_unsigned_accounts: counts.2,
            },
            account_keys,
            recent_blockhash: *blockhash,
            calls,
        };
        if !message.carries(&call, &payer) {
            return Err(RelayError::Build);
        }
        let bytes = serialize_message(&message);
        match sign_bytes(key, bytes.as_slice()) {
            None => Err(RelayError::Build),
            Some(signature) => {
                let mut signatures: Vec<Signature> = Vec::new();
                signatures.push(signature);
                assert(signatures@ =~= seq![signature]);
                Ok(SignedTransaction { signatures, message })
            },
        }
    }
}

impl SignedTransactionView {
    /// The transfer that the transaction asks for: the amount and the
    /// destination in the data of its one call.
    pub open spec fn transfer(self) -> Option<(u64, Address)> {
        if self.message.calls.len() == 1 {
            TransactionBuilder::decoded_transfer(self.message.calls[0].data)
        } else {
            None
        }
    }
}

impl SignedTransaction {
    /// Decodes the transfer that the transaction asks for.
    pub fn transfer(&self) -> (r: Option<(u64, Address)>)
        ensures
            r == self@.transfer(),
    {
        if self.message.calls.len() != 1 {
            return None;
        }
        assert(self@.message.calls[0] == self.message.calls@[0]@);
        TransactionBuilder::decode_transfer(self.message.calls[0].data.as_slice())
    }
}

/// Decoding the data written for a transfer gives back the amount and the
/// destination.
pub proof fn lemma_transfer_round_trip(amount: u64, to: Address)
    ensures
        TransactionBuilder::decoded_transfer(TransactionBuilder::encoded_transfer(amount, to))
            == Some((amount, to)),
{
    let data = TransactionBuilder::encoded_transfer(amount, to);
    lemma_le_u64_of_bytes(amount);
    lemma_address_from_view(to);
    assert(data.subrange(0, 8) =~= u64_le_bytes(amount));
    assert(data.subrange(8, 40) =~= to@);
}

/// Whatever transaction is built for a transfer, decoding it gives back
/// exactly the amount and the destination that were asked for; the
/// destination is the second account of its call, the program is the
/// builder's, and the freshness token is the one that was given.
pub proof fn lemma_built_carries_transfer(
    builder: TransactionBuilder,
    amount: u64,
    to: Address,
    key: SigningKey,
    blockhash: Blockhash,
)
    requires
        builder.built(amount, to, key, blockhash) is Some,
    ensures
        ({
            let tx = builder.built(amount, to, key, blockhash).unwrap();
            let call = tx.message.calls[0];
            &&& tx.transfer() == Some((amount, to))
            &&& tx.message.recent_blockhash == blockhash
            &&& tx.signatures.len() == 1
            &&& tx.message.account_keys[call.program_id_index as int] == builder.program_id
            &&& call.accounts.len() == 4
            &&& tx.message.account_keys[call.accounts[1] as int] == to
            &&& keypair_address(key) == Some(tx.message.account_keys[0])
        }),
{
    lemma_transfer_round_trip(amount, to);
    let payer = keypair_address(key).unwrap();
    let tx = builder.built(amount, to, key, blockhash).unwrap();
    let call = builder.call_of(amount, to, payer);
    assert(tx.message.carries(call, payer));
    assert(call.accounts[1].address == to);
    assert(tx.message.account_keys[tx.message.calls[0].accounts[1] as int] == to);
}

} // verus!
