use crate::address::{address_from, read_address, Address};
use crate::bytes::{le_u64, read_u64_le};
use crate::error::RelayError;
use vstd::prelude::*;

verus! {

/// Where the event counter starts in the watched account. Every account
/// that the source program writes starts with an 8-byte tag of its own; the
/// fields follow it.
pub const NONCE_OFFSET: usize = 8;

/// The fewest bytes that hold an event counter.
pub const NONCE_STATUS_LEN: usize = 16;

/// Where the sender starts in a transfer record.
pub const INFO_FROM_OFFSET: usize = 8;

/// Where the destination starts in a transfer record.
pub const INFO_TO_OFFSET: usize = 40;

/// Where the amount starts in a transfer record.
pub const INFO_AMOUNT_OFFSET: usize = 72;

/// Where the event index starts in a transfer record.
pub const INFO_NONCE_OFFSET: usize = 80;

/// Where the asset-kind tag stands in a transfer record.
pub const INFO_TYPE_OFFSET: usize = 88;

/// The fewest bytes that hold a transfer record.
pub const INFO_LEN: usize = 89;

/// The kind of asset that a transfer moves.
#[derive(Clone, Copy, Debug, PartialEq, Eq, Structural)]
pub enum MessageType {
    Native,
    Token,
    NFT,
}

impl MessageType {
    /// The kind that a tag byte stands for: 0, 1 and 2 are known, every
    /// other byte is refused.
    pub open spec fn of_tag(value: u8) -> Result<MessageType, RelayError> {
        if value == 0 {
            Ok(MessageType::Native)
        } else if value == 1 {
            Ok(MessageType::Token)
        } else if value == 2 {
            Ok(MessageType::NFT)
        } else {
            Err(RelayError::InvalidTag)
        }
    }

    /// The kind of asset that a tag byte stands for.
    pub fn from_u8(value: u8) -> (r: Result<MessageType, RelayError>)
        ensures
            r == MessageType::of_tag(value),
            value > 2 <==> r == Err::<MessageType, RelayError>(RelayError::InvalidTag),
    {
        match value {
            0 => Ok(MessageType::Native),
            1 => Ok(MessageType::Token),
            2 => Ok(MessageType::NFT),
            _ => Err(RelayError::InvalidTag),
        }
    }
}

/// One transfer that the source chain recorded: the payload stored at the
/// address derived for one event index.
#[derive(Clone, Copy, Debug, PartialEq, Eq)]
pub struct Info {
    pub from: Address,
    pub to: Address,
    pub amount: u64,
    pub nonce: u64,
    pub message_type: MessageType,
}

impl Info {
    /// What the bytes of a transfer record hold. Data shorter than the
    /// record is refused first, an unknown asset kind second.
    pub open spec fn decoded(data: Seq<u8>) -> Result<Info, RelayError> {
        if data.len() < INFO_LEN {
            Err(RelayError::Decode)
        } else {
            match MessageType::of_tag(data[INFO_TYPE_OFFSET as int]) {
                Err(e) => Err(e),
                Ok(message_type) => Ok(
                    Info {
                        from: address_from(
                            data.subrange(INFO_FROM_OFFSET as int, INFO_TO_OFFSET as int),
                        ),
                        to: address_from(
                            data.subrange(INFO_TO_OFFSET as int, INFO_AMOUNT_OFFSET as int),
                        ),
                        amount: le_u64(
                            data.subrange(INFO_AMOUNT_OFFSET as int, INFO_NONCE_OFFSET as int),
                        ) as u64,
                        nonce: le_u64(
                            data.subrange(INFO_NONCE_OFFSET as int, INFO_TYPE_OFFSET as int),
                        ) as u64,
                        message_type,
                    },
                ),
            }
        }
    }

    /// Decodes a transfer record from the data of its account.
    pub fn from_bytes(data: &[u8]) -> (r: Result<Info, RelayError>)
        ensures
            r == Info::decoded(data@),
            data@.len() < INFO_LEN ==> r == Err::<Info, RelayError>(RelayError::Decode),
            data@.len() >= INFO_LEN && data@[INFO_TYPE_OFFSET as int] > 2 ==> r == Err::<
                Info,
                RelayError,
            >(RelayError::InvalidTag),
            data@.len() >= INFO_LEN && data@[INFO_TYPE_OFFSET as int] <= 2 ==> r is Ok,
            r matches Ok(info) ==> {
                &&& info.from@ == data@.subrange(INFO_FROM_OFFSET as int, INFO_TO_OFFSET as int)
                &&& info.to@ == data@.subrange(INFO_TO_OFFSET as int, INFO_AMOUNT_OFFSET as int)
                &&& info.amount as nat == le_u64(
                    data@.subrange(INFO_AMOUNT_OFFSET as int, INFO_NONCE_OFFSET as int),
                )
                &&& info.nonce as nat == le_u64(
                    data@.subrange(INFO_NONCE_OFFSET as int, INFO_TYPE_OFFSET as int),
                )
                &&& MessageType::of_tag(data@[INFO_TYPE_OFFSET as int]) == Ok::<
                    MessageType,
                    RelayError,
                >(info.message_type)
            },
    {
        if data.len() < INFO_LEN {
            return Err(RelayError::Decode);
        }
        let message_type = match MessageType::from_u8(data[INFO_TYPE_OFFSET]) {
            Ok(t) => t,
            Err(e) => {
                return Err(e);
            },
        };
        let from = read_address(data, INFO_FROM_OFFSET);
        let to = read_address(data, INFO_TO_OFFSET);
        let amount: u64 = read_u64_le(data, INFO_AMOUNT_OFFSET);
        let nonce: u64 = read_u64_le(data, INFO_NONCE_OFFSET);
        Ok(Info { from, to, amount, nonce, message_type })
    }
}

/// The event counter of the watched account: how many events the source
/// chain has emitted so far.
#[derive(Clone, Copy, Debug, PartialEq, Eq, Structural)]
pub struct NonceStatus {
    pub nonce: u64,
}

impl NonceStatus {
    /// What the data of the watched account holds: the little-endian
    /// counter behind the account's tag, or nothing where the data is too
    /// short for it.
    pub open spec fn decoded(data: Seq<u8>) -> Result<NonceStatus, RelayError> {
        if data.len() < NONCE_STATUS_LEN {
            Err(RelayError::Decode)
        } else {
            Ok(
                NonceStatus {
                    nonce: le_u64(data.subrange(NONCE_OFFSET as int, NONCE_STATUS_LEN as int)) as u64,
                },
            )
        }
    }

    /// Decodes the event counter from the data of the watched account.
    pub fn from_bytes(data: &[u8]) -> (r: Result<NonceStatus, RelayError>)
        ensures
            r == NonceStatus::decoded(data@),
            data@.len() < NONCE_STATUS_LEN ==> r == Err::<NonceStatus, RelayError>(
                RelayError::Decode,
            ),
            data@.len() >= NONCE_STATUS_LEN ==> r is Ok && r.unwrap().nonce as nat == le_u64(
                data@.subrange(NONCE_OFFSET as int, NONCE_STATUS_LEN as int),
            ),
    {
        if data.len() < NONCE_STATUS_LEN {
            return Err(RelayError::Decode);
        }
        let nonce: u64 = read_u64_le(data, NONCE_OFFSET);
        Ok(NonceStatus { nonce })
    }
}

} // verus!
