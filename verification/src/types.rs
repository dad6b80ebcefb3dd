//! The values that requests carry and that storage holds.
use vstd::prelude::*;

verus! {

/// Extra ledgers beyond a link's time to live, so that its data stays readable
/// for a while after the ledger at which the link expires.
pub const PAYLINK_TTL_BUFFER_LEDGERS: u32 = 16_384;

/// Text as the ledger keeps it: bytes, not necessarily UTF-8.
pub type Text = Vec<u8>;

/// The ledger measures text by a `u32`.
pub open spec fn text_fits(text: Seq<u8>) -> bool {
    text.len() <= u32::MAX
}

/// The key under which a value is stored.
///
/// Keys that carry a name live in persistent storage; the two without one live
/// in the storage of the contract instance.
#[derive(Clone)]
pub enum DataKey {
    Creator(Text),
    PayLink(Text),
    Admin,
    Balance(Text),
    StakeBalance(Text),
    Paused,
}

/// Where a named key stands in persistent storage: its tag and its name.
pub type Slot = (Seq<char>, Seq<u8>);

impl DataKey {
    /// The symbol that tells the kinds of key apart.
    pub open spec fn tag_view(self) -> Seq<char> {
        match self {
            DataKey::Creator(_) => "Creator"@,
            DataKey::PayLink(_) => "PayLink"@,
            DataKey::Admin => "Admin"@,
            DataKey::Balance(_) => "Balance"@,
            DataKey::StakeBalance(_) => "StakeBalance"@,
            DataKey::Paused => "Paused"@,
        }
    }

    /// The name that the key carries, if it carries one.
    pub open spec fn name_view(self) -> Option<Seq<u8>> {
        match self {
            DataKey::Creator(name) => Some(name@),
            DataKey::PayLink(name) => Some(name@),
            DataKey::Balance(name) => Some(name@),
            DataKey::StakeBalance(name) => Some(name@),
            DataKey::Admin => None,
            DataKey::Paused => None,
        }
    }

    /// The slot of a key that carries a name.
    pub open spec fn slot(self) -> Slot
        recommends
            self.name_view() is Some,
    {
        (self.tag_view(), self.name_view()->0)
    }
}

/// A payment link as it is stored.
#[derive(Clone, Debug, Eq, PartialEq)]
pub struct PayLinkData {
    pub creator_username: Text,
    pub amount: i128,
    pub note: Text,
    pub expiration_ledger: u32,
    /// Reserved for single-payment enforcement when a link is claimed or settled.
    pub paid: bool,
    pub cancelled: bool,
}

/// A payment link as a mathematical value.
#[verifier::ext_equal]
pub struct PayLinkView {
    pub creator_username: Seq<u8>,
    pub amount: i128,
    pub note: Seq<u8>,
    pub expiration_ledger: u32,
    pub paid: bool,
    pub cancelled: bool,
}

impl View for PayLinkData {
    type V = PayLinkView;

    open spec fn view(&self) -> PayLinkView {
        PayLinkView {
            creator_username: self.creator_username@,
            amount: self.amount,
            note: self.note@,
            expiration_ledger: self.expiration_ledger,
            paid: self.paid,
            cancelled: self.cancelled,
        }
    }
}

/// Why a request was refused.
#[derive(Copy, Clone, Debug, Eq, PartialEq, PartialOrd, Ord, Structural)]
pub enum Error {
    PayLinkAlreadyExists,
    InvalidAmount,
    CreatorNotFound,
    LedgerOverflow,
    Unauthorized,
    UserNotFound,
    ContractPaused,
    InsufficientBalance,
    PayLinkNotFound,
    NotPayLinkCreator,
    PayLinkAlreadyPaid,
}

impl Error {
    /// The number by which callers outside the contract know the error.
    pub open spec fn code_view(self) -> u32 {
        match self {
            Error::PayLinkAlreadyExists => 1,
            Error::InvalidAmount => 2,
            Error::CreatorNotFound => 3,
            Error::LedgerOverflow => 4,
            Error::Unauthorized => 5,
            Error::UserNotFound => 6,
            Error::ContractPaused => 7,
            Error::InsufficientBalance => 8,
            Error::PayLinkNotFound => 9,
            Error::NotPayLinkCreator => 10,
            Error::PayLinkAlreadyPaid => 11,
        }
    }

    /// The number by which callers outside the contract know the error.
    pub fn code(self) -> (code: u32)
        ensures
            code == self.code_view(),
    {
        match self {
            Error::PayLinkAlreadyExists => 1,
            Error::InvalidAmount => 2,
            Error::CreatorNotFound => 3,
            Error::LedgerOverflow => 4,
            Error::Unauthorized => 5,
            Error::UserNotFound => 6,
            Error::ContractPaused => 7,
            Error::InsufficientBalance => 8,
            Error::PayLinkNotFound => 9,
            Error::NotPayLinkCreator => 10,
            Error::PayLinkAlreadyPaid => 11,
        }
    }
}

} // verus!
