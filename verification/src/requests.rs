//! What each request answers, and what it leaves in the ledger.
use crate::ledger::{
    balance_slot, creator_slot, link_slot, stake_slot, Datum, LedgerView, Stored,
};
use crate::types::{Error, PayLinkView, Slot, PAYLINK_TTL_BUFFER_LEDGERS};
use soroban_sdk::Address;
use vstd::prelude::*;

verus! {

impl LedgerView {
    /// The ledger after `admin` was made the administrator.
    pub open spec fn after_set_admin(self, admin: Address) -> Self {
        self.put_instance("Admin"@, Stored::Account(admin))
    }

    /// The ledger after `username` was registered as a creator.
    pub open spec fn after_register_creator(self, username: Seq<u8>) -> Self {
        self.put(creator_slot(username), Stored::Flag(true))
    }

    /// The answer to a request to stake `amount` of the balance of `username`.
    pub open spec fn stake_answer(self, username: Seq<u8>, amount: i128) -> Result<(), Error> {
        if self.admin() is None {
            Err(Error::Unauthorized)
        } else if self.paused() {
            Err(Error::ContractPaused)
        } else if amount <= 0 {
            Err(Error::InvalidAmount)
        } else if !self.registered(username) {
            Err(Error::UserNotFound)
        } else if self.balance(username) < amount {
            Err(Error::InsufficientBalance)
        } else {
            Ok(())
        }
    }

    /// The staked balance that an accepted stake leaves is a number that can be stored.
    pub open spec fn stake_in_range(self, username: Seq<u8>, amount: i128) -> bool {
        self.stake_answer(username, amount) is Ok ==> self.stake_balance(username) + amount
            <= i128::MAX
    }

    /// The ledger after a request to stake `amount` of the balance of `username`.
    pub open spec fn after_stake(self, username: Seq<u8>, amount: i128) -> Self {
        if self.stake_answer(username, amount) is Ok {
            let balance = (self.balance(username) - amount) as i128;
            let staked = (self.stake_balance(username) + amount) as i128;
            self.put(balance_slot(username), Stored::Amount(balance)).put(
                stake_slot(username),
                Stored::Amount(staked),
            ).bump(balance_slot(username)).bump(stake_slot(username)).publish(
                "staked"@,
                seq![
                    Datum::Text(username),
                    Datum::Amount(amount),
                    Datum::Amount(staked),
                    Datum::Ledger(self.sequence),
                ],
            )
        } else {
            self
        }
    }

    /// The answer to a request to credit `amount` of yield to `username`.
    pub open spec fn credit_yield_answer(self, username: Seq<u8>, amount: i128) -> Result<
        (),
        Error,
    > {
        if self.admin() is None {
            Err(Error::Unauthorized)
        } else if amount <= 0 {
            Err(Error::InvalidAmount)
        } else if !self.registered(username) {
            Err(Error::UserNotFound)
        } else {
            Ok(())
        }
    }

    /// The staked balance that an accepted credit leaves is a number that can be stored.
    pub open spec fn credit_yield_in_range(self, username: Seq<u8>, amount: i128) -> bool {
        self.credit_yield_answer(username, amount) is Ok ==> self.stake_balance(username) + amount
            <= i128::MAX
    }

    /// The ledger after a request to credit `amount` of yield to `username`.
    pub open spec fn after_credit_yield(self, username: Seq<u8>, amount: i128) -> Self {
        if self.credit_yield_answer(username, amount) is Ok {
            let staked = (self.stake_balance(username) + amount) as i128;
            self.put(stake_slot(username), Stored::Amount(staked)).bump(
                stake_slot(username),
            ).publish(
                "yield_credited"@,
                seq![
                    Datum::Text(username),
                    Datum::Amount(amount),
                    Datum::Amount(staked),
                    Datum::Ledger(self.sequence),
                ],
            )
        } else {
            self
        }
    }

    /// Why a link cannot be opened, up to the point where it is stored.
    pub open spec fn create_paylink_refusal(
        self,
        creator_username: Seq<u8>,
        token_id: Seq<u8>,
        amount: i128,
        ttl_ledgers: u32,
    ) -> Option<Error> {
        if !self.registered(creator_username) {
            Some(Error::CreatorNotFound)
        } else if amount <= 0 {
            Some(Error::InvalidAmount)
        } else if self.link(token_id) is Some {
            Some(Error::PayLinkAlreadyExists)
        } else if self.sequence + ttl_ledgers > u32::MAX {
            Some(Error::LedgerOverflow)
        } else {
            None
        }
    }

    /// The answer to a request to open a link.
    pub open spec fn create_paylink_answer(
        self,
        creator_username: Seq<u8>,
        token_id: Seq<u8>,
        amount: i128,
        ttl_ledgers: u32,
    ) -> Result<(), Error> {
        match self.create_paylink_refusal(creator_username, token_id, amount, ttl_ledgers) {
            Some(error) => Err(error),
            None => if ttl_ledgers + PAYLINK_TTL_BUFFER_LEDGERS > u32::MAX {
                Err(Error::LedgerOverflow)
            } else {
                Ok(())
            },
        }
    }

    /// The link that a request opens.
    pub open spec fn new_link(
        self,
        creator_username: Seq<u8>,
        amount: i128,
        note: Seq<u8>,
        ttl_ledgers: u32,
    ) -> PayLinkView {
        PayLinkView {
            creator_username,
            amount,
            note,
            expiration_ledger: (self.sequence + ttl_ledgers) as u32,
            paid: false,
            cancelled: false,
        }
    }

    /// The ledger after a request to open a link.
    ///
    /// The link is stored before its life is computed: where that computation
    /// overflows, the request is refused with the link already written, and it is
    /// left to the host to take back what a refused invocation wrote.
    pub open spec fn after_create_paylink(
        self,
        creator_username: Seq<u8>,
        token_id: Seq<u8>,
        amount: i128,
        note: Seq<u8>,
        ttl_ledgers: u32,
    ) -> Self {
        let link = self.new_link(creator_username, amount, note, ttl_ledgers);
        let stored = self.put(link_slot(token_id), Stored::Link(link));
        if self.create_paylink_refusal(creator_username, token_id, amount, ttl_ledgers) is Some {
            self
        } else if ttl_ledgers + PAYLINK_TTL_BUFFER_LEDGERS > u32::MAX {
            stored
        } else {
            let life = (ttl_ledgers + PAYLINK_TTL_BUFFER_LEDGERS) as u32;
            stored.extend(link_slot(token_id), life, life).publish(
                "paylink_created"@,
                seq![
                    Datum::Text(creator_username),
                    Datum::Text(token_id),
                    Datum::Amount(amount),
                    Datum::Ledger(link.expiration_ledger),
                ],
            )
        }
    }

    /// The answer to a request of `requester_username` to cancel a link.
    pub open spec fn cancel_paylink_answer(
        self,
        requester_username: Seq<u8>,
        token_id: Seq<u8>,
    ) -> Result<(), Error> {
        match self.link(token_id) {
            None => Err(Error::PayLinkNotFound),
            Some(link) => if link.creator_username != requester_username {
                Err(Error::NotPayLinkCreator)
            } else if link.paid {
                Err(Error::PayLinkAlreadyPaid)
            } else {
                Ok(())
            },
        }
    }

    /// The ledger after a request of `requester_username` to cancel a link.
    pub open spec fn after_cancel_paylink(
        self,
        requester_username: Seq<u8>,
        token_id: Seq<u8>,
    ) -> Self {
        if self.cancel_paylink_answer(requester_username, token_id) is Ok {
            let link = PayLinkView { cancelled: true, ..self.link(token_id)->0 };
            self.put(link_slot(token_id), Stored::Link(link)).publish(
                "paylink_cancelled"@,
                seq![Datum::Text(requester_username), Datum::Text(token_id)],
            )
        } else {
            self
        }
    }

    /// The life of an entry is at least the buffer, as far as the network grants it.
    pub open spec fn bump(self, slot: Slot) -> Self {
        self.extend(slot, PAYLINK_TTL_BUFFER_LEDGERS, PAYLINK_TTL_BUFFER_LEDGERS)
    }
}

} // verus!
