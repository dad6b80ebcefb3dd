//! What holds across requests.
use crate::ledger::{
    balance_slot, lemma_tags_differ, link_slot, stake_slot, LedgerView, Stored,
};
use crate::types::{DataKey, Error, PayLinkView, Slot, PAYLINK_TTL_BUFFER_LEDGERS};
use soroban_sdk::Address;
use vstd::prelude::*;

verus! {

/// A request that may change the ledger.
pub enum Request {
    SetAdmin { admin: Address },
    RegisterCreator { username: Seq<u8> },
    Stake { username: Seq<u8>, amount: i128 },
    CreditYield { username: Seq<u8>, amount: i128 },
    CreatePayLink {
        creator_username: Seq<u8>,
        token_id: Seq<u8>,
        amount: i128,
        note: Seq<u8>,
        ttl_ledgers: u32,
    },
    CancelPayLink { requester_username: Seq<u8>, token_id: Seq<u8> },
}

impl LedgerView {
    /// The request does not end the invocation.
    pub open spec fn admits(self, request: Request) -> bool {
        match request {
            Request::SetAdmin { .. } => self.admin() is None,
            Request::RegisterCreator { .. } => true,
            Request::Stake { username, amount } => self.stake_in_range(username, amount),
            Request::CreditYield { username, amount } => self.credit_yield_in_range(
                username,
                amount,
            ),
            Request::CreatePayLink { .. } => true,
            Request::CancelPayLink { .. } => true,
        }
    }

    /// The answer to the request.
    pub open spec fn answer(self, request: Request) -> Result<(), Error> {
        match request {
            Request::SetAdmin { .. } => Ok(()),
            Request::RegisterCreator { .. } => Ok(()),
            Request::Stake { username, amount } => self.stake_answer(username, amount),
            Request::CreditYield { username, amount } => self.credit_yield_answer(username, amount),
            Request::CreatePayLink { creator_username, token_id, amount, ttl_ledgers, .. } =>
                self.create_paylink_answer(creator_username, token_id, amount, ttl_ledgers),
            Request::CancelPayLink { requester_username, token_id } => self.cancel_paylink_answer(
                requester_username,
                token_id,
            ),
        }
    }

    /// The ledger after the request.
    pub open spec fn after(self, request: Request) -> Self {
        match request {
            Request::SetAdmin { admin } => self.after_set_admin(admin),
            Request::RegisterCreator { username } => self.after_register_creator(username),
            Request::Stake { username, amount } => self.after_stake(username, amount),
            Request::CreditYield { username, amount } => self.after_credit_yield(username, amount),
            Request::CreatePayLink { creator_username, token_id, amount, note, ttl_ledgers } =>
                self.after_create_paylink(creator_username, token_id, amount, note, ttl_ledgers),
            Request::CancelPayLink { requester_username, token_id } => self.after_cancel_paylink(
                requester_username,
                token_id,
            ),
        }
    }

    /// No balance is negative, and every link asks for something in the name of a
    /// registered creator.
    pub open spec fn sound(self) -> bool {
        &&& forall|name: Seq<u8>| #[trigger] self.balance(name) >= 0
        &&& forall|name: Seq<u8>| #[trigger] self.stake_balance(name) >= 0
        &&& forall|token_id: Seq<u8>|
            (#[trigger] self.link(token_id)) matches Some(link) ==> link.amount > 0
                && self.registered(link.creator_username)
    }
}

/// A link that was opened is read back: it asks for the amount in its creator's name,
/// with the note, until the ledger at which it expires, unpaid and not cancelled.
pub proof fn law_created_link_is_read_back(
    before: LedgerView,
    creator_username: Seq<u8>,
    token_id: Seq<u8>,
    amount: i128,
    note: Seq<u8>,
    ttl_ledgers: u32,
)
    requires
        before.create_paylink_answer(creator_username, token_id, amount, ttl_ledgers) is Ok,
    ensures
        before.after_create_paylink(creator_username, token_id, amount, note, ttl_ledgers).link(
            token_id,
        ) matches Some(link) && {
            &&& link.creator_username == creator_username
            &&& link.amount == amount
            &&& link.note == note
            &&& link.expiration_ledger == before.sequence + ttl_ledgers
            &&& !link.paid
            &&& !link.cancelled
        },
{
}

/// Once a link was opened, no other can be opened under its token: a registered
/// creator who asks for a positive amount is told that it exists.
pub proof fn law_token_is_used_once(
    before: LedgerView,
    creator_username: Seq<u8>,
    token_id: Seq<u8>,
    amount: i128,
    note: Seq<u8>,
    ttl_ledgers: u32,
    second_creator: Seq<u8>,
    second_amount: i128,
    second_ttl: u32,
)
    requires
        before.create_paylink_answer(creator_username, token_id, amount, ttl_ledgers) is Ok,
    ensures
        ({
            let after = before.after_create_paylink(
                creator_username,
                token_id,
                amount,
                note,
                ttl_ledgers,
            );
            let answer = after.create_paylink_answer(
                second_creator,
                token_id,
                second_amount,
                second_ttl,
            );
            &&& answer is Err
            &&& after.registered(second_creator) && second_amount > 0 ==> answer
                == Err::<(), Error>(Error::PayLinkAlreadyExists)
        }),
{
}

/// The data of a link that was opened stays readable for the buffer beyond the ledger
/// at which the link expires, as far as the network grants it.
pub proof fn law_link_outlives_its_expiry(
    before: LedgerView,
    creator_username: Seq<u8>,
    token_id: Seq<u8>,
    amount: i128,
    note: Seq<u8>,
    ttl_ledgers: u32,
)
    requires
        before.create_paylink_answer(creator_username, token_id, amount, ttl_ledgers) is Ok,
    ensures
        ({
            let after = before.after_create_paylink(
                creator_username,
                token_id,
                amount,
                note,
                ttl_ledgers,
            );
            let entry = after.persistent[link_slot(token_id)];
            let last = after.link(token_id)->0.expiration_ledger + PAYLINK_TTL_BUFFER_LEDGERS;
            entry.live_until >= last || entry.live_until >= before.max_live_until
        }),
{
}

/// A cancelled link is marked as such and is otherwise what it was; no other link is
/// touched.
pub proof fn law_cancelling_marks_one_link(
    before: LedgerView,
    requester_username: Seq<u8>,
    token_id: Seq<u8>,
    other: Seq<u8>,
)
    requires
        before.cancel_paylink_answer(requester_username, token_id) is Ok,
    ensures
        ({
            let after = before.after_cancel_paylink(requester_username, token_id);
            &&& after.link(token_id) == Some(
                PayLinkView { cancelled: true, ..before.link(token_id)->0 },
            )
            &&& other != token_id ==> after.link(other) == before.link(other)
        }),
{
}

/// A link can be cancelled again: the answer is the same, and the link stays as the
/// first time left it.
pub proof fn law_cancelling_again_changes_no_link(
    before: LedgerView,
    requester_username: Seq<u8>,
    token_id: Seq<u8>,
)
    requires
        before.cancel_paylink_answer(requester_username, token_id) is Ok,
    ensures
        ({
            let once = before.after_cancel_paylink(requester_username, token_id);
            let twice = once.after_cancel_paylink(requester_username, token_id);
            &&& once.cancel_paylink_answer(requester_username, token_id) is Ok
            &&& twice.persistent == once.persistent
        }),
{
    let once = before.after_cancel_paylink(requester_username, token_id);
    let twice = once.after_cancel_paylink(requester_username, token_id);
    assert(twice.persistent =~= once.persistent);
}

/// Staking moves the amount from the liquid to the staked balance: their sum stays,
/// the liquid balance does not go below zero, and nobody else's balances change.
pub proof fn law_staking_moves_the_amount(
    before: LedgerView,
    username: Seq<u8>,
    amount: i128,
    other: Seq<u8>,
)
    requires
        before.stake_answer(username, amount) is Ok,
        before.stake_in_range(username, amount),
    ensures
        ({
            let after = before.after_stake(username, amount);
            &&& after.balance(username) == before.balance(username) - amount
            &&& after.stake_balance(username) == before.stake_balance(username) + amount
            &&& after.balance(username) + after.stake_balance(username) == before.balance(username)
                + before.stake_balance(username)
            &&& after.balance(username) >= 0
            &&& other != username ==> after.balance(other) == before.balance(other)
                && after.stake_balance(other) == before.stake_balance(other)
        }),
{
    lemma_tags_differ();
}

/// Crediting yield adds the amount to the staked balance, and changes no liquid
/// balance and nobody else's stake.
pub proof fn law_yield_adds_to_the_stake(
    before: LedgerView,
    username: Seq<u8>,
    amount: i128,
    other: Seq<u8>,
)
    requires
        before.credit_yield_answer(username, amount) is Ok,
        before.credit_yield_in_range(username, amount),
    ensures
        ({
            let after = before.after_credit_yield(username, amount);
            &&& after.stake_balance(username) == before.stake_balance(username) + amount
            &&& after.balance(other) == before.balance(other)
            &&& other != username ==> after.stake_balance(other) == before.stake_balance(other)
        }),
{
    lemma_tags_differ();
}

/// Whether the contract is paused makes no difference to the crediting of yield.
pub proof fn law_yield_ignores_the_pause(
    before: LedgerView,
    username: Seq<u8>,
    amount: i128,
    paused: bool,
)
    ensures
        ({
            let other = before.put_instance("Paused"@, Stored::Flag(paused));
            &&& other.credit_yield_answer(username, amount) == before.credit_yield_answer(
                username,
                amount,
            )
            &&& other.after_credit_yield(username, amount) == before.after_credit_yield(
                username,
                amount,
            ).put_instance("Paused"@, Stored::Flag(paused))
        }),
{
    lemma_tags_differ();
}

/// While the contract is paused nothing is staked.
pub proof fn law_pause_stops_staking(before: LedgerView, username: Seq<u8>, amount: i128)
    requires
        before.paused(),
    ensures
        before.stake_answer(username, amount) == (if before.admin() is Some {
            Err::<(), Error>(Error::ContractPaused)
        } else {
            Err(Error::Unauthorized)
        }),
        before.after_stake(username, amount) == before,
{
}

/// Without an administrator nothing is staked and no yield is credited.
pub proof fn law_no_administrator_no_stakes(before: LedgerView, username: Seq<u8>, amount: i128)
    requires
        before.admin() is None,
    ensures
        before.stake_answer(username, amount) == Err::<(), Error>(Error::Unauthorized),
        before.credit_yield_answer(username, amount) == Err::<(), Error>(Error::Unauthorized),
        before.after_stake(username, amount) == before,
        before.after_credit_yield(username, amount) == before,
{
}

/// A name that was registered is known from then on: the requests that ask for a
/// registered name no longer refuse it for want of one.
pub proof fn law_registering_admits_a_name(
    before: LedgerView,
    username: Seq<u8>,
    token_id: Seq<u8>,
    amount: i128,
    ttl_ledgers: u32,
)
    ensures
        ({
            let after = before.after_register_creator(username);
            &&& after.registered(username)
            &&& after.create_paylink_answer(username, token_id, amount, ttl_ledgers) != Err::<
                (),
                Error,
            >(Error::CreatorNotFound)
            &&& after.stake_answer(username, amount) != Err::<(), Error>(Error::UserNotFound)
            &&& after.credit_yield_answer(username, amount) != Err::<(), Error>(Error::UserNotFound)
        }),
{
}

/// A request that is refused leaves the ledger as it was. The one exception is a
/// request to open a link whose time to live leaves no room for the buffer, which is
/// refused after the link was written.
pub proof fn law_refusal_changes_nothing(before: LedgerView, request: Request)
    requires
        before.answer(request) is Err,
        !(request matches Request::CreatePayLink {
            creator_username,
            token_id,
            amount,
            ttl_ledgers,
            ..
        } && before.create_paylink_refusal(creator_username, token_id, amount, ttl_ledgers) is None),
    ensures
        before.after(request) == before,
{
}

/// Requests keep a ledger valid.
pub proof fn law_requests_keep_the_ledger_valid(before: LedgerView, request: Request)
    requires
        before.valid(),
    ensures
        before.after(request).valid(),
{
    lemma_tags_differ();
}

/// Requests keep the books sound: no balance goes below zero, and every link asks for
/// something in the name of a registered creator.
pub proof fn law_requests_keep_the_books_sound(before: LedgerView, request: Request)
    requires
        before.valid(),
        before.sound(),
        before.admits(request),
    ensures
        before.after(request).sound(),
{
    lemma_tags_differ();
    let after = before.after(request);
    assert forall|name: Seq<u8>| #[trigger] after.balance(name) >= 0 by {
        assert(before.balance(name) >= 0);
    }
    assert forall|name: Seq<u8>| #[trigger] after.stake_balance(name) >= 0 by {
        assert(before.stake_balance(name) >= 0);
    }
    assert forall|token_id: Seq<u8>| (#[trigger] after.link(token_id)) is Some implies {
        let link = after.link(token_id)->0;
        link.amount > 0 && after.registered(link.creator_username)
    } by {
        assert(before.link(token_id) matches Some(link) ==> link.amount > 0 && before.registered(
            link.creator_username,
        ));
    }
}

/// Once there is an administrator, no request changes who it is. No request pauses the
/// contract or ends a pause.
pub proof fn law_administrator_stays(before: LedgerView, request: Request)
    requires
        before.admits(request),
    ensures
        before.admin() is Some ==> before.after(request).admin() == before.admin(),
        before.after(request).paused() == before.paused(),
{
    lemma_tags_differ();
}

/// No request removes a registration.
pub proof fn law_registration_stays(before: LedgerView, request: Request, username: Seq<u8>)
    requires
        before.registered(username),
    ensures
        before.after(request).registered(username),
{
}

/// Only registering a name registers it.
pub proof fn law_registration_comes_from_registering(
    before: LedgerView,
    request: Request,
    username: Seq<u8>,
)
    requires
        !before.registered(username),
    ensures
        before.after(request).registered(username) <==> request == (Request::RegisterCreator {
            username,
        }),
{
    lemma_tags_differ();
}

/// Only a request to open a link puts one where there was none: under the token that it
/// names, unless it is refused before the link is stored.
pub proof fn law_link_comes_from_opening(before: LedgerView, request: Request, token_id: Seq<u8>)
    requires
        before.link(token_id) is None,
    ensures
        before.after(request).link(token_id) == match request {
            Request::CreatePayLink {
                creator_username,
                token_id: opened,
                amount,
                note,
                ttl_ledgers,
            } => if opened == token_id && before.create_paylink_refusal(
                creator_username,
                token_id,
                amount,
                ttl_ledgers,
            ) is None {
                Some(before.new_link(creator_username, amount, note, ttl_ledgers))
            } else {
                None
            },
            _ => None,
        },
{
    lemma_tags_differ();
}

/// Only staking changes a liquid balance, and only staking and crediting change a staked
/// one: each of them that of the name it is made for.
pub proof fn law_balances_change_by_staking_and_crediting(
    before: LedgerView,
    request: Request,
    name: Seq<u8>,
)
    ensures
        !(request matches Request::Stake { username, .. } && username == name)
            ==> before.after(request).balance(name) == before.balance(name),
        !(request matches Request::Stake { username, .. } && username == name) && !(
        request matches Request::CreditYield { username, .. } && username == name)
            ==> before.after(request).stake_balance(name) == before.stake_balance(name),
{
    lemma_tags_differ();
}

/// A link stays, and what it says stays, but for the mark that it was cancelled. Only
/// its creator sets that mark, by cancelling it while it is unpaid; nothing takes it
/// away, and no request marks a link as paid.
pub proof fn law_link_stays(before: LedgerView, request: Request, token_id: Seq<u8>)
    requires
        before.link(token_id) is Some,
    ensures
        ({
            let link = before.link(token_id)->0;
            let after = before.after(request).link(token_id);
            if request == (Request::CancelPayLink {
                requester_username: link.creator_username,
                token_id,
            }) && !link.paid {
                after == Some(PayLinkView { cancelled: true, ..link })
            } else {
                after == Some(link)
            }
        }),
{
    lemma_tags_differ();
}

/// Requests publish at most one event, and none is ever taken back. A request that is
/// answered with success publishes exactly one, but for those that set up the
/// administrator or a creator.
pub proof fn law_events_are_appended(before: LedgerView, request: Request)
    ensures
        ({
            let events = before.after(request).events;
            let silent = before.answer(request) is Err || request is SetAdmin
                || request is RegisterCreator;
            &&& silent ==> events == before.events
            &&& !silent ==> events.len() == before.events.len() + 1 && events.drop_last()
                == before.events
        }),
{
    let events = before.after(request).events;
    if events != before.events {
        assert(events.drop_last() =~= before.events);
    }
}

/// No request removes a persistent entry or shortens its life.
pub proof fn law_entries_live_on(before: LedgerView, request: Request, slot: Slot)
    requires
        before.persistent.contains_key(slot),
    ensures
        before.after(request).persistent.contains_key(slot),
        before.after(request).persistent[slot].live_until >= before.persistent[slot].live_until,
{
    lemma_tags_differ();
}

/// The balances that a stake or a credit touched stay readable for the buffer, as far
/// as the network grants it.
pub proof fn law_touched_balances_live_on(before: LedgerView, username: Seq<u8>, amount: i128)
    ensures
        before.stake_answer(username, amount) is Ok ==> {
            let after = before.after_stake(username, amount);
            let last = before.sequence + PAYLINK_TTL_BUFFER_LEDGERS;
            let balance = after.persistent[balance_slot(username)].live_until;
            let stake = after.persistent[stake_slot(username)].live_until;
            &&& balance >= last || balance >= before.max_live_until
            &&& stake >= last || stake >= before.max_live_until
        },
        before.credit_yield_answer(username, amount) is Ok ==> {
            let after = before.after_credit_yield(username, amount);
            let last = before.sequence + PAYLINK_TTL_BUFFER_LEDGERS;
            let stake = after.persistent[stake_slot(username)].live_until;
            stake >= last || stake >= before.max_live_until
        },
{
    lemma_tags_differ();
}

/// Two keys stand for the same place only where they are of the same kind and carry
/// the same name.
pub proof fn law_keys_do_not_collide(a: DataKey, b: DataKey)
    requires
        a.tag_view() == b.tag_view(),
        a.name_view() == b.name_view(),
    ensures
        match (a, b) {
            (DataKey::Creator(x), DataKey::Creator(y)) => x@ == y@,
            (DataKey::PayLink(x), DataKey::PayLink(y)) => x@ == y@,
            (DataKey::Balance(x), DataKey::Balance(y)) => x@ == y@,
            (DataKey::StakeBalance(x), DataKey::StakeBalance(y)) => x@ == y@,
            (DataKey::Admin, DataKey::Admin) => true,
            (DataKey::Paused, DataKey::Paused) => true,
            _ => false,
        },
{
    lemma_tags_differ();
}

/// Callers outside the contract can tell the errors apart.
pub proof fn law_error_codes_differ(a: Error, b: Error)
    requires
        a.code_view() == b.code_view(),
    ensures
        a == b,
{
}

} // verus!
