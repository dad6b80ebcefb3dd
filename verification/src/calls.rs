//! What a call of an entry point means for the entries in storage.
//!
//! Each law speaks of a call and of what came out of it, and says what that means for
//! the entries, the instance values and the events before and after. `*old(env)` is
//! the handle before the call, `*final(env)` the handle after it.
use crate::contract::PayLinkContract;
use crate::host::{
    authorized, contract_address, demanded_auths, instance_entries, max_live_until,
    min_live_until, persistent_entries, published_events, running, sequence,
};
use crate::laws::Request;
use crate::ledger::{lemma_tags_differ, Datum, EventView, LedgerView, Stored};
use crate::types::{DataKey, Error, PayLinkData, PayLinkView, Slot, Text};
use soroban_sdk::{Address, Env};
use vstd::prelude::*;

verus! {

/// A stake is accepted exactly where there is an administrator, the contract is not
/// paused, the amount is positive, the name is registered and its liquid balance covers
/// the amount, whatever is staked already. Otherwise the first of these that fails
/// decides the refusal.
pub proof fn law_stake_is_accepted_where_the_balance_covers_it(
    env: &mut Env,
    username: Text,
    amount: i128,
    answer: Result<(), Error>,
    paused: bool,
    liquid: i128,
)
    requires
        call_ensures(PayLinkContract::stake, (env, username, amount), answer) || call_ensures(
            PayLinkContract::checked_stake,
            (env, username, amount),
            Some(answer),
        ),
        instance_entries(*old(env)).contains_key("Paused"@) ==> instance_entries(
            *old(env),
        )["Paused"@] == Stored::Flag(paused),
        !instance_entries(*old(env)).contains_key("Paused"@) ==> !paused,
        persistent_entries(*old(env)).contains_key(("Balance"@, username@))
            ==> persistent_entries(*old(env))[("Balance"@, username@)].value == Stored::Amount(
            liquid,
        ),
        !persistent_entries(*old(env)).contains_key(("Balance"@, username@)) ==> liquid == 0,
    ensures
        ({
            let administered = instance_entries(*old(env)).contains_key("Admin"@);
            let registered = persistent_entries(*old(env)).contains_key(("Creator"@, username@));
            &&& answer is Ok <==> administered && !paused && amount > 0 && registered && liquid
                >= amount
            &&& answer == Err::<(), Error>(Error::Unauthorized) <==> !administered
            &&& answer == Err::<(), Error>(Error::ContractPaused) <==> administered && paused
            &&& answer == Err::<(), Error>(Error::InvalidAmount) <==> administered && !paused
                && amount <= 0
            &&& answer == Err::<(), Error>(Error::UserNotFound) <==> administered && !paused
                && amount > 0 && !registered
            &&& answer == Err::<(), Error>(Error::InsufficientBalance) <==> administered && !paused
                && amount > 0 && registered && liquid < amount
        }),
{
    lemma_tags_differ();
}

/// An accepted stake takes the amount off the stored liquid balance, adds it to the
/// stored staked balance, and touches no other entry and no instance value.
pub proof fn law_stake_moves_the_amount_between_two_entries(
    env: &mut Env,
    username: Text,
    amount: i128,
    liquid: i128,
    staked: i128,
    other: Slot,
)
    requires
        call_ensures(PayLinkContract::stake, (env, username, amount), Ok::<(), Error>(()))
            || call_ensures(
            PayLinkContract::checked_stake,
            (env, username, amount),
            Some(Ok::<(), Error>(())),
        ),
        persistent_entries(*old(env)).contains_key(("Balance"@, username@))
            ==> persistent_entries(*old(env))[("Balance"@, username@)].value == Stored::Amount(
            liquid,
        ),
        !persistent_entries(*old(env)).contains_key(("Balance"@, username@)) ==> liquid == 0,
        persistent_entries(*old(env)).contains_key(("StakeBalance"@, username@))
            ==> persistent_entries(*old(env))[("StakeBalance"@, username@)].value
            == Stored::Amount(staked),
        !persistent_entries(*old(env)).contains_key(("StakeBalance"@, username@)) ==> staked == 0,
        staked + amount <= i128::MAX,
    ensures
        ({
            let before = persistent_entries(*old(env));
            let after = persistent_entries(*final(env));
            let balance = ("Balance"@, username@);
            let stake = ("StakeBalance"@, username@);
            &&& after.contains_key(balance)
            &&& after[balance].value matches Stored::Amount(left) && left == liquid - amount && left
                >= 0
            &&& after.contains_key(stake)
            &&& after[stake].value matches Stored::Amount(total) && total == staked + amount
            &&& other != balance && other != stake ==> {
                &&& after.contains_key(other) == before.contains_key(other)
                &&& before.contains_key(other) ==> after[other] == before[other]
            }
            &&& instance_entries(*final(env)) == instance_entries(*old(env))
        }),
{
    lemma_tags_differ();
}

/// After an accepted stake both balances live for the buffer from now, as far as the
/// network grants it, and longer only where they did already.
pub proof fn law_stake_keeps_both_balances_alive(env: &mut Env, username: Text, amount: i128)
    requires
        call_ensures(PayLinkContract::stake, (env, username, amount), Ok::<(), Error>(()))
            || call_ensures(
            PayLinkContract::checked_stake,
            (env, username, amount),
            Some(Ok::<(), Error>(())),
        ),
    ensures
        ({
            let before = persistent_entries(*old(env));
            let after = persistent_entries(*final(env));
            let balance = ("Balance"@, username@);
            let stake = ("StakeBalance"@, username@);
            let longest = max_live_until(*old(env));
            let last = sequence(*old(env)) + 16_384;
            let granted = if last <= longest {
                last
            } else {
                longest as int
            };
            let first = min_live_until(*old(env));
            let balance_life = if before.contains_key(balance) {
                before[balance].live_until
            } else {
                first
            };
            let stake_life = if before.contains_key(stake) {
                before[stake].live_until
            } else {
                first
            };
            &&& after[balance].live_until == if granted > balance_life {
                granted
            } else {
                balance_life as int
            }
            &&& after[stake].live_until == if granted > stake_life {
                granted
            } else {
                stake_life as int
            }
        }),
{
    lemma_tags_differ();
}

/// An accepted stake publishes one event, which tells the name, the amount, the staked
/// balance that is stored now and the current ledger.
pub proof fn law_stake_is_announced(env: &mut Env, username: Text, amount: i128, total: i128)
    requires
        call_ensures(PayLinkContract::stake, (env, username, amount), Ok::<(), Error>(()))
            || call_ensures(
            PayLinkContract::checked_stake,
            (env, username, amount),
            Some(Ok::<(), Error>(())),
        ),
        persistent_entries(*final(env))[("StakeBalance"@, username@)].value == Stored::Amount(total),
    ensures
        published_events(*final(env)) == published_events(*old(env)).push(
            (EventView {
                topic: "staked"@,
                data: seq![
                    Datum::Text(username@),
                    Datum::Amount(amount),
                    Datum::Amount(total),
                    Datum::Ledger(sequence(*old(env))),
                ],
            }),
        ),
{
    lemma_tags_differ();
}

/// A refused stake leaves the entries, the instance values and the events as they were.
pub proof fn law_refused_stake_changes_nothing(
    env: &mut Env,
    username: Text,
    amount: i128,
    error: Error,
)
    requires
        call_ensures(PayLinkContract::stake, (env, username, amount), Err::<(), Error>(error))
            || call_ensures(
            PayLinkContract::checked_stake,
            (env, username, amount),
            Some(Err::<(), Error>(error)),
        ),
    ensures
        persistent_entries(*final(env)) == persistent_entries(*old(env)),
        instance_entries(*final(env)) == instance_entries(*old(env)),
        published_events(*final(env)) == published_events(*old(env)),
{
}

/// A stake is left undone, with nothing demanded and nothing changed, exactly where it
/// would be accepted and the stored staked balance cannot grow by the amount.
pub proof fn law_stake_is_left_undone_only_where_it_overflows(
    env: &mut Env,
    username: Text,
    amount: i128,
    answer: Option<Result<(), Error>>,
    paused: bool,
    liquid: i128,
    staked: i128,
)
    requires
        call_ensures(PayLinkContract::checked_stake, (env, username, amount), answer),
        instance_entries(*old(env)).contains_key("Paused"@) ==> instance_entries(
            *old(env),
        )["Paused"@] == Stored::Flag(paused),
        !instance_entries(*old(env)).contains_key("Paused"@) ==> !paused,
        persistent_entries(*old(env)).contains_key(("Balance"@, username@))
            ==> persistent_entries(*old(env))[("Balance"@, username@)].value == Stored::Amount(
            liquid,
        ),
        !persistent_entries(*old(env)).contains_key(("Balance"@, username@)) ==> liquid == 0,
        persistent_entries(*old(env)).contains_key(("StakeBalance"@, username@))
            ==> persistent_entries(*old(env))[("StakeBalance"@, username@)].value
            == Stored::Amount(staked),
        !persistent_entries(*old(env)).contains_key(("StakeBalance"@, username@)) ==> staked == 0,
    ensures
        answer is None <==> {
            &&& instance_entries(*old(env)).contains_key("Admin"@)
            &&& !paused
            &&& 0 < amount <= liquid
            &&& persistent_entries(*old(env)).contains_key(("Creator"@, username@))
            &&& staked + amount > i128::MAX
        },
        answer is None ==> {
            &&& persistent_entries(*final(env)) == persistent_entries(*old(env))
            &&& instance_entries(*final(env)) == instance_entries(*old(env))
            &&& published_events(*final(env)) == published_events(*old(env))
            &&& demanded_auths(*final(env)) == demanded_auths(*old(env))
        },
{
    lemma_tags_differ();
}

/// What is liquid can be staked to the last: after a stake that was accepted, a stake of
/// all that the liquid balance still holds is accepted too, unless the contract has been
/// paused, and leaves nothing liquid.
pub proof fn law_what_is_left_can_be_staked(
    first: &mut Env,
    second: &mut Env,
    username: Text,
    amount: i128,
    left: i128,
    answer: Result<(), Error>,
)
    requires
        call_ensures(PayLinkContract::stake, (first, username, amount), Ok::<(), Error>(())),
        persistent_entries(*old(second)) == persistent_entries(*final(first)),
        instance_entries(*old(second)) == instance_entries(*final(first)),
        instance_entries(*old(first)).contains_key("Paused"@) ==> instance_entries(
            *old(first),
        )["Paused"@] is Flag,
        persistent_entries(*final(first))[("Balance"@, username@)].value == Stored::Amount(left),
        left > 0,
        call_ensures(PayLinkContract::stake, (second, username, left), answer),
    ensures
        answer is Ok,
        persistent_entries(*final(second))[("Balance"@, username@)].value == Stored::Amount(0),
{
    lemma_tags_differ();
}

/// A credit is accepted exactly where there is an administrator, the amount is positive
/// and the name is registered, whatever its balances are and whether or not the contract
/// is paused. Otherwise the first of these that fails decides the refusal.
pub proof fn law_credit_is_accepted_for_every_registered_name(
    env: &mut Env,
    username: Text,
    amount: i128,
    answer: Result<(), Error>,
)
    requires
        call_ensures(PayLinkContract::credit_yield, (env, username, amount), answer)
            || call_ensures(
            PayLinkContract::checked_credit_yield,
            (env, username, amount),
            Some(answer),
        ),
    ensures
        ({
            let administered = instance_entries(*old(env)).contains_key("Admin"@);
            let registered = persistent_entries(*old(env)).contains_key(("Creator"@, username@));
            &&& answer is Ok <==> administered && amount > 0 && registered
            &&& answer == Err::<(), Error>(Error::Unauthorized) <==> !administered
            &&& answer == Err::<(), Error>(Error::InvalidAmount) <==> administered && amount <= 0
            &&& answer == Err::<(), Error>(Error::UserNotFound) <==> administered && amount > 0
                && !registered
        }),
{
    lemma_tags_differ();
}

/// An accepted credit adds the amount to the stored staked balance, and touches no other
/// entry and no instance value.
pub proof fn law_credit_adds_to_one_entry(
    env: &mut Env,
    username: Text,
    amount: i128,
    staked: i128,
    other: Slot,
)
    requires
        call_ensures(PayLinkContract::credit_yield, (env, username, amount), Ok::<(), Error>(()))
            || call_ensures(
            PayLinkContract::checked_credit_yield,
            (env, username, amount),
            Some(Ok::<(), Error>(())),
        ),
        persistent_entries(*old(env)).contains_key(("StakeBalance"@, username@))
            ==> persistent_entries(*old(env))[("StakeBalance"@, username@)].value
            == Stored::Amount(staked),
        !persistent_entries(*old(env)).contains_key(("StakeBalance"@, username@)) ==> staked == 0,
        staked + amount <= i128::MAX,
    ensures
        ({
            let before = persistent_entries(*old(env));
            let after = persistent_entries(*final(env));
            let stake = ("StakeBalance"@, username@);
            &&& after.contains_key(stake)
            &&& after[stake].value matches Stored::Amount(total) && total == staked + amount
            &&& other != stake ==> {
                &&& after.contains_key(other) == before.contains_key(other)
                &&& before.contains_key(other) ==> after[other] == before[other]
            }
            &&& instance_entries(*final(env)) == instance_entries(*old(env))
        }),
{
    lemma_tags_differ();
}

/// After an accepted credit the staked balance lives for the buffer from now, as far as
/// the network grants it, and longer only where it did already.
pub proof fn law_credit_keeps_the_stake_alive(env: &mut Env, username: Text, amount: i128)
    requires
        call_ensures(PayLinkContract::credit_yield, (env, username, amount), Ok::<(), Error>(()))
            || call_ensures(
            PayLinkContract::checked_credit_yield,
            (env, username, amount),
            Some(Ok::<(), Error>(())),
        ),
    ensures
        ({
            let before = persistent_entries(*old(env));
            let stake = ("StakeBalance"@, username@);
            let longest = max_live_until(*old(env));
            let last = sequence(*old(env)) + 16_384;
            let granted = if last <= longest {
                last
            } else {
                longest as int
            };
            let life = if before.contains_key(stake) {
                before[stake].live_until
            } else {
                min_live_until(*old(env))
            };
            persistent_entries(*final(env))[stake].live_until == if granted > life {
                granted
            } else {
                life as int
            }
        }),
{
    lemma_tags_differ();
}

/// An accepted credit publishes one event, which tells the name, the amount, the staked
/// balance that is stored now and the current ledger.
pub proof fn law_credit_is_announced(env: &mut Env, username: Text, amount: i128, total: i128)
    requires
        call_ensures(PayLinkContract::credit_yield, (env, username, amount), Ok::<(), Error>(()))
            || call_ensures(
            PayLinkContract::checked_credit_yield,
            (env, username, amount),
            Some(Ok::<(), Error>(())),
        ),
        persistent_entries(*final(env))[("StakeBalance"@, username@)].value == Stored::Amount(total),
    ensures
        published_events(*final(env)) == published_events(*old(env)).push(
            (EventView {
                topic: "yield_credited"@,
                data: seq![
                    Datum::Text(username@),
                    Datum::Amount(amount),
                    Datum::Amount(total),
                    Datum::Ledger(sequence(*old(env))),
                ],
            }),
        ),
{
    lemma_tags_differ();
}

/// A refused credit leaves the entries, the instance values and the events as they were.
pub proof fn law_refused_credit_changes_nothing(
    env: &mut Env,
    username: Text,
    amount: i128,
    error: Error,
)
    requires
        call_ensures(
            PayLinkContract::credit_yield,
            (env, username, amount),
            Err::<(), Error>(error),
        ) || call_ensures(
            PayLinkContract::checked_credit_yield,
            (env, username, amount),
            Some(Err::<(), Error>(error)),
        ),
    ensures
        persistent_entries(*final(env)) == persistent_entries(*old(env)),
        instance_entries(*final(env)) == instance_entries(*old(env)),
        published_events(*final(env)) == published_events(*old(env)),
{
}

/// A credit is left undone, with nothing demanded and nothing changed, exactly where it
/// would be accepted and the stored staked balance cannot grow by the amount.
pub proof fn law_credit_is_left_undone_only_where_it_overflows(
    env: &mut Env,
    username: Text,
    amount: i128,
    answer: Option<Result<(), Error>>,
    staked: i128,
)
    requires
        call_ensures(PayLinkContract::checked_credit_yield, (env, username, amount), answer),
        persistent_entries(*old(env)).contains_key(("StakeBalance"@, username@))
            ==> persistent_entries(*old(env))[("StakeBalance"@, username@)].value
            == Stored::Amount(staked),
        !persistent_entries(*old(env)).contains_key(("StakeBalance"@, username@)) ==> staked == 0,
    ensures
        answer is None <==> {
            &&& instance_entries(*old(env)).contains_key("Admin"@)
            &&& amount > 0
            &&& persistent_entries(*old(env)).contains_key(("Creator"@, username@))
            &&& staked + amount > i128::MAX
        },
        answer is None ==> {
            &&& persistent_entries(*final(env)) == persistent_entries(*old(env))
            &&& instance_entries(*final(env)) == instance_entries(*old(env))
            &&& published_events(*final(env)) == published_events(*old(env))
            &&& demanded_auths(*final(env)) == demanded_auths(*old(env))
        },
{
    lemma_tags_differ();
}

/// Yield reaches a name whose whole balance is staked: after any accepted stake a
/// positive credit to the same name is accepted.
pub proof fn law_stakers_can_be_credited(
    first: &mut Env,
    second: &mut Env,
    username: Text,
    amount: i128,
    credit: i128,
    answer: Result<(), Error>,
)
    requires
        call_ensures(PayLinkContract::stake, (first, username, amount), Ok::<(), Error>(())),
        persistent_entries(*old(second)) == persistent_entries(*final(first)),
        instance_entries(*old(second)) == instance_entries(*final(first)),
        credit > 0,
        call_ensures(PayLinkContract::credit_yield, (second, username, credit), answer),
    ensures
        answer is Ok,
{
    lemma_tags_differ();
}

/// A link is opened exactly where its creator is registered, the amount is positive,
/// nothing stands under the token, the ledger at which the link expires has a number and
/// the time to live leaves room for the buffer. Otherwise the first of these that fails
/// decides the refusal.
pub proof fn law_link_is_opened_for_every_positive_amount(
    env: &mut Env,
    creator_username: Text,
    token_id: Text,
    amount: i128,
    note: Text,
    ttl_ledgers: u32,
    answer: Result<(), Error>,
)
    requires
        call_ensures(
            PayLinkContract::create_paylink,
            (env, creator_username, token_id, amount, note, ttl_ledgers),
            answer,
        ),
    ensures
        ({
            let entries = persistent_entries(*old(env));
            let registered = entries.contains_key(("Creator"@, creator_username@));
            let taken = entries.contains_key(("PayLink"@, token_id@));
            let numbered = sequence(*old(env)) + ttl_ledgers <= u32::MAX && ttl_ledgers + 16_384
                <= u32::MAX;
            &&& answer is Ok <==> registered && amount > 0 && !taken && numbered
            &&& answer == Err::<(), Error>(Error::CreatorNotFound) <==> !registered
            &&& answer == Err::<(), Error>(Error::InvalidAmount) <==> registered && amount <= 0
            &&& answer == Err::<(), Error>(Error::PayLinkAlreadyExists) <==> registered && amount
                > 0 && taken
            &&& answer == Err::<(), Error>(Error::LedgerOverflow) <==> registered && amount > 0
                && !taken && !numbered
        }),
{
}

/// The record of a link that was opened asks for the amount in its creator's name, with
/// the note, until the ledger at which it expires, unpaid and not cancelled. No other
/// entry and no instance value is touched.
pub proof fn law_opened_link_is_stored_as_asked(
    env: &mut Env,
    creator_username: Text,
    token_id: Text,
    amount: i128,
    note: Text,
    ttl_ledgers: u32,
    other: Slot,
)
    requires
        call_ensures(
            PayLinkContract::create_paylink,
            (env, creator_username, token_id, amount, note, ttl_ledgers),
            Ok::<(), Error>(()),
        ),
    ensures
        ({
            let before = persistent_entries(*old(env));
            let after = persistent_entries(*final(env));
            let link = ("PayLink"@, token_id@);
            &&& after.contains_key(link)
            &&& after[link].value matches Stored::Link(record) && {
                &&& record.creator_username == creator_username@
                &&& record.amount == amount
                &&& record.note == note@
                &&& record.expiration_ledger == sequence(*old(env)) + ttl_ledgers
                &&& !record.paid
                &&& !record.cancelled
            }
            &&& other != link ==> {
                &&& after.contains_key(other) == before.contains_key(other)
                &&& before.contains_key(other) ==> after[other] == before[other]
            }
            &&& instance_entries(*final(env)) == instance_entries(*old(env))
        }),
{
}

/// The record of a link that was opened lives for the buffer beyond the ledger at which
/// the link expires, as far as the network grants it, and in any case as long as an entry
/// that is written for the first time.
pub proof fn law_opened_link_lives_past_its_expiry(
    env: &mut Env,
    creator_username: Text,
    token_id: Text,
    amount: i128,
    note: Text,
    ttl_ledgers: u32,
)
    requires
        call_ensures(
            PayLinkContract::create_paylink,
            (env, creator_username, token_id, amount, note, ttl_ledgers),
            Ok::<(), Error>(()),
        ),
    ensures
        ({
            let longest = max_live_until(*old(env));
            let last = sequence(*old(env)) + ttl_ledgers + 16_384;
            let granted = if last <= longest {
                last
            } else {
                longest as int
            };
            let first = min_live_until(*old(env));
            persistent_entries(*final(env))[("PayLink"@, token_id@)].live_until == if granted
                > first {
                granted
            } else {
                first as int
            }
        }),
{
}

/// Opening a link publishes one event, which tells its creator, its token, the amount and
/// the ledger at which it expires.
pub proof fn law_opened_link_is_announced(
    env: &mut Env,
    creator_username: Text,
    token_id: Text,
    amount: i128,
    note: Text,
    ttl_ledgers: u32,
    expiration_ledger: u32,
)
    requires
        call_ensures(
            PayLinkContract::create_paylink,
            (env, creator_username, token_id, amount, note, ttl_ledgers),
            Ok::<(), Error>(()),
        ),
        expiration_ledger == sequence(*old(env)) + ttl_ledgers,
    ensures
        published_events(*final(env)) == published_events(*old(env)).push(
            (EventView {
                topic: "paylink_created"@,
                data: seq![
                    Datum::Text(creator_username@),
                    Datum::Text(token_id@),
                    Datum::Amount(amount),
                    Datum::Ledger(expiration_ledger),
                ],
            }),
        ),
{
}

/// A link that is not opened leaves the instance values and the events as they were, and
/// every entry but one: where the time to live alone leaves no room for the buffer, the
/// record stands under the token when the refusal is answered, with the life of an entry
/// that is written for the first time.
pub proof fn law_refused_link_changes_nothing_else(
    env: &mut Env,
    creator_username: Text,
    token_id: Text,
    amount: i128,
    note: Text,
    ttl_ledgers: u32,
    error: Error,
    other: Slot,
)
    requires
        call_ensures(
            PayLinkContract::create_paylink,
            (env, creator_username, token_id, amount, note, ttl_ledgers),
            Err::<(), Error>(error),
        ),
    ensures
        ({
            let before = persistent_entries(*old(env));
            let after = persistent_entries(*final(env));
            let link = ("PayLink"@, token_id@);
            let written = error == Error::LedgerOverflow && sequence(*old(env)) + ttl_ledgers
                <= u32::MAX;
            &&& !written ==> after == before
            &&& written ==> {
                &&& after.contains_key(link)
                &&& after[link].live_until == min_live_until(*old(env))
                &&& after[link].value matches Stored::Link(record) && {
                    &&& record.creator_username == creator_username@
                    &&& record.amount == amount
                    &&& record.note == note@
                    &&& record.expiration_ledger == sequence(*old(env)) + ttl_ledgers
                    &&& !record.paid
                    &&& !record.cancelled
                }
                &&& other != link ==> {
                    &&& after.contains_key(other) == before.contains_key(other)
                    &&& before.contains_key(other) ==> after[other] == before[other]
                }
            }
            &&& instance_entries(*final(env)) == instance_entries(*old(env))
            &&& published_events(*final(env)) == published_events(*old(env))
        }),
{
}

/// A link is cancelled exactly where its stored record names the requester as its creator
/// and is not marked as paid, at any ledger. Otherwise the first of these that fails
/// decides the refusal.
pub proof fn law_unpaid_link_is_cancelled_for_its_creator(
    env: &mut Env,
    requester_username: Text,
    token_id: Text,
    answer: Result<(), Error>,
    record: PayLinkView,
)
    requires
        call_ensures(
            PayLinkContract::cancel_paylink,
            (env, requester_username, token_id),
            answer,
        ),
        persistent_entries(*old(env)).contains_key(("PayLink"@, token_id@)) ==> persistent_entries(
            *old(env),
        )[("PayLink"@, token_id@)].value == Stored::Link(record),
    ensures
        ({
            let stored = persistent_entries(*old(env)).contains_key(("PayLink"@, token_id@));
            let by_creator = record.creator_username == requester_username@;
            &&& answer is Ok <==> stored && by_creator && !record.paid
            &&& answer == Err::<(), Error>(Error::PayLinkNotFound) <==> !stored
            &&& answer == Err::<(), Error>(Error::NotPayLinkCreator) <==> stored && !by_creator
            &&& answer == Err::<(), Error>(Error::PayLinkAlreadyPaid) <==> stored && by_creator
                && record.paid
        }),
{
}

/// Cancelling marks the stored record as cancelled and keeps the rest of it, and its
/// life. No other entry and no instance value is touched.
pub proof fn law_cancelled_link_is_marked_in_storage(
    env: &mut Env,
    requester_username: Text,
    token_id: Text,
    record: PayLinkView,
    other: Slot,
)
    requires
        call_ensures(
            PayLinkContract::cancel_paylink,
            (env, requester_username, token_id),
            Ok::<(), Error>(()),
        ),
        persistent_entries(*old(env))[("PayLink"@, token_id@)].value == Stored::Link(record),
    ensures
        ({
            let before = persistent_entries(*old(env));
            let after = persistent_entries(*final(env));
            let link = ("PayLink"@, token_id@);
            &&& after.contains_key(link)
            &&& after[link].live_until == before[link].live_until
            &&& after[link].value matches Stored::Link(marked) && {
                &&& marked.creator_username == record.creator_username
                &&& marked.amount == record.amount
                &&& marked.note == record.note
                &&& marked.expiration_ledger == record.expiration_ledger
                &&& marked.paid == record.paid
                &&& marked.cancelled
            }
            &&& other != link ==> {
                &&& after.contains_key(other) == before.contains_key(other)
                &&& before.contains_key(other) ==> after[other] == before[other]
            }
            &&& instance_entries(*final(env)) == instance_entries(*old(env))
        }),
{
}

/// Cancelling a link publishes one event, which tells who asked for it and the token.
pub proof fn law_cancelled_link_is_announced(
    env: &mut Env,
    requester_username: Text,
    token_id: Text,
)
    requires
        call_ensures(
            PayLinkContract::cancel_paylink,
            (env, requester_username, token_id),
            Ok::<(), Error>(()),
        ),
    ensures
        published_events(*final(env)) == published_events(*old(env)).push(
            (EventView {
                topic: "paylink_cancelled"@,
                data: seq![Datum::Text(requester_username@), Datum::Text(token_id@)],
            }),
        ),
{
}

/// A link that is not cancelled leaves the entries, the instance values and the events as
/// they were.
pub proof fn law_refused_cancelling_changes_nothing(
    env: &mut Env,
    requester_username: Text,
    token_id: Text,
    error: Error,
)
    requires
        call_ensures(
            PayLinkContract::cancel_paylink,
            (env, requester_username, token_id),
            Err::<(), Error>(error),
        ),
    ensures
        persistent_entries(*final(env)) == persistent_entries(*old(env)),
        instance_entries(*final(env)) == instance_entries(*old(env)),
        published_events(*final(env)) == published_events(*old(env)),
{
}

/// What is read of a link is the record that stands under its token, field by field, at
/// any ledger: nothing is read exactly where nothing stands there.
pub proof fn law_link_is_read_as_it_is_stored(
    env: Env,
    token_id: Text,
    found: Option<PayLinkData>,
    record: PayLinkView,
)
    requires
        call_ensures(PayLinkContract::get_paylink, (&env, token_id), found),
        persistent_entries(env).contains_key(("PayLink"@, token_id@)) ==> persistent_entries(
            env,
        )[("PayLink"@, token_id@)].value == Stored::Link(record),
    ensures
        found is Some <==> persistent_entries(env).contains_key(("PayLink"@, token_id@)),
        found matches Some(data) ==> {
            &&& data.creator_username@ == record.creator_username
            &&& data.amount == record.amount
            &&& data.note@ == record.note
            &&& data.expiration_ledger == record.expiration_ledger
            &&& data.paid == record.paid
            &&& data.cancelled == record.cancelled
        },
{
}

/// A link that was opened is read back as it was asked for, at any ledger at which its
/// record still stands as it was stored: also past its expiry it is neither paid nor
/// cancelled.
pub proof fn law_opened_link_is_read_back_at_any_ledger(
    env: &mut Env,
    creator_username: Text,
    token_id: Text,
    amount: i128,
    note: Text,
    ttl_ledgers: u32,
    later: Env,
    found: Option<PayLinkData>,
)
    requires
        call_ensures(
            PayLinkContract::create_paylink,
            (env, creator_username, token_id, amount, note, ttl_ledgers),
            Ok::<(), Error>(()),
        ),
        persistent_entries(later).contains_key(("PayLink"@, token_id@)),
        persistent_entries(later)[("PayLink"@, token_id@)].value == persistent_entries(
            *final(env),
        )[("PayLink"@, token_id@)].value,
        call_ensures(PayLinkContract::get_paylink, (&later, token_id), found),
    ensures
        found matches Some(data) && {
            &&& data.creator_username@ == creator_username@
            &&& data.amount == amount
            &&& data.note@ == note@
            &&& data.expiration_ledger == sequence(*old(env)) + ttl_ledgers
            &&& !data.paid
            &&& !data.cancelled
        },
{
}

/// The creator can cancel a link that was opened, at any ledger at which its record still
/// stands as it was stored, and from then on it is read as cancelled and unpaid.
pub proof fn law_opened_link_can_be_cancelled_at_any_ledger(
    opening: &mut Env,
    cancelling: &mut Env,
    creator_username: Text,
    token_id: Text,
    amount: i128,
    note: Text,
    ttl_ledgers: u32,
    answer: Result<(), Error>,
    later: Env,
    found: Option<PayLinkData>,
)
    requires
        call_ensures(
            PayLinkContract::create_paylink,
            (opening, creator_username, token_id, amount, note, ttl_ledgers),
            Ok::<(), Error>(()),
        ),
        persistent_entries(*old(cancelling)).contains_key(("PayLink"@, token_id@)),
        persistent_entries(*old(cancelling))[("PayLink"@, token_id@)].value == persistent_entries(
            *final(opening),
        )[("PayLink"@, token_id@)].value,
        call_ensures(
            PayLinkContract::cancel_paylink,
            (cancelling, creator_username, token_id),
            answer,
        ),
        persistent_entries(later) == persistent_entries(*final(cancelling)),
        call_ensures(PayLinkContract::get_paylink, (&later, token_id), found),
    ensures
        answer is Ok,
        found matches Some(data) && data.cancelled && !data.paid && data.amount == amount,
{
}

/// A link that stands in storage stays there as it is through any number of requests, at
/// whatever ledgers they are made, as long as its creator does not ask for it to be
/// cancelled.
pub proof fn law_link_stays_until_its_creator_cancels_it(
    states: Seq<LedgerView>,
    requests: Seq<Request>,
    token_id: Seq<u8>,
    record: PayLinkView,
)
    requires
        states.len() == requests.len() + 1,
        states[0].persistent.contains_key(("PayLink"@, token_id)),
        states[0].persistent[("PayLink"@, token_id)].value == Stored::Link(record),
        forall|i: int|
            0 <= i < requests.len() ==> #[trigger] states[i + 1].persistent == states[i].after(
                requests[i],
            ).persistent,
        forall|i: int|
            0 <= i < requests.len() ==> #[trigger] requests[i] != (Request::CancelPayLink {
                requester_username: record.creator_username,
                token_id,
            }),
    ensures
        states.last().persistent.contains_key(("PayLink"@, token_id)),
        states.last().persistent[("PayLink"@, token_id)].value == Stored::Link(record),
    decreases requests.len(),
{
    lemma_tags_differ();
    if requests.len() > 0 {
        let earlier = requests.drop_last();
        law_link_stays_until_its_creator_cancels_it(
            states.drop_last(),
            earlier,
            token_id,
            record,
        );
        let last = requests.len() - 1;
        assert(states[last + 1].persistent == states[last].after(requests[last]).persistent);
        assert(requests[last] != (Request::CancelPayLink {
            requester_username: record.creator_username,
            token_id,
        }));
    }
}

/// Registering a name puts a set flag under it, with the life that the entry has or that
/// an entry has that is written for the first time. No other entry, no instance value and
/// no event is touched.
pub proof fn law_registering_puts_a_flag(env: &mut Env, username: Text, other: Slot)
    requires
        call_ensures(PayLinkContract::register_creator, (env, username), ()),
    ensures
        ({
            let before = persistent_entries(*old(env));
            let after = persistent_entries(*final(env));
            let creator = ("Creator"@, username@);
            &&& after.contains_key(creator)
            &&& after[creator].value == Stored::Flag(true)
            &&& after[creator].live_until == if before.contains_key(creator) {
                before[creator].live_until
            } else {
                min_live_until(*old(env))
            }
            &&& other != creator ==> {
                &&& after.contains_key(other) == before.contains_key(other)
                &&& before.contains_key(other) ==> after[other] == before[other]
            }
            &&& instance_entries(*final(env)) == instance_entries(*old(env))
            &&& published_events(*final(env)) == published_events(*old(env))
        }),
{
}

/// The administrator is set exactly where there is none, and stays otherwise. No other
/// instance value, no entry and no event is touched.
pub proof fn law_administrator_is_set_once(
    env: &mut Env,
    admin: Address,
    done: bool,
    other: Seq<char>,
)
    requires
        call_ensures(PayLinkContract::checked_set_admin, (env, admin), done),
    ensures
        ({
            let before = instance_entries(*old(env));
            let after = instance_entries(*final(env));
            &&& done <==> !before.contains_key("Admin"@)
            &&& !done ==> after == before
            &&& done ==> after.contains_key("Admin"@) && after["Admin"@] == Stored::Account(admin)
            &&& other != "Admin"@ ==> {
                &&& after.contains_key(other) == before.contains_key(other)
                &&& before.contains_key(other) ==> after[other] == before[other]
            }
            &&& persistent_entries(*final(env)) == persistent_entries(*old(env))
            &&& published_events(*final(env)) == published_events(*old(env))
        }),
{
    lemma_tags_differ();
}

/// Setting the administrator stores the address. No other instance value, no entry and no
/// event is touched.
pub proof fn law_administrator_is_stored(env: &mut Env, admin: Address, other: Seq<char>)
    requires
        call_ensures(PayLinkContract::set_admin, (env, admin), ()),
    ensures
        ({
            let before = instance_entries(*old(env));
            let after = instance_entries(*final(env));
            &&& after.contains_key("Admin"@)
            &&& after["Admin"@] == Stored::Account(admin)
            &&& other != "Admin"@ ==> {
                &&& after.contains_key(other) == before.contains_key(other)
                &&& before.contains_key(other) ==> after[other] == before[other]
            }
            &&& persistent_entries(*final(env)) == persistent_entries(*old(env))
            &&& published_events(*final(env)) == published_events(*old(env))
        }),
{
    lemma_tags_differ();
}

/// Where there is an administrator, a stake or a credit that is answered has demanded the
/// authorization of the stored one, once, before any entry, instance value or event
/// changed. Where there is none, it has demanded nothing.
pub proof fn law_the_stored_administrator_is_asked_first(
    env: &mut Env,
    username: Text,
    amount: i128,
    answer: Result<(), Error>,
    admin: Address,
)
    requires
        call_ensures(PayLinkContract::stake, (env, username, amount), answer) || call_ensures(
            PayLinkContract::checked_stake,
            (env, username, amount),
            Some(answer),
        ) || call_ensures(PayLinkContract::credit_yield, (env, username, amount), answer)
            || call_ensures(
            PayLinkContract::checked_credit_yield,
            (env, username, amount),
            Some(answer),
        ),
        instance_entries(*old(env)).contains_key("Admin"@) ==> instance_entries(
            *old(env),
        )["Admin"@] == Stored::Account(admin),
    ensures
        ({
            let before = demanded_auths(*old(env));
            let after = demanded_auths(*final(env));
            &&& instance_entries(*old(env)).contains_key("Admin"@) ==> {
                &&& after.len() == before.len() + 1
                &&& after.drop_last() == before
                &&& after.last().0 == admin
                &&& after.last().1.persistent == persistent_entries(*old(env))
                &&& after.last().1.instance == instance_entries(*old(env))
                &&& after.last().1.events == published_events(*old(env))
            }
            &&& !instance_entries(*old(env)).contains_key("Admin"@) ==> after == before
        }),
{
    let before = demanded_auths(*old(env));
    let after = demanded_auths(*final(env));
    if instance_entries(*old(env)).contains_key("Admin"@) {
        assert(after.drop_last() =~= before);
    }
}

/// A request to cancel a link demands the authorization of the contract itself, once,
/// whatever the answer is, before any entry, instance value or event changes.
pub proof fn law_the_contract_is_asked_before_cancelling(
    env: &mut Env,
    requester_username: Text,
    token_id: Text,
    answer: Result<(), Error>,
)
    requires
        call_ensures(
            PayLinkContract::cancel_paylink,
            (env, requester_username, token_id),
            answer,
        ),
    ensures
        ({
            let before = demanded_auths(*old(env));
            let after = demanded_auths(*final(env));
            &&& after.len() == before.len() + 1
            &&& after.drop_last() == before
            &&& after.last().0 == contract_address(*old(env))
            &&& after.last().1.persistent == persistent_entries(*old(env))
            &&& after.last().1.instance == instance_entries(*old(env))
            &&& after.last().1.events == published_events(*old(env))
        }),
{
    assert(demanded_auths(*final(env)).drop_last() =~= demanded_auths(*old(env)));
}

/// Registering a name, setting the administrator and opening a link demand no
/// authorization and spend none.
pub proof fn law_other_requests_ask_nobody(
    env: &mut Env,
    admin: Address,
    done: bool,
    name: Text,
    token_id: Text,
    amount: i128,
    note: Text,
    ttl_ledgers: u32,
    answer: Result<(), Error>,
)
    requires
        call_ensures(PayLinkContract::register_creator, (env, name), ()) || call_ensures(
            PayLinkContract::set_admin,
            (env, admin),
            (),
        ) || call_ensures(PayLinkContract::checked_set_admin, (env, admin), done) || call_ensures(
            PayLinkContract::create_paylink,
            (env, name, token_id, amount, note, ttl_ledgers),
            answer,
        ),
    ensures
        demanded_auths(*final(env)) == demanded_auths(*old(env)),
        authorized(*final(env)) == authorized(*old(env)),
{
}

/// Every request may be made of a running contract whose storage holds values of the
/// right kind, with any text that the ledger can measure, where those whose authorization
/// it demands have given it; an administrator can be set where there is none, and a stake
/// or a credit must leave a number that can be stored.
pub proof fn law_requests_may_be_made_of_a_running_contract(
    env: &mut Env,
    name: Text,
    token_id: Text,
    note: Text,
    amount: i128,
    ttl_ledgers: u32,
    admin: Address,
    staked: i128,
)
    requires
        running(*old(env)),
        forall|key: Seq<u8>| #[trigger]
            persistent_entries(*old(env)).contains_key(("Balance"@, key)) ==> persistent_entries(
                *old(env),
            )[("Balance"@, key)].value is Amount,
        forall|key: Seq<u8>| #[trigger]
            persistent_entries(*old(env)).contains_key(("StakeBalance"@, key))
                ==> persistent_entries(*old(env))[("StakeBalance"@, key)].value is Amount,
        forall|key: Seq<u8>| #[trigger]
            persistent_entries(*old(env)).contains_key(("PayLink"@, key)) ==> persistent_entries(
                *old(env),
            )[("PayLink"@, key)].value is Link,
        instance_entries(*old(env)).contains_key("Admin"@) ==> instance_entries(
            *old(env),
        )["Admin"@] is Account,
        instance_entries(*old(env)).contains_key("Paused"@) ==> instance_entries(
            *old(env),
        )["Paused"@] is Flag,
        name@.len() <= u32::MAX,
        token_id@.len() <= u32::MAX,
        note@.len() <= u32::MAX,
        persistent_entries(*old(env)).contains_key(("StakeBalance"@, name@))
            ==> persistent_entries(*old(env))[("StakeBalance"@, name@)].value == Stored::Amount(
            staked,
        ),
        !persistent_entries(*old(env)).contains_key(("StakeBalance"@, name@)) ==> staked == 0,
    ensures
        call_requires(PayLinkContract::get_paylink, (&*old(env), token_id)),
        call_requires(PayLinkContract::register_creator, (env, name)),
        call_requires(
            PayLinkContract::create_paylink,
            (env, name, token_id, amount, note, ttl_ledgers),
        ),
        authorized(*old(env)).contains(contract_address(*old(env))) ==> call_requires(
            PayLinkContract::cancel_paylink,
            (env, name, token_id),
        ),
        call_requires(PayLinkContract::checked_set_admin, (env, admin)),
        !instance_entries(*old(env)).contains_key("Admin"@) ==> call_requires(
            PayLinkContract::set_admin,
            (env, admin),
        ),
        (instance_entries(*old(env)).contains_key("Admin"@) ==> authorized(*old(env)).contains(
            instance_entries(*old(env))["Admin"@]->Account_0,
        )) ==> {
            &&& call_requires(PayLinkContract::checked_stake, (env, name, amount))
            &&& call_requires(PayLinkContract::checked_credit_yield, (env, name, amount))
            &&& staked + amount <= i128::MAX ==> call_requires(
                PayLinkContract::stake,
                (env, name, amount),
            )
            &&& staked + amount <= i128::MAX ==> call_requires(
                PayLinkContract::credit_yield,
                (env, name, amount),
            )
        },
{
    lemma_tags_differ();
}

/// The contract is still running after a request, at the same ledger, under the same
/// address and the same bounds on the life of an entry.
pub proof fn law_requests_leave_the_network(
    env: &mut Env,
    admin: Address,
    done: bool,
    name: Text,
    token_id: Text,
    amount: i128,
    note: Text,
    ttl_ledgers: u32,
    answer: Result<(), Error>,
    checked_answer: Option<Result<(), Error>>,
)
    requires
        running(*old(env)),
        call_ensures(PayLinkContract::register_creator, (env, name), ()) || call_ensures(
            PayLinkContract::set_admin,
            (env, admin),
            (),
        ) || call_ensures(PayLinkContract::checked_set_admin, (env, admin), done) || call_ensures(
            PayLinkContract::stake,
            (env, name, amount),
            answer,
        ) || call_ensures(PayLinkContract::checked_stake, (env, name, amount), checked_answer)
            || call_ensures(PayLinkContract::credit_yield, (env, name, amount), answer)
            || call_ensures(
            PayLinkContract::checked_credit_yield,
            (env, name, amount),
            checked_answer,
        ) || call_ensures(
            PayLinkContract::create_paylink,
            (env, name, token_id, amount, note, ttl_ledgers),
            answer,
        ) || call_ensures(PayLinkContract::cancel_paylink, (env, name, token_id), answer),
    ensures
        running(*final(env)),
        sequence(*final(env)) == sequence(*old(env)),
        contract_address(*final(env)) == contract_address(*old(env)),
        min_live_until(*final(env)) == min_live_until(*old(env)),
        max_live_until(*final(env)) == max_live_until(*old(env)),
{
}

/// Callers outside the contract know each error by a number of its own.
pub proof fn law_errors_are_known_by_number(error: Error, code: u32)
    requires
        call_ensures(Error::code, (error,), code),
    ensures
        1 <= code <= 11,
        code == 1 <==> error == Error::PayLinkAlreadyExists,
        code == 2 <==> error == Error::InvalidAmount,
        code == 3 <==> error == Error::CreatorNotFound,
        code == 4 <==> error == Error::LedgerOverflow,
        code == 5 <==> error == Error::Unauthorized,
        code == 6 <==> error == Error::UserNotFound,
        code == 7 <==> error == Error::ContractPaused,
        code == 8 <==> error == Error::InsufficientBalance,
        code == 9 <==> error == Error::PayLinkNotFound,
        code == 10 <==> error == Error::NotPayLinkCreator,
        code == 11 <==> error == Error::PayLinkAlreadyPaid,
{
}

/// A key is found under the name of its kind and, where it carries one, under the name
/// that it carries.
pub proof fn law_keys_tell_their_kind_and_name(
    key: DataKey,
    tag: &'static str,
    name: Option<&Text>,
)
    requires
        call_ensures(DataKey::tag, (&key,), tag),
        call_ensures(DataKey::name, (&key,), name),
    ensures
        match key {
            DataKey::Creator(carried) => {
                &&& tag@ == "Creator"@
                &&& name is Some
                &&& name->0@ == carried@
            },
            DataKey::PayLink(carried) => {
                &&& tag@ == "PayLink"@
                &&& name is Some
                &&& name->0@ == carried@
            },
            DataKey::Balance(carried) => {
                &&& tag@ == "Balance"@
                &&& name is Some
                &&& name->0@ == carried@
            },
            DataKey::StakeBalance(carried) => {
                &&& tag@ == "StakeBalance"@
                &&& name is Some
                &&& name->0@ == carried@
            },
            DataKey::Admin => tag@ == "Admin"@ && name is None,
            DataKey::Paused => tag@ == "Paused"@ && name is None,
        },
{
}

} // verus!
