//! The calls into `soroban_sdk`, and what is believed of them.
//!
//! An [`Env`] is a handle to the host that runs the contract. Only the contract that
//! executes touches its own storage, so what the handle shows is described as a
//! function of the handle, which changes only where a function below takes it by
//! `&mut`. Handles to one host share what they show: that description holds of the
//! one handle through which the contract works, and addresses come from the same host.
//!
//! The host ends an invocation that runs out of the resources it was granted; nothing
//! is said of such a run.
//!
//! Functions of `soroban_sdk` that take a value of any type appear once for each type
//! of value that the contract hands them.
use crate::ledger::{prolonged, written, Datum, Entry, EventView, LedgerView, Stored};
use crate::types::{text_fits, PayLinkData, Slot, Text};
use soroban_sdk::{Address, Env, IntoVal, Map as HostMap, String as HostString, Symbol, Val};
use vstd::prelude::*;

verus! {

/// The handle to the host that runs the contract.
#[verifier::external_type_specification]
#[verifier::external_body]
pub struct ExEnv(soroban_sdk::Env);

/// An account or a contract. Two values are equal where they name the same one.
#[verifier::external_type_specification]
#[verifier::external_body]
pub struct ExAddress(soroban_sdk::Address);

/// Whether a contract is executing, in an invocation that has declared the entries it
/// touches, on a network of protocol 29 or later whose bounds on the life of an entry
/// are ledgers that have a number. Outside of that the host may end the invocation:
/// networks before protocol 29 do so where the life of an entry is extended past the
/// last ledger that has a number, and later ones grant the longest life there.
pub uninterp spec fn running(env: Env) -> bool;

/// The sequence number of the current ledger.
pub uninterp spec fn sequence(env: Env) -> u32;

/// The last ledger at which a persistent entry written now for the first time is live.
pub uninterp spec fn min_live_until(env: Env) -> u32;

/// The last ledger to which the life of an entry can be extended now.
pub uninterp spec fn max_live_until(env: Env) -> u32;

/// The persistent entries of the executing contract whose key is a pair of a symbol and
/// a string. An entry that was archived counts as the access that touches it restores
/// it: there, and with the life of an entry written now.
pub uninterp spec fn persistent_entries(env: Env) -> Map<Slot, Entry>;

/// The values in the instance storage of the executing contract whose key is a vector
/// of one symbol, by that symbol.
pub uninterp spec fn instance_entries(env: Env) -> Map<Seq<char>, Stored>;

/// The events that the executing contract has published, oldest first.
pub uninterp spec fn published_events(env: Env) -> Seq<EventView>;

/// The addresses that have authorized the current invocation.
pub uninterp spec fn authorized(env: Env) -> Set<Address>;

/// The addresses whose authorization the executing contract has demanded, in order, each
/// with what the contract saw of the ledger when it made the demand.
pub uninterp spec fn demanded_auths(env: Env) -> Seq<(Address, LedgerView)>;

/// The address of the executing contract.
pub uninterp spec fn contract_address(env: Env) -> Address;

/// What the executing contract sees of the ledger through `env`.
pub open spec fn ledger(env: Env) -> LedgerView {
    LedgerView {
        running: running(env),
        contract: contract_address(env),
        sequence: sequence(env),
        min_live_until: min_live_until(env),
        max_live_until: max_live_until(env),
        persistent: persistent_entries(env),
        instance: instance_entries(env),
        events: published_events(env),
    }
}

/// A symbol has at most 32 characters out of `a-zA-Z0-9_`.
pub open spec fn is_symbol(text: Seq<char>) -> bool {
    &&& text.len() <= 32
    &&& forall|i: int| 0 <= i < text.len() ==> is_symbol_char(#[trigger] text[i])
}

/// The characters of a symbol.
pub open spec fn is_symbol_char(c: char) -> bool {
    ('a' <= c && c <= 'z') || ('A' <= c && c <= 'Z') || ('0' <= c && c <= '9') || c == '_'
}

/// Every part of the ledger but the persistent entries is as it was.
pub open spec fn only_persistent_changed(before: Env, after: Env) -> bool {
    ledger(after) == (LedgerView { persistent: persistent_entries(after), ..ledger(before) })
}

/// `Persistent::has`: whether an entry stands under the key.
#[verifier::external_body]
pub(crate) fn persistent_has(env: &Env, tag: &str, name: &Text) -> (present: bool)
    requires
        running(*env),
        is_symbol(tag@),
        text_fits(name@),
    ensures
        present == persistent_entries(*env).contains_key((tag@, name@)),
{
    let key = (Symbol::new(env, tag), HostString::from_bytes(env, name));
    env.storage().persistent().has(&key)
}

/// `Persistent::get`, for a number: the value under the key, or nothing where there
/// is none. A value of another kind would end the invocation.
#[verifier::external_body]
pub(crate) fn persistent_get_amount(env: &Env, tag: &str, name: &Text) -> (amount: Option<i128>)
    requires
        running(*env),
        is_symbol(tag@),
        text_fits(name@),
        persistent_entries(*env).contains_key((tag@, name@))
            ==> persistent_entries(*env)[(tag@, name@)].value is Amount,
    ensures
        amount is Some <==> persistent_entries(*env).contains_key((tag@, name@)),
        amount matches Some(n) ==> persistent_entries(*env)[(tag@, name@)].value
            == Stored::Amount(n),
{
    let key = (Symbol::new(env, tag), HostString::from_bytes(env, name));
    env.storage().persistent().get(&key)
}

/// `Persistent::get`, for a payment link: the value under the key, or nothing where
/// there is none. A link is stored as a map from the names of its fields to their
/// values; a value of another shape would end the invocation. The text that comes
/// back is no longer than the host can measure.
#[verifier::external_body]
pub(crate) fn persistent_get_link(env: &Env, tag: &str, name: &Text) -> (link: Option<PayLinkData>)
    requires
        running(*env),
        is_symbol(tag@),
        text_fits(name@),
        persistent_entries(*env).contains_key((tag@, name@))
            ==> persistent_entries(*env)[(tag@, name@)].value is Link,
    ensures
        link is Some <==> persistent_entries(*env).contains_key((tag@, name@)),
        link matches Some(data) ==> persistent_entries(*env)[(tag@, name@)].value
            == Stored::Link(data@),
        link matches Some(data) ==> text_fits(data.creator_username@) && text_fits(data.note@),
{
    let key = (Symbol::new(env, tag), HostString::from_bytes(env, name));
    let record: HostMap<Symbol, Val> = env.storage().persistent().get(&key)?;
    let field = |name: &str| record.get_unchecked(Symbol::new(env, name));
    let text = |val: Val| IntoVal::<Env, HostString>::into_val(&val, env).to_bytes().iter().collect();
    Some(PayLinkData {
        creator_username: text(field("creator_username")),
        amount: field("amount").into_val(env),
        note: text(field("note")),
        expiration_ledger: field("expiration_ledger").into_val(env),
        paid: field("paid").into_val(env),
        cancelled: field("cancelled").into_val(env),
    })
}

/// `Persistent::set`, for a flag: the flag stands under the key.
#[verifier::external_body]
pub(crate) fn persistent_set_flag(env: &mut Env, tag: &str, name: &Text, flag: bool)
    requires
        running(*old(env)),
        is_symbol(tag@),
        text_fits(name@),
    ensures
        persistent_entries(*final(env)) == written(
            persistent_entries(*old(env)),
            (tag@, name@),
            Stored::Flag(flag),
            min_live_until(*old(env)),
        ),
        only_persistent_changed(*old(env), *final(env)),
        authorized(*final(env)) == authorized(*old(env)),
        demanded_auths(*final(env)) == demanded_auths(*old(env)),
{
    let key = (Symbol::new(env, tag), HostString::from_bytes(env, name));
    env.storage().persistent().set(&key, &flag);
}

/// `Persistent::set`, for a number: the number stands under the key.
#[verifier::external_body]
pub(crate) fn persistent_set_amount(env: &mut Env, tag: &str, name: &Text, amount: i128)
    requires
        running(*old(env)),
        is_symbol(tag@),
        text_fits(name@),
    ensures
        persistent_entries(*final(env)) == written(
            persistent_entries(*old(env)),
            (tag@, name@),
            Stored::Amount(amount),
            min_live_until(*old(env)),
        ),
        only_persistent_changed(*old(env), *final(env)),
        authorized(*final(env)) == authorized(*old(env)),
        demanded_auths(*final(env)) == demanded_auths(*old(env)),
{
    let key = (Symbol::new(env, tag), HostString::from_bytes(env, name));
    env.storage().persistent().set(&key, &amount);
}

/// `Persistent::set`, for a payment link: the link stands under the key, as a map
/// from the names of its fields to their values.
#[verifier::external_body]
pub(crate) fn persistent_set_link(env: &mut Env, tag: &str, name: &Text, link: &PayLinkData)
    requires
        running(*old(env)),
        is_symbol(tag@),
        text_fits(name@),
        text_fits(link.creator_username@),
        text_fits(link.note@),
    ensures
        persistent_entries(*final(env)) == written(
            persistent_entries(*old(env)),
            (tag@, name@),
            Stored::Link(link@),
            min_live_until(*old(env)),
        ),
        only_persistent_changed(*old(env), *final(env)),
        authorized(*final(env)) == authorized(*old(env)),
        demanded_auths(*final(env)) == demanded_auths(*old(env)),
{
    let key = (Symbol::new(env, tag), HostString::from_bytes(env, name));
    let text = |bytes: &Text| HostString::from_bytes(env, bytes).to_val();
    let mut record: HostMap<Symbol, Val> = HostMap::new(env);
    let mut put = |field: &str, val: Val| record.set(Symbol::new(env, field), val);
    put("creator_username", text(&link.creator_username));
    put("amount", link.amount.into_val(env));
    put("note", text(&link.note));
    put("expiration_ledger", link.expiration_ledger.into());
    put("paid", link.paid.into());
    put("cancelled", link.cancelled.into());
    env.storage().persistent().set(&key, &record);
}

/// `Persistent::extend_ttl`: the life of the entry under the key is extended, at
/// most to the longest that the network grants. That is also what is granted where the
/// ledger asked for is past the last that has a number. There has to be an entry, and
/// the threshold cannot pass the extension.
#[verifier::external_body]
pub(crate) fn persistent_extend_ttl(
    env: &mut Env,
    tag: &str,
    name: &Text,
    threshold: u32,
    extend_to: u32,
)
    requires
        running(*old(env)),
        is_symbol(tag@),
        text_fits(name@),
        persistent_entries(*old(env)).contains_key((tag@, name@)),
        threshold <= extend_to,
    ensures
        persistent_entries(*final(env)) == prolonged(
            persistent_entries(*old(env)),
            (tag@, name@),
            threshold,
            extend_to,
            sequence(*old(env)),
            max_live_until(*old(env)),
        ),
        only_persistent_changed(*old(env), *final(env)),
        authorized(*final(env)) == authorized(*old(env)),
        demanded_auths(*final(env)) == demanded_auths(*old(env)),
{
    let key = (Symbol::new(env, tag), HostString::from_bytes(env, name));
    env.storage().persistent().extend_ttl(&key, threshold, extend_to);
}

/// `Instance::has`: whether a value stands under the key.
#[verifier::external_body]
pub(crate) fn instance_has(env: &Env, tag: &str) -> (present: bool)
    requires
        running(*env),
        is_symbol(tag@),
    ensures
        present == instance_entries(*env).contains_key(tag@),
{
    env.storage().instance().has(&(Symbol::new(env, tag),))
}

/// `Instance::get`, for a flag: the value under the key, or nothing where there is
/// none. A value of another kind would end the invocation.
#[verifier::external_body]
pub(crate) fn instance_get_flag(env: &Env, tag: &str) -> (flag: Option<bool>)
    requires
        running(*env),
        is_symbol(tag@),
        instance_entries(*env).contains_key(tag@) ==> instance_entries(*env)[tag@] is Flag,
    ensures
        flag is Some <==> instance_entries(*env).contains_key(tag@),
        flag matches Some(b) ==> instance_entries(*env)[tag@] == Stored::Flag(b),
{
    env.storage().instance().get(&(Symbol::new(env, tag),))
}

/// `Instance::get`, for an address: the value under the key, or nothing where there
/// is none. A value of another kind would end the invocation.
#[verifier::external_body]
pub(crate) fn instance_get_address(env: &Env, tag: &str) -> (address: Option<Address>)
    requires
        running(*env),
        is_symbol(tag@),
        instance_entries(*env).contains_key(tag@) ==> instance_entries(*env)[tag@] is Account,
    ensures
        address is Some <==> instance_entries(*env).contains_key(tag@),
        address matches Some(a) ==> instance_entries(*env)[tag@] == Stored::Account(a),
{
    env.storage().instance().get(&(Symbol::new(env, tag),))
}

/// `Instance::set`, for an address: the address stands under the key.
#[verifier::external_body]
pub(crate) fn instance_set_address(env: &mut Env, tag: &str, address: &Address)
    requires
        running(*old(env)),
        is_symbol(tag@),
    ensures
        instance_entries(*final(env)) == instance_entries(*old(env)).insert(
            tag@,
            Stored::Account(*address),
        ),
        ledger(*final(env)) == (LedgerView {
            instance: instance_entries(*final(env)),
            ..ledger(*old(env))
        }),
        authorized(*final(env)) == authorized(*old(env)),
        demanded_auths(*final(env)) == demanded_auths(*old(env)),
{
    env.storage().instance().set(&(Symbol::new(env, tag),), address);
}

/// `Ledger::sequence`: the sequence number of the current ledger.
#[verifier::external_body]
pub(crate) fn ledger_sequence(env: &Env) -> (number: u32)
    requires
        running(*env),
    ensures
        number == sequence(*env),
{
    env.ledger().sequence()
}

/// `Env::current_contract_address`: the address of the executing contract.
#[verifier::external_body]
pub(crate) fn current_contract_address(env: &Env) -> (address: Address)
    requires
        running(*env),
    ensures
        address == contract_address(*env),
{
    env.current_contract_address()
}

/// `Address::require_auth`: the authorization of the address is demanded, with the
/// ledger as it stands at the call. An address that has not authorized the invocation
/// would end it; otherwise the contract goes on with the ledger as it was. What is
/// authorized beyond this call is left open: the host spends an authorization when it
/// is demanded.
#[verifier::external_body]
pub(crate) fn require_auth(env: &mut Env, address: &Address)
    requires
        running(*old(env)),
        authorized(*old(env)).contains(*address),
    ensures
        running(*final(env)),
        ledger(*final(env)) == ledger(*old(env)),
        demanded_auths(*final(env)) == demanded_auths(*old(env)).push(
            (*address, ledger(*old(env))),
        ),
{
    address.require_auth();
}

/// Every part of the ledger but the events is as it was.
pub open spec fn only_events_changed(before: Env, after: Env) -> bool {
    ledger(after) == (LedgerView { events: published_events(after), ..ledger(before) })
}

/// `Events::publish`, for a text, two numbers and a ledger: an event with one topic is published.
#[verifier::external_body]
#[allow(deprecated)]
pub(crate) fn publish_balance(
    env: &mut Env,
    topic: &str,
    name: &Text,
    amount: i128,
    balance: i128,
    ledger_number: u32,
)
    requires
        running(*old(env)),
        is_symbol(topic@),
        text_fits(name@),
    ensures
        published_events(*final(env)) == published_events(*old(env)).push(
            EventView { topic: topic@, data: seq![Datum::Text(name@), Datum::Amount(amount), Datum::Amount(balance), Datum::Ledger(ledger_number)] },
        ),
        only_events_changed(*old(env), *final(env)),
        authorized(*final(env)) == authorized(*old(env)),
        demanded_auths(*final(env)) == demanded_auths(*old(env)),
{
    let data = (HostString::from_bytes(env, name), amount, balance, ledger_number);
    env.events().publish((Symbol::new(env, topic),), data);
}

/// `Events::publish`, for two texts, a number and a ledger: an event with one topic is published.
#[verifier::external_body]
#[allow(deprecated)]
pub(crate) fn publish_link(
    env: &mut Env,
    topic: &str,
    name: &Text,
    token_id: &Text,
    amount: i128,
    ledger_number: u32,
)
    requires
        running(*old(env)),
        is_symbol(topic@),
        text_fits(name@),
        text_fits(token_id@),
    ensures
        published_events(*final(env)) == published_events(*old(env)).push(
            EventView { topic: topic@, data: seq![Datum::Text(name@), Datum::Text(token_id@), Datum::Amount(amount), Datum::Ledger(ledger_number)] },
        ),
        only_events_changed(*old(env), *final(env)),
        authorized(*final(env)) == authorized(*old(env)),
        demanded_auths(*final(env)) == demanded_auths(*old(env)),
{
    let name = HostString::from_bytes(env, name);
    let data = (name, HostString::from_bytes(env, token_id), amount, ledger_number);
    env.events().publish((Symbol::new(env, topic),), data);
}

/// `Events::publish`, for two texts: an event with one topic is published.
#[verifier::external_body]
#[allow(deprecated)]
pub(crate) fn publish_names(
    env: &mut Env,
    topic: &str,
    name: &Text,
    token_id: &Text,
)
    requires
        running(*old(env)),
        is_symbol(topic@),
        text_fits(name@),
        text_fits(token_id@),
    ensures
        published_events(*final(env)) == published_events(*old(env)).push(
            EventView { topic: topic@, data: seq![Datum::Text(name@), Datum::Text(token_id@)] },
        ),
        only_events_changed(*old(env), *final(env)),
        authorized(*final(env)) == authorized(*old(env)),
        demanded_auths(*final(env)) == demanded_auths(*old(env)),
{
    let name = HostString::from_bytes(env, name);
    let data = (name, HostString::from_bytes(env, token_id));
    env.events().publish((Symbol::new(env, topic),), data);
}

} // verus!
