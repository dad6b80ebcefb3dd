//! Storage addressed by key: a key that carries a name stands for a persistent
//! entry, one without for a value kept with the contract's instance.
use crate::host::{
    authorized, demanded_auths, instance_get_address, instance_get_flag, instance_has, instance_set_address, is_symbol, ledger,
    persistent_extend_ttl, persistent_get_amount, persistent_get_link, persistent_has,
    persistent_set_amount, persistent_set_flag, persistent_set_link,
};
use crate::ledger::{lemma_tags_differ, LedgerView, Stored};
use crate::types::{text_fits, DataKey, PayLinkData, Text};
use soroban_sdk::{Address, Env};
use vstd::prelude::*;

verus! {

impl DataKey {
    /// The ledger can measure the name that the key carries, if it carries one.
    pub open spec fn fits(self) -> bool {
        self.name_view() matches Some(name) ==> text_fits(name)
    }

    /// The symbol that tells the kinds of key apart.
    pub fn tag(&self) -> (tag: &'static str)
        ensures
            tag@ == self.tag_view(),
            is_symbol(tag@),
    {
        proof {
            reveal_strlit("Creator");
            reveal_strlit("PayLink");
            reveal_strlit("Admin");
            reveal_strlit("Balance");
            reveal_strlit("StakeBalance");
            reveal_strlit("Paused");
        }
        match self {
            DataKey::Creator(_) => "Creator",
            DataKey::PayLink(_) => "PayLink",
            DataKey::Admin => "Admin",
            DataKey::Balance(_) => "Balance",
            DataKey::StakeBalance(_) => "StakeBalance",
            DataKey::Paused => "Paused",
        }
    }

    /// The name that the key carries, if it carries one.
    pub fn name(&self) -> (name: Option<&Text>)
        ensures
            match name {
                Some(text) => self.name_view() == Some(text@),
                None => self.name_view() is None,
            },
    {
        match self {
            DataKey::Creator(name) => Some(name),
            DataKey::PayLink(name) => Some(name),
            DataKey::Balance(name) => Some(name),
            DataKey::StakeBalance(name) => Some(name),
            DataKey::Admin => None,
            DataKey::Paused => None,
        }
    }
}

impl LedgerView {
    /// Whether something stands under the key.
    pub open spec fn holds(self, key: DataKey) -> bool {
        match key.name_view() {
            Some(name) => self.persistent.contains_key((key.tag_view(), name)),
            None => self.instance.contains_key(key.tag_view()),
        }
    }

    /// What stands under the key.
    pub open spec fn at(self, key: DataKey) -> Stored
        recommends
            self.holds(key),
    {
        match key.name_view() {
            Some(name) => self.persistent[(key.tag_view(), name)].value,
            None => self.instance[key.tag_view()],
        }
    }
}

/// Storing a value of the right kind keeps a ledger valid.
pub proof fn lemma_put_keeps_valid(before: LedgerView, key: DataKey, value: Stored)
    requires
        before.valid(),
        match key {
            DataKey::Creator(_) => true,
            DataKey::PayLink(_) => value is Link,
            DataKey::Balance(_) => value is Amount,
            DataKey::StakeBalance(_) => value is Amount,
            _ => false,
        },
    ensures
        before.put(key.slot(), value).valid(),
{
    lemma_tags_differ();
}

/// Extending the life of an entry keeps a ledger valid.
pub proof fn lemma_extend_keeps_valid(before: LedgerView, key: DataKey, ledgers: u32)
    requires
        before.valid(),
        key.name_view() is Some,
        before.holds(key),
    ensures
        before.extend(key.slot(), ledgers, ledgers).valid(),
{
}

/// Whether something stands under the key.
pub(crate) fn has(env: &Env, key: &DataKey) -> (present: bool)
    requires
        ledger(*env).running,
        key.fits(),
    ensures
        present == ledger(*env).holds(*key),
{
    match key.name() {
        Some(name) => persistent_has(env, key.tag(), name),
        None => instance_has(env, key.tag()),
    }
}

/// The number under a key that carries a name: zero where there is none.
pub(crate) fn amount(env: &Env, key: &DataKey) -> (amount: i128)
    requires
        ledger(*env).running,
        key.fits(),
        key.name_view() is Some,
        ledger(*env).holds(*key) ==> ledger(*env).at(*key) is Amount,
    ensures
        ledger(*env).holds(*key) ==> ledger(*env).at(*key) == Stored::Amount(amount),
        !ledger(*env).holds(*key) ==> amount == 0,
{
    match key.name() {
        Some(name) => persistent_get_amount(env, key.tag(), name).unwrap_or(0),
        None => 0,
    }
}

/// The payment link under a key that carries a name.
pub(crate) fn link(env: &Env, key: &DataKey) -> (link: Option<PayLinkData>)
    requires
        ledger(*env).running,
        key.fits(),
        key.name_view() is Some,
        ledger(*env).holds(*key) ==> ledger(*env).at(*key) is Link,
    ensures
        link is Some <==> ledger(*env).holds(*key),
        link matches Some(data) ==> ledger(*env).at(*key) == Stored::Link(data@),
        link matches Some(data) ==> text_fits(data.creator_username@) && text_fits(data.note@),
{
    match key.name() {
        Some(name) => persistent_get_link(env, key.tag(), name),
        None => None,
    }
}

/// The flag under a key without a name: `false` where there is none.
pub(crate) fn flag(env: &Env, key: &DataKey) -> (flag: bool)
    requires
        ledger(*env).running,
        key.name_view() is None,
        ledger(*env).holds(*key) ==> ledger(*env).at(*key) is Flag,
    ensures
        ledger(*env).holds(*key) ==> ledger(*env).at(*key) == Stored::Flag(flag),
        !ledger(*env).holds(*key) ==> !flag,
{
    instance_get_flag(env, key.tag()).unwrap_or(false)
}

/// The address under a key without a name.
pub(crate) fn account(env: &Env, key: &DataKey) -> (account: Option<Address>)
    requires
        ledger(*env).running,
        key.name_view() is None,
        ledger(*env).holds(*key) ==> ledger(*env).at(*key) is Account,
    ensures
        account is Some <==> ledger(*env).holds(*key),
        account matches Some(address) ==> ledger(*env).at(*key) == Stored::Account(address),
{
    instance_get_address(env, key.tag())
}

/// Stores a flag under a key that carries a name.
pub(crate) fn set_flag(env: &mut Env, key: &DataKey, flag: bool)
    requires
        ledger(*old(env)).running,
        key.fits(),
        key.name_view() is Some,
    ensures
        ledger(*final(env)) == ledger(*old(env)).put(key.slot(), Stored::Flag(flag)),
        authorized(*final(env)) == authorized(*old(env)),
        demanded_auths(*final(env)) == demanded_auths(*old(env)),
{
    if let Some(name) = key.name() {
        persistent_set_flag(env, key.tag(), name, flag);
    }
}

/// Stores a number under a key that carries a name.
pub(crate) fn set_amount(env: &mut Env, key: &DataKey, amount: i128)
    requires
        ledger(*old(env)).running,
        key.fits(),
        key.name_view() is Some,
    ensures
        ledger(*final(env)) == ledger(*old(env)).put(key.slot(), Stored::Amount(amount)),
        authorized(*final(env)) == authorized(*old(env)),
        demanded_auths(*final(env)) == demanded_auths(*old(env)),
{
    if let Some(name) = key.name() {
        persistent_set_amount(env, key.tag(), name, amount);
    }
}

/// Stores a payment link under a key that carries a name.
pub(crate) fn set_link(env: &mut Env, key: &DataKey, link: &PayLinkData)
    requires
        ledger(*old(env)).running,
        key.fits(),
        key.name_view() is Some,
        text_fits(link.creator_username@),
        text_fits(link.note@),
    ensures
        ledger(*final(env)) == ledger(*old(env)).put(key.slot(), Stored::Link(link@)),
        authorized(*final(env)) == authorized(*old(env)),
        demanded_auths(*final(env)) == demanded_auths(*old(env)),
{
    if let Some(name) = key.name() {
        persistent_set_link(env, key.tag(), name, link);
    }
}

/// Stores an address under a key without a name.
pub(crate) fn set_account(env: &mut Env, key: &DataKey, account: &Address)
    requires
        ledger(*old(env)).running,
        key.name_view() is None,
    ensures
        ledger(*final(env)) == ledger(*old(env)).put_instance(
            key.tag_view(),
            Stored::Account(*account),
        ),
        authorized(*final(env)) == authorized(*old(env)),
        demanded_auths(*final(env)) == demanded_auths(*old(env)),
{
    instance_set_address(env, key.tag(), account);
}

/// Extends the life of the entry under a key that carries a name to `ledgers`
/// ledgers from now, where it is not longer already.
pub(crate) fn extend_ttl(env: &mut Env, key: &DataKey, ledgers: u32)
    requires
        ledger(*old(env)).running,
        key.fits(),
        key.name_view() is Some,
        ledger(*old(env)).holds(*key),
    ensures
        ledger(*final(env)) == ledger(*old(env)).extend(key.slot(), ledgers, ledgers),
        authorized(*final(env)) == authorized(*old(env)),
        demanded_auths(*final(env)) == demanded_auths(*old(env)),
{
    if let Some(name) = key.name() {
        persistent_extend_ttl(env, key.tag(), name, ledgers, ledgers);
    }
}

} // verus!
