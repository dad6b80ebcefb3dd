//! The contract's entry points.
use crate::host::{
    authorized, current_contract_address, demanded_auths, is_symbol, ledger, ledger_sequence,
    publish_balance, publish_link, publish_names, require_auth,
};
use crate::ledger::{lemma_tags_differ, LedgerView, Stored};
use crate::store;
use crate::store::{lemma_extend_keeps_valid, lemma_put_keeps_valid};
use crate::types::{
    text_fits, DataKey, Error, PayLinkData, Text, PAYLINK_TTL_BUFFER_LEDGERS,
};
use soroban_sdk::{Address, Env};
use vstd::prelude::*;

verus! {

/// The contract. It has no state of its own: everything stands in the ledger.
pub struct PayLinkContract;

/// The topics of the contract's events are symbols.
proof fn lemma_topics_are_symbols()
    ensures
        is_symbol("staked"@),
        is_symbol("yield_credited"@),
        is_symbol("paylink_created"@),
        is_symbol("paylink_cancelled"@),
{
    reveal_strlit("staked");
    reveal_strlit("yield_credited");
    reveal_strlit("paylink_created");
    reveal_strlit("paylink_cancelled");
}

/// The authorization that a request of the administrator demands: the administrator's,
/// where there is one, and before anything in the ledger has changed.
pub open spec fn admin_demand(before: LedgerView) -> Seq<(Address, LedgerView)> {
    match before.admin() {
        Some(admin) => seq![(admin, before)],
        None => seq![],
    }
}

impl PayLinkContract {
    /// Makes `admin` the administrator. There must be none yet: a second call would
    /// end the invocation.
    pub fn set_admin(env: &mut Env, admin: Address)
        requires
            ledger(*old(env)).valid(),
            ledger(*old(env)).admin() is None,
        ensures
            ledger(*final(env)) == ledger(*old(env)).after_set_admin(admin),
            ledger(*final(env)).valid(),
            authorized(*final(env)) == authorized(*old(env)),
            demanded_auths(*final(env)) == demanded_auths(*old(env)),
    {
        store::set_account(env, &DataKey::Admin, &admin);
        proof {
            lemma_tags_differ();
        }
    }

    /// Marks `username` as an existing creator, so that a link may be opened in that
    /// name.
    pub fn register_creator(env: &mut Env, username: Text)
        requires
            ledger(*old(env)).valid(),
            text_fits(username@),
        ensures
            ledger(*final(env)) == ledger(*old(env)).after_register_creator(username@),
            ledger(*final(env)).valid(),
            authorized(*final(env)) == authorized(*old(env)),
            demanded_auths(*final(env)) == demanded_auths(*old(env)),
    {
        let key = DataKey::Creator(username);
        proof {
            lemma_put_keeps_valid(ledger(*env), key, Stored::Flag(true));
        }
        store::set_flag(env, &key, true);
    }

    /// Moves `amount` from the liquid to the staked balance of `username`. Only the
    /// administrator may ask for it, and only while the contract is not paused.
    ///
    /// The administrator has to have authorized the invocation; that is demanded before
    /// anything changes.
    pub fn stake(env: &mut Env, username: Text, amount: i128) -> (answer: Result<(), Error>)
        requires
            ledger(*old(env)).valid(),
            text_fits(username@),
            ledger(*old(env)).admin() matches Some(admin)
                ==> authorized(*old(env)).contains(admin),
            ledger(*old(env)).stake_in_range(username@, amount),
        ensures
            answer == ledger(*old(env)).stake_answer(username@, amount),
            ledger(*final(env)) == ledger(*old(env)).after_stake(username@, amount),
            ledger(*final(env)).valid(),
            demanded_auths(*final(env)) == demanded_auths(*old(env)) + admin_demand(
                ledger(*old(env)),
            ),
    {
        if let Err(error) = Self::require_admin(env) {
            return Err(error);
        }
        if let Err(error) = Self::require_not_paused(env) {
            return Err(error);
        }
        if amount <= 0 {
            return Err(Error::InvalidAmount);
        }
        if let Err(error) = Self::require_existing_user(env, &username) {
            return Err(error);
        }
        let balance_key = DataKey::Balance(username.clone());
        let current_balance: i128 = store::amount(env, &balance_key);
        if current_balance < amount {
            return Err(Error::InsufficientBalance);
        }
        let stake_key = DataKey::StakeBalance(username.clone());
        let current_stake_balance: i128 = store::amount(env, &stake_key);
        let new_balance: i128 = current_balance - amount;
        let new_stake_balance: i128 = current_stake_balance + amount;

        let ghost before = ledger(*env);
        store::set_amount(env, &balance_key, new_balance);
        proof {
            lemma_put_keeps_valid(before, balance_key, Stored::Amount(new_balance));
        }
        let ghost with_balance = ledger(*env);
        store::set_amount(env, &stake_key, new_stake_balance);
        proof {
            lemma_put_keeps_valid(with_balance, stake_key, Stored::Amount(new_stake_balance));
        }
        Self::bump_persistent_ttl(env, &balance_key);
        Self::bump_persistent_ttl(env, &stake_key);

        let number: u32 = ledger_sequence(env);
        proof {
            lemma_topics_are_symbols();
        }
        publish_balance(env, "staked", &username, amount, new_stake_balance, number);
        Ok(())
    }

    /// Credits `amount` of yield to the staked balance of `username`. Only the
    /// administrator may ask for it; whether the contract is paused does not matter.
    ///
    /// The administrator has to have authorized the invocation; that is demanded before
    /// anything changes.
    pub fn credit_yield(env: &mut Env, username: Text, amount: i128) -> (answer: Result<(), Error>)
        requires
            ledger(*old(env)).valid(),
            text_fits(username@),
            ledger(*old(env)).admin() matches Some(admin)
                ==> authorized(*old(env)).contains(admin),
            ledger(*old(env)).credit_yield_in_range(username@, amount),
        ensures
            answer == ledger(*old(env)).credit_yield_answer(username@, amount),
            ledger(*final(env)) == ledger(*old(env)).after_credit_yield(username@, amount),
            ledger(*final(env)).valid(),
            demanded_auths(*final(env)) == demanded_auths(*old(env)) + admin_demand(
                ledger(*old(env)),
            ),
    {
        if let Err(error) = Self::require_admin(env) {
            return Err(error);
        }
        if amount <= 0 {
            return Err(Error::InvalidAmount);
        }
        if let Err(error) = Self::require_existing_user(env, &username) {
            return Err(error);
        }
        let stake_key = DataKey::StakeBalance(username.clone());
        let current: i128 = store::amount(env, &stake_key);
        let new_balance: i128 = current + amount;
        proof {
            lemma_put_keeps_valid(ledger(*env), stake_key, Stored::Amount(new_balance));
        }
        store::set_amount(env, &stake_key, new_balance);
        Self::bump_persistent_ttl(env, &stake_key);

        let number: u32 = ledger_sequence(env);
        proof {
            lemma_topics_are_symbols();
        }
        publish_balance(env, "yield_credited", &username, amount, new_balance, number);
        Ok(())
    }

    /// Opens a payment link under `token_id`: `amount` is asked for in the name of a
    /// registered creator until `ttl_ledgers` ledgers from now. The link's data stays
    /// readable for a buffer beyond that.
    pub fn create_paylink(
        env: &mut Env,
        creator_username: Text,
        token_id: Text,
        amount: i128,
        note: Text,
        ttl_ledgers: u32,
    ) -> (answer: Result<(), Error>)
        requires
            ledger(*old(env)).valid(),
            text_fits(creator_username@),
            text_fits(token_id@),
            text_fits(note@),
        ensures
            answer == ledger(*old(env)).create_paylink_answer(
                creator_username@,
                token_id@,
                amount,
                ttl_ledgers,
            ),
            ledger(*final(env)) == ledger(*old(env)).after_create_paylink(
                creator_username@,
                token_id@,
                amount,
                note@,
                ttl_ledgers,
            ),
            ledger(*final(env)).valid(),
            authorized(*final(env)) == authorized(*old(env)),
            demanded_auths(*final(env)) == demanded_auths(*old(env)),
    {
        if !store::has(env, &DataKey::Creator(creator_username.clone())) {
            return Err(Error::CreatorNotFound);
        }
        if amount <= 0 {
            return Err(Error::InvalidAmount);
        }
        let paylink_key = DataKey::PayLink(token_id.clone());
        if store::has(env, &paylink_key) {
            return Err(Error::PayLinkAlreadyExists);
        }
        let current: u32 = ledger_sequence(env);
        let expiration_ledger: u32 = match current.checked_add(ttl_ledgers) {
            Some(number) => number,
            None => return Err(Error::LedgerOverflow),
        };
        let data = PayLinkData {
            creator_username: creator_username.clone(),
            amount,
            note,
            expiration_ledger,
            paid: false,
            cancelled: false,
        };
        proof {
            lemma_put_keeps_valid(ledger(*env), paylink_key, Stored::Link(data@));
        }
        store::set_link(env, &paylink_key, &data);

        let min_ttl: u32 = match ttl_ledgers.checked_add(PAYLINK_TTL_BUFFER_LEDGERS) {
            Some(ledgers) => ledgers,
            None => return Err(Error::LedgerOverflow),
        };
        proof {
            lemma_extend_keeps_valid(ledger(*env), paylink_key, min_ttl);
        }
        store::extend_ttl(env, &paylink_key, min_ttl);

        proof {
            lemma_topics_are_symbols();
        }
        publish_link(
            env,
            "paylink_created",
            &creator_username,
            &token_id,
            amount,
            expiration_ledger,
        );
        Ok(())
    }

    /// Cancels the payment link under `token_id` for the creator who opened it, as
    /// long as it is unpaid.
    ///
    /// The contract itself has to have authorized the invocation; that is demanded
    /// before anything changes.
    pub fn cancel_paylink(env: &mut Env, requester_username: Text, token_id: Text) -> (answer: Result<
        (),
        Error,
    >)
        requires
            ledger(*old(env)).valid(),
            text_fits(requester_username@),
            text_fits(token_id@),
            authorized(*old(env)).contains(ledger(*old(env)).contract),
        ensures
            answer == ledger(*old(env)).cancel_paylink_answer(requester_username@, token_id@),
            ledger(*final(env)) == ledger(*old(env)).after_cancel_paylink(
                requester_username@,
                token_id@,
            ),
            ledger(*final(env)).valid(),
            demanded_auths(*final(env)) == demanded_auths(*old(env)).push(
                (ledger(*old(env)).contract, ledger(*old(env))),
            ),
    {
        let contract = current_contract_address(env);
        require_auth(env, &contract);

        let paylink_key = DataKey::PayLink(token_id.clone());
        let mut paylink = match store::link(env, &paylink_key) {
            Some(paylink) => paylink,
            None => return Err(Error::PayLinkNotFound),
        };
        let by_creator = requester_username == paylink.creator_username;
        assert(by_creator ==> requester_username@ =~= paylink.creator_username@);
        if !by_creator {
            return Err(Error::NotPayLinkCreator);
        }
        if paylink.paid {
            return Err(Error::PayLinkAlreadyPaid);
        }
        paylink.cancelled = true;
        proof {
            lemma_put_keeps_valid(ledger(*env), paylink_key, Stored::Link(paylink@));
        }
        store::set_link(env, &paylink_key, &paylink);

        proof {
            lemma_topics_are_symbols();
        }
        publish_names(env, "paylink_cancelled", &requester_username, &token_id);
        Ok(())
    }

    /// The payment link under `token_id`, if there is one.
    pub fn get_paylink(env: &Env, token_id: Text) -> (link: Option<PayLinkData>)
        requires
            ledger(*env).valid(),
            text_fits(token_id@),
        ensures
            match link {
                Some(data) => ledger(*env).link(token_id@) == Some(data@),
                None => ledger(*env).link(token_id@) is None,
            },
    {
        store::link(env, &DataKey::PayLink(token_id))
    }

    /// Makes `admin` the administrator where there is none yet, and says whether it
    /// did.
    pub fn checked_set_admin(env: &mut Env, admin: Address) -> (done: bool)
        requires
            ledger(*old(env)).valid(),
        ensures
            done == (ledger(*old(env)).admin() is None),
            ledger(*final(env)) == (if done {
                ledger(*old(env)).after_set_admin(admin)
            } else {
                ledger(*old(env))
            }),
            ledger(*final(env)).valid(),
            authorized(*final(env)) == authorized(*old(env)),
            demanded_auths(*final(env)) == demanded_auths(*old(env)),
    {
        if store::has(env, &DataKey::Admin) {
            return false;
        }
        Self::set_admin(env, admin);
        true
    }

    /// Stakes as [`PayLinkContract::stake`] does, or does nothing and answers `None`
    /// where the staked balance would leave its range.
    pub fn checked_stake(env: &mut Env, username: Text, amount: i128) -> (answer: Option<
        Result<(), Error>,
    >)
        requires
            ledger(*old(env)).valid(),
            text_fits(username@),
            ledger(*old(env)).admin() matches Some(admin)
                ==> authorized(*old(env)).contains(admin),
        ensures
            answer == (if ledger(*old(env)).stake_in_range(username@, amount) {
                Some(ledger(*old(env)).stake_answer(username@, amount))
            } else {
                None
            }),
            ledger(*final(env)) == (if answer is Some {
                ledger(*old(env)).after_stake(username@, amount)
            } else {
                ledger(*old(env))
            }),
            ledger(*final(env)).valid(),
            demanded_auths(*final(env)) == (if answer is Some {
                demanded_auths(*old(env)) + admin_demand(ledger(*old(env)))
            } else {
                demanded_auths(*old(env))
            }),
    {
        let accepted = store::has(env, &DataKey::Admin) && !store::flag(env, &DataKey::Paused)
            && amount > 0 && store::has(env, &DataKey::Creator(username.clone())) && store::amount(
            env,
            &DataKey::Balance(username.clone()),
        ) >= amount;
        if accepted && !Self::stake_can_grow(env, &username, amount) {
            return None;
        }
        Some(Self::stake(env, username, amount))
    }

    /// Credits as [`PayLinkContract::credit_yield`] does, or does nothing and answers
    /// `None` where the staked balance would leave its range.
    pub fn checked_credit_yield(env: &mut Env, username: Text, amount: i128) -> (answer: Option<
        Result<(), Error>,
    >)
        requires
            ledger(*old(env)).valid(),
            text_fits(username@),
            ledger(*old(env)).admin() matches Some(admin)
                ==> authorized(*old(env)).contains(admin),
        ensures
            answer == (if ledger(*old(env)).credit_yield_in_range(username@, amount) {
                Some(ledger(*old(env)).credit_yield_answer(username@, amount))
            } else {
                None
            }),
            ledger(*final(env)) == (if answer is Some {
                ledger(*old(env)).after_credit_yield(username@, amount)
            } else {
                ledger(*old(env))
            }),
            ledger(*final(env)).valid(),
            demanded_auths(*final(env)) == (if answer is Some {
                demanded_auths(*old(env)) + admin_demand(ledger(*old(env)))
            } else {
                demanded_auths(*old(env))
            }),
    {
        let accepted = store::has(env, &DataKey::Admin) && amount > 0 && store::has(
            env,
            &DataKey::Creator(username.clone()),
        );
        if accepted && !Self::stake_can_grow(env, &username, amount) {
            return None;
        }
        Some(Self::credit_yield(env, username, amount))
    }

    /// Whether `amount` can be added to the staked balance of `username` without
    /// leaving the range of numbers that can be stored.
    fn stake_can_grow(env: &Env, username: &Text, amount: i128) -> (fits: bool)
        requires
            ledger(*env).valid(),
            text_fits(username@),
            amount > 0,
        ensures
            fits == (ledger(*env).stake_balance(username@) + amount <= i128::MAX),
    {
        let staked: i128 = store::amount(env, &DataKey::StakeBalance(username.clone()));
        staked.checked_add(amount).is_some()
    }

    /// Refuses where there is no administrator; otherwise the administrator has to
    /// have authorized the invocation.
    fn require_admin(env: &mut Env) -> (answer: Result<(), Error>)
        requires
            ledger(*old(env)).valid(),
            ledger(*old(env)).admin() matches Some(admin)
                ==> authorized(*old(env)).contains(admin),
        ensures
            answer == (if ledger(*old(env)).admin() is Some {
                Ok::<(), Error>(())
            } else {
                Err(Error::Unauthorized)
            }),
            ledger(*final(env)) == ledger(*old(env)),
            demanded_auths(*final(env)) == demanded_auths(*old(env)) + admin_demand(
                ledger(*old(env)),
            ),
    {
        match store::account(env, &DataKey::Admin) {
            None => Err(Error::Unauthorized),
            Some(admin) => {
                require_auth(env, &admin);
                Ok(())
            },
        }
    }

    /// Refuses while the contract is paused.
    fn require_not_paused(env: &Env) -> (answer: Result<(), Error>)
        requires
            ledger(*env).valid(),
        ensures
            answer == (if ledger(*env).paused() {
                Err(Error::ContractPaused)
            } else {
                Ok::<(), Error>(())
            }),
    {
        if store::flag(env, &DataKey::Paused) {
            return Err(Error::ContractPaused);
        }
        Ok(())
    }

    /// Refuses a name that is not registered.
    fn require_existing_user(env: &Env, username: &Text) -> (answer: Result<(), Error>)
        requires
            ledger(*env).valid(),
            text_fits(username@),
        ensures
            answer == (if ledger(*env).registered(username@) {
                Ok::<(), Error>(())
            } else {
                Err(Error::UserNotFound)
            }),
    {
        if !store::has(env, &DataKey::Creator(username.clone())) {
            return Err(Error::UserNotFound);
        }
        Ok(())
    }

    /// Keeps the entry under the key alive for the buffer from now on.
    fn bump_persistent_ttl(env: &mut Env, key: &DataKey)
        requires
            ledger(*old(env)).valid(),
            key.fits(),
            key.name_view() is Some,
            ledger(*old(env)).holds(*key),
        ensures
            ledger(*final(env)) == ledger(*old(env)).bump(key.slot()),
            ledger(*final(env)).valid(),
            authorized(*final(env)) == authorized(*old(env)),
            demanded_auths(*final(env)) == demanded_auths(*old(env)),
    {
        proof {
            lemma_extend_keeps_valid(ledger(*env), *key, PAYLINK_TTL_BUFFER_LEDGERS);
        }
        store::extend_ttl(env, key, PAYLINK_TTL_BUFFER_LEDGERS);
    }
}

} // verus!
