use paylink::contract::PayLinkContract;
use paylink::types::{DataKey, Error, PayLinkData, PAYLINK_TTL_BUFFER_LEDGERS};
use soroban_sdk::testutils::storage::Persistent as _;
use soroban_sdk::testutils::{
    Address as _, ContractFunctionSet, EnvTestConfig, Events as _, Ledger as _,
};
use soroban_sdk::{
    Address, Env, IntoVal, InvokeError, Map as HostMap, String as HostString, Symbol, TryFromVal, Val,
    Vec as HostVec,
};

fn env() -> Env {
    Env::new_with_config(EnvTestConfig {
        capture_snapshot_at_drop: false,
    })
}

fn text(s: &str) -> Vec<u8> {
    s.as_bytes().to_vec()
}

fn host_text(env: &Env, bytes: &[u8]) -> HostString {
    HostString::from_bytes(env, bytes)
}

fn text_of(env: &Env, val: &Val) -> Vec<u8> {
    HostString::try_from_val(env, val)
        .unwrap()
        .to_bytes()
        .iter()
        .collect()
}

fn reply(env: &Env, answer: Result<(), Error>) -> Val {
    match answer {
        Ok(()) => ().into_val(env),
        Err(error) => soroban_sdk::Error::from_contract_error(error.code()).into_val(env),
    }
}

/// Hands each invocation that the host receives to the library.
struct Deployed;

impl ContractFunctionSet for Deployed {
    fn call(&self, func: &str, mut env: Env, args: &[Val]) -> Option<Val> {
        let bytes = |e: &Env, i: usize| text_of(e, &args[i]);
        let number = |e: &Env, i: usize| i128::try_from_val(e, &args[i]).unwrap();
        match func {
            "set_admin" => {
                let admin = Address::try_from_val(&env, &args[0]).unwrap();
                assert!(PayLinkContract::checked_set_admin(&mut env, admin));
                Some(().into_val(&env))
            }
            "register_creator" => {
                let name = bytes(&env, 0);
                PayLinkContract::register_creator(&mut env, name);
                Some(().into_val(&env))
            }
            "stake" => {
                let (name, amount) = (bytes(&env, 0), number(&env, 1));
                let answer = PayLinkContract::checked_stake(&mut env, name, amount).unwrap();
                Some(reply(&env, answer))
            }
            "credit_yield" => {
                let (name, amount) = (bytes(&env, 0), number(&env, 1));
                let answer = PayLinkContract::checked_credit_yield(&mut env, name, amount).unwrap();
                Some(reply(&env, answer))
            }
            "create_paylink" => {
                let (creator, token) = (bytes(&env, 0), bytes(&env, 1));
                let (amount, note) = (number(&env, 2), bytes(&env, 3));
                let ttl = u32::try_from_val(&env, &args[4]).unwrap();
                let answer = PayLinkContract::create_paylink(
                    &mut env, creator, token, amount, note, ttl,
                );
                Some(reply(&env, answer))
            }
            "cancel_paylink" => {
                let (requester, token) = (bytes(&env, 0), bytes(&env, 1));
                let answer = PayLinkContract::cancel_paylink(&mut env, requester, token);
                Some(reply(&env, answer))
            }
            _ => None,
        }
    }
}

/// The contract, deployed, as a caller outside it sees it.
struct Client {
    env: Env,
    id: Address,
}

impl Client {
    fn new(env: &Env) -> Client {
        Client {
            env: env.clone(),
            id: env.register(Deployed, ()),
        }
    }

    fn with_admin(env: &Env) -> Client {
        let client = Client::new(env);
        let admin = Address::generate(env);
        let args = HostVec::from_array(env, [admin.to_val()]);
        assert_eq!(client.call("set_admin", args), Ok(()));
        client
    }

    /// `Err(Ok(code))` is a refusal, `Err(Err(_))` an invocation that was ended.
    fn call(&self, func: &str, args: HostVec<Val>) -> Result<(), Result<u32, InvokeError>> {
        let func = Symbol::new(&self.env, func);
        match self
            .env
            .try_invoke_contract::<(), InvokeError>(&self.id, &func, args)
        {
            Ok(answer) => {
                answer.unwrap();
                Ok(())
            }
            Err(Ok(InvokeError::Contract(code))) => Err(Ok(code)),
            Err(Ok(ended)) => Err(Err(ended)),
            Err(Err(ended)) => Err(Err(ended)),
        }
    }

    fn register_creator(&self, name: &[u8]) {
        let name = host_text(&self.env, name).to_val();
        let args = HostVec::from_array(&self.env, [name]);
        assert_eq!(self.call("register_creator", args), Ok(()));
    }

    fn stake(&self, name: &[u8], amount: i128) -> Result<(), Result<u32, InvokeError>> {
        let name = host_text(&self.env, name).to_val();
        let args = HostVec::from_array(&self.env, [name, amount.into_val(&self.env)]);
        self.call("stake", args)
    }

    fn credit_yield(&self, name: &[u8], amount: i128) -> Result<(), Result<u32, InvokeError>> {
        let name = host_text(&self.env, name).to_val();
        let args = HostVec::from_array(&self.env, [name, amount.into_val(&self.env)]);
        self.call("credit_yield", args)
    }

    fn create_paylink(
        &self,
        creator: &[u8],
        token: &[u8],
        amount: i128,
        note: &[u8],
        ttl: u32,
    ) -> Result<(), Result<u32, InvokeError>> {
        let env = &self.env;
        let args = HostVec::from_array(
            env,
            [
                host_text(env, creator).to_val(),
                host_text(env, token).to_val(),
                amount.into_val(env),
                host_text(env, note).to_val(),
                ttl.into_val(env),
            ],
        );
        self.call("create_paylink", args)
    }

    fn cancel_paylink(
        &self,
        requester: &[u8],
        token: &[u8],
    ) -> Result<(), Result<u32, InvokeError>> {
        let env = &self.env;
        let args = HostVec::from_array(
            env,
            [
                host_text(env, requester).to_val(),
                host_text(env, token).to_val(),
            ],
        );
        self.call("cancel_paylink", args)
    }

    fn get_paylink(&self, token: &[u8]) -> Option<PayLinkData> {
        self.env.as_contract(&self.id, || {
            PayLinkContract::get_paylink(&self.env, token.to_vec())
        })
    }

    /// Runs `f` as the contract, without an invocation of its own.
    fn inside<T>(&self, f: impl FnOnce(&mut Env) -> T) -> T {
        let mut env = self.env.clone();
        self.env.as_contract(&self.id, || f(&mut env))
    }

    fn key(&self, tag: &str, name: &[u8]) -> (Symbol, HostString) {
        (Symbol::new(&self.env, tag), host_text(&self.env, name))
    }

    fn set_amount(&self, tag: &str, name: &[u8], amount: i128) {
        let key = self.key(tag, name);
        self.inside(|env| env.storage().persistent().set(&key, &amount));
    }

    fn set_balance(&self, name: &[u8], amount: i128) {
        self.set_amount("Balance", name, amount);
    }

    fn amount(&self, tag: &str, name: &[u8]) -> i128 {
        let key = self.key(tag, name);
        self.inside(|env| env.storage().persistent().get(&key).unwrap_or(0))
    }

    fn get_balance(&self, name: &[u8]) -> i128 {
        self.amount("Balance", name)
    }

    fn get_stake_balance(&self, name: &[u8]) -> i128 {
        self.amount("StakeBalance", name)
    }

    fn ttl(&self, tag: &str, name: &[u8]) -> u32 {
        let key = self.key(tag, name);
        self.inside(|env| env.storage().persistent().get_ttl(&key))
    }

    fn pause(&self, paused: bool) {
        self.inside(|env| {
            let key = (Symbol::new(env, "Paused"),);
            env.storage().instance().set(&key, &paused)
        });
    }

    fn set_paylink_paid(&self, token: &[u8]) {
        let key = self.key("PayLink", token);
        self.inside(|env| {
            let mut record: HostMap<Symbol, Val> = env
                .storage()
                .persistent()
                .get(&key)
                .expect("expected PayLink in storage");
            record.set(Symbol::new(env, "paid"), true.into());
            env.storage().persistent().set(&key, &record);
        });
    }
}

fn refusal(error: Error) -> Result<(), Result<u32, InvokeError>> {
    Err(Ok(error.code()))
}

#[test]
fn create_paylink_persists_paylink_data() {
    let env = env();
    let client = Client::new(&env);
    let creator = text("alice");
    let token_id = text("tok-1");
    let note = text("coffee");

    client.register_creator(&creator);
    env.ledger().set_sequence_number(100);

    assert_eq!(
        client.create_paylink(&creator, &token_id, 100_i128, &note, 50),
        Ok(())
    );

    let stored = client
        .get_paylink(&token_id)
        .expect("expected PayLink in storage");
    assert_eq!(stored.creator_username, creator);
    assert_eq!(stored.amount, 100);
    assert_eq!(stored.note, note);
    assert_eq!(stored.expiration_ledger, 150);
    assert!(!stored.paid);
    assert!(!stored.cancelled);
}

#[test]
fn duplicate_token_id_returns_paylink_already_exists() {
    let env = env();
    let client = Client::new(&env);
    let creator = text("bob");
    let token_id = text("dup");
    let note = text("n");

    client.register_creator(&creator);

    assert_eq!(
        client.create_paylink(&creator, &token_id, 1_i128, &note, 10),
        Ok(())
    );
    assert_eq!(
        client.create_paylink(&creator, &token_id, 2_i128, &note, 10),
        refusal(Error::PayLinkAlreadyExists)
    );
}

#[test]
fn zero_amount_returns_invalid_amount() {
    let env = env();
    let client = Client::new(&env);
    let creator = text("carol");
    let token_id = text("z");
    let note = text("n");

    client.register_creator(&creator);

    assert_eq!(
        client.create_paylink(&creator, &token_id, 0_i128, &note, 10),
        refusal(Error::InvalidAmount)
    );
}

#[test]
fn cancel_paylink_marks_link_cancelled() {
    let env = env();
    env.mock_all_auths();
    let client = Client::new(&env);
    let creator = text("dave");
    let token_id = text("tok-cancel");
    let note = text("lunch");

    client.register_creator(&creator);
    assert_eq!(
        client.create_paylink(&creator, &token_id, 25_i128, &note, 20),
        Ok(())
    );

    assert_eq!(client.cancel_paylink(&creator, &token_id), Ok(()));

    let stored = client
        .get_paylink(&token_id)
        .expect("expected PayLink in storage");
    assert!(stored.cancelled);
    assert_eq!(stored.creator_username, creator);
    assert!(!stored.paid);
}

#[test]
fn cancel_paylink_by_non_creator_returns_not_paylink_creator() {
    let env = env();
    env.mock_all_auths();
    let client = Client::new(&env);
    let creator = text("erin");
    let other_user = text("frank");
    let token_id = text("tok-wrong-user");
    let note = text("gift");

    client.register_creator(&creator);
    assert_eq!(
        client.create_paylink(&creator, &token_id, 40_i128, &note, 20),
        Ok(())
    );

    assert_eq!(
        client.cancel_paylink(&other_user, &token_id),
        refusal(Error::NotPayLinkCreator)
    );
}

#[test]
fn cancel_paid_paylink_returns_paylink_already_paid() {
    let env = env();
    env.mock_all_auths();
    let client = Client::new(&env);
    let creator = text("grace");
    let token_id = text("tok-paid");
    let note = text("rent");

    client.register_creator(&creator);
    assert_eq!(
        client.create_paylink(&creator, &token_id, 75_i128, &note, 20),
        Ok(())
    );
    client.set_paylink_paid(&token_id);

    assert_eq!(
        client.cancel_paylink(&creator, &token_id),
        refusal(Error::PayLinkAlreadyPaid)
    );
}

#[test]
fn stake_partial_balance_moves_amount_to_stake_balance() {
    let env = env();
    env.mock_all_auths();
    let client = Client::with_admin(&env);
    let username = text("staker-partial");
    client.register_creator(&username);
    client.set_balance(&username, 100);

    assert_eq!(client.stake(&username, 40_i128), Ok(()));

    assert_eq!(client.get_balance(&username), 60);
    assert_eq!(client.get_stake_balance(&username), 40);
}

#[test]
fn stake_entire_balance_moves_all_liquid_funds_to_stake_balance() {
    let env = env();
    env.mock_all_auths();
    let client = Client::with_admin(&env);
    let username = text("staker-full");
    client.register_creator(&username);
    client.set_balance(&username, 55);

    assert_eq!(client.stake(&username, 55_i128), Ok(()));

    assert_eq!(client.get_balance(&username), 0);
    assert_eq!(client.get_stake_balance(&username), 55);
}

#[test]
fn over_stake_returns_insufficient_balance() {
    let env = env();
    env.mock_all_auths();
    let client = Client::with_admin(&env);
    let username = text("staker-over");
    client.register_creator(&username);
    client.set_balance(&username, 25);

    assert_eq!(
        client.stake(&username, 30_i128),
        refusal(Error::InsufficientBalance)
    );
    assert_eq!(client.get_balance(&username), 25);
    assert_eq!(client.get_stake_balance(&username), 0);
}

#[test]
fn staking_is_refused_in_the_order_of_its_conditions() {
    let env = env();
    env.mock_all_auths();
    let name = text("ann");

    let without_admin = Client::new(&env);
    assert_eq!(without_admin.stake(&name, 0), refusal(Error::Unauthorized));
    assert_eq!(
        without_admin.credit_yield(&name, 0),
        refusal(Error::Unauthorized)
    );

    let client = Client::with_admin(&env);
    client.pause(true);
    assert_eq!(client.stake(&name, 0), refusal(Error::ContractPaused));
    client.pause(false);
    assert_eq!(client.stake(&name, 0), refusal(Error::InvalidAmount));
    assert_eq!(client.stake(&name, -5), refusal(Error::InvalidAmount));
    assert_eq!(client.credit_yield(&name, 0), refusal(Error::InvalidAmount));
    assert_eq!(client.stake(&name, 1), refusal(Error::UserNotFound));
    assert_eq!(client.credit_yield(&name, 1), refusal(Error::UserNotFound));
    client.register_creator(&name);
    assert_eq!(client.stake(&name, 1), refusal(Error::InsufficientBalance));
    client.set_balance(&name, 1);
    assert_eq!(client.stake(&name, 1), Ok(()));
}

#[test]
fn yield_is_credited_while_paused() {
    let env = env();
    env.mock_all_auths();
    let client = Client::with_admin(&env);
    let name = text("ben");
    client.register_creator(&name);
    client.set_balance(&name, 7);
    client.pause(true);

    assert_eq!(client.credit_yield(&name, 30), Ok(()));
    assert_eq!(client.credit_yield(&name, 12), Ok(()));

    assert_eq!(client.get_stake_balance(&name), 42);
    assert_eq!(client.get_balance(&name), 7);
    assert_eq!(client.stake(&name, 7), refusal(Error::ContractPaused));
}

#[test]
fn stakes_need_the_authorization_of_the_administrator() {
    let env = env();
    let client = Client::with_admin(&env);
    let name = text("cleo");
    client.register_creator(&name);
    client.set_balance(&name, 9);

    assert!(matches!(client.stake(&name, 4), Err(Err(_))));
    assert!(matches!(client.credit_yield(&name, 4), Err(Err(_))));
    assert_eq!(client.get_balance(&name), 9);
    assert_eq!(client.get_stake_balance(&name), 0);

    env.mock_all_auths();
    assert_eq!(client.stake(&name, 4), Ok(()));
    assert_eq!(client.get_balance(&name), 5);
}

#[test]
fn authorization_is_asked_of_the_stored_administrator() {
    let env = env();
    env.mock_all_auths();
    let client = Client::new(&env);
    let admin = Address::generate(&env);
    client.inside(|env| PayLinkContract::set_admin(env, admin.clone()));
    let stored: Option<Address> = client.inside(|env| {
        let key = (Symbol::new(env, "Admin"),);
        env.storage().instance().get(&key)
    });
    assert_eq!(stored, Some(admin.clone()));

    let name = text("dora");
    client.register_creator(&name);
    client.set_balance(&name, 2);
    assert_eq!(client.stake(&name, 1), Ok(()));
    let auths = env.auths();
    assert_eq!(auths.len(), 1);
    assert_eq!(auths[0].0, admin);
}

#[test]
fn cancelling_needs_the_authorization_of_the_contract() {
    let env = env();
    let client = Client::new(&env);
    let (creator, token) = (text("egon"), text("t"));
    client.register_creator(&creator);
    assert_eq!(client.create_paylink(&creator, &token, 1, b"", 1), Ok(()));

    assert!(matches!(
        client.cancel_paylink(&creator, &token),
        Err(Err(_))
    ));
    assert!(!client.get_paylink(&token).unwrap().cancelled);

    env.mock_all_auths();
    assert_eq!(client.cancel_paylink(&creator, &token), Ok(()));
    let auths = env.auths();
    assert_eq!(auths.len(), 1);
    assert_eq!(auths[0].0, client.id);
}

#[test]
fn administrator_is_set_once() {
    let env = env();
    let client = Client::new(&env);
    let (first, second) = (Address::generate(&env), Address::generate(&env));

    assert!(client.inside(|env| PayLinkContract::checked_set_admin(env, first.clone())));
    assert!(!client.inside(|env| PayLinkContract::checked_set_admin(env, second.clone())));

    let stored: Option<Address> = client.inside(|env| {
        let key = (Symbol::new(env, "Admin"),);
        env.storage().instance().get(&key)
    });
    assert_eq!(stored, Some(first));
}

#[test]
fn links_are_refused_in_the_order_of_their_conditions() {
    let env = env();
    let client = Client::new(&env);
    let (creator, token) = (text("fay"), text("t"));
    env.ledger().set_sequence_number(20_000);

    assert_eq!(
        client.create_paylink(&creator, &token, 0, b"", u32::MAX),
        refusal(Error::CreatorNotFound)
    );
    client.register_creator(&creator);
    assert_eq!(
        client.create_paylink(&creator, &token, -1, b"", u32::MAX),
        refusal(Error::InvalidAmount)
    );
    assert_eq!(
        client.create_paylink(&creator, &token, 1, b"", u32::MAX - 19_999),
        refusal(Error::LedgerOverflow)
    );
    assert_eq!(client.get_paylink(&token), None);
    assert_eq!(client.create_paylink(&creator, &token, 1, b"", 5), Ok(()));
    assert_eq!(
        client.create_paylink(&creator, &token, 1, b"", u32::MAX),
        refusal(Error::PayLinkAlreadyExists)
    );
}

#[test]
fn link_without_room_for_the_buffer_is_taken_back_by_the_host() {
    let env = env();
    let client = Client::new(&env);
    let (creator, token) = (text("gus"), text("t"));
    client.register_creator(&creator);
    env.ledger().set_sequence_number(3);
    let ttl = u32::MAX - PAYLINK_TTL_BUFFER_LEDGERS + 1;

    assert_eq!(
        client.create_paylink(&creator, &token, 8, b"note", ttl),
        refusal(Error::LedgerOverflow)
    );
    assert_eq!(client.get_paylink(&token), None);

    let answer = client.inside(|env| {
        PayLinkContract::create_paylink(env, creator.clone(), token.clone(), 8, text("note"), ttl)
    });
    assert_eq!(answer, Err(Error::LedgerOverflow));
    assert_eq!(
        client.get_paylink(&token),
        Some(PayLinkData {
            creator_username: creator,
            amount: 8,
            note: text("note"),
            expiration_ledger: 3 + ttl,
            paid: false,
            cancelled: false,
        })
    );
}

#[test]
fn unknown_link_cannot_be_cancelled() {
    let env = env();
    env.mock_all_auths();
    let client = Client::new(&env);
    assert_eq!(
        client.cancel_paylink(b"hal", b"none"),
        refusal(Error::PayLinkNotFound)
    );
    assert_eq!(client.get_paylink(b"none"), None);
}

#[test]
fn cancelling_again_leaves_the_link_as_it_is() {
    let env = env();
    env.mock_all_auths();
    let client = Client::new(&env);
    let (creator, token, other) = (text("ida"), text("one"), text("two"));
    client.register_creator(&creator);
    env.ledger().set_sequence_number(11);
    assert_eq!(client.create_paylink(&creator, &token, 5, b"x", 9), Ok(()));
    assert_eq!(client.create_paylink(&creator, &other, 6, b"y", 9), Ok(()));
    let untouched = client.get_paylink(&other);

    assert_eq!(client.cancel_paylink(&creator, &token), Ok(()));
    let once = client.get_paylink(&token);
    assert_eq!(
        once,
        Some(PayLinkData {
            creator_username: creator.clone(),
            amount: 5,
            note: text("x"),
            expiration_ledger: 20,
            paid: false,
            cancelled: true,
        })
    );
    assert_eq!(client.cancel_paylink(&creator, &token), Ok(()));
    assert_eq!(client.get_paylink(&token), once);
    assert_eq!(client.get_paylink(&other), untouched);
    assert_eq!(
        client.create_paylink(&creator, &token, 5, b"x", 9),
        refusal(Error::PayLinkAlreadyExists)
    );
}

#[test]
fn link_data_outlives_its_expiry_by_the_buffer() {
    let env = env();
    let client = Client::new(&env);
    let creator = text("jan");
    client.register_creator(&creator);
    env.ledger().set_sequence_number(1_000);

    assert_eq!(client.create_paylink(&creator, b"a", 1, b"", 50), Ok(()));
    assert_eq!(client.ttl("PayLink", b"a"), 50 + PAYLINK_TTL_BUFFER_LEDGERS);

    env.ledger().set_max_entry_ttl(10_000);
    assert_eq!(client.create_paylink(&creator, b"b", 1, b"", 50), Ok(()));
    assert_eq!(client.ttl("PayLink", b"b"), 10_000);

    env.ledger().set_max_entry_ttl(100_000);
    env.ledger().set_min_persistent_entry_ttl(40_001);
    assert_eq!(client.create_paylink(&creator, b"c", 1, b"", 50), Ok(()));
    assert_eq!(client.ttl("PayLink", b"c"), 40_000);

    env.ledger().set_sequence_number(1_050 + PAYLINK_TTL_BUFFER_LEDGERS);
    assert_eq!(client.ttl("PayLink", b"a"), 0);
    assert_eq!(client.get_paylink(b"a").unwrap().expiration_ledger, 1_050);
}

#[test]
fn touched_balances_are_kept_alive_for_the_buffer() {
    let env = env();
    env.mock_all_auths();
    let client = Client::with_admin(&env);
    let name = text("kay");
    client.register_creator(&name);
    client.set_balance(&name, 10);
    assert_eq!(client.ttl("Balance", &name), 4_095);

    assert_eq!(client.stake(&name, 3), Ok(()));
    assert_eq!(client.ttl("Balance", &name), PAYLINK_TTL_BUFFER_LEDGERS);
    assert_eq!(
        client.ttl("StakeBalance", &name),
        PAYLINK_TTL_BUFFER_LEDGERS
    );

    env.ledger().set_sequence_number(100);
    assert_eq!(client.credit_yield(&name, 1), Ok(()));
    assert_eq!(
        client.ttl("Balance", &name),
        PAYLINK_TTL_BUFFER_LEDGERS - 100
    );
    assert_eq!(
        client.ttl("StakeBalance", &name),
        PAYLINK_TTL_BUFFER_LEDGERS
    );
}

#[test]
fn requests_publish_their_events() {
    let env = env();
    env.mock_all_auths();
    let client = Client::with_admin(&env);
    let (name, token) = (text("leo"), text("tok"));
    client.register_creator(&name);
    client.set_balance(&name, 10);
    env.ledger().set_sequence_number(77);
    let host_name = host_text(&env, &name);
    let host_token = host_text(&env, &token);
    let event = |topic: &str, data: Val| {
        let topics: HostVec<Val> = (Symbol::new(&env, topic),).into_val(&env);
        HostVec::from_array(&env, [(client.id.clone(), topics, data)])
    };

    assert_eq!(client.stake(&name, 4), Ok(()));
    let data: Val = (host_name.clone(), 4_i128, 4_i128, 77_u32).into_val(&env);
    assert_eq!(env.events().all(), event("staked", data));

    assert_eq!(client.credit_yield(&name, 5), Ok(()));
    let data: Val = (host_name.clone(), 5_i128, 9_i128, 77_u32).into_val(&env);
    assert_eq!(env.events().all(), event("yield_credited", data));

    assert_eq!(client.create_paylink(&name, &token, 6, b"n", 3), Ok(()));
    let data: Val = (host_name.clone(), host_token.clone(), 6_i128, 80_u32).into_val(&env);
    assert_eq!(env.events().all(), event("paylink_created", data));

    assert_eq!(client.cancel_paylink(&name, &token), Ok(()));
    let data: Val = (host_name, host_token).into_val(&env);
    assert_eq!(env.events().all(), event("paylink_cancelled", data));
}

#[test]
fn refused_requests_and_registrations_publish_nothing() {
    let env = env();
    let client = Client::new(&env);
    client.register_creator(b"mia");
    assert_eq!(env.events().all().events().len(), 0);
    assert_eq!(
        client.create_paylink(b"mia", b"t", 0, b"", 1),
        refusal(Error::InvalidAmount)
    );
    assert_eq!(env.events().all().events().len(), 0);
}

#[test]
fn registration_stands_under_its_key() {
    let env = env();
    let client = Client::new(&env);
    client.register_creator(b"nia");
    client.register_creator(b"nia");
    let key = client.key("Creator", b"nia");
    let stored: Option<bool> = client.inside(|env| env.storage().persistent().get(&key));
    assert_eq!(stored, Some(true));
    let key = client.key("Creator", b"nil");
    assert!(!client.inside(|env| env.storage().persistent().has(&key)));
}

#[test]
fn link_is_stored_as_a_record_of_its_fields() {
    let env = env();
    let client = Client::new(&env);
    client.register_creator(b"ole");
    env.ledger().set_sequence_number(5);
    assert_eq!(client.create_paylink(b"ole", b"t", 12, b"why", 6), Ok(()));

    let key = client.key("PayLink", b"t");
    let record: HostMap<Symbol, Val> =
        client.inside(|env| env.storage().persistent().get(&key).unwrap());
    assert_eq!(record.len(), 6);
    let field = |name: &str| record.get(Symbol::new(&env, name)).unwrap();
    assert_eq!(text_of(&env, &field("creator_username")), text("ole"));
    assert_eq!(
        i128::try_from_val(&env, &field("amount")).unwrap(),
        12_i128
    );
    assert_eq!(text_of(&env, &field("note")), text("why"));
    assert_eq!(
        u32::try_from_val(&env, &field("expiration_ledger")).unwrap(),
        11_u32
    );
    assert!(!bool::try_from_val(&env, &field("paid")).unwrap());
    assert!(!bool::try_from_val(&env, &field("cancelled")).unwrap());
}

#[test]
fn text_need_not_be_utf8() {
    let env = env();
    let client = Client::new(&env);
    let (creator, token, note) = (vec![0xff_u8, 0x00], vec![0xc3_u8, 0x28], vec![0x80_u8]);
    client.register_creator(&creator);
    assert_eq!(client.create_paylink(&creator, &token, 1, &note, 1), Ok(()));
    let stored = client.get_paylink(&token).unwrap();
    assert_eq!(stored.creator_username, creator);
    assert_eq!(stored.note, note);
}

#[test]
fn staking_keeps_the_sum_and_leaves_others_alone() {
    let env = env();
    env.mock_all_auths();
    let client = Client::with_admin(&env);
    client.register_creator(b"pam");
    client.set_balance(b"pam", 50);
    client.set_amount("StakeBalance", b"pam", 8);
    client.set_balance(b"pat", 3);
    client.set_amount("StakeBalance", b"pat", 4);

    assert_eq!(client.stake(b"pam", 20), Ok(()));
    assert_eq!(client.get_balance(b"pam"), 30);
    assert_eq!(client.get_stake_balance(b"pam"), 28);
    assert_eq!(client.get_balance(b"pat"), 3);
    assert_eq!(client.get_stake_balance(b"pat"), 4);
}

#[test]
fn stakes_out_of_range_are_not_made() {
    let env = env();
    env.mock_all_auths();
    let client = Client::with_admin(&env);
    let name = text("quinn");
    client.register_creator(&name);
    client.set_balance(&name, 10);
    client.set_amount("StakeBalance", &name, i128::MAX - 5);

    let answer = client.inside(|env| PayLinkContract::checked_stake(env, name.clone(), 6));
    assert_eq!(answer, None);
    let answer = client.inside(|env| PayLinkContract::checked_credit_yield(env, name.clone(), 6));
    assert_eq!(answer, None);
    let answer = client.inside(|env| PayLinkContract::checked_stake(env, name.clone(), 11));
    assert_eq!(answer, Some(Err(Error::InsufficientBalance)));
    assert_eq!(client.get_balance(&name), 10);
    assert_eq!(client.get_stake_balance(&name), i128::MAX - 5);

    let answer = client.inside(|env| PayLinkContract::checked_stake(env, name.clone(), 5));
    assert_eq!(answer, Some(Ok(())));
    assert_eq!(client.get_stake_balance(&name), i128::MAX);
}

#[test]
fn life_past_the_last_ledger_is_the_longest_that_the_network_grants() {
    let env = env();
    let client = Client::new(&env);
    client.register_creator(b"rae");
    env.ledger().set_sequence_number(1_000);
    env.ledger().set_max_entry_ttl(600_000);

    assert_eq!(
        client.create_paylink(b"rae", b"t", 1, b"", 4_294_950_000),
        Ok(())
    );
    let stored = client.get_paylink(b"t").unwrap();
    assert_eq!(stored.expiration_ledger, 4_294_951_000);
    assert_eq!(client.ttl("PayLink", b"t"), 600_000);
}

#[test]
fn requests_are_served_near_the_last_ledger() {
    let env = env();
    env.mock_all_auths();
    let client = Client::with_admin(&env);
    let name = text("sam");
    client.register_creator(&name);
    client.set_balance(&name, 10);
    env.ledger().set_max_entry_ttl(5_000);
    env.ledger().set_sequence_number(u32::MAX - 10_000);

    assert_eq!(client.stake(&name, 4), Ok(()));
    assert_eq!(client.credit_yield(&name, 1), Ok(()));
    assert_eq!(client.get_balance(&name), 6);
    assert_eq!(client.get_stake_balance(&name), 5);
    assert_eq!(client.ttl("Balance", &name), 5_000);
    assert_eq!(client.ttl("StakeBalance", &name), 5_000);

    assert_eq!(
        client.create_paylink(&name, b"t", 1, b"", 10_001),
        refusal(Error::LedgerOverflow)
    );
    assert_eq!(client.get_paylink(b"t"), None);
    assert_eq!(client.create_paylink(&name, b"t", 1, b"", 10_000), Ok(()));
    assert_eq!(client.get_paylink(b"t").unwrap().expiration_ledger, u32::MAX);
    assert_eq!(client.ttl("PayLink", b"t"), 5_000);
}

#[test]
fn whatever_stands_under_a_creator_registers_it() {
    let env = env();
    let client = Client::new(&env);
    client.set_amount("Creator", b"uma", 0);
    assert_eq!(client.create_paylink(b"uma", b"t", 1, b"", 1), Ok(()));
    assert_eq!(
        client.create_paylink(b"una", b"u", 1, b"", 1),
        refusal(Error::CreatorNotFound)
    );
}

#[test]
fn only_registering_registers_a_name() {
    let env = env();
    env.mock_all_auths();
    let client = Client::with_admin(&env);
    client.register_creator(b"vic");
    client.set_balance(b"vic", 10);
    client.set_balance(b"wes", 10);
    assert_eq!(client.stake(b"vic", 4), Ok(()));
    assert_eq!(client.credit_yield(b"vic", 1), Ok(()));
    assert_eq!(client.create_paylink(b"vic", b"wes", 1, b"wes", 1), Ok(()));
    assert_eq!(client.cancel_paylink(b"vic", b"wes"), Ok(()));

    assert_eq!(client.stake(b"wes", 1), refusal(Error::UserNotFound));
    assert_eq!(
        client.create_paylink(b"wes", b"t", 1, b"", 1),
        refusal(Error::CreatorNotFound)
    );
    client.register_creator(b"wes");
    assert_eq!(client.stake(b"wes", 1), Ok(()));
    assert_eq!(client.create_paylink(b"wes", b"t", 1, b"", 1), Ok(()));
}

#[test]
fn only_opening_a_link_puts_one_there() {
    let env = env();
    env.mock_all_auths();
    let client = Client::with_admin(&env);
    client.register_creator(b"xia");
    client.set_balance(b"xia", 10);
    assert_eq!(client.stake(b"xia", 4), Ok(()));
    assert_eq!(client.credit_yield(b"xia", 1), Ok(()));
    assert_eq!(
        client.cancel_paylink(b"xia", b"xia"),
        refusal(Error::PayLinkNotFound)
    );
    assert_eq!(
        client.create_paylink(b"xia", b"xia", 0, b"", 1),
        refusal(Error::InvalidAmount)
    );
    assert_eq!(client.create_paylink(b"xia", b"other", 1, b"", 1), Ok(()));
    assert_eq!(client.get_paylink(b"xia"), None);

    assert_eq!(client.create_paylink(b"xia", b"xia", 7, b"", 1), Ok(()));
    assert_eq!(client.get_paylink(b"xia").unwrap().amount, 7);
}

#[test]
fn links_and_registrations_leave_the_balances() {
    let env = env();
    env.mock_all_auths();
    let client = Client::with_admin(&env);
    client.register_creator(b"yan");
    client.set_balance(b"yan", 10);
    client.set_balance(b"zoe", 20);
    assert_eq!(client.stake(b"yan", 4), Ok(()));

    client.register_creator(b"yan");
    client.register_creator(b"zoe");
    assert_eq!(client.create_paylink(b"yan", b"yan", 3, b"", 1), Ok(()));
    assert_eq!(client.cancel_paylink(b"yan", b"yan"), Ok(()));
    assert_eq!(client.credit_yield(b"zoe", 2), Ok(()));

    assert_eq!(client.get_balance(b"yan"), 6);
    assert_eq!(client.get_stake_balance(b"yan"), 4);
    assert_eq!(client.get_balance(b"zoe"), 20);
    assert_eq!(client.get_stake_balance(b"zoe"), 2);
}

#[test]
fn keys_are_told_apart_by_tag_and_name() {
    let keys = [
        (DataKey::Creator(text("x")), "Creator", Some(text("x"))),
        (DataKey::PayLink(text("x")), "PayLink", Some(text("x"))),
        (DataKey::Admin, "Admin", None),
        (DataKey::Balance(text("y")), "Balance", Some(text("y"))),
        (
            DataKey::StakeBalance(text("")),
            "StakeBalance",
            Some(text("")),
        ),
        (DataKey::Paused, "Paused", None),
    ];
    for (key, tag, name) in keys {
        assert_eq!(key.tag(), tag);
        assert_eq!(key.name(), name.as_ref());
    }
}

#[test]
fn errors_have_their_codes() {
    let errors = [
        Error::PayLinkAlreadyExists,
        Error::InvalidAmount,
        Error::CreatorNotFound,
        Error::LedgerOverflow,
        Error::Unauthorized,
        Error::UserNotFound,
        Error::ContractPaused,
        Error::InsufficientBalance,
        Error::PayLinkNotFound,
        Error::NotPayLinkCreator,
        Error::PayLinkAlreadyPaid,
    ];
    for (i, error) in errors.iter().enumerate() {
        assert_eq!(error.code(), i as u32 + 1);
    }
}
