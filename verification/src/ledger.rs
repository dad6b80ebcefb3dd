//! The mathematical model of the ledger as the running contract sees it.
use crate::types::{PayLinkView, Slot};
use soroban_sdk::Address;
use vstd::prelude::*;

verus! {

/// A stored value.
pub enum Stored {
    Flag(bool),
    Amount(i128),
    Link(PayLinkView),
    Account(Address),
}

/// A persistent entry: its value, and the last ledger at which it is live.
pub struct Entry {
    pub value: Stored,
    pub live_until: u32,
}

/// One value in the data of an event.
pub enum Datum {
    Text(Seq<u8>),
    Amount(i128),
    Ledger(u32),
}

/// An event: its single topic, and its data.
pub struct EventView {
    pub topic: Seq<char>,
    pub data: Seq<Datum>,
}

/// The entries after `value` was stored under `slot`. A new entry gets the shortest
/// life that the network grants; an existing one keeps the life that it has.
pub open spec fn written(
    entries: Map<Slot, Entry>,
    slot: Slot,
    value: Stored,
    min_live_until: u32,
) -> Map<Slot, Entry> {
    let live_until = if entries.contains_key(slot) {
        entries[slot].live_until
    } else {
        min_live_until
    };
    entries.insert(slot, Entry { value, live_until })
}

/// The life of an entry, counted from the current ledger, becomes `extend_to` where
/// it is no longer than `threshold`. It never passes what the network grants, and
/// never shrinks.
pub open spec fn extended_life(
    live_until: u32,
    threshold: u32,
    extend_to: u32,
    sequence: u32,
    max_live_until: u32,
) -> u32 {
    let target = if sequence + extend_to <= max_live_until {
        (sequence + extend_to) as u32
    } else {
        max_live_until
    };
    if live_until - sequence <= threshold && target > live_until {
        target
    } else {
        live_until
    }
}

/// The entries after the life of the one under `slot` was extended.
pub open spec fn prolonged(
    entries: Map<Slot, Entry>,
    slot: Slot,
    threshold: u32,
    extend_to: u32,
    sequence: u32,
    max_live_until: u32,
) -> Map<Slot, Entry> {
    let entry = entries[slot];
    let live_until = extended_life(
        entry.live_until,
        threshold,
        extend_to,
        sequence,
        max_live_until,
    );
    entries.insert(slot, Entry { live_until, ..entry })
}

/// What the running contract sees of the ledger.
#[verifier::ext_equal]
pub struct LedgerView {
    /// Whether a contract is executing.
    pub running: bool,
    /// The address of the executing contract.
    pub contract: Address,
    /// The sequence number of the current ledger.
    pub sequence: u32,
    /// The last ledger at which an entry written for the first time now is live.
    pub min_live_until: u32,
    /// The last ledger to which an entry's life can be extended now.
    pub max_live_until: u32,
    /// The contract's persistent entries.
    pub persistent: Map<Slot, Entry>,
    /// The values kept with the contract's instance.
    pub instance: Map<Seq<char>, Stored>,
    /// The events that the contract has published, oldest first.
    pub events: Seq<EventView>,
}

impl LedgerView {
    /// Stores a persistent value.
    pub open spec fn put(self, slot: Slot, value: Stored) -> Self {
        LedgerView {
            persistent: written(self.persistent, slot, value, self.min_live_until),
            ..self
        }
    }

    /// Extends the life of a persistent entry.
    pub open spec fn extend(self, slot: Slot, threshold: u32, extend_to: u32) -> Self {
        LedgerView {
            persistent: prolonged(
                self.persistent,
                slot,
                threshold,
                extend_to,
                self.sequence,
                self.max_live_until,
            ),
            ..self
        }
    }

    /// Stores a value with the contract's instance.
    pub open spec fn put_instance(self, tag: Seq<char>, value: Stored) -> Self {
        LedgerView { instance: self.instance.insert(tag, value), ..self }
    }

    /// Publishes an event.
    pub open spec fn publish(self, topic: Seq<char>, data: Seq<Datum>) -> Self {
        LedgerView { events: self.events.push(EventView { topic, data }), ..self }
    }

    /// The account that administers the contract, once there is one.
    pub open spec fn admin(self) -> Option<Address> {
        if self.instance.contains_key("Admin"@) {
            Some(self.instance["Admin"@]->Account_0)
        } else {
            None
        }
    }

    /// Whether the contract is paused. It is not until it has been said to be.
    pub open spec fn paused(self) -> bool {
        self.instance.contains_key("Paused"@) && self.instance["Paused"@]->Flag_0
    }

    /// Whether `name` is a registered creator.
    pub open spec fn registered(self, name: Seq<u8>) -> bool {
        self.persistent.contains_key(creator_slot(name))
    }

    /// The liquid balance of `name`: zero until one is stored.
    pub open spec fn balance(self, name: Seq<u8>) -> i128 {
        if self.persistent.contains_key(balance_slot(name)) {
            self.persistent[balance_slot(name)].value->Amount_0
        } else {
            0
        }
    }

    /// The staked balance of `name`: zero until one is stored.
    pub open spec fn stake_balance(self, name: Seq<u8>) -> i128 {
        if self.persistent.contains_key(stake_slot(name)) {
            self.persistent[stake_slot(name)].value->Amount_0
        } else {
            0
        }
    }

    /// The payment link stored under `token_id`, if there is one.
    pub open spec fn link(self, token_id: Seq<u8>) -> Option<PayLinkView> {
        if self.persistent.contains_key(link_slot(token_id)) {
            Some(self.persistent[link_slot(token_id)].value->Link_0)
        } else {
            None
        }
    }

    /// Under each kind of key whose value is read stands the kind of value that belongs
    /// there. Of the registration of a creator only the presence matters.
    pub open spec fn well_typed(self) -> bool {
        &&& forall|name: Seq<u8>| #[trigger]
            self.persistent.contains_key(balance_slot(name))
                ==> self.persistent[balance_slot(name)].value is Amount
        &&& forall|name: Seq<u8>| #[trigger]
            self.persistent.contains_key(stake_slot(name))
                ==> self.persistent[stake_slot(name)].value is Amount
        &&& forall|token_id: Seq<u8>| #[trigger]
            self.persistent.contains_key(link_slot(token_id))
                ==> self.persistent[link_slot(token_id)].value is Link
        &&& self.instance.contains_key("Admin"@) ==> self.instance["Admin"@] is Account
        &&& self.instance.contains_key("Paused"@) ==> self.instance["Paused"@] is Flag
    }

    /// A contract is executing, and its storage holds what it should.
    pub open spec fn valid(self) -> bool {
        &&& self.running
        &&& self.well_typed()
    }
}

/// Where the registration of a creator stands.
pub open spec fn creator_slot(name: Seq<u8>) -> Slot {
    ("Creator"@, name)
}

/// Where a payment link stands.
pub open spec fn link_slot(token_id: Seq<u8>) -> Slot {
    ("PayLink"@, token_id)
}

/// Where a liquid balance stands.
pub open spec fn balance_slot(name: Seq<u8>) -> Slot {
    ("Balance"@, name)
}

/// Where a staked balance stands.
pub open spec fn stake_slot(name: Seq<u8>) -> Slot {
    ("StakeBalance"@, name)
}

/// The tags of the six kinds of key differ.
pub proof fn lemma_tags_differ()
    ensures
        "Creator"@ != "PayLink"@,
        "Creator"@ != "Balance"@,
        "Creator"@ != "StakeBalance"@,
        "PayLink"@ != "Balance"@,
        "PayLink"@ != "StakeBalance"@,
        "Balance"@ != "StakeBalance"@,
        "Admin"@ != "Paused"@,
{
    reveal_strlit("Creator");
    reveal_strlit("PayLink");
    reveal_strlit("Balance");
    reveal_strlit("StakeBalance");
    reveal_strlit("Admin");
    reveal_strlit("Paused");
    assert("Creator"@[0] == 'C');
    assert("PayLink"@[0] == 'P');
    assert("Balance"@[0] == 'B');
    assert("StakeBalance"@[0] == 'S');
    assert("Admin"@[0] == 'A');
    assert("Paused"@[0] == 'P');
}

} // verus!
