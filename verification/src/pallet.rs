//! The ledger state and its five user-facing operations.

use vstd::prelude::*;

use std::collections::HashMap;
use std::collections::HashSet;

use crate::kitty::Kitty;
use crate::kitty::blend;

verus! {

/// The reasons an operation can be refused. Every check happens
/// before any mutation, so a failing operation leaves the ledger
/// exactly as it was.
#[derive(Clone, Copy, PartialEq, Eq, Debug)]
pub enum Error {
    /// A referenced asset does not exist, or the identifier space is
    /// exhausted.
    InvalidKittyId,
    /// Breeding was asked with both parent arguments equal.
    SameKittyId,
    /// The caller is not the asset's current owner.
    NotOwner,
    /// The asset is already listed for sale.
    AlreadyOnSale,
    /// The buyer already owns the asset.
    AlreadyOwned,
    /// The asset is not listed for sale.
    NotOnSale,
    /// The balance transfer was refused.
    PaymentFailed,
}

/// The notification recorded after each successful operation.
#[derive(Clone, Copy, PartialEq, Eq, Debug)]
pub enum Event {
    KittyCreated { who: u64, kitty_id: u32, kitty: Kitty },
    KittyBred { who: u64, kitty_id: u32, kitty: Kitty },
    KittyTransferred { who: u64, recipient: u64, kitty_id: u32 },
    KittyOnSale { who: u64, kitty_id: u32 },
    KittyBought { who: u64, kitty_id: u32 },
}

/// The whole ledger: the asset, ownership, parentage and sale-listing
/// tables, the identifier counter, the balance ledger the purchases
/// settle against, the recorded notifications, and the two
/// configuration values (the fixed price and the account that
/// collects creation fees). Every operation is a serialized state
/// transition on one value of this type.
pub struct Pallet {
    /// The identifier the next created or bred asset will receive.
    pub next_id: u32,
    /// Asset records by identifier; absence means the asset does not exist.
    pub kitties: HashMap<u32, Kitty>,
    /// The single owner of each existing asset.
    pub owners: HashMap<u32, u64>,
    /// The parent pair of each bred asset; absent for directly created ones.
    pub parents: HashMap<u32, (u32, u32)>,
    /// The assets currently listed for sale.
    pub on_sale: HashSet<u32>,
    /// Account balances; an absent account has balance zero.
    pub balances: HashMap<u64, u64>,
    /// Every notification emitted so far, oldest first.
    pub events: Vec<Event>,
    /// The fixed price paid for creation, breeding and purchase.
    pub price: u64,
    /// The account that collects creation and breeding fees.
    pub collector: u64,
}

impl Pallet {
    /// Well-formedness: every existing asset has exactly one owner,
    /// parentage and sale listings only refer to existing assets, and
    /// no existing asset carries an identifier the counter has not
    /// passed yet.
    pub open spec fn wf(self) -> bool {
        &&& self.owners@.dom() == self.kitties@.dom()
        &&& self.parents@.dom().subset_of(self.kitties@.dom())
        &&& self.on_sale@.subset_of(self.kitties@.dom())
        &&& forall|id: u32| #[trigger] self.kitties@.contains_key(id) ==> id < self.next_id
    }

    /// The record stored for `id`, if the asset exists.
    pub open spec fn spec_kitty(self, id: u32) -> Option<Kitty> {
        if self.kitties@.contains_key(id) {
            Some(self.kitties@[id])
        } else {
            None
        }
    }

    /// The owner of `id`, if the asset exists.
    pub open spec fn spec_owner(self, id: u32) -> Option<u64> {
        if self.owners@.contains_key(id) {
            Some(self.owners@[id])
        } else {
            None
        }
    }

    /// The recorded parent pair of `id`, if it was bred.
    pub open spec fn spec_parents(self, id: u32) -> Option<(u32, u32)> {
        if self.parents@.contains_key(id) {
            Some(self.parents@[id])
        } else {
            None
        }
    }

    /// Whether `id` is currently listed for sale.
    pub open spec fn spec_on_sale(self, id: u32) -> bool {
        self.on_sale@.contains(id)
    }

    /// The balance of `who`; an account never seen holds zero.
    pub open spec fn spec_balance_of(self, who: u64) -> u64 {
        balance_in(self.balances@, who)
    }

    /// Whether moving `amount` from `from` to `to` can settle: the
    /// payer must hold the amount, and crediting the payee must not
    /// overflow its balance. A transfer to oneself only needs the
    /// amount to be covered.
    pub open spec fn can_pay(self, from: u64, to: u64, amount: u64) -> bool {
        &&& self.spec_balance_of(from) >= amount
        &&& from != to ==> self.spec_balance_of(to) + amount <= u64::MAX
    }
}

/// The balance recorded for `who` in a balance table; an account
/// never seen holds zero.
pub open spec fn balance_in(balances: Map<u64, u64>, who: u64) -> u64 {
    if balances.contains_key(who) {
        balances[who]
    } else {
        0
    }
}

/// The two balance tables agree for every account.
pub open spec fn same_balances(pre: Map<u64, u64>, post: Map<u64, u64>) -> bool {
    forall|w: u64| #[trigger] balance_in(post, w) == balance_in(pre, w)
}

/// `amount` moved from `from` to `to` and no other balance changed.
/// A transfer to oneself leaves every balance as it was.
pub open spec fn balances_moved(
    pre: Map<u64, u64>,
    post: Map<u64, u64>,
    from: u64,
    to: u64,
    amount: u64,
) -> bool {
    if from == to {
        same_balances(pre, post)
    } else {
        &&& balance_in(post, from) == balance_in(pre, from) - amount
        &&& balance_in(post, to) == balance_in(pre, to) + amount
        &&& forall|w: u64|
            w != from && w != to ==> #[trigger] balance_in(post, w) == balance_in(pre, w)
    }
}

/// The configured price and fee collector are unchanged.
pub open spec fn same_config(pre: Pallet, post: Pallet) -> bool {
    &&& post.price == pre.price
    &&& post.collector == pre.collector
}

impl Pallet {
    /// A fresh, empty ledger configured with the fixed `price` and
    /// the fee-collecting account. Identifiers start at zero.
    pub fn new(price: u64, collector: u64) -> (pallet: Pallet)
        ensures
            pallet.wf(),
            pallet.next_id == 0,
            pallet.kitties@ == Map::<u32, Kitty>::empty(),
            pallet.owners@ == Map::<u32, u64>::empty(),
            pallet.parents@ == Map::<u32, (u32, u32)>::empty(),
            pallet.on_sale@ == Set::<u32>::empty(),
            pallet.balances@ == Map::<u64, u64>::empty(),
            pallet.events@ == Seq::<Event>::empty(),
            pallet.price == price,
            pallet.collector == collector,
    {
        let pallet = Pallet {
            next_id: 0,
            kitties: HashMap::new(),
            owners: HashMap::new(),
            parents: HashMap::new(),
            on_sale: HashSet::new(),
            balances: HashMap::new(),
            events: Vec::new(),
            price,
            collector,
        };
        assert(pallet.owners@.dom() =~= pallet.kitties@.dom());
        assert(pallet.parents@.dom().subset_of(pallet.kitties@.dom()));
        assert(pallet.on_sale@.subset_of(pallet.kitties@.dom()));
        pallet
    }

    /// The value the identifier counter currently stands at.
    pub fn next_kitty_id(&self) -> (id: u32)
        ensures
            id == self.next_id,
    {
        self.next_id
    }

    /// Looks an asset record up by identifier.
    pub fn kitties(&self, kitty_id: u32) -> (record: Option<Kitty>)
        ensures
            record == self.spec_kitty(kitty_id),
    {
        match self.kitties.get(&kitty_id) {
            Some(record) => Some(*record),
            None => None,
        }
    }

    /// Looks an asset's owner up by identifier.
    pub fn kitty_owner(&self, kitty_id: u32) -> (owner: Option<u64>)
        ensures
            owner == self.spec_owner(kitty_id),
    {
        match self.owners.get(&kitty_id) {
            Some(owner) => Some(*owner),
            None => None,
        }
    }

    /// Looks an asset's recorded parent pair up by identifier.
    pub fn kitty_parents(&self, kitty_id: u32) -> (pair: Option<(u32, u32)>)
        ensures
            pair == self.spec_parents(kitty_id),
    {
        match self.parents.get(&kitty_id) {
            Some(pair) => Some(*pair),
            None => None,
        }
    }

    /// Whether an asset is currently listed for sale.
    pub fn kitty_on_sale(&self, kitty_id: u32) -> (listed: bool)
        ensures
            listed == self.spec_on_sale(kitty_id),
    {
        self.on_sale.contains(&kitty_id)
    }

    /// The most recently emitted notification, if any.
    pub fn last_event(&self) -> (event: Option<Event>)
        ensures
            self.events@.len() == 0 ==> event is None,
            self.events@.len() > 0 ==> event == Some(self.events@.last()),
    {
        if self.events.len() == 0 {
            None
        } else {
            Some(self.events[self.events.len() - 1])
        }
    }

    /// The account that collects creation and breeding fees.
    pub fn get_account_id(&self) -> (account: u64)
        ensures
            account == self.collector,
    {
        self.collector
    }

    /// The configured fixed price.
    pub fn kitty_price(&self) -> (price: u64)
        ensures
            price == self.price,
    {
        self.price
    }

    /// Reads an account's balance.
    pub fn balance_of(&self, who: u64) -> (amount: u64)
        ensures
            amount == self.spec_balance_of(who),
    {
        match self.balances.get(&who) {
            Some(amount) => *amount,
            None => 0,
        }
    }

    /// Overwrites an account's balance.
    pub fn set_balance(&mut self, who: u64, amount: u64)
        ensures
            final(self).balances@ == old(self).balances@.insert(who, amount),
            final(self).spec_balance_of(who) == amount,
            forall|w: u64|
                w != who ==> #[trigger] final(self).spec_balance_of(w) == old(
                    self,
                ).spec_balance_of(w),
            final(self).next_id == old(self).next_id,
            final(self).kitties@ == old(self).kitties@,
            final(self).owners@ == old(self).owners@,
            final(self).parents@ == old(self).parents@,
            final(self).on_sale@ == old(self).on_sale@,
            final(self).events@ == old(self).events@,
            same_config(*old(self), *final(self)),
            old(self).wf() ==> final(self).wf(),
    {
        self.balances.insert(who, amount);
    }

    /// Raises the identifier counter to `id`; the counter never
    /// moves backwards.
    pub fn set_next_kitty_id(&mut self, id: u32)
        requires
            id >= old(self).next_id,
        ensures
            final(self).next_id == id,
            final(self).kitties@ == old(self).kitties@,
            final(self).owners@ == old(self).owners@,
            final(self).parents@ == old(self).parents@,
            final(self).on_sale@ == old(self).on_sale@,
            final(self).balances@ == old(self).balances@,
            final(self).events@ == old(self).events@,
            same_config(*old(self), *final(self)),
            old(self).wf() ==> final(self).wf(),
    {
        self.next_id = id;
    }

    /// Whether a payment of `amount` from `from` to `to` would settle.
    fn pays(&self, from: u64, to: u64, amount: u64) -> (ok: bool)
        ensures
            ok == self.can_pay(from, to, amount),
    {
        let from_balance = self.balance_of(from);
        if from == to {
            from_balance >= amount
        } else {
            let to_balance = self.balance_of(to);
            from_balance >= amount && amount <= u64::MAX - to_balance
        }
    }

    /// Moves `amount` from `from` to `to`, or refuses the payment and
    /// leaves every balance unchanged. Settles if and only if the
    /// payer holds the amount and the payee can absorb it.
    fn currency_transfer(&mut self, from: u64, to: u64, amount: u64) -> (result: Result<
        (),
        Error,
    >)
        ensures
            result is Ok <==> old(self).can_pay(from, to, amount),
            result is Err ==> result == Err::<(), Error>(Error::PaymentFailed) && *final(self)
                == *old(self),
            result is Ok ==> balances_moved(old(self).balances@, final(self).balances@, from, to, amount),
            final(self).next_id == old(self).next_id,
            final(self).kitties@ == old(self).kitties@,
            final(self).owners@ == old(self).owners@,
            final(self).parents@ == old(self).parents@,
            final(self).on_sale@ == old(self).on_sale@,
            final(self).events@ == old(self).events@,
            same_config(*old(self), *final(self)),
            old(self).wf() ==> final(self).wf(),
    {
        let from_balance = self.balance_of(from);
        if from == to {
            if from_balance >= amount {
                Ok(())
            } else {
                Err(Error::PaymentFailed)
            }
        } else {
            if from_balance < amount {
                return Err(Error::PaymentFailed);
            }
            let to_balance = self.balance_of(to);
            if amount > u64::MAX - to_balance {
                return Err(Error::PaymentFailed);
            }
            self.balances.insert(from, from_balance - amount);
            self.balances.insert(to, to_balance + amount);
            Ok(())
        }
    }

    /// Hands out the next fresh identifier and advances the counter.
    /// Allocation fails, and the counter stays put, exactly when the
    /// counter is at the largest representable identifier.
    pub fn get_next_id(&mut self) -> (result: Result<u32, Error>)
        ensures
            old(self).next_id == u32::MAX ==> result == Err::<u32, Error>(Error::InvalidKittyId)
                && *final(self) == *old(self),
            old(self).next_id < u32::MAX ==> result == Ok::<u32, Error>(old(self).next_id)
                && final(self).next_id == old(self).next_id + 1,
            final(self).kitties@ == old(self).kitties@,
            final(self).owners@ == old(self).owners@,
            final(self).parents@ == old(self).parents@,
            final(self).on_sale@ == old(self).on_sale@,
            final(self).balances@ == old(self).balances@,
            final(self).events@ == old(self).events@,
            same_config(*old(self), *final(self)),
            old(self).wf() ==> final(self).wf(),
    {
        if self.next_id == u32::MAX {
            return Err(Error::InvalidKittyId);
        }
        let id = self.next_id;
        self.next_id = id + 1;
        Ok(id)
    }
}

/// The first check that refuses a creation, or `None` when it goes
/// through: the fee is settled before anything else, and then a
/// fresh identifier must still exist.
pub open spec fn create_outcome(pre: Pallet, who: u64) -> Option<Error> {
    if !pre.can_pay(who, pre.collector, pre.price) {
        Some(Error::PaymentFailed)
    } else if pre.next_id == u32::MAX {
        Some(Error::InvalidKittyId)
    } else {
        None
    }
}

/// How a successful creation changes the ledger: the caller paid the
/// fee, the asset whose identity is the raw random value `mask` was
/// recorded under the fresh identifier with the caller as owner, no
/// parentage or listing was touched, and the creation was announced.
pub open spec fn create_transition(
    pre: Pallet,
    post: Pallet,
    who: u64,
    mask: [u8; 16],
    name: [u8; 8],
) -> bool {
    let id = pre.next_id;
    let kitty = Kitty { dna: mask, name };
    &&& create_outcome(pre, who) is None
    &&& post.next_id == id + 1
    &&& post.kitties@ == pre.kitties@.insert(id, kitty)
    &&& post.owners@ == pre.owners@.insert(id, who)
    &&& post.parents@ == pre.parents@
    &&& post.on_sale@ == pre.on_sale@
    &&& balances_moved(pre.balances@, post.balances@, who, pre.collector, pre.price)
    &&& post.events@ == pre.events@.push(Event::KittyCreated { who, kitty_id: id, kitty })
    &&& same_config(pre, post)
}

/// The first check that refuses a breeding, or `None` when it goes
/// through: the fee is settled first, both parents must exist (this
/// is checked before the parents are compared, so two equal missing
/// parents are reported as missing), the parents must differ, and a
/// fresh identifier must still exist.
pub open spec fn breed_outcome(pre: Pallet, who: u64, kitty_id_1: u32, kitty_id_2: u32) -> Option<
    Error,
> {
    if !pre.can_pay(who, pre.collector, pre.price) {
        Some(Error::PaymentFailed)
    } else if !pre.kitties@.contains_key(kitty_id_1) {
        Some(Error::InvalidKittyId)
    } else if !pre.kitties@.contains_key(kitty_id_2) {
        Some(Error::InvalidKittyId)
    } else if kitty_id_1 == kitty_id_2 {
        Some(Error::SameKittyId)
    } else if pre.next_id == u32::MAX {
        Some(Error::InvalidKittyId)
    } else {
        None
    }
}

/// How a successful breeding changes the ledger: the caller paid the
/// fee, a child whose identity blends the two parents' identities
/// under the random selector `mask` was recorded under the fresh
/// identifier with the caller as owner, its parent pair was recorded,
/// no listing was touched, and the breeding was announced.
pub open spec fn breed_transition(
    pre: Pallet,
    post: Pallet,
    who: u64,
    kitty_id_1: u32,
    kitty_id_2: u32,
    mask: [u8; 16],
    name: [u8; 8],
) -> bool {
    let id = pre.next_id;
    let child = post.kitties@[id];
    &&& breed_outcome(pre, who, kitty_id_1, kitty_id_2) is None
    &&& post.next_id == id + 1
    &&& child.dna@ == blend(pre.kitties@[kitty_id_1].dna@, pre.kitties@[kitty_id_2].dna@, mask@)
    &&& child.name == name
    &&& post.kitties@ == pre.kitties@.insert(id, child)
    &&& post.owners@ == pre.owners@.insert(id, who)
    &&& post.parents@ == pre.parents@.insert(id, (kitty_id_1, kitty_id_2))
    &&& post.on_sale@ == pre.on_sale@
    &&& balances_moved(pre.balances@, post.balances@, who, pre.collector, pre.price)
    &&& post.events@ == pre.events@.push(Event::KittyBred { who, kitty_id: id, kitty: child })
    &&& same_config(pre, post)
}

/// The first check that refuses a transfer, or `None` when it goes
/// through: the asset must exist and the caller must own it.
pub open spec fn transfer_outcome(pre: Pallet, who: u64, kitty_id: u32) -> Option<Error> {
    if !pre.owners@.contains_key(kitty_id) {
        Some(Error::InvalidKittyId)
    } else if pre.owners@[kitty_id] != who {
        Some(Error::NotOwner)
    } else {
        None
    }
}

/// How a successful transfer changes the ledger: only the one
/// ownership entry moves to the recipient, and the transfer is
/// announced. No payment is involved.
pub open spec fn transfer_transition(
    pre: Pallet,
    post: Pallet,
    who: u64,
    recipient: u64,
    kitty_id: u32,
) -> bool {
    &&& transfer_outcome(pre, who, kitty_id) is None
    &&& post.next_id == pre.next_id
    &&& post.kitties@ == pre.kitties@
    &&& post.owners@ == pre.owners@.insert(kitty_id, recipient)
    &&& post.parents@ == pre.parents@
    &&& post.on_sale@ == pre.on_sale@
    &&& same_balances(pre.balances@, post.balances@)
    &&& post.events@ == pre.events@.push(Event::KittyTransferred { who, recipient, kitty_id })
    &&& same_config(pre, post)
}

/// The first check that refuses a listing, or `None` when it goes
/// through: the asset must exist, the caller must own it, and it
/// must not be listed already.
pub open spec fn sale_outcome(pre: Pallet, who: u64, kitty_id: u32) -> Option<Error> {
    if !pre.owners@.contains_key(kitty_id) {
        Some(Error::InvalidKittyId)
    } else if pre.owners@[kitty_id] != who {
        Some(Error::NotOwner)
    } else if pre.on_sale@.contains(kitty_id) {
        Some(Error::AlreadyOnSale)
    } else {
        None
    }
}

/// How a successful listing changes the ledger: only the sale mark
/// for the one asset appears, and the listing is announced.
pub open spec fn sale_transition(pre: Pallet, post: Pallet, who: u64, kitty_id: u32) -> bool {
    &&& sale_outcome(pre, who, kitty_id) is None
    &&& post.next_id == pre.next_id
    &&& post.kitties@ == pre.kitties@
    &&& post.owners@ == pre.owners@
    &&& post.parents@ == pre.parents@
    &&& post.on_sale@ == pre.on_sale@.insert(kitty_id)
    &&& same_balances(pre.balances@, post.balances@)
    &&& post.events@ == pre.events@.push(Event::KittyOnSale { who, kitty_id })
    &&& same_config(pre, post)
}

/// The first check that refuses a purchase, or `None` when it goes
/// through: the asset must exist, the buyer must not own it already,
/// it must be listed, and the price must settle from the buyer to
/// the current owner.
pub open spec fn buy_outcome(pre: Pallet, who: u64, kitty_id: u32) -> Option<Error> {
    if !pre.owners@.contains_key(kitty_id) {
        Some(Error::InvalidKittyId)
    } else if pre.owners@[kitty_id] == who {
        Some(Error::AlreadyOwned)
    } else if !pre.on_sale@.contains(kitty_id) {
        Some(Error::NotOnSale)
    } else if !pre.can_pay(who, pre.owners@[kitty_id], pre.price) {
        Some(Error::PaymentFailed)
    } else {
        None
    }
}

/// How a successful purchase changes the ledger: the price moved
/// from the buyer to the previous owner, ownership moved to the
/// buyer and the listing disappeared in the same step, and the
/// purchase was announced.
pub open spec fn buy_transition(pre: Pallet, post: Pallet, who: u64, kitty_id: u32) -> bool {
    let seller = pre.owners@[kitty_id];
    &&& buy_outcome(pre, who, kitty_id) is None
    &&& post.next_id == pre.next_id
    &&& post.kitties@ == pre.kitties@
    &&& post.owners@ == pre.owners@.insert(kitty_id, who)
    &&& post.parents@ == pre.parents@
    &&& post.on_sale@ == pre.on_sale@.remove(kitty_id)
    &&& balances_moved(pre.balances@, post.balances@, who, seller, pre.price)
    &&& post.events@ == pre.events@.push(Event::KittyBought { who, kitty_id })
    &&& same_config(pre, post)
}

impl Pallet {
    /// Creates a brand-new asset for `who`, whose identity is the
    /// raw random value `mask`. The fee is settled before the
    /// identifier is checked, so a refused payment never consumes an
    /// identifier; a refused operation leaves the ledger untouched.
    pub fn create(&mut self, who: u64, mask: [u8; 16], name: [u8; 8]) -> (result: Result<
        (),
        Error,
    >)
        requires
            old(self).wf(),
        ensures
            final(self).wf(),
            (match create_outcome(*old(self), who) {
                Some(refusal) => result == Err::<(), Error>(refusal) && *final(self) == *old(self),
                None => result == Ok::<(), Error>(()) && create_transition(
                    *old(self),
                    *final(self),
                    who,
                    mask,
                    name,
                ),
            }),
    {
        let price = self.price;
        let collector = self.collector;
        if !self.pays(who, collector, price) {
            return Err(Error::PaymentFailed);
        }
        if self.next_id == u32::MAX {
            return Err(Error::InvalidKittyId);
        }
        match self.currency_transfer(who, collector, price) {
            Ok(()) => {},
            Err(refusal) => {
                return Err(refusal);
            },
        }
        let kitty_id = match self.get_next_id() {
            Ok(id) => id,
            Err(refusal) => {
                return Err(refusal);
            },
        };
        let kitty = Kitty { dna: mask, name };
        self.kitties.insert(kitty_id, kitty);
        self.owners.insert(kitty_id, who);
        self.events.push(Event::KittyCreated { who, kitty_id, kitty });
        proof {
            assert(final(self).owners@.dom() =~= final(self).kitties@.dom());
        }
        Ok(())
    }

    /// Breeds a child from two existing, distinct parents for `who`.
    /// The child's identity blends the parents' identities under the
    /// one-shot random selector `mask`; a refused operation leaves
    /// the ledger untouched.
    pub fn breed(
        &mut self,
        who: u64,
        kitty_id_1: u32,
        kitty_id_2: u32,
        mask: [u8; 16],
        name: [u8; 8],
    ) -> (result: Result<(), Error>)
        requires
            old(self).wf(),
        ensures
            final(self).wf(),
            (match breed_outcome(*old(self), who, kitty_id_1, kitty_id_2) {
                Some(refusal) => result == Err::<(), Error>(refusal) && *final(self) == *old(self),
                None => result == Ok::<(), Error>(()) && breed_transition(
                    *old(self),
                    *final(self),
                    who,
                    kitty_id_1,
                    kitty_id_2,
                    mask,
                    name,
                ),
            }),
    {
        let price = self.price;
        let collector = self.collector;
        if !self.pays(who, collector, price) {
            return Err(Error::PaymentFailed);
        }
        let kitty_1 = match self.kitties(kitty_id_1) {
            Some(record) => record,
            None => {
                return Err(Error::InvalidKittyId);
            },
        };
        let kitty_2 = match self.kitties(kitty_id_2) {
            Some(record) => record,
            None => {
                return Err(Error::InvalidKittyId);
            },
        };
        if kitty_id_1 == kitty_id_2 {
            return Err(Error::SameKittyId);
        }
        if self.next_id == u32::MAX {
            return Err(Error::InvalidKittyId);
        }
        match self.currency_transfer(who, collector, price) {
            Ok(()) => {},
            Err(refusal) => {
                return Err(refusal);
            },
        }
        let kitty_id = match self.get_next_id() {
            Ok(id) => id,
            Err(refusal) => {
                return Err(refusal);
            },
        };
        let dna = crate::kitty::derive(&kitty_1.dna, &kitty_2.dna, &mask);
        let kitty = Kitty { dna, name };
        self.kitties.insert(kitty_id, kitty);
        self.owners.insert(kitty_id, who);
        self.parents.insert(kitty_id, (kitty_id_1, kitty_id_2));
        self.events.push(Event::KittyBred { who, kitty_id, kitty });
        proof {
            assert(final(self).owners@.dom() =~= final(self).kitties@.dom());
        }
        Ok(())
    }

    /// Hands an asset the caller owns over to `recipient`.
    pub fn transfer(&mut self, who: u64, recipient: u64, kitty_id: u32) -> (result: Result<
        (),
        Error,
    >)
        requires
            old(self).wf(),
        ensures
            final(self).wf(),
            (match transfer_outcome(*old(self), who, kitty_id) {
                Some(refusal) => result == Err::<(), Error>(refusal) && *final(self) == *old(self),
                None => result == Ok::<(), Error>(()) && transfer_transition(
                    *old(self),
                    *final(self),
                    who,
                    recipient,
                    kitty_id,
                ),
            }),
    {
        let owner = match self.kitty_owner(kitty_id) {
            Some(owner) => owner,
            None => {
                return Err(Error::InvalidKittyId);
            },
        };
        if who != owner {
            return Err(Error::NotOwner);
        }
        self.owners.insert(kitty_id, recipient);
        self.events.push(Event::KittyTransferred { who, recipient, kitty_id });
        proof {
            assert(final(self).owners@.dom() =~= final(self).kitties@.dom());
        }
        Ok(())
    }

    /// Lists an asset the caller owns for sale at the fixed price.
    pub fn sale(&mut self, who: u64, kitty_id: u32) -> (result: Result<(), Error>)
        requires
            old(self).wf(),
        ensures
            final(self).wf(),
            (match sale_outcome(*old(self), who, kitty_id) {
                Some(refusal) => result == Err::<(), Error>(refusal) && *final(self) == *old(self),
                None => result == Ok::<(), Error>(()) && sale_transition(
                    *old(self),
                    *final(self),
                    who,
                    kitty_id,
                ),
            }),
    {
        let owner = match self.kitty_owner(kitty_id) {
            Some(owner) => owner,
            None => {
                return Err(Error::InvalidKittyId);
            },
        };
        if who != owner {
            return Err(Error::NotOwner);
        }
        if self.kitty_on_sale(kitty_id) {
            return Err(Error::AlreadyOnSale);
        }
        self.on_sale.insert(kitty_id);
        self.events.push(Event::KittyOnSale { who, kitty_id });
        Ok(())
    }

    /// Buys a listed asset from its current owner at the fixed
    /// price. The payment is settled before ownership moves, and
    /// ownership and the listing change in the same step: a refused
    /// payment leaves both exactly as they were.
    pub fn buy(&mut self, who: u64, kitty_id: u32) -> (result: Result<(), Error>)
        requires
            old(self).wf(),
        ensures
            final(self).wf(),
            (match buy_outcome(*old(self), who, kitty_id) {
                Some(refusal) => result == Err::<(), Error>(refusal) && *final(self) == *old(self),
                None => result == Ok::<(), Error>(()) && buy_transition(
                    *old(self),
                    *final(self),
                    who,
                    kitty_id,
                ),
            }),
    {
        let owner = match self.kitty_owner(kitty_id) {
            Some(owner) => owner,
            None => {
                return Err(Error::InvalidKittyId);
            },
        };
        if owner == who {
            return Err(Error::AlreadyOwned);
        }
        if !self.kitty_on_sale(kitty_id) {
            return Err(Error::NotOnSale);
        }
        let price = self.price;
        match self.currency_transfer(who, owner, price) {
            Ok(()) => {},
            Err(refusal) => {
                return Err(refusal);
            },
        }
        self.owners.insert(kitty_id, who);
        self.on_sale.remove(&kitty_id);
        self.events.push(Event::KittyBought { who, kitty_id });
        proof {
            assert(final(self).owners@.dom() =~= final(self).kitties@.dom());
        }
        Ok(())
    }
}

/// Successive successful creations hand out consecutive identifiers:
/// the first receives the counter's value and the second the next
/// one, so the identifiers a sequence of successful creations
/// returns are strictly increasing with no gaps and no repeats; on a
/// fresh ledger the sequence starts at zero, since `Pallet::new`
/// starts the counter there.
pub proof fn lemma_create_ids_consecutive(
    pre: Pallet,
    mid: Pallet,
    post: Pallet,
    who_1: u64,
    mask_1: [u8; 16],
    name_1: [u8; 8],
    who_2: u64,
    mask_2: [u8; 16],
    name_2: [u8; 8],
)
    requires
        pre.wf(),
        create_transition(pre, mid, who_1, mask_1, name_1),
        create_transition(mid, post, who_2, mask_2, name_2),
    ensures
        mid.next_id == pre.next_id + 1,
        post.next_id == pre.next_id + 2,
        !pre.kitties@.contains_key(pre.next_id),
        mid.kitties@.contains_key(pre.next_id),
        !mid.kitties@.contains_key(mid.next_id),
        post.kitties@.contains_key(mid.next_id),
        mid.kitties@.dom() =~= pre.kitties@.dom().insert(pre.next_id),
{
}

/// Along any chain of successful creations — `trace` holds the
/// ledger states, `steps` the caller, selector and name each
/// creation took — the counter climbs by exactly one per step, so
/// the identifiers handed out (the step `i` creation receives
/// `trace[0].next_id + i`) are strictly increasing consecutive
/// integers, with no gaps and no repeats; from a fresh ledger they
/// start at zero.
pub proof fn lemma_create_sequence_ids(trace: Seq<Pallet>, steps: Seq<(u64, [u8; 16], [u8; 8])>)
    requires
        trace.len() == steps.len() + 1,
        forall|i: int|
            0 <= i < steps.len() ==> create_transition(
                #[trigger] trace[i],
                trace[i + 1],
                steps[i].0,
                steps[i].1,
                steps[i].2,
            ),
    ensures
        forall|i: int| 0 <= i < trace.len() ==> #[trigger] trace[i].next_id == trace[0].next_id + i,
    decreases trace.len(),
{
    if steps.len() > 0 {
        let prefix = trace.drop_last();
        let prefix_steps = steps.drop_last();
        assert forall|i: int| 0 <= i < prefix_steps.len() implies create_transition(
            #[trigger] prefix[i],
            prefix[i + 1],
            prefix_steps[i].0,
            prefix_steps[i].1,
            prefix_steps[i].2,
        ) by {
            assert(create_transition(trace[i], trace[i + 1], steps[i].0, steps[i].1, steps[i].2));
        }
        lemma_create_sequence_ids(prefix, prefix_steps);
        let last = trace.len() - 1;
        assert(create_transition(
            trace[last - 1],
            trace[last],
            steps[last - 1].0,
            steps[last - 1].1,
            steps[last - 1].2,
        ));
        assert forall|i: int| 0 <= i < trace.len() implies #[trigger] trace[i].next_id
            == trace[0].next_id + i by {
            if i < last {
                assert(prefix[i].next_id == prefix[0].next_id + i);
            } else {
                assert(prefix[last - 1].next_id == prefix[0].next_id + (last - 1));
                assert(trace[last].next_id == trace[last - 1].next_id + 1);
            }
        }
    }
}

/// Breeding with both parent arguments equal is refused as
/// `SameKittyId` whenever the fee settles and that parent exists.
/// When the shared argument names no existing asset the existence
/// check fires first and reports `InvalidKittyId` instead, and a fee
/// that cannot settle is reported before everything else.
pub proof fn lemma_breed_same_parent(pre: Pallet, who: u64, kitty_id: u32)
    requires
        pre.can_pay(who, pre.collector, pre.price),
        pre.kitties@.contains_key(kitty_id),
    ensures
        breed_outcome(pre, who, kitty_id, kitty_id) == Some(Error::SameKittyId),
{
}

/// Breeding with a missing parent is refused as `InvalidKittyId`
/// whenever the fee settles — also when the two arguments are equal
/// and both missing, since existence is checked before the parent
/// arguments are compared.
pub proof fn lemma_breed_missing_parent(pre: Pallet, who: u64, kitty_id_1: u32, kitty_id_2: u32)
    requires
        pre.can_pay(who, pre.collector, pre.price),
        !pre.kitties@.contains_key(kitty_id_1) || !pre.kitties@.contains_key(kitty_id_2),
    ensures
        breed_outcome(pre, who, kitty_id_1, kitty_id_2) == Some(Error::InvalidKittyId),
{
}

/// A transfer asked by anyone but the current owner is refused as
/// `NotOwner`; by `transfer`'s contract the refused call leaves the
/// ledger, ownership included, unchanged.
pub proof fn lemma_transfer_non_owner(pre: Pallet, who: u64, kitty_id: u32)
    requires
        pre.owners@.contains_key(kitty_id),
        pre.owners@[kitty_id] != who,
    ensures
        transfer_outcome(pre, who, kitty_id) == Some(Error::NotOwner),
{
}

/// Listing an asset and at once listing it again is refused the
/// second time as `AlreadyOnSale`.
pub proof fn lemma_sale_then_sale(pre: Pallet, mid: Pallet, who: u64, kitty_id: u32)
    requires
        sale_transition(pre, mid, who, kitty_id),
    ensures
        sale_outcome(mid, who, kitty_id) == Some(Error::AlreadyOnSale),
{
}

/// Buying an asset that is not listed is refused as `NotOnSale`
/// (once the asset exists and the buyer is not its owner, the two
/// checks that come first).
pub proof fn lemma_buy_unlisted(pre: Pallet, who: u64, kitty_id: u32)
    requires
        pre.owners@.contains_key(kitty_id),
        pre.owners@[kitty_id] != who,
        !pre.on_sale@.contains(kitty_id),
    ensures
        buy_outcome(pre, who, kitty_id) == Some(Error::NotOnSale),
{
}

/// Buying an asset one already owns is refused as `AlreadyOwned`,
/// listed or not.
pub proof fn lemma_buy_own_asset(pre: Pallet, who: u64, kitty_id: u32)
    requires
        pre.owners@.contains_key(kitty_id),
        pre.owners@[kitty_id] == who,
    ensures
        buy_outcome(pre, who, kitty_id) == Some(Error::AlreadyOwned),
{
}

/// A successful purchase moves ownership to the buyer and clears the
/// listing in the same step: no state in which one changed without
/// the other is ever observable.
pub proof fn lemma_buy_atomic(pre: Pallet, post: Pallet, who: u64, kitty_id: u32)
    requires
        buy_transition(pre, post, who, kitty_id),
    ensures
        post.spec_owner(kitty_id) == Some(who),
        !post.spec_on_sale(kitty_id),
{
}

/// Records are immutable once created: a creation only adds the one
/// fresh record, leaving every already-stored record and every
/// recorded parent pair exactly as it was.
pub proof fn lemma_create_preserves_records(
    pre: Pallet,
    post: Pallet,
    who: u64,
    mask: [u8; 16],
    name: [u8; 8],
)
    requires
        pre.wf(),
        create_transition(pre, post, who, mask, name),
    ensures
        forall|id: u32| #[trigger]
            pre.kitties@.contains_key(id) ==> post.kitties@.contains_key(id) && post.kitties@[id]
                == pre.kitties@[id],
        post.parents@ == pre.parents@,
{
}

/// Records and parentage are immutable once created: a breeding only
/// adds the one fresh record and its parent pair, leaving every
/// already-stored record and every already-recorded parent pair
/// exactly as it was.
pub proof fn lemma_breed_preserves_records(
    pre: Pallet,
    post: Pallet,
    who: u64,
    kitty_id_1: u32,
    kitty_id_2: u32,
    mask: [u8; 16],
    name: [u8; 8],
)
    requires
        pre.wf(),
        breed_transition(pre, post, who, kitty_id_1, kitty_id_2, mask, name),
    ensures
        forall|id: u32| #[trigger]
            pre.kitties@.contains_key(id) ==> post.kitties@.contains_key(id) && post.kitties@[id]
                == pre.kitties@[id],
        forall|id: u32| #[trigger]
            pre.parents@.contains_key(id) ==> post.parents@.contains_key(id) && post.parents@[id]
                == pre.parents@[id],
{
}

} // verus!
