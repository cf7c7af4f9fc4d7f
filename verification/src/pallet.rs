//! The asset state-transition engine: identifier allocation, creation,
//! breeding, ownership transfer and the marketplace.
//!
//! The store keeps one record per created asset, indexed by its id: assets
//! are numbered from zero in order of creation, so an owner record exists for
//! an id exactly when the id is below the counter. A listing price of zero is
//! the sentinel for "not listed". Every operation checks all of its
//! preconditions before writing anything: a failing call returns exactly one
//! error and leaves both the store and the bank unchanged.

use vstd::prelude::*;
use crate::bank::{Bank, min64};
use crate::genetics::{combine, combine_byte, random_value, seed_for};

verus! {

/// A collectible asset: its immutable 16-byte DNA payload.
#[derive(Clone, Copy)]
pub struct Kitty(pub [u8; 16]);

/// Fixed configuration: the amount an account must hold in reserve to be
/// recorded as owner of an asset.
#[derive(Clone, Copy)]
pub struct Config {
    pub reserve_value: u64,
}

/// Why an operation was refused. Exactly one kind comes back from a failing
/// call, and the call has then changed nothing.
#[derive(Clone, Copy, Debug, PartialEq, Eq, Structural)]
pub enum Error {
    /// The identifier allocator is exhausted.
    IdentifierOverflow,
    /// The caller is not the recorded owner.
    NotOwner,
    /// The referenced asset id has no asset record.
    InvalidIndex,
    /// Breeding was asked with identical parent ids.
    SameParent,
    /// A reservation, transfer or purchase currency check failed.
    InsufficientFunds,
    /// The purchase target has no active listing.
    NotListed,
}

/// What a successful operation reports to the event sink.
#[derive(Clone, Copy, Debug, PartialEq, Eq, Structural)]
pub enum Event {
    Created { account: u64, id: u32 },
    Transferred { from: u64, to: u64, id: u32 },
    Bred { account: u64, id: u32 },
    Listed { account: u64, id: u32 },
    Purchased { account: u64, id: u32 },
}

/// The engine's store: the counter of assets ever created, one DNA, owner
/// and listing record per asset, the events emitted so far, and the fixed
/// configuration.
pub struct Pallet {
    pub counter: Option<u32>,
    pub kitties: Vec<Kitty>,
    pub owners: Vec<u64>,
    pub listings: Vec<u64>,
    pub events: Vec<Event>,
    pub config: Config,
}

impl Pallet {
    /// Total assets ever created; the next id to allocate.
    pub open spec fn count(self) -> nat {
        match self.counter {
            Option::Some(n) => n as nat,
            Option::None => 0nat,
        }
    }

    /// The three record maps each hold exactly one entry per created asset.
    pub open spec fn wf(self) -> bool {
        &&& self.kitties@.len() == self.count()
        &&& self.owners@.len() == self.count()
        &&& self.listings@.len() == self.count()
    }

    /// An asset record exists for `id`.
    pub open spec fn has_asset(self, id: u32) -> bool {
        (id as nat) < self.count()
    }

    /// An owner record exists for `id`.
    pub open spec fn has_owner_record(self, id: u32) -> bool {
        (id as nat) < self.owners@.len()
    }

    /// The recorded owner of `id` (meaningful only when the asset exists).
    pub open spec fn owner_of(self, id: u32) -> u64 {
        self.owners@[id as int]
    }

    /// The DNA payload of `id` (meaningful only when the asset exists).
    pub open spec fn dna_of(self, id: u32) -> Seq<u8> {
        self.kitties@[id as int].0@
    }

    /// The listing price of `id`; zero means "not listed".
    pub open spec fn price_of(self, id: u32) -> u64 {
        if self.has_asset(id) {
            self.listings@[id as int]
        } else {
            0u64
        }
    }

    /// `who` is the recorded owner of an existing asset `id`.
    pub open spec fn is_owner(self, who: u64, id: u32) -> bool {
        self.has_asset(id) && self.owner_of(id) == who
    }

    /// No asset was created or destroyed, no DNA changed, and the
    /// configuration is as before.
    pub open spec fn same_assets(pre: Pallet, post: Pallet) -> bool {
        &&& post.counter == pre.counter
        &&& post.kitties@ == pre.kitties@
        &&& post.config == pre.config
    }

    /// An empty store under the given configuration.
    pub fn new(config: Config) -> (r: Pallet)
        ensures
            r.wf(),
            r.count() == 0,
            r.counter is None,
            r.events@.len() == 0,
            r.config == config,
    {
        Pallet {
            counter: None,
            kitties: Vec::new(),
            owners: Vec::new(),
            listings: Vec::new(),
            events: Vec::new(),
            config,
        }
    }

    /// The counter: `None` while no asset has ever been created.
    pub fn kitties_count(&self) -> (r: Option<u32>)
        ensures
            r == self.counter,
    {
        self.counter
    }

    /// The asset record for `id`, if the asset exists.
    pub fn kitties(&self, id: u32) -> (r: Option<Kitty>)
        requires
            self.wf(),
        ensures
            match r {
                Option::Some(k) => self.has_asset(id) && k.0@ == self.dna_of(id),
                Option::None => !self.has_asset(id),
            },
    {
        if (id as usize) < self.kitties.len() {
            Some(self.kitties[id as usize])
        } else {
            None
        }
    }

    /// The owner record for `id`, if the asset exists.
    pub fn owner(&self, id: u32) -> (r: Option<u64>)
        requires
            self.wf(),
        ensures
            match r {
                Option::Some(who) => self.is_owner(who, id),
                Option::None => !self.has_asset(id),
            },
    {
        if (id as usize) < self.owners.len() {
            Some(self.owners[id as usize])
        } else {
            None
        }
    }

    /// The listing price for `id`; zero both for an unlisted asset and for
    /// an id with no asset record.
    pub fn kitties_tx_pool(&self, id: u32) -> (r: u64)
        requires
            self.wf(),
        ensures
            r == self.price_of(id),
    {
        if (id as usize) < self.listings.len() {
            self.listings[id as usize]
        } else {
            0
        }
    }

    /// Create a new asset for `who`: reserve the configured amount from
    /// `who`'s free balance, allocate the next id, derive fresh DNA from the
    /// host-supplied entropy and call sequence number, record the asset and
    /// its owner, advance the counter and emit `Created`. A failing call
    /// changes nothing.
    pub fn create_kitty(
        &mut self,
        bank: &mut Bank,
        who: u64,
        entropy: &Vec<u8>,
        sequence: u64,
    ) -> (r: Result<(), Error>)
        requires
            old(self).wf(),
            old(bank).wf(),
            entropy@.len() <= u32::MAX as nat,
        ensures
            final(self).wf(),
            final(bank).wf(),
            final(self).config == old(self).config,
            final(bank).existential_deposit == old(bank).existential_deposit,
            r == Ok::<(), Error>(()) ==> created_step(
                *old(self),
                *old(bank),
                *final(self),
                *final(bank),
                who,
            ),
            ({
                let rv = old(self).config.reserve_value;
                let id = old(self).count();
                if !old(bank).can_reserve(who, rv) {
                    &&& r == Err::<(), Error>(Error::InsufficientFunds)
                    &&& *final(self) == *old(self)
                    &&& *final(bank) == *old(bank)
                } else if id == u32::MAX as nat {
                    &&& r == Err::<(), Error>(Error::IdentifierOverflow)
                    &&& *final(self) == *old(self)
                    &&& *final(bank) == *old(bank)
                } else {
                    &&& r == Ok::<(), Error>(())
                    &&& final(self).counter == Some((id + 1) as u32)
                    &&& final(self).kitties@.len() == id + 1
                    &&& (forall|j: int|
                        0 <= j < id ==> final(self).kitties@[j] == old(self).kitties@[j])
                    &&& final(self).dna_of(id as u32) == seed_for(entropy@, who, sequence)
                    &&& final(self).owners@ == old(self).owners@.push(who)
                    &&& final(self).listings@ == old(self).listings@.push(0u64)
                    &&& final(self).events@ == old(self).events@.push(
                        Event::Created { account: who, id: id as u32 },
                    )
                    &&& final(bank).free_of(who) == old(bank).free_of(who) - rv
                    &&& final(bank).reserved_of(who) == old(bank).reserved_of(who) + rv
                    &&& (forall|a: u64|
                        a != who ==> Bank::account_unchanged(*old(bank), *final(bank), a))
                }
            }),
    {
        let rv = self.config.reserve_value;
        if !bank.reservable(who, rv) {
            return Err(Error::InsufficientFunds);
        }
        let kitty_id: u32 = match self.counter {
            Some(id) => {
                if id == u32::MAX {
                    return Err(Error::IdentifierOverflow);
                }
                id
            },
            None => 0,
        };
        let dna = random_value(who, entropy, sequence);
        if bank.reserve(who, rv).is_err() {
            return Err(Error::InsufficientFunds);
        }
        self.kitties.push(Kitty(dna));
        self.owners.push(who);
        self.listings.push(0);
        self.counter = Some(kitty_id + 1);
        self.events.push(Event::Created { account: who, id: kitty_id });
        Ok(())
    }

    /// Hand the asset `kitty_id` from its current owner `sender` to
    /// `new_owner`: the new owner's reservation must succeed before the old
    /// one is released, so the asset is never without a backing reservation.
    /// A failing call changes nothing.
    pub fn transfer(
        &mut self,
        bank: &mut Bank,
        sender: u64,
        new_owner: u64,
        kitty_id: u32,
    ) -> (r: Result<(), Error>)
        requires
            old(self).wf(),
            old(bank).wf(),
        ensures
            final(self).wf(),
            final(bank).wf(),
            final(self).config == old(self).config,
            final(bank).existential_deposit == old(bank).existential_deposit,
            ({
                let rv = old(self).config.reserve_value;
                if !old(self).is_owner(sender, kitty_id) {
                    &&& r == Err::<(), Error>(Error::NotOwner)
                    &&& *final(self) == *old(self)
                    &&& *final(bank) == *old(bank)
                } else if !old(bank).can_reserve(new_owner, rv) {
                    &&& r == Err::<(), Error>(Error::InsufficientFunds)
                    &&& *final(self) == *old(self)
                    &&& *final(bank) == *old(bank)
                } else {
                    &&& r == Ok::<(), Error>(())
                    &&& Pallet::same_assets(*old(self), *final(self))
                    &&& final(self).listings@ == old(self).listings@
                    &&& final(self).owners@ == old(self).owners@.update(
                        kitty_id as int,
                        new_owner,
                    )
                    &&& final(self).events@ == old(self).events@.push(
                        Event::Transferred { from: sender, to: new_owner, id: kitty_id },
                    )
                    &&& (new_owner != sender ==> {
                        &&& final(bank).free_of(new_owner) == old(bank).free_of(new_owner) - rv
                        &&& final(bank).reserved_of(new_owner) == old(bank).reserved_of(new_owner)
                            + rv
                        &&& final(bank).free_of(sender) == old(bank).free_of(sender) + min64(
                            rv,
                            old(bank).reserved_of(sender),
                        )
                        &&& final(bank).reserved_of(sender) == old(bank).reserved_of(sender)
                            - min64(rv, old(bank).reserved_of(sender))
                        &&& (forall|a: u64|
                            a != sender && a != new_owner ==> Bank::account_unchanged(
                                *old(bank),
                                *final(bank),
                                a,
                            ))
                    })
                    &&& (new_owner == sender ==> (forall|a: u64|
                        Bank::account_unchanged(*old(bank), *final(bank), a)))
                }
            }),
    {
        let is_current_owner = if (kitty_id as usize) < self.owners.len() {
            self.owners[kitty_id as usize] == sender
        } else {
            false
        };
        if !is_current_owner {
            return Err(Error::NotOwner);
        }
        let rv = self.config.reserve_value;
        let ghost b0 = *bank;
        if bank.reserve(new_owner, rv).is_err() {
            return Err(Error::InsufficientFunds);
        }
        let ghost b1 = *bank;
        bank.unreserve(sender, rv);
        proof {
            if new_owner == sender {
                assert(min64(rv, b1.reserved_of(sender)) == rv);
                assert forall|a: u64| Bank::account_unchanged(b0, *bank, a) by {
                    if a != sender {
                        assert(Bank::account_unchanged(b0, b1, a));
                        assert(Bank::account_unchanged(b1, *bank, a));
                    }
                }
            } else {
                assert(Bank::account_unchanged(b0, b1, sender));
                assert(Bank::account_unchanged(b1, *bank, new_owner));
                assert forall|a: u64|
                    a != sender && a != new_owner implies Bank::account_unchanged(
                    b0,
                    *bank,
                    a,
                ) by {
                    assert(Bank::account_unchanged(b0, b1, a));
                    assert(Bank::account_unchanged(b1, *bank, a));
                }
            }
        }
        self.owners[kitty_id as usize] = new_owner;
        self.events.push(Event::Transferred { from: sender, to: new_owner, id: kitty_id });
        Ok(())
    }

    /// Breed a new asset for `who` from two distinct existing parents: the
    /// child's DNA takes each bit from the first parent where the derived
    /// crossover mask bit is 1 and from the second parent where it is 0.
    /// Breeding reserves no currency. A failing call changes nothing.
    pub fn breed_kitty(
        &mut self,
        who: u64,
        kitty1_id: u32,
        kitty2_id: u32,
        entropy: &Vec<u8>,
        sequence: u64,
    ) -> (r: Result<(), Error>)
        requires
            old(self).wf(),
            entropy@.len() <= u32::MAX as nat,
        ensures
            final(self).wf(),
            final(self).config == old(self).config,
            ({
                let id = old(self).count();
                let mask = seed_for(entropy@, who, sequence);
                if kitty1_id == kitty2_id {
                    &&& r == Err::<(), Error>(Error::SameParent)
                    &&& *final(self) == *old(self)
                } else if !old(self).has_asset(kitty1_id) || !old(self).has_asset(kitty2_id) {
                    &&& r == Err::<(), Error>(Error::InvalidIndex)
                    &&& *final(self) == *old(self)
                } else if id == u32::MAX as nat {
                    &&& r == Err::<(), Error>(Error::IdentifierOverflow)
                    &&& *final(self) == *old(self)
                } else {
                    &&& r == Ok::<(), Error>(())
                    &&& final(self).counter == Some((id + 1) as u32)
                    &&& final(self).kitties@.len() == id + 1
                    &&& (forall|j: int|
                        0 <= j < id ==> final(self).kitties@[j] == old(self).kitties@[j])
                    &&& (forall|i: int|
                        0 <= i < 16 ==> final(self).dna_of(id as u32)[i] == combine_byte(
                            mask[i],
                            old(self).dna_of(kitty1_id)[i],
                            old(self).dna_of(kitty2_id)[i],
                        ))
                    &&& final(self).owners@ == old(self).owners@.push(who)
                    &&& final(self).listings@ == old(self).listings@.push(0u64)
                    &&& final(self).events@ == old(self).events@.push(
                        Event::Bred { account: who, id: id as u32 },
                    )
                }
            }),
    {
        if kitty1_id == kitty2_id {
            return Err(Error::SameParent);
        }
        let dna1 = match self.kitties(kitty1_id) {
            Some(k) => k.0,
            None => {
                return Err(Error::InvalidIndex);
            },
        };
        let dna2 = match self.kitties(kitty2_id) {
            Some(k) => k.0,
            None => {
                return Err(Error::InvalidIndex);
            },
        };
        let kitty_id: u32 = match self.counter {
            Some(id) => {
                if id == u32::MAX {
                    return Err(Error::IdentifierOverflow);
                }
                id
            },
            None => 0,
        };
        let selector = random_value(who, entropy, sequence);
        let new_dna = combine(&dna1, &dna2, &selector);
        self.kitties.push(Kitty(new_dna));
        self.owners.push(who);
        self.listings.push(0);
        self.counter = Some(kitty_id + 1);
        self.events.push(Event::Bred { account: who, id: kitty_id });
        Ok(())
    }

    /// List the asset `kitty_id` for sale at `value`: only its current owner
    /// may, and a value of zero stands for "not listed". A failing call
    /// changes nothing.
    pub fn sell_kitties(&mut self, who: u64, kitty_id: u32, value: u64) -> (r: Result<
        (),
        Error,
    >)
        requires
            old(self).wf(),
        ensures
            final(self).wf(),
            final(self).config == old(self).config,
            ({
                if !old(self).is_owner(who, kitty_id) {
                    &&& r == Err::<(), Error>(Error::NotOwner)
                    &&& *final(self) == *old(self)
                } else {
                    &&& r == Ok::<(), Error>(())
                    &&& Pallet::same_assets(*old(self), *final(self))
                    &&& final(self).owners@ == old(self).owners@
                    &&& final(self).listings@ == old(self).listings@.update(
                        kitty_id as int,
                        value,
                    )
                    &&& final(self).events@ == old(self).events@.push(
                        Event::Listed { account: who, id: kitty_id },
                    )
                }
            }),
    {
        let is_current_owner = if (kitty_id as usize) < self.owners.len() {
            self.owners[kitty_id as usize] == who
        } else {
            false
        };
        if !is_current_owner {
            return Err(Error::NotOwner);
        }
        self.listings[kitty_id as usize] = value;
        self.events.push(Event::Listed { account: who, id: kitty_id });
        Ok(())
    }

    /// Buy the listed asset `kitty_id`: the buyer's free balance must be
    /// strictly greater than the price, the price moves from buyer to seller,
    /// the seller's fixed reservation is released, the listing is consumed
    /// and the buyer becomes the owner without a new reservation. A failing
    /// call changes nothing.
    pub fn buy_kitties(&mut self, bank: &mut Bank, who: u64, kitty_id: u32) -> (r: Result<
        (),
        Error,
    >)
        requires
            old(self).wf(),
            old(bank).wf(),
        ensures
            final(self).wf(),
            final(bank).wf(),
            final(self).config == old(self).config,
            final(bank).existential_deposit == old(bank).existential_deposit,
            ({
                let rv = old(self).config.reserve_value;
                let price = old(self).price_of(kitty_id);
                let seller = if old(self).has_asset(kitty_id) {
                    old(self).owner_of(kitty_id)
                } else {
                    0u64
                };
                if price == 0 {
                    &&& r == Err::<(), Error>(Error::NotListed)
                    &&& *final(self) == *old(self)
                    &&& *final(bank) == *old(bank)
                } else if old(bank).free_of(who) <= price {
                    &&& r == Err::<(), Error>(Error::InsufficientFunds)
                    &&& *final(self) == *old(self)
                    &&& *final(bank) == *old(bank)
                } else if !old(bank).can_transfer(who, seller, price, true) {
                    &&& r == Err::<(), Error>(Error::InsufficientFunds)
                    &&& *final(self) == *old(self)
                    &&& *final(bank) == *old(bank)
                } else {
                    &&& r == Ok::<(), Error>(())
                    &&& Pallet::same_assets(*old(self), *final(self))
                    &&& final(self).owners@ == old(self).owners@.update(kitty_id as int, who)
                    &&& final(self).listings@ == old(self).listings@.update(
                        kitty_id as int,
                        0u64,
                    )
                    &&& final(self).events@ == old(self).events@.push(
                        Event::Purchased { account: who, id: kitty_id },
                    )
                    &&& (who != seller ==> {
                        &&& final(bank).free_of(who) == old(bank).free_of(who) - price
                        &&& final(bank).reserved_of(who) == old(bank).reserved_of(who)
                        &&& final(bank).free_of(seller) == old(bank).free_of(seller) + price
                            + min64(rv, old(bank).reserved_of(seller))
                        &&& final(bank).reserved_of(seller) == old(bank).reserved_of(seller)
                            - min64(rv, old(bank).reserved_of(seller))
                        &&& (forall|a: u64|
                            a != who && a != seller ==> Bank::account_unchanged(
                                *old(bank),
                                *final(bank),
                                a,
                            ))
                    })
                    &&& (who == seller ==> {
                        &&& final(bank).free_of(who) == old(bank).free_of(who) + min64(
                            rv,
                            old(bank).reserved_of(who),
                        )
                        &&& final(bank).reserved_of(who) == old(bank).reserved_of(who) - min64(
                            rv,
                            old(bank).reserved_of(who),
                        )
                        &&& (forall|a: u64|
                            a != who ==> Bank::account_unchanged(*old(bank), *final(bank), a))
                    })
                }
            }),
    {
        let value = self.kitties_tx_pool(kitty_id);
        if value == 0 {
            return Err(Error::NotListed);
        }
        let seller = self.owners[kitty_id as usize];
        if bank.free_balance(who) <= value {
            return Err(Error::InsufficientFunds);
        }
        let ghost b0 = *bank;
        if bank.transfer(who, seller, value, true).is_err() {
            return Err(Error::InsufficientFunds);
        }
        let ghost b1 = *bank;
        let rv = self.config.reserve_value;
        bank.unreserve(seller, rv);
        proof {
            if who == seller {
                assert forall|a: u64| a != who implies Bank::account_unchanged(
                    b0,
                    *bank,
                    a,
                ) by {
                    assert(Bank::account_unchanged(b1, *bank, a));
                }
            } else {
                assert(Bank::account_unchanged(b1, *bank, who));
                assert(min64(rv, b1.reserved_of(seller)) == min64(rv, b0.reserved_of(seller)));
                assert forall|a: u64|
                    a != who && a != seller implies Bank::account_unchanged(b0, *bank, a) by {
                    assert(Bank::account_unchanged(b0, b1, a));
                    assert(Bank::account_unchanged(b1, *bank, a));
                }
            }
        }
        self.listings[kitty_id as usize] = 0;
        self.owners[kitty_id as usize] = who;
        self.events.push(Event::Purchased { account: who, id: kitty_id });
        Ok(())
    }

    /// The events emitted so far, oldest first.
    pub fn event_log(&self) -> (r: &Vec<Event>)
        ensures
            r@ == self.events@,
    {
        &self.events
    }
}

/// One successful creation step: the `post` states are the `pre` states
/// right after `who` created one asset. `create_kitty` ensures exactly this
/// of every successful call.
pub open spec fn created_step(
    pre: Pallet,
    bank_pre: Bank,
    post: Pallet,
    bank_post: Bank,
    who: u64,
) -> bool {
    &&& pre.wf()
    &&& post.wf()
    &&& pre.count() < u32::MAX as nat
    &&& post.counter == Some((pre.count() + 1) as u32)
    &&& post.owners@ == pre.owners@.push(who)
    &&& post.config == pre.config
    &&& bank_pre.can_reserve(who, pre.config.reserve_value)
    &&& bank_post.free_of(who) == bank_pre.free_of(who) - pre.config.reserve_value
    &&& bank_post.reserved_of(who) == bank_pre.reserved_of(who) + pre.config.reserve_value
    &&& (forall|a: u64| a != who ==> Bank::account_unchanged(bank_pre, bank_post, a))
}

/// Law: a run of N successful creations from an empty store hands out the
/// ids 0 to N-1 in order, each owned by its creator; an account that created
/// nothing keeps both balances; an account that created exactly one asset
/// has its free balance reduced by the reservation amount.
pub proof fn lemma_creation_chain(pallets: Seq<Pallet>, banks: Seq<Bank>, creators: Seq<u64>)
    requires
        pallets.len() == creators.len() + 1,
        banks.len() == creators.len() + 1,
        pallets[0].wf(),
        pallets[0].count() == 0,
        forall|i: int|
            0 <= i < creators.len() ==> #[trigger] created_step(
                pallets[i],
                banks[i],
                pallets[i + 1],
                banks[i + 1],
                creators[i],
            ),
    ensures
        pallets[creators.len() as int].config == pallets[0].config,
        pallets[creators.len() as int].count() == creators.len(),
        pallets[creators.len() as int].owners@ == creators,
        forall|i: int|
            0 <= i < creators.len() ==> pallets[creators.len() as int].is_owner(
                creators[i],
                i as u32,
            ),
        forall|a: u64|
            (forall|j: int| 0 <= j < creators.len() ==> creators[j] != a)
                ==> Bank::account_unchanged(banks[0], banks[creators.len() as int], a),
        forall|i: int|
            (0 <= i < creators.len() && (forall|j: int|
                0 <= j < creators.len() && j != i ==> creators[j] != creators[i]))
                ==> banks[creators.len() as int].free_of(creators[i])
                == banks[0].free_of(creators[i]) - pallets[0].config.reserve_value,
    decreases creators.len(),
{
    let n = creators.len() as int;
    if n == 0 {
        assert(pallets[0].owners@ =~= creators);
    } else {
        assert forall|i: int|
            0 <= i < n - 1 implies #[trigger] created_step(
            pallets.take(n)[i],
            banks.take(n)[i],
            pallets.take(n)[i + 1],
            banks.take(n)[i + 1],
            creators.take(n - 1)[i],
        ) by {
            assert(created_step(pallets[i], banks[i], pallets[i + 1], banks[i + 1], creators[i]));
        }
        lemma_creation_chain(pallets.take(n), banks.take(n), creators.take(n - 1));
        assert(created_step(pallets[n - 1], banks[n - 1], pallets[n], banks[n], creators[n - 1]));
        assert(pallets[n].owners@ =~= creators);
        assert forall|i: int| 0 <= i < n implies pallets[n].is_owner(creators[i], i as u32) by {
            assert(pallets[n].owners@[i] == creators[i]);
        }
        assert forall|a: u64|
            (forall|j: int| 0 <= j < n ==> creators[j] != a) implies Bank::account_unchanged(
            banks[0],
            banks[n],
            a,
        ) by {
            assert(creators[n - 1] != a);
            assert(forall|j: int| 0 <= j < n - 1 ==> #[trigger] creators.take(n - 1)[j] != a);
            assert(Bank::account_unchanged(banks.take(n)[0], banks.take(n)[n - 1], a));
            assert(banks.take(n)[0] == banks[0] && banks.take(n)[n - 1] == banks[n - 1]);
            assert(Bank::account_unchanged(banks[n - 1], banks[n], a));
        }
        assert forall|i: int|
            (0 <= i < n && (forall|j: int|
                0 <= j < n && j != i ==> creators[j] != creators[i])) implies banks[n].free_of(
            creators[i],
        ) == banks[0].free_of(creators[i]) - pallets[0].config.reserve_value by {
            if i < n - 1 {
                assert(forall|j: int|
                    0 <= j < n - 1 && j != i ==> #[trigger] creators.take(n - 1)[j]
                        != creators.take(n - 1)[i]);
                assert(banks.take(n)[n - 1].free_of(creators.take(n - 1)[i])
                    == banks.take(n)[0].free_of(creators.take(n - 1)[i])
                    - pallets.take(n)[0].config.reserve_value);
                assert(banks[n - 1].free_of(creators[i]) == banks[0].free_of(creators[i])
                    - pallets[0].config.reserve_value);
                assert(creators[n - 1] != creators[i]);
                assert(Bank::account_unchanged(banks[n - 1], banks[n], creators[i]));
            } else {
                assert(forall|j: int|
                    0 <= j < n - 1 ==> #[trigger] creators.take(n - 1)[j] != creators[i]);
                assert(Bank::account_unchanged(banks.take(n)[0], banks.take(n)[n - 1], creators[i]));
                assert(banks.take(n)[0] == banks[0] && banks.take(n)[n - 1] == banks[n - 1]);
                assert(Bank::account_unchanged(banks[0], banks[n - 1], creators[i]));
            }
        }
    }
}

/// Law: an owner record exists for an asset id exactly when the id is below
/// the counter of assets ever created.
pub proof fn lemma_owner_record_iff_created(p: Pallet, id: u32)
    requires
        p.wf(),
    ensures
        p.has_owner_record(id) <==> (id as nat) < p.count(),
{
}

/// Law: once a transfer has handed an asset to a different account, its
/// former holder is no longer the recorded owner, so repeating the same
/// transfer call fails with `NotOwner`.
pub proof fn lemma_repeated_transfer_fails(p: Pallet, sender: u64, new_owner: u64, id: u32)
    requires
        p.wf(),
        p.is_owner(new_owner, id),
        sender != new_owner,
    ensures
        !p.is_owner(sender, id),
{
}

/// Law: when the seller's reserve fully backs the reservation amount, a
/// successful purchase (the seller-side clauses of `buy_kitties`) hands the
/// seller exactly the price plus that amount, and releases exactly that
/// amount from reserve.
pub proof fn lemma_purchase_exact_settlement(pre: Bank, post: Bank, seller: u64, price: u64, rv: u64)
    requires
        rv <= pre.reserved_of(seller),
        post.free_of(seller) == pre.free_of(seller) + price + min64(rv, pre.reserved_of(seller)),
        post.reserved_of(seller) == pre.reserved_of(seller) - min64(rv, pre.reserved_of(seller)),
    ensures
        post.free_of(seller) == pre.free_of(seller) + price + rv,
        post.reserved_of(seller) == pre.reserved_of(seller) - rv,
{
}

} // verus!
