//! The fungible reward token: balances that the admin mints and that holders
//! transfer, and the supply that accounts for them.

use crate::address::{Address, AddressId, Auth};
use crate::entries::{address_map, into_address_map};
use crate::error::Error;
use crate::sums::sum_of;
use vstd::hash_map::StringHashMap;
use vstd::prelude::*;

verus! {

/// What the token ledger publishes when it changes.
#[derive(Debug, PartialEq, Eq)]
pub enum TokenEvent {
    /// `amount` was created in the balance of `to`.
    Mint { to: Address, amount: i128 },
    /// `amount` moved from the balance of `from` to that of `to`.
    Transfer { from: Address, to: Address, amount: i128 },
}

/// The state of a token ledger, as contracts speak of it.
pub struct TokenState {
    /// The address that may mint; `None` until the ledger is initialized.
    pub admin: Option<Address>,
    /// All units ever minted.
    pub total_supply: i128,
    /// The balance of each address that was ever credited.
    pub balances: Map<AddressId, i128>,
    /// The events published so far and not yet collected, oldest first.
    pub events: Seq<TokenEvent>,
}

impl TokenState {
    /// The ledger before it is initialized: no admin, nothing minted.
    pub open spec fn fresh() -> TokenState {
        TokenState { admin: None, total_supply: 0, balances: Map::empty(), events: Seq::empty() }
    }

    /// Whether `initialize` has succeeded.
    pub open spec fn initialized(self) -> bool {
        self.admin is Some
    }

    /// The balance of `who`: 0 for an address that was never credited.
    pub open spec fn balance_of(self, who: AddressId) -> i128 {
        if self.balances.contains_key(who) {
            self.balances[who]
        } else {
            0
        }
    }

    /// How `initialize` ends.
    pub open spec fn initialize_result(self, auth: Set<AddressId>, admin: Address) -> Result<
        (),
        Error,
    > {
        if !auth.contains(admin@) {
            Err(Error::NotAuthorized)
        } else if self.initialized() {
            Err(Error::AlreadyInitialized)
        } else {
            Ok(())
        }
    }

    /// The state that `initialize` leaves.
    pub open spec fn after_initialize(self, auth: Set<AddressId>, admin: Address) -> TokenState {
        if self.initialize_result(auth, admin) is Ok {
            TokenState { admin: Some(admin), total_supply: 0, ..self }
        } else {
            self
        }
    }

    /// How `mint` ends.
    pub open spec fn mint_result(self, auth: Set<AddressId>, to: Address, amount: i128) -> Result<
        (),
        Error,
    > {
        if !self.initialized() {
            Err(Error::NotInitialized)
        } else if !auth.contains(self.admin->0@) {
            Err(Error::NotAuthorized)
        } else if amount <= 0 {
            Err(Error::InvalidAmount)
        } else if self.balance_of(to@) + amount > i128::MAX || self.total_supply + amount
            > i128::MAX {
            Err(Error::Overflow)
        } else {
            Ok(())
        }
    }

    /// The state that `mint` leaves.
    pub open spec fn after_mint(self, auth: Set<AddressId>, to: Address, amount: i128)
        -> TokenState {
        if self.mint_result(auth, to, amount) is Ok {
            TokenState {
                total_supply: (self.total_supply + amount) as i128,
                balances: self.balances.insert(to@, (self.balance_of(to@) + amount) as i128),
                events: self.events.push(TokenEvent::Mint { to, amount }),
                ..self
            }
        } else {
            self
        }
    }

    /// How `transfer` ends.
    pub open spec fn transfer_result(
        self,
        auth: Set<AddressId>,
        from: Address,
        to: Address,
        amount: i128,
    ) -> Result<(), Error> {
        if !self.initialized() {
            Err(Error::NotInitialized)
        } else if !auth.contains(from@) {
            Err(Error::NotAuthorized)
        } else if amount <= 0 {
            Err(Error::InvalidAmount)
        } else if self.balance_of(from@) < amount {
            Err(Error::InsufficientBalance)
        } else if from@ != to@ && self.balance_of(to@) + amount > i128::MAX {
            Err(Error::Overflow)
        } else {
            Ok(())
        }
    }

    /// The state that `transfer` leaves. A transfer to oneself leaves the
    /// balance as it was.
    pub open spec fn after_transfer(
        self,
        auth: Set<AddressId>,
        from: Address,
        to: Address,
        amount: i128,
    ) -> TokenState {
        if self.transfer_result(auth, from, to, amount) is Ok {
            let debited = self.balances.insert(from@, (self.balance_of(from@) - amount) as i128);
            let credited = if from@ == to@ {
                self.balance_of(from@)
            } else {
                (self.balance_of(to@) + amount) as i128
            };
            TokenState {
                balances: debited.insert(to@, credited),
                events: self.events.push(TokenEvent::Transfer { from, to, amount }),
                ..self
            }
        } else {
            self
        }
    }

    /// The accounting invariant: the supply is the sum of all balances, and
    /// nothing is in supply before the ledger is initialized.
    pub open spec fn supply_is_sum_of_balances(self) -> bool {
        &&& self.balances.dom().finite()
        &&& self.total_supply == sum_of(self.balances)
        &&& !self.initialized() ==> self.total_supply == 0
    }
}

/// One call of an entry point that can change the ledger.
pub enum TokenCall {
    Initialize { auth: Set<AddressId>, admin: Address },
    Mint { auth: Set<AddressId>, to: Address, amount: i128 },
    Transfer { auth: Set<AddressId>, from: Address, to: Address, amount: i128 },
}

impl TokenState {
    /// The state that one call leaves, whether it succeeds or is refused.
    pub open spec fn after(self, call: TokenCall) -> TokenState {
        match call {
            TokenCall::Initialize { auth, admin } => self.after_initialize(auth, admin),
            TokenCall::Mint { auth, to, amount } => self.after_mint(auth, to, amount),
            TokenCall::Transfer { auth, from, to, amount } => self.after_transfer(
                auth,
                from,
                to,
                amount,
            ),
        }
    }

    /// The state that a sequence of calls leaves, made one after the other.
    pub open spec fn after_all(self, calls: Seq<TokenCall>) -> TokenState
        decreases calls.len(),
    {
        if calls.len() == 0 {
            self
        } else {
            self.after_all(calls.drop_last()).after(calls.last())
        }
    }
}

/// A token ledger.
pub struct EcoToken {
    admin: Option<Address>,
    total_supply: i128,
    balances: StringHashMap<i128>,
    events: Vec<TokenEvent>,
}

impl View for EcoToken {
    type V = TokenState;

    closed spec fn view(&self) -> TokenState {
        TokenState {
            admin: self.admin,
            total_supply: self.total_supply,
            balances: self.balances@,
            events: self.events@,
        }
    }
}

impl EcoToken {
    /// A ledger that is not initialized yet.
    pub fn new() -> (r: EcoToken)
        ensures
            r@ == TokenState::fresh(),
    {
        EcoToken {
            admin: None,
            total_supply: 0,
            balances: StringHashMap::new(),
            events: Vec::new(),
        }
    }

    /// A ledger in the given state, with no event to collect: `admin` is
    /// `None` for a ledger that is not initialized, and an address that is
    /// not listed in `balances` holds nothing.
    pub fn restore(admin: Option<Address>, total_supply: i128, balances: Vec<(Address, i128)>) -> (r:
        EcoToken)
        ensures
            r@ == (TokenState {
                admin,
                total_supply,
                balances: address_map(balances@),
                events: Seq::empty(),
            }),
    {
        EcoToken { admin, total_supply, balances: into_address_map(balances), events: Vec::new() }
    }

    /// Makes `admin` the address that may mint, and sets the supply to 0.
    ///
    /// Refused with `NotAuthorized` unless `admin` has approved the call, and
    /// with `AlreadyInitialized` if the ledger has an admin already.
    pub fn initialize(&mut self, auth: &Auth, admin: &Address) -> (r: Result<(), Error>)
        ensures
            r == old(self)@.initialize_result(auth@, *admin),
            final(self)@ == old(self)@.after_initialize(auth@, *admin),
    {
        if !auth.includes(admin) {
            return Err(Error::NotAuthorized);
        }
        if self.admin.is_some() {
            return Err(Error::AlreadyInitialized);
        }
        self.admin = Some(admin.clone());
        self.total_supply = 0;
        Ok(())
    }

    /// Creates `amount` new units in the balance of `to`.
    ///
    /// Refused, in this order: with `NotInitialized` before `initialize`;
    /// with `NotAuthorized` unless the admin has approved the call; with
    /// `InvalidAmount` unless `amount` is positive; with `Overflow` if the
    /// balance or the supply would exceed `i128::MAX`.
    pub fn mint(&mut self, auth: &Auth, to: &Address, amount: i128) -> (r: Result<(), Error>)
        ensures
            r == old(self)@.mint_result(auth@, *to, amount),
            final(self)@ == old(self)@.after_mint(auth@, *to, amount),
    {
        match &self.admin {
            None => {
                return Err(Error::NotInitialized);
            },
            Some(admin) => {
                if !auth.includes(admin) {
                    return Err(Error::NotAuthorized);
                }
            },
        }
        if amount <= 0 {
            return Err(Error::InvalidAmount);
        }
        let balance: i128 = self.balance(to);
        let new_balance: i128 = match balance.checked_add(amount) {
            Some(sum) => sum,
            None => {
                return Err(Error::Overflow);
            },
        };
        let new_total_supply: i128 = match self.total_supply.checked_add(amount) {
            Some(sum) => sum,
            None => {
                return Err(Error::Overflow);
            },
        };
        self.balances.insert(to.as_str().to_owned(), new_balance);
        self.total_supply = new_total_supply;
        self.events.push(TokenEvent::Mint { to: to.clone(), amount });
        Ok(())
    }

    /// The balance of `address`: 0 if it was never credited.
    pub fn balance(&self, address: &Address) -> (r: i128)
        ensures
            r == self@.balance_of(address@),
    {
        match self.balances.get(address.as_str()) {
            Some(balance) => *balance,
            None => 0,
        }
    }

    /// Moves `amount` from the balance of `from` to that of `to`.
    ///
    /// Refused, in this order: with `NotInitialized` before `initialize`;
    /// with `NotAuthorized` unless `from` has approved the call; with
    /// `InvalidAmount` unless `amount` is positive; with
    /// `InsufficientBalance` if `from` holds less than `amount`; with
    /// `Overflow` if the balance of `to` would exceed `i128::MAX`.
    pub fn transfer(&mut self, auth: &Auth, from: &Address, to: &Address, amount: i128) -> (r:
        Result<(), Error>)
        ensures
            r == old(self)@.transfer_result(auth@, *from, *to, amount),
            final(self)@ == old(self)@.after_transfer(auth@, *from, *to, amount),
    {
        if self.admin.is_none() {
            return Err(Error::NotInitialized);
        }
        if !auth.includes(from) {
            return Err(Error::NotAuthorized);
        }
        if amount <= 0 {
            return Err(Error::InvalidAmount);
        }
        let from_balance: i128 = self.balance(from);
        if from_balance < amount {
            return Err(Error::InsufficientBalance);
        }
        let new_from_balance: i128 = from_balance - amount;
        let to_balance: i128 = if from == to {
            new_from_balance
        } else {
            self.balance(to)
        };
        let new_to_balance: i128 = match to_balance.checked_add(amount) {
            Some(sum) => sum,
            None => {
                return Err(Error::Overflow);
            },
        };
        self.balances.insert(from.as_str().to_owned(), new_from_balance);
        self.balances.insert(to.as_str().to_owned(), new_to_balance);
        self.events.push(TokenEvent::Transfer { from: from.clone(), to: to.clone(), amount });
        Ok(())
    }

    /// All units ever minted.
    pub fn get_total_supply(&self) -> (r: i128)
        ensures
            r == self@.total_supply,
    {
        self.total_supply
    }

    /// The token's name.
    pub fn name(&self) -> (r: String)
        ensures
            r@ == "EcoToken"@,
    {
        "EcoToken".to_owned()
    }

    /// The token's symbol.
    pub fn symbol(&self) -> (r: String)
        ensures
            r@ == "ECO"@,
    {
        "ECO".to_owned()
    }

    /// The number of decimal places of one token.
    pub fn decimals(&self) -> (r: u32)
        ensures
            r == 7,
    {
        7
    }

    /// Hands out the events published since they were last collected, oldest
    /// first, and forgets them.
    pub fn take_events(&mut self) -> (r: Vec<TokenEvent>)
        ensures
            r@ == old(self)@.events,
            final(self)@ == (TokenState { events: Seq::empty(), ..old(self)@ }),
    {
        let mut taken: Vec<TokenEvent> = Vec::new();
        std::mem::swap(&mut self.events, &mut taken);
        taken
    }
}

} // verus!
