//! The registry of tree certificates in the shape of a conventional
//! collection of non-fungible tokens: a name, a symbol and a base URI, an
//! owner for each token, a count for each owner, and burning.

use crate::address::{Address, AddressId, Auth};
use crate::entries::{address_map, id_map, into_address_map, into_id_map};
use crate::error::Error;
use std::collections::HashMap;
use vstd::hash_map::StringHashMap;
use vstd::prelude::*;

verus! {

broadcast use vstd::std_specs::hash::group_hash_axioms;

/// What a certificate says of its tree.
#[derive(Debug, PartialEq, Eq)]
pub struct TreeMetadata {
    /// The species of the tree.
    pub species: String,
    /// The name of the place where it stands.
    pub location: String,
    /// The latitude, in millionths of a degree.
    pub latitude: i32,
    /// The longitude, in millionths of a degree.
    pub longitude: i32,
    /// When it was planted, in seconds since the epoch.
    pub plant_date: u64,
    /// The carbon dioxide it is estimated to bind, in kilograms.
    pub carbon_offset: u64,
    /// The organization that planted it.
    pub partner_org: String,
}

impl Clone for TreeMetadata {
    fn clone(&self) -> (r: Self)
        ensures
            r == *self,
    {
        TreeMetadata {
            species: self.species.clone(),
            location: self.location.clone(),
            latitude: self.latitude,
            longitude: self.longitude,
            plant_date: self.plant_date,
            carbon_offset: self.carbon_offset,
            partner_org: self.partner_org.clone(),
        }
    }
}

/// What the registry publishes when it changes.
#[derive(Debug, PartialEq, Eq)]
pub enum TreeNftEvent {
    /// The collection was set up.
    Init { name: String, symbol: String },
    /// Token `token_id` was minted to `to`.
    Mint { to: Address, token_id: u64, species: String, location: String },
    /// Token `token_id` was burned.
    Burn { token_id: u64 },
}

/// What `initialize` sets, once and for all.
#[derive(Debug, PartialEq, Eq)]
pub struct Collection {
    /// The address that may mint and burn.
    pub admin: Address,
    /// The collection's name.
    pub name: String,
    /// The collection's symbol.
    pub symbol: String,
    /// The URI of a token that has none of its own.
    pub base_uri: String,
}

/// The state of the registry, as contracts speak of it.
pub struct NftState {
    /// `None` until the registry is initialized.
    pub collection: Option<Collection>,
    /// The number of tokens ever minted, which is the id of the last one.
    pub total_supply: u64,
    /// The owner of each token that exists.
    pub owners: Map<u64, Address>,
    /// The number of tokens of each address that ever owned one.
    pub balances: Map<AddressId, u64>,
    /// What each token that exists says of its tree.
    pub tree_data: Map<u64, TreeMetadata>,
    /// The URI of each token that has one of its own.
    pub token_uris: Map<u64, String>,
    /// The events published so far and not yet collected, oldest first.
    pub events: Seq<TreeNftEvent>,
}

impl NftState {
    /// The registry before it is initialized.
    pub open spec fn fresh() -> NftState {
        NftState {
            collection: None,
            total_supply: 0,
            owners: Map::empty(),
            balances: Map::empty(),
            tree_data: Map::empty(),
            token_uris: Map::empty(),
            events: Seq::empty(),
        }
    }

    /// Whether `initialize` has succeeded.
    pub open spec fn initialized(self) -> bool {
        self.collection is Some
    }

    /// The number of tokens of `owner`: 0 for one who never owned any.
    pub open spec fn balance_of(self, owner: AddressId) -> u64 {
        if self.balances.contains_key(owner) {
            self.balances[owner]
        } else {
            0
        }
    }

    /// The owner of token `token_id`; `NotFound` if it does not exist.
    pub open spec fn owner_of(self, token_id: u64) -> Result<Address, Error> {
        if self.owners.contains_key(token_id) {
            Ok(self.owners[token_id])
        } else {
            Err(Error::NotFound)
        }
    }

    /// What token `token_id` says of its tree; `NotFound` if nothing is
    /// stored for it.
    pub open spec fn get_tree_data(self, token_id: u64) -> Result<TreeMetadata, Error> {
        if self.tree_data.contains_key(token_id) {
            Ok(self.tree_data[token_id])
        } else {
            Err(Error::NotFound)
        }
    }

    /// The characters of the base URI: none before the registry is
    /// initialized.
    pub open spec fn base_uri(self) -> Seq<char> {
        match self.collection {
            Some(collection) => collection.base_uri@,
            None => Seq::empty(),
        }
    }

    /// The characters of the URI of token `token_id`: those of its own URI
    /// if it has one, else those of the base URI.
    pub open spec fn uri_of(self, token_id: u64) -> Seq<char> {
        if self.token_uris.contains_key(token_id) {
            self.token_uris[token_id]@
        } else {
            self.base_uri()
        }
    }

    /// How `initialize` ends.
    pub open spec fn initialize_result(self, auth: Set<AddressId>, admin: Address) -> Result<
        (),
        Error,
    > {
        if self.initialized() {
            Err(Error::AlreadyInitialized)
        } else if !auth.contains(admin@) {
            Err(Error::NotAuthorized)
        } else {
            Ok(())
        }
    }

    /// The state that `initialize` leaves.
    pub open spec fn after_initialize(self, auth: Set<AddressId>, collection: Collection)
        -> NftState {
        if self.initialize_result(auth, collection.admin) is Ok {
            NftState {
                collection: Some(collection),
                total_supply: 0,
                events: self.events.push(
                    TreeNftEvent::Init { name: collection.name, symbol: collection.symbol },
                ),
                ..self
            }
        } else {
            self
        }
    }

    /// How `mint` ends: with the id of the new token, which is the number of
    /// tokens minted before it plus 1, or refused.
    pub open spec fn mint_result(self, auth: Set<AddressId>, to: Address) -> Result<u64, Error> {
        if !self.initialized() {
            Err(Error::NotInitialized)
        } else if !auth.contains(self.collection->0.admin@) {
            Err(Error::NotAuthorized)
        } else if self.total_supply == u64::MAX || self.balance_of(to@) == u64::MAX {
            Err(Error::Overflow)
        } else {
            Ok((self.total_supply + 1) as u64)
        }
    }

    /// The state that `mint` leaves.
    pub open spec fn after_mint(self, auth: Set<AddressId>, to: Address, tree: TreeMetadata)
        -> NftState {
        if self.mint_result(auth, to) is Ok {
            let token_id = (self.total_supply + 1) as u64;
            NftState {
                total_supply: token_id,
                owners: self.owners.insert(token_id, to),
                balances: self.balances.insert(to@, (self.balance_of(to@) + 1) as u64),
                tree_data: self.tree_data.insert(token_id, tree),
                events: self.events.push(
                    TreeNftEvent::Mint {
                        to,
                        token_id,
                        species: tree.species,
                        location: tree.location,
                    },
                ),
                ..self
            }
        } else {
            self
        }
    }

    /// How `burn` ends.
    pub open spec fn burn_result(self, auth: Set<AddressId>, token_id: u64) -> Result<(), Error> {
        if !self.initialized() {
            Err(Error::NotInitialized)
        } else if !auth.contains(self.collection->0.admin@) {
            Err(Error::NotAuthorized)
        } else if !self.owners.contains_key(token_id) {
            Err(Error::NotFound)
        } else {
            Ok(())
        }
    }

    /// The state that `burn` leaves: the token's owner has one token fewer,
    /// unless the count stood at 0 already; the token has no owner, no
    /// metadata and no URI; the number of tokens ever minted is as before.
    pub open spec fn after_burn(self, auth: Set<AddressId>, token_id: u64) -> NftState {
        if self.burn_result(auth, token_id) is Ok {
            let owner = self.owners[token_id]@;
            NftState {
                owners: self.owners.remove(token_id),
                balances: if self.balance_of(owner) > 0 {
                    self.balances.insert(owner, (self.balance_of(owner) - 1) as u64)
                } else {
                    self.balances
                },
                tree_data: self.tree_data.remove(token_id),
                token_uris: self.token_uris.remove(token_id),
                events: self.events.push(TreeNftEvent::Burn { token_id }),
                ..self
            }
        } else {
            self
        }
    }
}

impl NftState {
    /// The ids of the tokens that `owner` owns.
    pub open spec fn tokens_of(self, owner: AddressId) -> Set<u64> {
        Set::new(|id: u64| self.owners.contains_key(id) && self.owners[id]@ == owner)
    }

    /// The registry's bookkeeping is consistent: every owner's count is the
    /// number of tokens whose owner it is, and every token that exists has an
    /// id from 1 to the number of tokens ever minted.
    pub open spec fn counts_match_owners(self) -> bool {
        &&& self.owners.dom().finite()
        &&& forall|id: u64| #[trigger]
            self.owners.contains_key(id) ==> 1 <= id <= self.total_supply
        &&& forall|owner: AddressId| #[trigger]
            self.balance_of(owner) == self.tokens_of(owner).len()
        &&& !self.initialized() ==> self.total_supply == 0
    }
}

/// One call of an entry point that can change the registry.
pub enum NftCall {
    Initialize { auth: Set<AddressId>, collection: Collection },
    Mint { auth: Set<AddressId>, to: Address, tree: TreeMetadata },
    Burn { auth: Set<AddressId>, token_id: u64 },
}

impl NftState {
    /// The state that one call leaves, whether it succeeds or is refused.
    pub open spec fn after(self, call: NftCall) -> NftState {
        match call {
            NftCall::Initialize { auth, collection } => self.after_initialize(auth, collection),
            NftCall::Mint { auth, to, tree } => self.after_mint(auth, to, tree),
            NftCall::Burn { auth, token_id } => self.after_burn(auth, token_id),
        }
    }

    /// The state that a sequence of calls leaves, made one after the other.
    pub open spec fn after_all(self, calls: Seq<NftCall>) -> NftState
        decreases calls.len(),
    {
        if calls.len() == 0 {
            self
        } else {
            self.after_all(calls.drop_last()).after(calls.last())
        }
    }
}

/// A registry of tree certificates.
pub struct TreeNFT {
    collection: Option<Collection>,
    total_supply: u64,
    owners: HashMap<u64, Address>,
    balances: StringHashMap<u64>,
    tree_data: HashMap<u64, TreeMetadata>,
    token_uris: HashMap<u64, String>,
    events: Vec<TreeNftEvent>,
}

impl View for TreeNFT {
    type V = NftState;

    closed spec fn view(&self) -> NftState {
        NftState {
            collection: self.collection,
            total_supply: self.total_supply,
            owners: self.owners@,
            balances: self.balances@,
            tree_data: self.tree_data@,
            token_uris: self.token_uris@,
            events: self.events@,
        }
    }
}

impl TreeNFT {
    /// A registry that is not initialized yet.
    pub fn new() -> (r: TreeNFT)
        ensures
            r@ == NftState::fresh(),
    {
        TreeNFT {
            collection: None,
            total_supply: 0,
            owners: HashMap::new(),
            balances: StringHashMap::new(),
            tree_data: HashMap::new(),
            token_uris: HashMap::new(),
            events: Vec::new(),
        }
    }

    /// A registry in the given state, with no event to collect: `collection`
    /// is `None` for a registry that is not initialized, and an address that
    /// is not listed in `balances` has a count of 0.
    pub fn restore(
        collection: Option<Collection>,
        total_supply: u64,
        owners: Vec<(u64, Address)>,
        balances: Vec<(Address, u64)>,
        tree_data: Vec<(u64, TreeMetadata)>,
        token_uris: Vec<(u64, String)>,
    ) -> (r: TreeNFT)
        ensures
            r@ == (NftState {
                collection,
                total_supply,
                owners: id_map(owners@),
                balances: address_map(balances@),
                tree_data: id_map(tree_data@),
                token_uris: id_map(token_uris@),
                events: Seq::empty(),
            }),
    {
        TreeNFT {
            collection,
            total_supply,
            owners: into_id_map(owners),
            balances: into_address_map(balances),
            tree_data: into_id_map(tree_data),
            token_uris: into_id_map(token_uris),
            events: Vec::new(),
        }
    }

    /// Sets up the collection: its admin, name, symbol and base URI, and no
    /// token minted.
    ///
    /// Refused with `AlreadyInitialized` if the registry is initialized
    /// already, and with `NotAuthorized` unless `admin` has approved the call.
    pub fn initialize(
        &mut self,
        auth: &Auth,
        admin: &Address,
        name: String,
        symbol: String,
        base_uri: String,
    ) -> (r: Result<(), Error>)
        ensures
            r == old(self)@.initialize_result(auth@, *admin),
            final(self)@ == old(self)@.after_initialize(
                auth@,
                Collection { admin: *admin, name, symbol, base_uri },
            ),
    {
        if self.collection.is_some() {
            return Err(Error::AlreadyInitialized);
        }
        if !auth.includes(admin) {
            return Err(Error::NotAuthorized);
        }
        self.events.push(TreeNftEvent::Init { name: name.clone(), symbol: symbol.clone() });
        self.collection = Some(Collection { admin: admin.clone(), name, symbol, base_uri });
        self.total_supply = 0;
        Ok(())
    }

    /// The collection's name; `NotInitialized` before `initialize`.
    pub fn name(&self) -> (r: Result<String, Error>)
        ensures
            r == match self@.collection {
                Some(collection) => Ok::<String, Error>(collection.name),
                None => Err(Error::NotInitialized),
            },
    {
        match &self.collection {
            Some(collection) => Ok(collection.name.clone()),
            None => Err(Error::NotInitialized),
        }
    }

    /// The collection's symbol; `NotInitialized` before `initialize`.
    pub fn symbol(&self) -> (r: Result<String, Error>)
        ensures
            r == match self@.collection {
                Some(collection) => Ok::<String, Error>(collection.symbol),
                None => Err(Error::NotInitialized),
            },
    {
        match &self.collection {
            Some(collection) => Ok(collection.symbol.clone()),
            None => Err(Error::NotInitialized),
        }
    }

    /// The base URI; the empty text before `initialize`.
    pub fn base_uri(&self) -> (r: String)
        ensures
            r@ == self@.base_uri(),
    {
        match &self.collection {
            Some(collection) => collection.base_uri.clone(),
            None => String::new(),
        }
    }

    /// The number of tokens ever minted.
    pub fn total_supply(&self) -> (r: u64)
        ensures
            r == self@.total_supply,
    {
        self.total_supply
    }

    /// The number of tokens of `owner`: 0 for one who never owned any.
    pub fn balance_of(&self, owner: &Address) -> (r: u64)
        ensures
            r == self@.balance_of(owner@),
    {
        match self.balances.get(owner.as_str()) {
            Some(count) => *count,
            None => 0,
        }
    }

    /// The owner of token `token_id`; `NotFound` if it does not exist.
    pub fn owner_of(&self, token_id: u64) -> (r: Result<Address, Error>)
        ensures
            r == self@.owner_of(token_id),
    {
        match self.owners.get(&token_id) {
            Some(owner) => Ok(owner.clone()),
            None => Err(Error::NotFound),
        }
    }

    /// The URI of token `token_id`: its own if it has one, else the base
    /// URI; `NotFound` if the token does not exist.
    pub fn token_uri(&self, token_id: u64) -> (r: Result<String, Error>)
        ensures
            match r {
                Ok(uri) => self@.owners.contains_key(token_id) && uri@ == self@.uri_of(token_id),
                Err(refusal) => !self@.owners.contains_key(token_id) && refusal == Error::NotFound,
            },
    {
        if !self.owners.contains_key(&token_id) {
            return Err(Error::NotFound);
        }
        match self.token_uris.get(&token_id) {
            Some(uri) => Ok(uri.clone()),
            None => Ok(self.base_uri()),
        }
    }

    /// Mints the next token to `to`, with what it says of its tree, and
    /// returns its id.
    ///
    /// Refused, in this order: with `NotInitialized` before `initialize`;
    /// with `NotAuthorized` unless the admin has approved the call; with
    /// `Overflow` if the number of tokens minted, or that of `to`, stands at
    /// `u64::MAX`.
    pub fn mint(
        &mut self,
        auth: &Auth,
        to: &Address,
        species: String,
        location: String,
        latitude: i32,
        longitude: i32,
        plant_date: u64,
        carbon_offset: u64,
        partner_org: String,
    ) -> (r: Result<u64, Error>)
        ensures
            r == old(self)@.mint_result(auth@, *to),
            final(self)@ == old(self)@.after_mint(
                auth@,
                *to,
                TreeMetadata {
                    species,
                    location,
                    latitude,
                    longitude,
                    plant_date,
                    carbon_offset,
                    partner_org,
                },
            ),
    {
        match &self.collection {
            None => {
                return Err(Error::NotInitialized);
            },
            Some(collection) => {
                if !auth.includes(&collection.admin) {
                    return Err(Error::NotAuthorized);
                }
            },
        }
        let token_id: u64 = match self.total_supply.checked_add(1) {
            Some(next) => next,
            None => {
                return Err(Error::Overflow);
            },
        };
        let new_balance: u64 = match self.balance_of(to).checked_add(1) {
            Some(next) => next,
            None => {
                return Err(Error::Overflow);
            },
        };
        self.owners.insert(token_id, to.clone());
        self.balances.insert(to.as_str().to_owned(), new_balance);
        self.total_supply = token_id;
        self.events.push(
            TreeNftEvent::Mint {
                to: to.clone(),
                token_id,
                species: species.clone(),
                location: location.clone(),
            },
        );
        self.tree_data.insert(
            token_id,
            TreeMetadata {
                species,
                location,
                latitude,
                longitude,
                plant_date,
                carbon_offset,
                partner_org,
            },
        );
        Ok(token_id)
    }

    /// What token `token_id` says of its tree; `NotFound` if nothing is
    /// stored for it.
    pub fn get_tree_data(&self, token_id: u64) -> (r: Result<TreeMetadata, Error>)
        ensures
            r == self@.get_tree_data(token_id),
    {
        match self.tree_data.get(&token_id) {
            Some(tree) => Ok(tree.clone()),
            None => Err(Error::NotFound),
        }
    }

    /// Destroys token `token_id`. Its id is not given to another token.
    ///
    /// Refused, in this order: with `NotInitialized` before `initialize`;
    /// with `NotAuthorized` unless the admin has approved the call; with
    /// `NotFound` if the token does not exist.
    pub fn burn(&mut self, auth: &Auth, token_id: u64) -> (r: Result<(), Error>)
        ensures
            r == old(self)@.burn_result(auth@, token_id),
            final(self)@ == old(self)@.after_burn(auth@, token_id),
    {
        match &self.collection {
            None => {
                return Err(Error::NotInitialized);
            },
            Some(collection) => {
                if !auth.includes(&collection.admin) {
                    return Err(Error::NotAuthorized);
                }
            },
        }
        let owner: Address = match self.owners.get(&token_id) {
            Some(owner) => owner.clone(),
            None => {
                return Err(Error::NotFound);
            },
        };
        let current_balance: u64 = self.balance_of(&owner);
        if current_balance > 0 {
            self.balances.insert(owner.as_str().to_owned(), current_balance - 1);
        }
        self.owners.remove(&token_id);
        self.tree_data.remove(&token_id);
        self.token_uris.remove(&token_id);
        self.events.push(TreeNftEvent::Burn { token_id });
        Ok(())
    }

    /// Whether `initialize` has succeeded.
    pub fn is_initialized(&self) -> (r: bool)
        ensures
            r == self@.initialized(),
    {
        self.collection.is_some()
    }

    /// The address that may mint and burn; `NotInitialized` before
    /// `initialize`.
    pub fn admin(&self) -> (r: Result<Address, Error>)
        ensures
            r == match self@.collection {
                Some(collection) => Ok::<Address, Error>(collection.admin),
                None => Err(Error::NotInitialized),
            },
    {
        match &self.collection {
            Some(collection) => Ok(collection.admin.clone()),
            None => Err(Error::NotInitialized),
        }
    }

    /// Hands out the events published since they were last collected, oldest
    /// first, and forgets them.
    pub fn take_events(&mut self) -> (r: Vec<TreeNftEvent>)
        ensures
            r@ == old(self)@.events,
            final(self)@ == (NftState { events: Seq::empty(), ..old(self)@ }),
    {
        let mut taken: Vec<TreeNftEvent> = Vec::new();
        std::mem::swap(&mut self.events, &mut taken);
        taken
    }
}

} // verus!
