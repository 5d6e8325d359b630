//! The plain registry of tree certificates: each certificate belongs for
//! good to the player it was minted to, and each player has the list of
//! their certificates in the order minted.

use crate::address::{Address, AddressId, Auth};
use crate::entries::{address_map, id_map, into_address_map, into_id_map};
use crate::error::Error;
use std::collections::HashMap;
use vstd::hash_map::StringHashMap;
use vstd::prelude::*;

verus! {

broadcast use vstd::std_specs::hash::group_hash_axioms;

/// A certificate of one planted tree. It is never changed and never changes
/// hands.
#[derive(Debug, PartialEq, Eq)]
pub struct TreeCertificate {
    /// The player to whom the certificate was minted.
    pub owner: Address,
    /// The species of the tree.
    pub species: String,
    /// The latitude, in millionths of a degree.
    pub latitude: i32,
    /// The longitude, in millionths of a degree.
    pub longitude: i32,
    /// When the tree was planted, in seconds since the epoch.
    pub plant_date: u64,
    /// Where a picture of the tree is found.
    pub image_url: String,
    /// When the certificate was minted, in seconds since the epoch.
    pub minted_at: u64,
}

impl Clone for TreeCertificate {
    fn clone(&self) -> (r: Self)
        ensures
            r == *self,
    {
        TreeCertificate {
            owner: self.owner.clone(),
            species: self.species.clone(),
            latitude: self.latitude,
            longitude: self.longitude,
            plant_date: self.plant_date,
            image_url: self.image_url.clone(),
            minted_at: self.minted_at,
        }
    }
}

/// What the registry publishes when it changes.
#[derive(Debug, PartialEq, Eq)]
pub enum TreeEvent {
    /// The registry was initialized with `admin`.
    Init { admin: Address },
    /// Certificate `tree_id` was minted to `player`.
    Mint { player: Address, tree_id: u64 },
}

/// The state of the registry, as contracts speak of it.
pub struct RegistryState {
    /// The address that may mint; `None` until the registry is initialized.
    pub admin: Option<Address>,
    /// The number of certificates minted, which is the id of the last one.
    pub counter: u64,
    /// The certificates by id.
    pub trees: Map<u64, TreeCertificate>,
    /// The ids of each player's certificates, in the order minted.
    pub player_trees: Map<AddressId, Seq<u64>>,
    /// The events published so far and not yet collected, oldest first.
    pub events: Seq<TreeEvent>,
}

impl RegistryState {
    /// The registry before it is initialized.
    pub open spec fn fresh() -> RegistryState {
        RegistryState {
            admin: None,
            counter: 0,
            trees: Map::empty(),
            player_trees: Map::empty(),
            events: Seq::empty(),
        }
    }

    /// Whether `initialize` has succeeded.
    pub open spec fn initialized(self) -> bool {
        self.admin is Some
    }

    /// The ids of the certificates of `player`, in the order minted: none for
    /// a player who has no certificate.
    pub open spec fn trees_of(self, player: AddressId) -> Seq<u64> {
        if self.player_trees.contains_key(player) {
            self.player_trees[player]
        } else {
            Seq::empty()
        }
    }

    /// How `initialize` ends.
    pub open spec fn initialize_result(self, auth: Set<AddressId>, admin: Address) -> Result<
        (),
        Error,
    > {
        if self.initialized() {
            Err(Error::AlreadyInitialized)
        } else if !auth.contains(admin@) {
            Err(Error::NotAuthorized)
        } else {
            Ok(())
        }
    }

    /// The state that `initialize` leaves.
    pub open spec fn after_initialize(self, auth: Set<AddressId>, admin: Address)
        -> RegistryState {
        if self.initialize_result(auth, admin) is Ok {
            RegistryState {
                admin: Some(admin),
                counter: 0,
                events: self.events.push(TreeEvent::Init { admin }),
                ..self
            }
        } else {
            self
        }
    }

    /// How `mint_tree_nft` ends: with the id of the new certificate, which
    /// is the number of certificates minted before it plus 1, or refused.
    pub open spec fn mint_result(self, auth: Set<AddressId>) -> Result<u64, Error> {
        if !self.initialized() {
            Err(Error::NotInitialized)
        } else if !auth.contains(self.admin->0@) {
            Err(Error::NotAuthorized)
        } else if self.counter == u64::MAX {
            Err(Error::Overflow)
        } else {
            Ok((self.counter + 1) as u64)
        }
    }

    /// The state that `mint_tree_nft` leaves, `tree` being the certificate
    /// to mint.
    pub open spec fn after_mint(self, auth: Set<AddressId>, tree: TreeCertificate)
        -> RegistryState {
        if self.mint_result(auth) is Ok {
            let tree_id = (self.counter + 1) as u64;
            RegistryState {
                counter: tree_id,
                trees: self.trees.insert(tree_id, tree),
                player_trees: self.player_trees.insert(
                    tree.owner@,
                    self.trees_of(tree.owner@).push(tree_id),
                ),
                events: self.events.push(TreeEvent::Mint { player: tree.owner, tree_id }),
                ..self
            }
        } else {
            self
        }
    }
}

impl RegistryState {
    /// The state after minting the certificates `trees` one after the other,
    /// each under the approvals `auth`.
    pub open spec fn after_mints(self, auth: Set<AddressId>, trees: Seq<TreeCertificate>)
        -> RegistryState
        decreases trees.len(),
    {
        if trees.len() == 0 {
            self
        } else {
            self.after_mints(auth, trees.drop_last()).after_mint(auth, trees.last())
        }
    }

    /// Every certificate has an id from 1 to the number minted, and nothing
    /// is minted before the registry is initialized.
    pub open spec fn ids_are_issued(self) -> bool {
        &&& forall|id: u64| #[trigger] self.trees.contains_key(id) ==> 1 <= id <= self.counter
        &&& !self.initialized() ==> self.counter == 0
    }

    /// Each player's list holds the ids of exactly the certificates that were
    /// minted to the player, each once and in ascending order, which is the
    /// order minted.
    pub open spec fn lists_match_certificates(self) -> bool {
        &&& self.ids_are_issued()
        &&& forall|player: AddressId, i: int|
            0 <= i < self.trees_of(player).len() ==> self.trees.contains_key(
                #[trigger] self.trees_of(player)[i],
            ) && self.trees[self.trees_of(player)[i]].owner@ == player
        &&& forall|id: u64| #[trigger]
            self.trees.contains_key(id) ==> self.trees_of(self.trees[id].owner@).contains(id)
        &&& forall|player: AddressId, i: int, j: int|
            0 <= i < j < self.trees_of(player).len() ==> #[trigger] self.trees_of(player)[i]
                < #[trigger] self.trees_of(player)[j]
    }
}

/// One call of an entry point that can change the registry.
pub enum RegistryCall {
    Initialize { auth: Set<AddressId>, admin: Address },
    Mint { auth: Set<AddressId>, tree: TreeCertificate },
}

impl RegistryState {
    /// The state that one call leaves, whether it succeeds or is refused.
    pub open spec fn after(self, call: RegistryCall) -> RegistryState {
        match call {
            RegistryCall::Initialize { auth, admin } => self.after_initialize(auth, admin),
            RegistryCall::Mint { auth, tree } => self.after_mint(auth, tree),
        }
    }

    /// The state that a sequence of calls leaves, made one after the other.
    pub open spec fn after_all(self, calls: Seq<RegistryCall>) -> RegistryState
        decreases calls.len(),
    {
        if calls.len() == 0 {
            self
        } else {
            self.after_all(calls.drop_last()).after(calls.last())
        }
    }
}

/// A registry of tree certificates.
pub struct TreeRegistry {
    admin: Option<Address>,
    counter: u64,
    trees: HashMap<u64, TreeCertificate>,
    player_trees: StringHashMap<Vec<u64>>,
    events: Vec<TreeEvent>,
}

impl View for TreeRegistry {
    type V = RegistryState;

    closed spec fn view(&self) -> RegistryState {
        RegistryState {
            admin: self.admin,
            counter: self.counter,
            trees: self.trees@,
            player_trees: self.player_trees@.map_values(|ids: Vec<u64>| ids@),
            events: self.events@,
        }
    }
}

/// A list with the same ids in the same order.
fn copy_ids(ids: &Vec<u64>) -> (r: Vec<u64>)
    ensures
        r@ == ids@,
{
    let mut copy: Vec<u64> = Vec::new();
    let mut i: usize = 0;
    while i < ids.len()
        invariant
            i <= ids@.len(),
            copy@ == ids@.subrange(0, i as int),
        decreases ids@.len() - i,
    {
        copy.push(ids[i]);
        assert(ids@.subrange(0, i + 1) =~= ids@.subrange(0, i as int).push(ids@[i as int]));
        i += 1;
    }
    assert(ids@.subrange(0, ids@.len() as int) =~= ids@);
    copy
}

impl TreeRegistry {
    /// A registry that is not initialized yet.
    pub fn new() -> (r: TreeRegistry)
        ensures
            r@ == RegistryState::fresh(),
    {
        let r = TreeRegistry {
            admin: None,
            counter: 0,
            trees: HashMap::new(),
            player_trees: StringHashMap::new(),
            events: Vec::new(),
        };
        assert(r@.player_trees =~= Map::empty());
        r
    }

    /// A registry in the given state, with no event to collect: `admin` is
    /// `None` for a registry that is not initialized, and a player who is not
    /// listed in `player_trees` has no certificate.
    pub fn restore(
        admin: Option<Address>,
        counter: u64,
        trees: Vec<(u64, TreeCertificate)>,
        player_trees: Vec<(Address, Vec<u64>)>,
    ) -> (r: TreeRegistry)
        ensures
            r@ == (RegistryState {
                admin,
                counter,
                trees: id_map(trees@),
                player_trees: address_map(player_trees@).map_values(|ids: Vec<u64>| ids@),
                events: Seq::empty(),
            }),
    {
        TreeRegistry {
            admin,
            counter,
            trees: into_id_map(trees),
            player_trees: into_address_map(player_trees),
            events: Vec::new(),
        }
    }

    /// Makes `admin` the address that may mint, with no certificate minted.
    ///
    /// Refused with `AlreadyInitialized` if the registry has an admin
    /// already, and with `NotAuthorized` unless `admin` has approved the call.
    pub fn initialize(&mut self, auth: &Auth, admin: &Address) -> (r: Result<(), Error>)
        ensures
            r == old(self)@.initialize_result(auth@, *admin),
            final(self)@ == old(self)@.after_initialize(auth@, *admin),
    {
        if self.admin.is_some() {
            return Err(Error::AlreadyInitialized);
        }
        if !auth.includes(admin) {
            return Err(Error::NotAuthorized);
        }
        self.admin = Some(admin.clone());
        self.counter = 0;
        self.events.push(TreeEvent::Init { admin: admin.clone() });
        Ok(())
    }

    /// Mints the next certificate to `player` and returns its id. `now` is
    /// the time of the call, in seconds since the epoch.
    ///
    /// Refused, in this order: with `NotInitialized` before `initialize`;
    /// with `NotAuthorized` unless the admin has approved the call; with
    /// `Overflow` if the number of certificates minted stands at `u64::MAX`.
    pub fn mint_tree_nft(
        &mut self,
        auth: &Auth,
        player: &Address,
        species: String,
        latitude: i32,
        longitude: i32,
        plant_date: u64,
        image_url: String,
        now: u64,
    ) -> (r: Result<u64, Error>)
        ensures
            r == old(self)@.mint_result(auth@),
            final(self)@ == old(self)@.after_mint(
                auth@,
                TreeCertificate {
                    owner: *player,
                    species,
                    latitude,
                    longitude,
                    plant_date,
                    image_url,
                    minted_at: now,
                },
            ),
    {
        match &self.admin {
            None => {
                return Err(Error::NotInitialized);
            },
            Some(admin) => {
                if !auth.includes(admin) {
                    return Err(Error::NotAuthorized);
                }
            },
        }
        let tree_id: u64 = match self.counter.checked_add(1) {
            Some(next) => next,
            None => {
                return Err(Error::Overflow);
            },
        };
        let mut ids: Vec<u64> = self.get_player_trees(player);
        ids.push(tree_id);
        let ghost before = self@;
        self.counter = tree_id;
        self.trees.insert(
            tree_id,
            TreeCertificate {
                owner: player.clone(),
                species,
                latitude,
                longitude,
                plant_date,
                image_url,
                minted_at: now,
            },
        );
        self.player_trees.insert(player.as_str().to_owned(), ids);
        self.events.push(TreeEvent::Mint { player: player.clone(), tree_id });
        assert(self@.player_trees =~= before.player_trees.insert(
            player@,
            before.trees_of(player@).push(tree_id),
        ));
        Ok(tree_id)
    }

    /// The certificate with id `tree_id`; `NotFound` if there is none.
    pub fn get_tree_nft(&self, tree_id: u64) -> (r: Result<TreeCertificate, Error>)
        ensures
            r == if self@.trees.contains_key(tree_id) {
                Ok::<TreeCertificate, Error>(self@.trees[tree_id])
            } else {
                Err(Error::NotFound)
            },
    {
        match self.trees.get(&tree_id) {
            Some(tree) => Ok(tree.clone()),
            None => Err(Error::NotFound),
        }
    }

    /// The ids of the certificates of `player`, in the order minted: none for
    /// a player who has no certificate.
    pub fn get_player_trees(&self, player: &Address) -> (r: Vec<u64>)
        ensures
            r@ == self@.trees_of(player@),
    {
        match self.player_trees.get(player.as_str()) {
            Some(ids) => copy_ids(ids),
            None => Vec::new(),
        }
    }

    /// The number of certificates minted so far.
    pub fn get_total_trees_minted(&self) -> (r: u64)
        ensures
            r == self@.counter,
    {
        self.counter
    }

    /// The address that may mint; `NotInitialized` before `initialize`.
    pub fn get_admin(&self) -> (r: Result<Address, Error>)
        ensures
            r == match self@.admin {
                Some(admin) => Ok::<Address, Error>(admin),
                None => Err(Error::NotInitialized),
            },
    {
        match &self.admin {
            Some(admin) => Ok(admin.clone()),
            None => Err(Error::NotInitialized),
        }
    }

    /// Hands out the events published since they were last collected, oldest
    /// first, and forgets them.
    pub fn take_events(&mut self) -> (r: Vec<TreeEvent>)
        ensures
            r@ == old(self)@.events,
            final(self)@ == (RegistryState { events: Seq::empty(), ..old(self)@ }),
    {
        let mut taken: Vec<TreeEvent> = Vec::new();
        std::mem::swap(&mut self.events, &mut taken);
        taken
    }
}

} // verus!
