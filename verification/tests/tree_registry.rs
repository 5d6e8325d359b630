use eco_contracts::{Address, Auth, Error, TreeCertificate, TreeEvent, TreeRegistry};

fn address(text: &str) -> Address {
    Address::from_str(text)
}

fn text(s: &str) -> String {
    String::from(s)
}

fn registry() -> (TreeRegistry, Address, Auth) {
    let mut registry = TreeRegistry::new();
    let admin = address("GADMIN");
    let auth = Auth::of(&admin);
    registry.initialize(&auth, &admin).unwrap();
    (registry, admin, auth)
}

fn mint(registry: &mut TreeRegistry, auth: &Auth, player: &Address, now: u64) -> Result<u64, Error> {
    registry.mint_tree_nft(
        auth,
        player,
        text("Oak"),
        37774900,
        -122419400,
        1698345600,
        text("ipfs://oak"),
        now,
    )
}

#[test]
fn registry_is_initialized_once() {
    let mut registry = TreeRegistry::new();
    let admin = address("GADMIN");
    let other = address("GOTHER");

    assert_eq!(registry.get_admin(), Err(Error::NotInitialized));
    assert_eq!(registry.get_total_trees_minted(), 0);
    assert_eq!(registry.initialize(&Auth::of(&other), &admin), Err(Error::NotAuthorized));
    assert_eq!(registry.get_admin(), Err(Error::NotInitialized));
    assert_eq!(registry.initialize(&Auth::of(&admin), &admin), Ok(()));
    assert_eq!(registry.get_admin(), Ok(admin.clone()));
    assert_eq!(registry.take_events(), vec![TreeEvent::Init { admin: admin.clone() }]);

    mint(&mut registry, &Auth::of(&admin), &other, 1).unwrap();
    registry.take_events();
    assert_eq!(registry.initialize(&Auth::of(&other), &other), Err(Error::AlreadyInitialized));
    assert_eq!(registry.initialize(&Auth::none(), &other), Err(Error::AlreadyInitialized));
    assert_eq!(registry.initialize(&Auth::of(&admin), &admin), Err(Error::AlreadyInitialized));
    assert_eq!(registry.get_admin(), Ok(admin.clone()));
    assert_eq!(registry.get_total_trees_minted(), 1);
    assert_eq!(registry.get_player_trees(&other), vec![1]);
    assert_eq!(registry.take_events(), vec![]);
}

#[test]
fn mint_stores_the_certificate_with_the_time_of_the_call() {
    let (mut registry, _admin, auth) = registry();
    let player = address("GPLAYER");
    registry.take_events();

    let id = registry
        .mint_tree_nft(
            &auth,
            &player,
            text("Maple"),
            34052200,
            -118243700,
            1698518400,
            text("ipfs://maple"),
            1700000000,
        )
        .unwrap();
    assert_eq!(id, 1);
    assert_eq!(registry.get_total_trees_minted(), 1);
    assert_eq!(
        registry.get_tree_nft(1),
        Ok(TreeCertificate {
            owner: player.clone(),
            species: text("Maple"),
            latitude: 34052200,
            longitude: -118243700,
            plant_date: 1698518400,
            image_url: text("ipfs://maple"),
            minted_at: 1700000000,
        })
    );
    assert_eq!(registry.get_tree_nft(0), Err(Error::NotFound));
    assert_eq!(registry.get_tree_nft(2), Err(Error::NotFound));
    assert_eq!(
        registry.take_events(),
        vec![TreeEvent::Mint { player: player.clone(), tree_id: 1 }]
    );
}

#[test]
fn player_trees_hold_the_ids_in_mint_order() {
    let (mut registry, _admin, auth) = registry();
    let player = address("GPLAYER");
    let other = address("GOTHER");

    assert_eq!(registry.get_player_trees(&player), Vec::<u64>::new());
    let mut returned = Vec::new();
    for n in 1..=6u64 {
        let id = mint(&mut registry, &auth, &player, n).unwrap();
        returned.push(id);
        assert_eq!(registry.get_player_trees(&player).len() as u64, n);
        assert_eq!(registry.get_player_trees(&player), returned);
    }
    assert_eq!(returned, vec![1, 2, 3, 4, 5, 6]);
    assert_eq!(registry.get_total_trees_minted(), 6);
    assert_eq!(registry.get_player_trees(&other), Vec::<u64>::new());
}

#[test]
fn players_share_one_sequence_of_ids() {
    let (mut registry, _admin, auth) = registry();
    let player1 = address("GPLAYER1");
    let player2 = address("GPLAYER2");

    assert_eq!(mint(&mut registry, &auth, &player1, 10), Ok(1));
    assert_eq!(mint(&mut registry, &auth, &player2, 11), Ok(2));
    assert_eq!(mint(&mut registry, &auth, &player1, 12), Ok(3));
    assert_eq!(mint(&mut registry, &auth, &player2, 13), Ok(4));
    assert_eq!(mint(&mut registry, &auth, &player2, 14), Ok(5));

    assert_eq!(registry.get_player_trees(&player1), vec![1, 3]);
    assert_eq!(registry.get_player_trees(&player2), vec![2, 4, 5]);
    assert_eq!(registry.get_total_trees_minted(), 5);
    for id in [1u64, 3] {
        assert_eq!(registry.get_tree_nft(id).unwrap().owner, player1);
    }
    for id in [2u64, 4, 5] {
        assert_eq!(registry.get_tree_nft(id).unwrap().owner, player2);
        assert_eq!(registry.get_tree_nft(id).unwrap().minted_at, 9 + id);
    }
}

#[test]
fn only_the_admin_mints_certificates() {
    let mut registry = TreeRegistry::new();
    let admin = address("GADMIN");
    let player = address("GPLAYER");

    assert_eq!(mint(&mut registry, &Auth::of(&admin), &player, 1), Err(Error::NotInitialized));
    registry.initialize(&Auth::of(&admin), &admin).unwrap();
    assert_eq!(mint(&mut registry, &Auth::of(&player), &player, 1), Err(Error::NotAuthorized));
    assert_eq!(mint(&mut registry, &Auth::none(), &player, 1), Err(Error::NotAuthorized));
    assert_eq!(registry.get_total_trees_minted(), 0);
    assert_eq!(registry.get_player_trees(&player), Vec::<u64>::new());
    assert_eq!(registry.get_tree_nft(1), Err(Error::NotFound));
    assert_eq!(mint(&mut registry, &Auth::of(&player).and(&admin), &player, 1), Ok(1));
}

#[test]
fn restored_registry_goes_on_from_the_state_given() {
    let admin = address("GADMIN");
    let player = address("GPLAYER");
    let auth = Auth::of(&admin);
    let oak = |owner: &Address| TreeCertificate {
        owner: owner.clone(),
        species: text("Oak"),
        latitude: 1,
        longitude: 2,
        plant_date: 3,
        image_url: text("ipfs://oak"),
        minted_at: 4,
    };

    let mut registry = TreeRegistry::restore(
        Some(admin.clone()),
        8,
        vec![(7, oak(&player))],
        vec![(player.clone(), vec![2, 7])],
    );
    assert_eq!(registry.get_total_trees_minted(), 8);
    assert_eq!(registry.get_tree_nft(7), Ok(oak(&player)));
    assert_eq!(registry.get_tree_nft(2), Err(Error::NotFound));
    assert_eq!(registry.get_player_trees(&player), vec![2, 7]);
    assert_eq!(mint(&mut registry, &auth, &player, 5), Ok(9));
    assert_eq!(registry.get_player_trees(&player), vec![2, 7, 9]);
    assert_eq!(registry.get_tree_nft(7), Ok(oak(&player)));

    let mut full = TreeRegistry::restore(Some(admin.clone()), u64::MAX, vec![], vec![]);
    assert_eq!(mint(&mut full, &auth, &player, 5), Err(Error::Overflow));
    assert_eq!(full.get_total_trees_minted(), u64::MAX);
    assert_eq!(full.get_player_trees(&player), Vec::<u64>::new());
}
