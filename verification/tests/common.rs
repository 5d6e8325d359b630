use eco_contracts::{Address, Auth, Error};

#[test]
fn addresses_are_equal_when_their_texts_are() {
    let a = Address::from_str("GABC");
    let b = Address::from_str("GABC");
    let c = Address::from_str("GABD");
    assert_eq!(a, b);
    assert_ne!(a, c);
    assert_eq!(a.clone(), a);
    assert_eq!(a.as_str(), "GABC");
    assert_eq!(Address::from_str("").as_str(), "");
}

#[test]
fn auth_holds_the_addresses_added() {
    let a = Address::from_str("GA");
    let b = Address::from_str("GB");
    let c = Address::from_str("GC");

    let nobody = Auth::none();
    assert!(!nobody.includes(&a));

    let one = Auth::of(&a);
    assert!(one.includes(&a));
    assert!(one.includes(&Address::from_str("GA")));
    assert!(!one.includes(&b));

    let two = one.and(&b).and(&a);
    assert!(two.includes(&a));
    assert!(two.includes(&b));
    assert!(!two.includes(&c));
}

#[test]
fn errors_have_their_numbers() {
    assert_eq!(Error::AlreadyInitialized.code(), 1);
    assert_eq!(Error::NotInitialized.code(), 2);
    assert_eq!(Error::NotAuthorized.code(), 3);
    assert_eq!(Error::InsufficientBalance.code(), 4);
    assert_eq!(Error::InvalidAmount.code(), 5);
    assert_eq!(Error::NotFound.code(), 6);
    assert_eq!(Error::Overflow.code(), 7);
}
