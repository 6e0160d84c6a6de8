use vaccine_nft::contract::VaccineNftContract;
use vaccine_nft::registry::Metadata;
use vaccine_nft::types::{Address, Error, VaccineAttrs};

fn addr(s: &str) -> Address {
    Address::new(s.to_string())
}

fn ready(admin: &str) -> VaccineNftContract {
    let mut c = VaccineNftContract::new();
    assert!(c.initialize(addr(admin), "VaxCert".to_string(), "VAX".to_string()));
    c
}

fn mint(c: &mut VaccineNftContract, admin: &str, to: &str, name: &str) -> Result<u128, Error> {
    c.mint_with_attrs(
        &vec![addr(admin)],
        addr(to),
        name.to_string(),
        "B1".to_string(),
        2000000000,
        1700000000,
    )
}

fn same_attrs(a: &VaccineAttrs, name: &str, batch: &str, exp: u64, taken: u64) -> bool {
    a.name == name && a.batch == batch && a.exp_date == exp && a.taken_date == taken
}

#[test]
fn vaxcert_scenario() {
    let mut c = VaccineNftContract::new();
    assert!(c.initialize(addr("A"), "VaxCert".to_string(), "VAX".to_string()));
    let id = c
        .mint_with_attrs(
            &vec![addr("A")],
            addr("U1"),
            "Pfizer".to_string(),
            "B1".to_string(),
            2000000000,
            1700000000,
        )
        .unwrap();
    assert_eq!(id, 1);
    let a = c.get_attrs(1).unwrap();
    assert!(same_attrs(&a, "Pfizer", "B1", 2000000000, 1700000000));
    assert_eq!(c.transfer(&vec![addr("U1")], addr("U1"), addr("U2"), 1), Ok(()));
    assert_eq!(c.owner_of(1).unwrap().strkey, "U2");
    let r = c.update_attrs(
        &vec![addr("U1")],
        addr("U1"),
        1,
        "Moderna".to_string(),
        "B2".to_string(),
        1,
        2,
    );
    assert_eq!(r, Err(Error::NotOwner));
}

#[test]
fn ids_are_consecutive_from_one() {
    let mut c = ready("A");
    assert_eq!(c.issued_count(), 0);
    for expected in 1..=5u128 {
        assert_eq!(mint(&mut c, "A", "U1", "Pfizer"), Ok(expected));
    }
    assert_eq!(c.issued_count(), 5);
    assert!(c.owner_of(0).is_none());
}

#[test]
fn failed_mint_consumes_no_id() {
    let mut c = ready("A");
    assert_eq!(mint(&mut c, "A", "U1", "Pfizer"), Ok(1));
    assert_eq!(mint(&mut c, "X", "U1", "Pfizer"), Err(Error::Unauthorized));
    assert!(c.owner_of(2).is_none());
    assert_eq!(c.get_attrs(2).err(), Some(Error::TokenNotFound));
    assert_eq!(mint(&mut c, "A", "U2", "Moderna"), Ok(2));
    assert_eq!(c.owner_of(2).unwrap().strkey, "U2");
    assert!(same_attrs(&c.get_attrs(2).unwrap(), "Moderna", "B1", 2000000000, 1700000000));
}

#[test]
fn mint_before_initialize_fails() {
    let mut c = VaccineNftContract::new();
    assert_eq!(mint(&mut c, "A", "U1", "Pfizer"), Err(Error::Uninitialized));
    assert!(c.owner_of(1).is_none());
    assert_eq!(c.get_attrs(1).err(), Some(Error::TokenNotFound));
    assert_eq!(c.issued_count(), 0);
}

#[test]
fn admin_before_initialize_is_an_error() {
    let c = VaccineNftContract::new();
    assert_eq!(c.admin().err(), Some(Error::Uninitialized));
    assert_eq!(c.name().err(), Some(Error::Uninitialized));
    assert_eq!(c.symbol().err(), Some(Error::Uninitialized));
}

#[test]
fn non_owner_update_keeps_payload() {
    let mut c = ready("A");
    mint(&mut c, "A", "U1", "Pfizer").unwrap();
    let r = c.update_attrs(
        &vec![addr("U2")],
        addr("U2"),
        1,
        "Moderna".to_string(),
        "B9".to_string(),
        5,
        6,
    );
    assert_eq!(r, Err(Error::NotOwner));
    assert!(same_attrs(&c.get_attrs(1).unwrap(), "Pfizer", "B1", 2000000000, 1700000000));
}

#[test]
fn owner_update_replaces_payload() {
    let mut c = ready("A");
    mint(&mut c, "A", "U1", "Pfizer").unwrap();
    let r = c.update_attrs(
        &vec![addr("U1")],
        addr("U1"),
        1,
        "Moderna".to_string(),
        "B9".to_string(),
        5,
        6,
    );
    assert_eq!(r, Ok(()));
    assert!(same_attrs(&c.get_attrs(1).unwrap(), "Moderna", "B9", 5, 6));
    assert_eq!(c.owner_of(1).unwrap().strkey, "U1");
}

#[test]
fn owner_update_without_authorization_fails() {
    let mut c = ready("A");
    mint(&mut c, "A", "U1", "Pfizer").unwrap();
    let r = c.update_attrs(
        &vec![addr("U2")],
        addr("U1"),
        1,
        "Moderna".to_string(),
        "B9".to_string(),
        5,
        6,
    );
    assert_eq!(r, Err(Error::Unauthorized));
    assert!(same_attrs(&c.get_attrs(1).unwrap(), "Pfizer", "B1", 2000000000, 1700000000));
}

#[test]
fn update_of_missing_record_fails() {
    let mut c = ready("A");
    let r = c.update_attrs(
        &vec![addr("U1")],
        addr("U1"),
        3,
        "Moderna".to_string(),
        "B9".to_string(),
        5,
        6,
    );
    assert_eq!(r, Err(Error::TokenNotFound));
}

#[test]
fn non_owner_transfer_keeps_owner() {
    let mut c = ready("A");
    mint(&mut c, "A", "U1", "Pfizer").unwrap();
    let r = c.transfer(&vec![addr("U2")], addr("U2"), addr("U3"), 1);
    assert_eq!(r, Err(Error::NotOwner));
    assert_eq!(c.owner_of(1).unwrap().strkey, "U1");
}

#[test]
fn transfer_without_authorization_fails() {
    let mut c = ready("A");
    mint(&mut c, "A", "U1", "Pfizer").unwrap();
    let r = c.transfer(&vec![addr("A")], addr("U1"), addr("U3"), 1);
    assert_eq!(r, Err(Error::Unauthorized));
    assert_eq!(c.owner_of(1).unwrap().strkey, "U1");
}

#[test]
fn transfer_of_missing_record_fails() {
    let mut c = ready("A");
    let r = c.transfer(&vec![addr("U1")], addr("U1"), addr("U2"), 0);
    assert_eq!(r, Err(Error::TokenNotFound));
}

#[test]
fn transfer_hands_record_over() {
    let mut c = ready("A");
    mint(&mut c, "A", "U1", "Pfizer").unwrap();
    assert_eq!(c.transfer(&vec![addr("U1")], addr("U1"), addr("U2"), 1), Ok(()));
    assert_eq!(c.owner_of(1).unwrap().strkey, "U2");
    let again = c.transfer(&vec![addr("U1")], addr("U1"), addr("U3"), 1);
    assert_eq!(again, Err(Error::NotOwner));
    assert_eq!(c.transfer(&vec![addr("U2")], addr("U2"), addr("U3"), 1), Ok(()));
    assert_eq!(c.owner_of(1).unwrap().strkey, "U3");
}

#[test]
fn self_transfer_succeeds() {
    let mut c = ready("A");
    mint(&mut c, "A", "U1", "Pfizer").unwrap();
    assert_eq!(c.transfer(&vec![addr("U1")], addr("U1"), addr("U1"), 1), Ok(()));
    assert_eq!(c.owner_of(1).unwrap().strkey, "U1");
}

#[test]
fn never_issued_queries() {
    let mut c = ready("A");
    mint(&mut c, "A", "U1", "Pfizer").unwrap();
    assert_eq!(c.get_attrs(0).err(), Some(Error::TokenNotFound));
    assert!(c.owner_of(0).is_none());
    assert_eq!(c.get_attrs(7).err(), Some(Error::TokenNotFound));
    assert!(c.owner_of(7).is_none());
}

#[test]
fn second_initialize_keeps_first_values() {
    let mut c = ready("A");
    assert!(!c.initialize(addr("B"), "Other".to_string(), "OTH".to_string()));
    assert_eq!(c.admin().unwrap().strkey, "A");
    assert_eq!(c.name().unwrap(), "VaxCert");
    assert_eq!(c.symbol().unwrap(), "VAX");
    assert_eq!(mint(&mut c, "B", "U1", "Pfizer"), Err(Error::Unauthorized));
    assert_eq!(mint(&mut c, "A", "U1", "Pfizer"), Ok(1));
}

#[test]
fn authorization_list_is_searched_whole() {
    let mut c = ready("A");
    let auth = vec![addr("X"), addr("Y"), addr("A")];
    let id = c
        .mint_with_attrs(&auth, addr("U1"), "Pfizer".to_string(), "B1".to_string(), 3, 4)
        .unwrap();
    assert_eq!(id, 1);
    assert_eq!(mint(&mut c, "AB", "U1", "Pfizer"), Err(Error::Unauthorized));
}

#[test]
fn from_parts_rebuilds_consistent_state() {
    let meta = Metadata {
        admin: addr("A"),
        name: "VaxCert".to_string(),
        symbol: "VAX".to_string(),
    };
    let attrs = VaccineAttrs::new("Pfizer".to_string(), "B1".to_string(), 7, 8);
    let mut c = VaccineNftContract::from_parts(Some(meta), vec![addr("U1")], vec![attrs]).unwrap();
    assert_eq!(c.owner_of(1).unwrap().strkey, "U1");
    assert!(same_attrs(&c.get_attrs(1).unwrap(), "Pfizer", "B1", 7, 8));
    assert_eq!(c.admin().unwrap().strkey, "A");
    assert_eq!(mint(&mut c, "A", "U2", "Moderna"), Ok(2));
}

#[test]
fn from_parts_refuses_inconsistent_state() {
    let attrs = VaccineAttrs::new("Pfizer".to_string(), "B1".to_string(), 7, 8);
    assert!(VaccineNftContract::from_parts(None, vec![addr("U1")], vec![attrs]).is_none());
    let meta = Metadata {
        admin: addr("A"),
        name: "VaxCert".to_string(),
        symbol: "VAX".to_string(),
    };
    assert!(VaccineNftContract::from_parts(Some(meta), vec![addr("U1")], vec![]).is_none());
    assert!(VaccineNftContract::from_parts(None, vec![], vec![]).is_some());
}

#[test]
fn addresses_compare_by_text() {
    assert!(addr("GABC").same_as(&addr("GABC")));
    assert!(!addr("GABC").same_as(&addr("GABD")));
    assert_eq!(addr("GABC").duplicate().strkey, "GABC");
    let a = VaccineAttrs::new("X".to_string(), "Y".to_string(), 1, 2).duplicate();
    assert!(same_attrs(&a, "X", "Y", 1, 2));
}
