use ticket_sales::{Contract, Error};

fn owner() -> String {
    String::from("seller.near")
}

fn stranger() -> String {
    String::from("mallory.near")
}

#[test]
fn bulk_add_then_fetch_round_trip() {
    // A ticket appended via the administrative bulk-add and then fetched by
    // its assigned key is exactly the payload supplied.
    let mut c = Contract::new(owner());
    let links = vec![String::from("a"), String::from("b")];
    assert!(c.add_tickets_standard(owner(), links).is_ok());
    let all = c.get_all_tickets_standard(owner()).unwrap();
    assert_eq!(all, vec![(0u64, String::from("a")), (1u64, String::from("b"))]);
    // Keys continue from the high-water mark on a later bulk-add.
    assert!(c.add_tickets_standard(owner(), vec![String::from("c")]).is_ok());
    let all = c.get_all_tickets_standard(owner()).unwrap();
    assert_eq!(all.len(), 3);
    assert_eq!(all[2], (2u64, String::from("c")));
}

#[test]
fn vip_pool_counts_high_water_mark() {
    let mut c = Contract::new(owner());
    let links = vec![String::from("v0"), String::from("v1")];
    assert!(c.add_tickets_vip(owner(), links).is_ok());
    assert_eq!(c.total_vip_tickets(owner()), Ok(2));
    let all = c.get_all_tickets_vip(owner()).unwrap();
    assert_eq!(all, vec![(0u64, String::from("v0")), (1u64, String::from("v1"))]);
}

#[test]
fn premium_pool_listing() {
    let mut c = Contract::new(owner());
    assert!(c.add_tickets_premium(owner(), vec![String::from("p0")]).is_ok());
    let all = c.get_all_tickets_premium(owner()).unwrap();
    assert_eq!(all, vec![(0u64, String::from("p0"))]);
}

#[test]
fn admin_calls_reject_non_owner() {
    let mut c = Contract::new(owner());
    assert_eq!(c.add_tickets_standard(stranger(), vec![String::from("x")]), Err(Error::NotOwner));
    assert_eq!(c.add_tickets_vip(stranger(), vec![String::from("x")]), Err(Error::NotOwner));
    assert_eq!(c.add_tickets_premium(stranger(), vec![String::from("x")]), Err(Error::NotOwner));
    assert_eq!(c.add_coupon(stranger(), String::from("HALF"), 50), Err(Error::NotOwner));
    assert_eq!(c.get_coupon(stranger(), String::from("HALF")), Err(Error::NotOwner));
    assert!(c.get_all_coupons(stranger()).is_err());
    assert!(c.get_all_tickets_standard(stranger()).is_err());
    assert!(c.get_all_tickets_vip(stranger()).is_err());
    assert!(c.get_all_tickets_premium(stranger()).is_err());
    assert_eq!(c.total_vip_tickets(stranger()), Err(Error::NotOwner));
    assert_eq!(c.ticket_vip_price(stranger(), 5), Err(Error::NotOwner));
    assert_eq!(c.ticket_premium_price(stranger(), 5), Err(Error::NotOwner));
    // Nothing was mutated by the rejected calls.
    assert_eq!(c.get_all_tickets_standard(owner()).unwrap().len(), 0);
    assert_eq!(c.get_vip_price(), 0);
    assert_eq!(c.get_premium_price(), 0);
}

#[test]
fn coupons_insert_replace_and_list() {
    let mut c = Contract::new(owner());
    assert!(c.add_coupon(owner(), String::from("HALF"), 50).is_ok());
    assert!(c.add_coupon(owner(), String::from("TENTH"), 90).is_ok());
    assert_eq!(c.get_coupon(owner(), String::from("HALF")), Ok(Some(50)));
    assert_eq!(c.get_coupon(owner(), String::from("TENTH")), Ok(Some(90)));
    assert_eq!(c.get_coupon(owner(), String::from("NOSUCH")), Ok(None));
    // Insert-or-replace keeps the code unique and takes the newer discount.
    assert!(c.add_coupon(owner(), String::from("HALF"), 25).is_ok());
    assert_eq!(c.get_coupon(owner(), String::from("HALF")), Ok(Some(25)));
    let all = c.get_all_coupons(owner()).unwrap();
    assert_eq!(all, vec![(String::from("HALF"), 25), (String::from("TENTH"), 90)]);
}

#[test]
fn price_setters_store_given_value() {
    let mut c = Contract::new(owner());
    assert_eq!(c.ticket_premium_price(owner(), 123), Ok(123));
    assert_eq!(c.get_premium_price(), 123);
    assert!(c.ticket_vip_price(owner(), 456).is_ok());
    assert_eq!(c.get_vip_price(), 456);
}
