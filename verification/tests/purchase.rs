use ticket_sales::{Contract, Error, EventLogVariant, Settlement, PREMIUM_SALE_CAP};

fn owner() -> String {
    String::from("seller.near")
}

fn buyer() -> String {
    String::from("alice.near")
}

fn vip_contract_with(price: u128, links: Vec<&str>) -> Contract {
    let mut c = Contract::new(owner());
    let r = c.ticket_vip_price(owner(), price);
    assert!(r.is_ok());
    let links: Vec<String> = links.into_iter().map(String::from).collect();
    let r = c.add_tickets_vip(owner(), links);
    assert!(r.is_ok());
    c
}

#[test]
fn standard_purchase_exact_payment() {
    // Tier price 100, attached 100, one ticket at key 0: the purchase
    // succeeds, the counter reads 1, the ticket is gone, and one transfer of
    // the full price goes to the seller.
    let mut c = vip_contract_with(100, vec!["https://tickets/0"]);
    let r = c.purchase_vip_ticket(buyer(), 100, None);
    let s: Settlement = match r {
        Ok(s) => s,
        Err(_) => panic!("purchase should succeed"),
    };
    assert_eq!(c.count_vipd(), 1);
    assert_eq!(s.transfer_to, owner());
    assert_eq!(s.transfer_amount, 100);
    let remaining = c.get_all_tickets_vip(owner()).unwrap();
    assert!(remaining.is_empty());
    let EventLogVariant::Purchase(tickets) = &s.event.event;
    assert_eq!(tickets.len(), 1);
    assert_eq!(tickets[0].owner_id, buyer());
    assert_eq!(tickets[0].ticket_link, "https://tickets/0");
    assert_eq!(tickets[0].price, 100);
    assert!(tickets[0].memo.is_none());
    assert_eq!(s.event.standard, "1.0.0");
}

#[test]
fn coupon_discount_purchase() {
    // Tier price 100, coupon "HALF" = 50, attached 50: the price computes to
    // 50 and exactly that amount settles to the seller.
    let mut c = vip_contract_with(100, vec!["link-a"]);
    let r = c.add_coupon(owner(), String::from("HALF"), 50);
    assert!(r.is_ok());
    let r = c.purchase_vip_ticket(buyer(), 50, Some(String::from("HALF")));
    let s = match r {
        Ok(s) => s,
        Err(_) => panic!("discounted purchase should succeed"),
    };
    assert_eq!(s.transfer_to, owner());
    assert_eq!(s.transfer_amount, 50);
    let EventLogVariant::Purchase(tickets) = &s.event.event;
    assert_eq!(tickets[0].price, 50);
}

#[test]
fn unknown_coupon_falls_back_to_full_price() {
    let mut c = vip_contract_with(100, vec!["link-a"]);
    let r = c.purchase_vip_ticket(buyer(), 99, Some(String::from("NOSUCH")));
    assert_eq!(r.err(), Some(Error::InsufficientPayment));
    let r = c.purchase_vip_ticket(buyer(), 100, Some(String::from("NOSUCH")));
    assert!(r.is_ok());
}

#[test]
fn overpayment_refunds_surplus_to_buyer() {
    // Tier price 100, attached 150: the purchase succeeds and the single
    // instruction refunds 50 to the buyer; the seller receives nothing in
    // this call.
    let mut c = vip_contract_with(100, vec!["link-a"]);
    let r = c.purchase_vip_ticket(buyer(), 150, None);
    let s = match r {
        Ok(s) => s,
        Err(_) => panic!("overpaid purchase should succeed"),
    };
    assert_eq!(s.transfer_to, buyer());
    assert_eq!(s.transfer_amount, 50);
}

#[test]
fn zero_price_settles_zero_to_buyer() {
    let mut c = vip_contract_with(0, vec!["free-link"]);
    let r = c.purchase_vip_ticket(buyer(), 0, None);
    let s = match r {
        Ok(s) => s,
        Err(_) => panic!("free purchase should succeed"),
    };
    assert_eq!(s.transfer_to, buyer());
    assert_eq!(s.transfer_amount, 0);
}

#[test]
fn duplicate_purchase_rejected_on_single_purchase_tier() {
    // The same caller buys twice on the vip tier: the second call rejects
    // with the eligibility error and changes nothing.
    let mut c = vip_contract_with(100, vec!["l0", "l1"]);
    let r = c.purchase_vip_ticket(buyer(), 100, None);
    assert!(r.is_ok());
    let sold_before = c.count_vipd();
    let links_before = c.get_ticket_links_by_buyer(buyer()).unwrap();
    let r = c.purchase_vip_ticket(buyer(), 100, None);
    assert_eq!(r.err(), Some(Error::AlreadyPurchased));
    assert_eq!(c.count_vipd(), sold_before);
    assert_eq!(c.get_ticket_links_by_buyer(buyer()).unwrap(), links_before);
    let remaining = c.get_all_tickets_vip(owner()).unwrap();
    assert_eq!(remaining.len(), 1);
    assert_eq!(remaining[0], (1u64, String::from("l1")));
}

#[test]
fn insufficient_payment_rejected_without_mutation() {
    let mut c = vip_contract_with(100, vec!["l0"]);
    let r = c.purchase_vip_ticket(buyer(), 99, None);
    assert_eq!(r.err(), Some(Error::InsufficientPayment));
    assert_eq!(c.count_vipd(), 0);
    assert!(c.get_ticket_links_by_buyer(buyer()).is_none());
    assert_eq!(c.get_all_tickets_vip(owner()).unwrap().len(), 1);
}

#[test]
fn missing_ticket_rejected() {
    let mut c = Contract::new(owner());
    let r = c.ticket_vip_price(owner(), 100);
    assert!(r.is_ok());
    let r = c.purchase_vip_ticket(buyer(), 100, None);
    assert_eq!(r.err(), Some(Error::TicketUnavailable));
}

#[test]
fn cap_exhaustion_rejects_despite_inventory() {
    // Premium sale cap reached: the next attempt rejects with the
    // eligibility error regardless of remaining inventory.
    let mut c = Contract::new(owner());
    let n = PREMIUM_SALE_CAP as usize;
    let links: Vec<String> = (0..n + 1).map(|i| format!("link-{i}")).collect();
    let r = c.add_tickets_premium(owner(), links);
    assert!(r.is_ok());
    for _ in 0..n {
        let r = c.purchase_premium_ticket(buyer(), 0, None);
        assert!(r.is_ok());
    }
    assert_eq!(c.count_premium(), PREMIUM_SALE_CAP);
    let r = c.purchase_premium_ticket(buyer(), 0, None);
    assert_eq!(r.err(), Some(Error::CapReached));
    assert_eq!(c.count_premium(), PREMIUM_SALE_CAP);
}

#[test]
fn premium_tier_allows_repeat_buyers() {
    let mut c = Contract::new(owner());
    let r = c.ticket_premium_price(owner(), 7);
    assert_eq!(r, Ok(7));
    let links: Vec<String> = vec![String::from("p0"), String::from("p1")];
    let r = c.add_tickets_premium(owner(), links);
    assert!(r.is_ok());
    assert!(c.purchase_premium_ticket(buyer(), 7, None).is_ok());
    assert!(c.purchase_premium_ticket(buyer(), 7, None).is_ok());
    assert_eq!(c.count_premium(), 2);
    let issued = c.get_ticket_links_by_buyer(buyer()).unwrap();
    assert_eq!(issued, vec![String::from("p0"), String::from("p1")]);
}

#[test]
fn counters_start_at_zero() {
    let c = Contract::new(owner());
    assert_eq!(c.count_standard(), 0);
    assert_eq!(c.count_vipd(), 0);
    assert_eq!(c.count_premium(), 0);
    assert_eq!(c.get_vip_price(), 0);
    assert_eq!(c.get_premium_price(), 0);
}
