use ticket_sales::{EventLog, EventLogVariant, PurchaseTicket};

fn one_ticket_event(owner_id: &str, link: &str, price: u128) -> EventLog {
    EventLog {
        standard: String::from("1.0.0"),
        event: EventLogVariant::Purchase(vec![PurchaseTicket {
            owner_id: String::from(owner_id),
            ticket_link: String::from(link),
            price,
            memo: None,
        }]),
    }
}

#[test]
fn render_exact_line() {
    let e = one_ticket_event("alice.near", "https://tickets/7", 100);
    assert_eq!(
        e.render(),
        "EVENT_JSON:{\"standard\":\"1.0.0\",\"event\":\"purchase\",\"data\":[{\"owner_id\":\"alice.near\",\"ticket_link\":\"https://tickets/7\",\"price\":100,\"memo\":null}]}"
    );
}

#[test]
fn render_large_price_and_memo() {
    let mut e = one_ticket_event("bob", "L", 340282366920938463463374607431768211455);
    let EventLogVariant::Purchase(tickets) = &mut e.event;
    tickets[0].memo = Some(String::from("gift"));
    assert_eq!(
        e.render(),
        "EVENT_JSON:{\"standard\":\"1.0.0\",\"event\":\"purchase\",\"data\":[{\"owner_id\":\"bob\",\"ticket_link\":\"L\",\"price\":340282366920938463463374607431768211455,\"memo\":\"gift\"}]}"
    );
}

#[test]
fn render_escapes_json_metacharacters() {
    let e = one_ticket_event("a\"b", "back\\slash\nline\ttab\u{1f}", 0);
    assert_eq!(
        e.render(),
        "EVENT_JSON:{\"standard\":\"1.0.0\",\"event\":\"purchase\",\"data\":[{\"owner_id\":\"a\\\"b\",\"ticket_link\":\"back\\\\slash\\nline\\ttab\\u001f\",\"price\":0,\"memo\":null}]}"
    );
}

#[test]
fn render_two_tickets_joined_by_comma() {
    let e = EventLog {
        standard: String::from("1.0.0"),
        event: EventLogVariant::Purchase(vec![
            PurchaseTicket {
                owner_id: String::from("a"),
                ticket_link: String::from("l1"),
                price: 1,
                memo: None,
            },
            PurchaseTicket {
                owner_id: String::from("b"),
                ticket_link: String::from("l2"),
                price: 2,
                memo: None,
            },
        ]),
    };
    let line = e.render();
    assert!(line.contains("\"l1\""));
    assert!(line.contains("},{"));
    assert!(line.contains("\"l2\""));
}

#[test]
fn render_parses_as_tagged_json() {
    // The line after the prefix is valid JSON in the tagged layout external
    // indexers expect.
    let e = one_ticket_event("alice.near", "x \"quoted\" \\ done", 42);
    let line = e.render();
    let json = line.strip_prefix("EVENT_JSON:").unwrap();
    let v: serde_json::Value = serde_json::from_str(json).unwrap();
    assert_eq!(v["standard"].as_str(), Some("1.0.0"));
    assert_eq!(v["event"].as_str(), Some("purchase"));
    let data = v["data"].as_array().unwrap();
    assert_eq!(data.len(), 1);
    assert_eq!(data[0]["owner_id"].as_str(), Some("alice.near"));
    assert_eq!(data[0]["ticket_link"].as_str(), Some("x \"quoted\" \\ done"));
    assert_eq!(data[0]["price"].as_u64(), Some(42));
    assert!(data[0]["memo"].is_null());
}
