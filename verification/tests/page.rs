use port_forwarding_tool::format::render_rule;
use port_forwarding_tool::page::{classify, render_items, render_outcome, render_view, ViewState};
use port_forwarding_tool::things::{get_things, ProviderFault, Thing};

fn thing(description: &str, source_port: u16, target_port: u16, address: &str) -> Thing {
    Thing {
        description: description.to_string(),
        source_port,
        target_port,
        target_ip_address: address.to_string(),
        enabled: true,
    }
}

#[test]
fn provider_fabricates_one_rule() {
    let things = get_things().unwrap();
    assert_eq!(things.len(), 1);
    assert_eq!(things[0].description, "please");
    assert_eq!(things[0].source_port, 25565);
    assert_eq!(things[0].target_port, 25565);
    assert_eq!(things[0].target_ip_address, "192.168.1.123");
    assert!(things[0].enabled);
}

#[test]
fn one_rule_renders_one_item() {
    let things = vec![thing("please", 25565, 25565, "192.168.1.123")];
    assert_eq!(render_outcome(Some(Ok(things))), ":25565 --> 192.168.1.123:25565");
}

#[test]
fn empty_resolution_renders_fixed_message() {
    assert_eq!(render_outcome(Some(Ok(Vec::new()))), "no things");
}

#[test]
fn fault_renders_labelled_message() {
    let fault = ProviderFault { message: "timeout".to_string() };
    assert_eq!(render_outcome(Some(Err(fault))), "Server Error: timeout");
}

#[test]
fn pending_renders_placeholder() {
    let out = render_outcome(None);
    assert_eq!(out, "Loading..");
    assert_ne!(out, "no things");
    assert!(!out.starts_with("Server Error: "));
    assert!(!out.starts_with(':'));
}

#[test]
fn items_keep_provider_order() {
    let things = vec![
        thing("a", 1, 2, "a.example"),
        thing("b", 80, 8080, "example.com"),
        thing("c", 0, 65535, "10.0.0.7"),
    ];
    let items = render_items(&things);
    assert_eq!(items.len(), 3);
    assert_eq!(items[0], ":1 --> a.example:2");
    assert_eq!(items[1], ":80 --> example.com:8080");
    assert_eq!(items[2], ":0 --> 10.0.0.7:65535");
    assert_eq!(
        render_outcome(Some(Ok(things))),
        ":1 --> a.example:2\n:80 --> example.com:8080\n:0 --> 10.0.0.7:65535"
    );
}

#[test]
fn rule_line_holds_both_ports_and_address() {
    let line = render_rule(&thing("label", 443, 8443, "host.internal"));
    assert_eq!(line, ":443 --> host.internal:8443");
}

#[test]
fn port_bounds_format_exactly() {
    assert_eq!(render_rule(&thing("", 0, 0, "x")), ":0 --> x:0");
    assert_eq!(render_rule(&thing("", 65535, 65535, "x")), ":65535 --> x:65535");
}

#[test]
fn classify_covers_all_four_states() {
    assert!(matches!(classify(None), ViewState::Pending));
    assert!(matches!(classify(Some(Ok(Vec::new()))), ViewState::Empty));
    let fault = ProviderFault { message: "down".to_string() };
    match classify(Some(Err(fault))) {
        ViewState::Error(message) => assert_eq!(message, "down"),
        _ => panic!("a fault must classify as an error"),
    }
    let things = vec![thing("please", 25565, 25565, "192.168.1.123")];
    match classify(Some(Ok(things))) {
        ViewState::List(rules) => assert_eq!(rules.len(), 1),
        _ => panic!("a nonempty resolution must classify as a list"),
    }
}

#[test]
fn render_view_matches_each_state() {
    assert_eq!(render_view(&ViewState::Pending), "Loading..");
    assert_eq!(render_view(&ViewState::Empty), "no things");
    assert_eq!(render_view(&ViewState::Error("boom".to_string())), "Server Error: boom");
    let rules = vec![thing("please", 3000, 3000, "127.0.0.1")];
    assert_eq!(render_view(&ViewState::List(rules)), ":3000 --> 127.0.0.1:3000");
}

#[test]
fn fault_message_is_rendered_verbatim() {
    let fault = ProviderFault { message: "no route to 192.168.1.123".to_string() };
    let out = render_outcome(Some(Err(fault)));
    assert!(out.starts_with("Server Error: "));
    assert_eq!(&out["Server Error: ".len()..], "no route to 192.168.1.123");
}

#[test]
fn provider_outcome_round_trip() {
    let out = render_outcome(Some(get_things()));
    assert_eq!(out, ":25565 --> 192.168.1.123:25565");
}
