use gdacs_filter::startup::{bind_address, query_url, Action, Startup};

#[test]
fn addresses_for_a_port() {
    assert_eq!(query_url(8080), "http://localhost:8080/query");
    assert_eq!(bind_address(8080), "127.0.0.1:8080");
    assert_eq!(query_url(0), "http://localhost:0/query");
    assert_eq!(bind_address(7), "127.0.0.1:7");
    assert_eq!(query_url(65535), "http://localhost:65535/query");
    assert_eq!(bind_address(65535), "127.0.0.1:65535");
}

#[test]
fn a_port_leads_to_registered() {
    let start = Startup::new();
    assert_eq!(start, Startup::Unregistered);
    assert!(!start.is_terminal());
    let (state, action) = start.on_port_reply(Some(4242));
    assert_eq!(state, Startup::Registered { port: 4242 });
    assert!(state.is_terminal());
    match action {
        Action::Announce { query_url, bind_address } => {
            assert_eq!(query_url, "http://localhost:4242/query");
            assert_eq!(bind_address, "127.0.0.1:4242");
        }
        other => panic!("unexpected action {other:?}"),
    }
}

#[test]
fn no_port_leads_to_failed() {
    let (state, action) = Startup::new().on_port_reply(None);
    assert_eq!(state, Startup::Failed);
    assert!(state.is_terminal());
    assert!(matches!(action, Action::GiveUp));
}

#[test]
fn a_finished_start_stays_as_it_is() {
    let (state, action) = Startup::Failed.on_port_reply(Some(1));
    assert_eq!(state, Startup::Failed);
    assert!(matches!(action, Action::Nothing));
    let (state, action) = (Startup::Registered { port: 9 }).on_port_reply(None);
    assert_eq!(state, Startup::Registered { port: 9 });
    assert!(matches!(action, Action::Nothing));
    let (state, action) = (Startup::Registered { port: 9 }).on_port_reply(Some(10));
    assert_eq!(state, Startup::Registered { port: 9 });
    assert!(matches!(action, Action::Nothing));
}
