use launch_handoff::address::ChannelAddress;
use launch_handoff::claim::ClaimOutcome;
use launch_handoff::error::ListenerError;
use launch_handoff::http::{http_clients, pair_clients, ClientProfile};
use launch_handoff::launch::{after_send, plan_launch, wiring, Aftermath, CliMatches, Wiring};
use launch_handoff::listener::{Listener, SendReport};
use launch_handoff::payload::Payload;
use launch_handoff::text::same_text;

#[test]
fn help_is_printed_and_the_launch_stops() {
    let plan = plan_launch(Some(CliMatches {
        help: Some("usage: app [torrent]...".to_string()),
        torrents: Some(vec!["ignored.torrent".to_string()]),
    }));
    assert_eq!(plan.notice.as_deref(), Some("usage: app [torrent]..."));
    assert!(plan.exit);
    assert!(!plan.proceed);
    assert!(plan.payload.is_empty());
}

#[test]
fn unreadable_command_line_is_said_and_the_launch_goes_on_empty() {
    let plan = plan_launch(None);
    assert_eq!(plan.notice.as_deref(), Some("Unable to read cli args"));
    assert!(plan.exit);
    assert!(plan.proceed);
    assert!(plan.payload.is_empty());
}

#[test]
fn entries_of_the_command_line_become_the_payload() {
    let plan = plan_launch(Some(CliMatches {
        help: None,
        torrents: Some(vec!["b.torrent".to_string(), "magnet:?xt=a".to_string()]),
    }));
    assert_eq!(plan.notice, None);
    assert!(!plan.exit);
    assert!(plan.proceed);
    assert_eq!(plan.payload.into_vec(), vec!["b.torrent", "magnet:?xt=a"]);
}

#[test]
fn launch_without_entries_has_an_empty_payload() {
    let plan = plan_launch(Some(CliMatches { help: None, torrents: None }));
    assert!(plan.proceed);
    assert!(!plan.exit);
    assert!(plan.payload.is_empty());
    let plan = plan_launch(Some(CliMatches { help: None, torrents: Some(vec![]) }));
    assert!(plan.payload.is_empty());
}

#[test]
fn wiring_follows_the_role() {
    let mut owner = Listener::new();
    owner.complete_init(ClaimOutcome::Claimed { reclaimed: false });
    assert_eq!(wiring(&owner), Wiring { register_controls: true, show_window: true });
    owner.pause();
    assert_eq!(wiring(&owner), Wiring { register_controls: true, show_window: true });
    let mut secondary = Listener::new();
    secondary.complete_init(ClaimOutcome::Occupied);
    assert_eq!(wiring(&secondary), Wiring { register_controls: false, show_window: false });
    let mut alone = Listener::new();
    alone.complete_init(ClaimOutcome::Failed(ListenerError::IoFatal));
    assert_eq!(wiring(&alone), Wiring { register_controls: false, show_window: true });
    assert_eq!(
        wiring(&Listener::new()),
        Wiring { register_controls: false, show_window: false }
    );
}

#[test]
fn aftermath_of_each_kind_of_send() {
    let some = Payload::from_vec(vec!["a".to_string()]);
    let none = Payload::new();
    assert_eq!(
        after_send(Ok(SendReport::DeliveredHere), &some),
        Aftermath { report: None, signal_external_add: true, exit_silently: false }
    );
    assert_eq!(
        after_send(Ok(SendReport::DeliveredHere), &none),
        Aftermath { report: None, signal_external_add: false, exit_silently: false }
    );
    assert_eq!(
        after_send(Ok(SendReport::HandedOver), &some),
        Aftermath { report: None, signal_external_add: true, exit_silently: true }
    );
    assert_eq!(
        after_send(Ok(SendReport::HandedOver), &none),
        Aftermath { report: None, signal_external_add: false, exit_silently: true }
    );
    assert_eq!(
        after_send(Err(ListenerError::Unreachable), &some),
        Aftermath {
            report: Some(ListenerError::Unreachable),
            signal_external_add: false,
            exit_silently: false
        }
    );
}

#[test]
fn address_is_made_of_the_identity_alone() {
    let a = ChannelAddress::for_application("app");
    assert_eq!(a.as_str(), "app-lock");
    assert!(a.same_as(&ChannelAddress::for_application("app")));
    assert!(!a.same_as(&ChannelAddress::for_application("app2")));
    assert_eq!(ChannelAddress::for_application("").as_str(), "-lock");
    assert_eq!(
        ChannelAddress::for_application("org.example.торрент").as_str(),
        "org.example.торрент-lock"
    );
}

#[test]
fn same_text_compares_characters() {
    assert!(same_text("", ""));
    assert!(same_text("magnet:?xt=é", "magnet:?xt=é"));
    assert!(!same_text("a", "b"));
    assert!(!same_text("a", "ab"));
    assert!(!same_text("ab", "a"));
    assert!(!same_text("é", "e"));
}

#[test]
fn client_profiles_differ_in_certificates_only() {
    let standard = ClientProfile::standard();
    assert_eq!(standard.connect_timeout_secs, 10);
    assert_eq!(standard.read_timeout_secs, 40);
    assert_eq!(standard.timeout_secs, 60);
    assert!(!standard.accept_invalid_certs);
    let insecure = ClientProfile::insecure();
    assert!(insecure.accept_invalid_certs);
    assert_eq!(ClientProfile { accept_invalid_certs: false, ..insecure }, standard);
}

#[test]
fn both_clients_are_built() {
    assert!(http_clients("launch-handoff/0.1.0").is_ok());
}

#[test]
fn user_agent_that_is_no_header_value_fails_the_first_client() {
    match http_clients("bad\nagent") {
        Err(launch_handoff::http::HttpClientError::Default(e)) => assert!(e.is_builder()),
        _ => panic!("the first client was built"),
    }
}

#[test]
fn user_agent_with_a_control_byte_builds_no_client() {
    for agent in ["agent\x7f", "\0", "a\rb", "tail\x1f"] {
        assert!(matches!(
            http_clients(agent),
            Err(launch_handoff::http::HttpClientError::Default(_))
        ));
    }
}

#[test]
fn tab_and_text_outside_ascii_are_no_builder_errors() {
    for agent in ["agent\t1.0", "агент/1.0", ""] {
        match http_clients(agent) {
            Err(launch_handoff::http::HttpClientError::Default(e)) => assert!(!e.is_builder()),
            Err(launch_handoff::http::HttpClientError::Insecure(e)) => assert!(!e.is_builder()),
            Ok(_) => {}
        }
    }
}

#[test]
fn pairing_reports_the_first_failure() {
    let good = || reqwest::Client::builder().build();
    let bad = || reqwest::Client::builder().user_agent("bad\nagent").build();
    assert!(pair_clients(good(), good()).is_ok());
    assert!(matches!(
        pair_clients(bad(), good()),
        Err(launch_handoff::http::HttpClientError::Default(_))
    ));
    assert!(matches!(
        pair_clients(bad(), bad()),
        Err(launch_handoff::http::HttpClientError::Insecure(_)) | Err(launch_handoff::http::HttpClientError::Default(_))
    ));
    assert!(matches!(
        pair_clients(good(), bad()),
        Err(launch_handoff::http::HttpClientError::Insecure(_))
    ));
}
