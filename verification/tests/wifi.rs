use omd_transfer::associator::{POLL_INTERVAL_MS, TIMEOUT_MS};
use omd_transfer::wifi::strip_quotes;
use omd_transfer::{
    run_transfers, with_temporary_network, Associator, Config, Error, ErrorStrategy,
    OverwriteStrategy, Phase, Reversion, Signal, Verdict, WifiAction, WifiConfig, WifiInterface,
    WifiNetwork,
};

fn wifi() -> WifiConfig {
    WifiConfig { interface: String::from("wlan0"), ssid: String::from("E-M10") }
}

fn interfaces() -> Vec<WifiInterface> {
    vec![
        WifiInterface { path: String::from("/fi/w1/wpa_supplicant1/Interfaces/0"), name: String::from("p2p0") },
        WifiInterface { path: String::from("/fi/w1/wpa_supplicant1/Interfaces/1"), name: String::from("wlan0") },
        WifiInterface { path: String::from("/fi/w1/wpa_supplicant1/Interfaces/2"), name: String::from("wlan0") },
    ]
}

fn networks() -> Vec<WifiNetwork> {
    vec![
        WifiNetwork::new(String::from("/net/0"), String::from("\"home\"")),
        WifiNetwork::new(String::from("/net/1"), String::from("\"E-M10\"")),
        WifiNetwork::new(String::from("/net/2"), String::from("E-M10")),
    ]
}

/// A call that has joined the camera's network and waits for the routine.
fn in_use() -> Associator {
    let mut call = with_temporary_network(&wifi());
    call.interfaces_listed(&interfaces());
    call.networks_read(Some(networks().remove(0)), &networks());
    call.selected(Ok(()));
    call.state_read(Ok("completed"));
    assert_eq!(call.link_checked(Ok(&vec![String::from("lo"), String::from("wlan0")])), WifiAction::Run);
    call
}

#[test]
fn quotes_are_taken_off_network_names() {
    assert_eq!(strip_quotes("\"E-M10\""), "E-M10");
    assert_eq!(strip_quotes("E-M10"), "E-M10");
    assert_eq!(strip_quotes("\"E-M10"), "E-M10");
    assert_eq!(strip_quotes("E-M10\""), "E-M10");
    assert_eq!(strip_quotes("\""), "");
    assert_eq!(strip_quotes("\"\""), "");
    assert_eq!(strip_quotes("\"\"\""), "\"");
    assert_eq!(strip_quotes(""), "");
    assert_eq!(strip_quotes("a\"b"), "a\"b");
    assert_eq!(networks()[1].ssid(), "E-M10");
}

#[test]
fn the_first_interface_of_the_name_is_found() {
    assert_eq!(WifiInterface::find(&interfaces(), "wlan0"), Some(1));
    assert_eq!(WifiInterface::find(&interfaces(), "p2p0"), Some(0));
    assert_eq!(WifiInterface::find(&interfaces(), "eth0"), None);
    assert_eq!(WifiInterface::find(&Vec::new(), "wlan0"), None);
}

#[test]
fn the_first_network_of_the_name_is_found() {
    assert_eq!(WifiInterface::find_network(&networks(), "E-M10"), Some(1));
    assert_eq!(WifiInterface::find_network(&networks(), "home"), Some(0));
    assert_eq!(WifiInterface::find_network(&networks(), "\"home\""), None);
    assert_eq!(WifiInterface::find_network(&networks(), "work"), None);
}

#[test]
fn an_interface_is_up_when_it_is_listed() {
    let interface = interfaces().remove(1);
    assert!(interface.is_up(&vec![String::from("lo"), String::from("wlan0")]));
    assert!(!interface.is_up(&vec![String::from("lo"), String::from("wlan1")]));
    assert!(!interface.is_up(&Vec::new()));
}

#[test]
fn the_call_joins_runs_and_goes_back() {
    let mut call = with_temporary_network(&wifi());
    assert_eq!(call.pending(), WifiAction::ListInterfaces);
    assert_eq!(call.interfaces_listed(&interfaces()), WifiAction::ReadNetworks);
    assert_eq!(call.interface().unwrap().path, "/fi/w1/wpa_supplicant1/Interfaces/1");
    assert_eq!(call.networks_read(Some(networks().remove(0)), &networks()), WifiAction::SelectCamera);
    assert_eq!(call.camera_network().unwrap().path, "/net/1");
    assert_eq!(call.original_network().unwrap().path, "/net/0");
    assert_eq!(call.selected(Ok(())), WifiAction::AwaitAssociation { wait_ms: 0 });
    assert_eq!(call.state_read(Ok("associating")), WifiAction::AwaitAssociation { wait_ms: 200 });
    assert_eq!(call.state_read(Ok("completed")), WifiAction::AwaitLink { wait_ms: 0 });
    assert_eq!(call.link_checked(Ok(&vec![String::from("lo")])), WifiAction::AwaitLink { wait_ms: 200 });
    assert_eq!(call.link_checked(Ok(&vec![String::from("wlan0")])), WifiAction::Run);
    assert_eq!(call.returned(Ok(())), WifiAction::SelectOriginal);
    assert_eq!(call.selected(Ok(())), WifiAction::AwaitReversion { wait_ms: 0 });
    assert_eq!(call.state_read(Ok("scanning")), WifiAction::AwaitReversion { wait_ms: 200 });
    assert_eq!(
        call.state_read(Ok("completed")),
        WifiAction::Finish(Verdict { failure: None, ran: true, reversion: Reversion::Restored })
    );
}

#[test]
fn a_failed_routine_is_followed_by_the_way_back() {
    let mut call = in_use();
    // The original network is selected again before the failure is handed on.
    assert_eq!(call.returned(Err(Error::Http)), WifiAction::SelectOriginal);
    assert_eq!(call.original_network().unwrap().path, "/net/0");
    assert_eq!(call.selected(Ok(())), WifiAction::AwaitReversion { wait_ms: 0 });
    assert_eq!(
        call.state_read(Ok("completed")),
        WifiAction::Finish(Verdict { failure: Some(Error::Http), ran: true, reversion: Reversion::Restored })
    );
}

#[test]
fn a_failed_way_back_is_reported_beside_the_routine() {
    let mut call = in_use();
    call.returned(Err(Error::ProtocolError));
    assert_eq!(
        call.selected(Err(Error::Io)),
        WifiAction::Finish(Verdict {
            failure: Some(Error::ProtocolError),
            ran: true,
            reversion: Reversion::Failed(Error::Io)
        })
    );

    let mut call = in_use();
    call.returned(Ok(()));
    call.selected(Ok(()));
    let mut last = call.pending();
    for _ in 0..151 {
        last = call.state_read(Ok("scanning"));
    }
    assert_eq!(
        last,
        WifiAction::Finish(Verdict {
            failure: None,
            ran: true,
            reversion: Reversion::Failed(Error::AssociationTimeout)
        })
    );
}

#[test]
fn association_that_never_completes_times_out() {
    let mut call = with_temporary_network(&wifi());
    call.interfaces_listed(&interfaces());
    call.networks_read(Some(networks().remove(0)), &networks());
    call.selected(Ok(()));
    let mut waited = 0;
    for reading in 1..=150 {
        let action = call.state_read(Ok("associating"));
        assert_eq!(action, WifiAction::AwaitAssociation { wait_ms: POLL_INTERVAL_MS }, "reading {}", reading);
        waited += POLL_INTERVAL_MS;
    }
    assert_eq!(waited, TIMEOUT_MS);
    assert_eq!(
        call.state_read(Ok("associating")),
        WifiAction::Finish(Verdict {
            failure: Some(Error::AssociationTimeout),
            ran: false,
            reversion: Reversion::NotAttempted
        })
    );
    // The routine is never asked for, whatever comes in later.
    assert!(matches!(call.state_read(Ok("completed")), WifiAction::Finish(_)));
    assert!(matches!(call.link_checked(Ok(&vec![String::from("wlan0")])), WifiAction::Finish(_)));
}

#[test]
fn link_that_never_comes_up_times_out_and_goes_back() {
    let mut call = with_temporary_network(&wifi());
    call.interfaces_listed(&interfaces());
    call.networks_read(Some(networks().remove(0)), &networks());
    call.selected(Ok(()));
    for _ in 0..100 {
        call.state_read(Ok("associating"));
    }
    assert_eq!(call.state_read(Ok("completed")), WifiAction::AwaitLink { wait_ms: 0 });
    // The wait for the link draws on what the wait for the association left.
    for _ in 0..50 {
        assert_eq!(call.link_checked(Ok(&Vec::new())), WifiAction::AwaitLink { wait_ms: 200 });
    }
    assert_eq!(call.link_checked(Ok(&Vec::new())), WifiAction::SelectOriginal);
    call.selected(Ok(()));
    assert_eq!(
        call.state_read(Ok("completed")),
        WifiAction::Finish(Verdict {
            failure: Some(Error::AssociationTimeout),
            ran: false,
            reversion: Reversion::Restored
        })
    );
}

#[test]
fn missing_interface_or_network_is_a_precondition_failure() {
    let refused = WifiAction::Finish(Verdict {
        failure: Some(Error::AssociationPrecondition),
        ran: false,
        reversion: Reversion::NotAttempted,
    });

    let mut call = with_temporary_network(&wifi());
    assert_eq!(call.interfaces_listed(&Vec::new()), refused);

    let mut call = with_temporary_network(&wifi());
    call.interfaces_listed(&interfaces());
    assert_eq!(call.networks_read(None, &networks()), refused);

    let mut call = with_temporary_network(&wifi());
    call.interfaces_listed(&interfaces());
    let known = vec![WifiNetwork::new(String::from("/net/0"), String::from("\"home\""))];
    assert_eq!(call.networks_read(Some(networks().remove(0)), &known), refused);
}

#[test]
fn failed_requests_end_the_call() {
    let mut call = with_temporary_network(&wifi());
    call.interfaces_listed(&interfaces());
    call.networks_read(Some(networks().remove(0)), &networks());
    assert_eq!(
        call.selected(Err(Error::Io)),
        WifiAction::Finish(Verdict { failure: Some(Error::Io), ran: false, reversion: Reversion::NotAttempted })
    );

    let mut call = with_temporary_network(&wifi());
    call.interfaces_listed(&interfaces());
    call.networks_read(Some(networks().remove(0)), &networks());
    call.selected(Ok(()));
    assert_eq!(
        call.state_read(Err(Error::Io)),
        WifiAction::Finish(Verdict { failure: Some(Error::Io), ran: false, reversion: Reversion::NotAttempted })
    );
}

#[test]
fn reports_that_answer_nothing_are_passed_over() {
    let mut call = with_temporary_network(&wifi());
    assert_eq!(call.selected(Ok(())), WifiAction::ListInterfaces);
    assert_eq!(call.returned(Ok(())), WifiAction::ListInterfaces);
    assert_eq!(call.state_read(Ok("completed")), WifiAction::ListInterfaces);
    assert_eq!(call.advance(Signal::Link(Ok(true))), WifiAction::ListInterfaces);
    assert!(call.interface().is_none());
}

#[test]
fn without_a_wifi_section_the_routine_runs_directly() {
    let config = Config {
        download_dir: None,
        transfer_order_dir: None,
        error_strategy: ErrorStrategy::Abort,
        overwrite_strategy: OverwriteStrategy::Skip,
        power_off: false,
        wifi: None,
    };
    let mut call = run_transfers(&config);
    assert_eq!(call.pending(), WifiAction::Run);
    assert_eq!(
        call.returned(Err(Error::Http)),
        WifiAction::Finish(Verdict { failure: Some(Error::Http), ran: true, reversion: Reversion::NotAttempted })
    );

    let with_wifi = Config { wifi: Some(wifi()), ..config };
    assert_eq!(run_transfers(&with_wifi).pending(), WifiAction::ListInterfaces);
}

#[test]
fn the_call_goes_through_its_phases_in_order() {
    let mut call = with_temporary_network(&wifi());
    assert_eq!(call.phase(), Phase::Idle);
    call.interfaces_listed(&interfaces());
    assert_eq!(call.phase(), Phase::Idle);
    call.networks_read(Some(networks().remove(0)), &networks());
    assert_eq!(call.phase(), Phase::Associating);
    call.selected(Ok(()));
    assert_eq!(call.phase(), Phase::Associating);
    call.state_read(Ok("completed"));
    assert_eq!(call.phase(), Phase::AwaitingLinkUp);
    call.link_checked(Ok(&vec![String::from("wlan0")]));
    assert_eq!(call.phase(), Phase::InUse);
    call.returned(Ok(()));
    assert_eq!(call.phase(), Phase::Reverting);
    call.selected(Ok(()));
    assert_eq!(call.phase(), Phase::Reverting);
    call.state_read(Ok("completed"));
    assert_eq!(call.phase(), Phase::Idle);
}
