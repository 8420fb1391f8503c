use server_info_fetcher::args::{ConfigError, FailureTolerance};
use server_info_fetcher::record::ServerInfo;
use server_info_fetcher::orchestrator::Orchestrator;

fn info_with_identifier(identifier: &str) -> ServerInfo {
    ServerInfo {
        version: String::from("5.1.0"),
        respawn: true,
        enter: true,
        ai: false,
        host: None,
        round_id: None,
        players: 7,
        revision: String::from("rev"),
        revision_date: String::from("date"),
        hub: false,
        identifier: String::from(identifier),
        admins: 1,
        gamestate: 4,
        map_name: String::from("map"),
        security_level: String::from("blue"),
        round_duration: String::from("10.5"),
        time_dilation_current: String::from("1.0"),
        time_dilation_avg: String::from("1.0"),
        time_dilation_avg_slow: String::from("1.0"),
        time_dilation_avg_fast: String::from("1.0"),
        soft_popcap: 10,
        hard_popcap: 20,
        extreme_popcap: 30,
        popcap: None,
        bunkered: None,
        interviews: None,
        shuttle_mode: None,
        shuttle_timer: None,
        active_players: None,
        public_address: None,
    }
}

fn two_servers(tolerance: FailureTolerance, retry_wait: u16) -> Orchestrator {
    Orchestrator::new(
        vec![String::from("a.example:1000"), String::from("b.example:1000")],
        tolerance,
        retry_wait,
    )
    .unwrap()
}

#[test]
fn empty_server_list_is_refused() {
    let r = Orchestrator::new(Vec::new(), FailureTolerance::One, 1);
    assert!(matches!(r, Err(ConfigError::NoServers)));
}

#[test]
fn tolerance_none_terminates_on_first_failure() {
    let mut orch = two_servers(FailureTolerance::Zero, 1);
    orch.begin_cycle();
    assert!(orch.tick_server(0));
    assert!(orch.record_failure(0));
}

#[test]
fn tolerance_one_allows_a_single_failure_per_cycle() {
    let mut orch = two_servers(FailureTolerance::One, 0);
    orch.begin_cycle();
    assert!(orch.tick_server(0));
    assert!(!orch.record_failure(0));
    assert!(orch.tick_server(1));
    assert!(orch.record_success(1, info_with_identifier("b")) == false);
    assert!(!orch.end_cycle());
    let snap = orch.snapshot(String::from("t1"));
    assert_eq!(snap.servers.len(), 2);
    assert!(snap.servers[0].record.is_none());
    assert!(snap.servers[1].record.is_some());

    // A second failure within one cycle is fatal.
    let mut orch2 = two_servers(FailureTolerance::One, 0);
    orch2.begin_cycle();
    orch2.tick_server(0);
    assert!(!orch2.record_failure(0));
    orch2.tick_server(1);
    assert!(orch2.record_failure(1));
}

#[test]
fn retry_wait_skips_exactly_three_cycles() {
    let mut orch = two_servers(FailureTolerance::All, 3);
    orch.begin_cycle();
    assert!(orch.tick_server(0));
    assert!(!orch.record_failure(0));
    for expected_wait in [2u16, 1, 0] {
        orch.begin_cycle();
        assert!(!orch.tick_server(0), "server polled while waiting");
        let snap = orch.snapshot(String::from("t"));
        assert_eq!(snap.servers[0].retry_wait, expected_wait);
    }
    orch.begin_cycle();
    assert!(orch.tick_server(0), "server due again on the fourth cycle");
}

#[test]
fn all_servers_failing_is_fatal() {
    // Only under `All` can a cycle even complete with every server failed;
    // the end-of-cycle rule then still terminates the process.
    let mut orch = two_servers(FailureTolerance::All, 0);
    orch.begin_cycle();
    orch.tick_server(0);
    assert!(!orch.record_failure(0));
    orch.tick_server(1);
    assert!(!orch.record_failure(1));
    assert!(orch.end_cycle());
}

#[test]
fn identifier_churn_is_tracked_but_not_a_failure() {
    let mut orch = two_servers(FailureTolerance::One, 0);
    orch.begin_cycle();
    orch.tick_server(0);
    assert!(!orch.record_success(0, info_with_identifier("first")));
    // Identifier retained over a failed poll.
    orch.begin_cycle();
    orch.tick_server(0);
    assert!(!orch.record_failure(0));
    let snap = orch.snapshot(String::from("t"));
    assert_eq!(snap.servers[0].identifier.as_deref(), Some("first"));
    assert!(snap.servers[0].record.is_none());
    // A new identifier is a success, only flagged.
    orch.begin_cycle();
    orch.tick_server(0);
    let changed = orch.record_success(0, info_with_identifier("second"));
    assert!(changed);
    assert_eq!(orch.cycle_error_count(), 0);
    let snap2 = orch.snapshot(String::from("t"));
    assert_eq!(snap2.servers[0].identifier.as_deref(), Some("second"));
    assert!(snap2.servers[0].record.is_some());
}

#[test]
fn two_server_backoff_scenario() {
    // Two servers, tolerance `all`, retry-wait 2.
    let mut orch = two_servers(FailureTolerance::All, 2);

    // Cycle 1: server A fails, server B succeeds.
    orch.begin_cycle();
    assert!(orch.tick_server(0));
    assert!(!orch.record_failure(0));
    assert!(orch.tick_server(1));
    orch.record_success(1, info_with_identifier("b"));
    assert!(!orch.end_cycle());
    let snap = orch.snapshot(String::from("c1"));
    assert!(snap.servers[0].record.is_none());
    assert!(snap.servers[1].record.is_some());
    assert_eq!(snap.servers[0].retry_wait, 2);

    // Cycle 2: A skipped, countdown to 1; B polled again.
    orch.begin_cycle();
    assert!(!orch.tick_server(0));
    assert!(orch.tick_server(1));
    orch.record_success(1, info_with_identifier("b"));
    let snap2 = orch.snapshot(String::from("c2"));
    assert_eq!(snap2.servers[0].retry_wait, 1);

    // Cycle 3: A skipped, countdown to 0.
    orch.begin_cycle();
    assert!(!orch.tick_server(0));
    let snap3 = orch.snapshot(String::from("c3"));
    assert_eq!(snap3.servers[0].retry_wait, 0);

    // Cycle 4: A polled again.
    orch.begin_cycle();
    assert!(orch.tick_server(0));
}

#[test]
fn snapshot_copies_every_tracked_server() {
    let mut orch = two_servers(FailureTolerance::One, 0);
    orch.begin_cycle();
    orch.tick_server(0);
    orch.record_success(0, info_with_identifier("x"));
    let snap = orch.snapshot(String::from("now"));
    assert_eq!(snap.timestamp, "now");
    assert_eq!(snap.servers.len(), 2);
    assert_eq!(snap.servers[0].address, "a.example:1000");
    assert_eq!(snap.servers[1].address, "b.example:1000");
    let record = snap.servers[0].record.as_ref().unwrap();
    assert_eq!(record.identifier, "x");
    assert_eq!(record.round_duration, "10.5");
    assert!(snap.servers[1].record.is_none());
}
