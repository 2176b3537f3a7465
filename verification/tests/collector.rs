use tapo_exporter::config::Credential;
use tapo_exporter::config::Device;
use tapo_exporter::device::Collector;
use tapo_exporter::device::DeviceType;
use tapo_exporter::metrics::Metrics;

fn plug1() -> Device {
    Device {
        name: "plug1".to_string(),
        ip: "10.0.0.5".to_string(),
        device: DeviceType::P110,
        credential: "default".to_string(),
    }
}

fn default_credential() -> Credential {
    Credential {
        name: "default".to_string(),
        username: "a@b.com".to_string(),
        password: "x".to_string(),
    }
}

// A session handle stands in for the vendor client; the collector never looks
// inside it, so a plain integer serves as a mock.
type MockSession = u32;

#[test]
fn new_collector_starts_unconnected_with_identity() {
    let mut m = Metrics::new();
    let c: Collector<MockSession> = Collector::new(&mut m, plug1(), default_credential());
    assert!(!c.has_client());
    assert!(matches!(c.labels.device, DeviceType::P110));
    assert_eq!(c.labels.name, "plug1");
    assert_eq!(c.labels.ip, "10.0.0.5");
    assert_eq!(c.credential.username, "a@b.com");
    assert_eq!(c.credential.password, "x");
    // construction binds all three series at their defaults
    assert_eq!(m.energy_of("P110", "plug1", "10.0.0.5"), Some(0));
    assert_eq!(m.device_on_of("P110", "plug1", "10.0.0.5"), Some(0));
    assert_eq!(m.failures_of("P110", "plug1", "10.0.0.5"), Some(0));
}

#[test]
fn device_type_labels() {
    let p110 = DeviceType::P110;
    let p115 = DeviceType::P115;
    assert_eq!(p110.label(), "P110");
    assert_eq!(p115.label(), "P115");
}

#[test]
fn successful_round_updates_gauges() {
    let mut m = Metrics::new();
    let mut c: Collector<MockSession> = Collector::new(&mut m, plug1(), default_credential());
    assert!(!c.has_client());
    c.install_client(1);
    assert!(c.has_client());
    c.collect(&mut m, Some(1200), Some(true));

    assert_eq!(m.energy_of("P110", "plug1", "10.0.0.5"), Some(1200));
    assert_eq!(m.device_on_of("P110", "plug1", "10.0.0.5"), Some(1));
    assert_eq!(m.failures_of("P110", "plug1", "10.0.0.5"), Some(0));
    // a fully successful round keeps the session for reuse
    assert!(c.has_client());

    let text = m.encode_text();
    assert!(text.contains("tapo_energy_usage{device=\"P110\",name=\"plug1\",ip=\"10.0.0.5\"} 1200"));
    assert!(text.contains("tapo_device_on{device=\"P110\",name=\"plug1\",ip=\"10.0.0.5\"} 1"));
    assert!(text.contains("tapo_request_fail_total{device=\"P110\",name=\"plug1\",ip=\"10.0.0.5\"} 0"));
}

#[test]
fn off_state_writes_zero() {
    let mut m = Metrics::new();
    let mut c: Collector<MockSession> = Collector::new(&mut m, plug1(), default_credential());
    c.install_client(1);
    c.collect(&mut m, Some(3), Some(false));
    assert_eq!(m.device_on_of("P110", "plug1", "10.0.0.5"), Some(0));
}

#[test]
fn failed_opens_count_once_per_round() {
    let mut m = Metrics::new();
    let c: Collector<MockSession> = Collector::new(&mut m, plug1(), default_credential());

    for _ in 0..3 {
        assert!(!c.has_client());
        c.record_connect_failure(&mut m);
    }

    // one failed open counted once per round, no double-count from reads
    assert_eq!(m.failures_of("P110", "plug1", "10.0.0.5"), Some(3));
    // the gauges were never written: both still at their bound defaults
    assert_eq!(m.energy_of("P110", "plug1", "10.0.0.5"), Some(0));
    assert_eq!(m.device_on_of("P110", "plug1", "10.0.0.5"), Some(0));
    let text = m.encode_text();
    assert!(text.contains("tapo_request_fail_total{device=\"P110\",name=\"plug1\",ip=\"10.0.0.5\"} 3"));
}

#[test]
fn partial_failure_keeps_fresh_data_and_drops_client() {
    let mut m = Metrics::new();
    let mut c: Collector<MockSession> = Collector::new(&mut m, plug1(), default_credential());
    c.install_client(1);
    c.collect(&mut m, Some(900), Some(true));

    c.collect(&mut m, Some(950), None);
    // the successful sub-request stays fresh, the failed one retains its value
    assert_eq!(m.energy_of("P110", "plug1", "10.0.0.5"), Some(950));
    assert_eq!(m.device_on_of("P110", "plug1", "10.0.0.5"), Some(1));
    assert_eq!(m.failures_of("P110", "plug1", "10.0.0.5"), Some(1));
    // any sub-failure discards the session
    assert!(!c.has_client());
}

#[test]
fn both_reads_failing_count_twice() {
    let mut m = Metrics::new();
    let mut c: Collector<MockSession> = Collector::new(&mut m, plug1(), default_credential());
    c.install_client(1);
    c.collect(&mut m, Some(42), Some(true));
    c.collect(&mut m, None, None);
    assert_eq!(m.failures_of("P110", "plug1", "10.0.0.5"), Some(2));
    // gauges retain the pre-round values
    assert_eq!(m.energy_of("P110", "plug1", "10.0.0.5"), Some(42));
    assert_eq!(m.device_on_of("P110", "plug1", "10.0.0.5"), Some(1));
    assert!(!c.has_client());
}

#[test]
fn recovery_after_fault_clears() {
    let mut m = Metrics::new();
    let mut c: Collector<MockSession> = Collector::new(&mut m, plug1(), default_credential());

    // round 1: open succeeds, both reads fail; the session is torn down
    c.install_client(1);
    c.collect(&mut m, None, None);
    assert!(!c.has_client());

    // round 2: the fault has cleared; the collector reconnects at once
    assert!(!c.has_client());
    c.install_client(2);
    assert!(c.has_client());
    c.collect(&mut m, Some(5), Some(false));
    assert!(c.has_client());
    assert_eq!(m.energy_of("P110", "plug1", "10.0.0.5"), Some(5));
    assert_eq!(m.device_on_of("P110", "plug1", "10.0.0.5"), Some(0));
    assert_eq!(m.failures_of("P110", "plug1", "10.0.0.5"), Some(2));
}

#[test]
fn identical_identity_reuses_the_series() {
    let mut m = Metrics::new();
    let mut c1: Collector<MockSession> = Collector::new(&mut m, plug1(), default_credential());
    c1.install_client(1);
    c1.collect(&mut m, Some(100), Some(true));

    // a second get-or-create for the same identity leaves the series in place
    let mut c2: Collector<MockSession> = Collector::new(&mut m, plug1(), default_credential());
    assert_eq!(m.energy_of("P110", "plug1", "10.0.0.5"), Some(100));

    // and a value written through the second handle is read where the first wrote
    c2.install_client(2);
    c2.collect(&mut m, Some(200), Some(true));
    assert_eq!(m.energy_of("P110", "plug1", "10.0.0.5"), Some(200));
}

#[test]
fn collectors_do_not_disturb_each_other() {
    let mut m = Metrics::new();
    let mut plug2 = plug1();
    plug2.name = "plug2".to_string();
    plug2.ip = "10.0.0.6".to_string();
    plug2.device = DeviceType::P115;

    let mut c1: Collector<MockSession> = Collector::new(&mut m, plug1(), default_credential());
    let c2: Collector<MockSession> = Collector::new(&mut m, plug2, default_credential());

    c1.install_client(1);
    c1.collect(&mut m, Some(700), Some(true));
    c2.record_connect_failure(&mut m);

    assert_eq!(m.energy_of("P110", "plug1", "10.0.0.5"), Some(700));
    assert_eq!(m.failures_of("P110", "plug1", "10.0.0.5"), Some(0));
    assert_eq!(m.energy_of("P115", "plug2", "10.0.0.6"), Some(0));
    assert_eq!(m.failures_of("P115", "plug2", "10.0.0.6"), Some(1));
}

#[test]
fn absent_identity_reads_nothing() {
    let m = Metrics::new();
    assert_eq!(m.energy_of("P110", "nobody", "10.0.0.9"), None);
    assert_eq!(m.device_on_of("P110", "nobody", "10.0.0.9"), None);
    assert_eq!(m.failures_of("P110", "nobody", "10.0.0.9"), None);
}
