use dsmr_metrics::client::Client;
use dsmr_metrics::ingest::{ingest_step, plan_writes, run_ingestion, DecodeOutcome, StepAction};
use dsmr_metrics::reading::Reading;
use dsmr_metrics::readout::{MeterReading, PhaseLine, ReadoutState, SlaveMeter, GAS_DEVICE_TYPE};
use dsmr_metrics::timestamp::DeviceTimestamp;

fn full_state() -> ReadoutState {
    let ts = DeviceTimestamp { year: 24, month: 1, day: 1, hour: 0, minute: 0, second: 0, dst: false };
    ReadoutState {
        datetime: Some(ts),
        meterreadings: vec![
            MeterReading { to: Some(Reading { milli: 1_000 }) },
            MeterReading { to: Some(Reading { milli: 2_000 }) },
        ],
        lines: vec![
            PhaseLine { voltage: Some(Reading { milli: 230_000 }), active_power_plus: Some(Reading { milli: 100 }) },
            PhaseLine { voltage: Some(Reading { milli: 230_000 }), active_power_plus: Some(Reading { milli: 200 }) },
            PhaseLine { voltage: Some(Reading { milli: 230_000 }), active_power_plus: Some(Reading { milli: 300 }) },
        ],
        power_delivered: Some(Reading { milli: 600 }),
        slaves: vec![
            SlaveMeter {
                device_type: Some(GAS_DEVICE_TYPE),
                meter_reading: Some((ts, Reading { milli: 42_000 })),
            },
        ],
    }
}

fn empty_state() -> ReadoutState {
    ReadoutState {
        datetime: None,
        meterreadings: vec![],
        lines: vec![],
        power_delivered: None,
        slaves: vec![],
    }
}

#[test]
fn client_builds_write_url() {
    let c = Client::new("http://localhost:8086", "myorg", "mybucket", "tok123", "home");
    assert_eq!(c.url, "http://localhost:8086/api/v2/write?org=myorg&bucket=mybucket");
    assert_eq!(c.location, "home");
}

#[test]
fn client_auth_header_carries_token() {
    let c = Client::new("http://h", "o", "b", "tok123", "home");
    assert_eq!(c.auth_header(), format!("Token {}", c.token));
}

#[test]
fn plan_writes_emits_power_then_gas() {
    let lines = plan_writes(&full_state(), "home");
    assert_eq!(lines.len(), 2);
    assert!(lines[0].starts_with("power_reading,location=home "));
    assert!(lines[1].starts_with("gas_reading,location=home "));
}

#[test]
fn plan_writes_emits_nothing_for_empty_state() {
    assert!(plan_writes(&empty_state(), "home").is_empty());
}

#[test]
fn plan_writes_emits_gas_alone() {
    let mut s = full_state();
    s.power_delivered = None;
    let lines = plan_writes(&s, "home");
    assert_eq!(lines.len(), 1);
    assert!(lines[0].starts_with("gas_reading,"));
}

#[test]
fn ingest_step_stops_on_decode_failure() {
    match ingest_step(&DecodeOutcome::Failed, "home") {
        StepAction::Stop => {}
        StepAction::Emit(_) => panic!("a decode failure must stop ingestion"),
    }
}

#[test]
fn ingestion_stops_at_second_failing_telegram() {
    // Three telegrams, the second fails to decode: the first is processed,
    // the loop stops, and the third is never touched.
    let outcomes = vec![
        DecodeOutcome::Decoded(full_state()),
        DecodeOutcome::Failed,
        DecodeOutcome::Decoded(full_state()),
    ];
    let report = run_ingestion(&outcomes, "home");
    assert_eq!(report.processed, 1);
    assert!(report.decode_failed);
    assert_eq!(report.lines.len(), 2);
    assert!(report.lines[0].starts_with("power_reading,"));
    assert!(report.lines[1].starts_with("gas_reading,"));
}

#[test]
fn ingestion_consumes_clean_stream_fully() {
    let outcomes = vec![
        DecodeOutcome::Decoded(full_state()),
        DecodeOutcome::Decoded(empty_state()),
        DecodeOutcome::Decoded(full_state()),
    ];
    let report = run_ingestion(&outcomes, "home");
    assert_eq!(report.processed, 3);
    assert!(!report.decode_failed);
    assert_eq!(report.lines.len(), 4);
}

#[test]
fn ingestion_of_empty_stream_is_empty() {
    let report = run_ingestion(&vec![], "home");
    assert_eq!(report.processed, 0);
    assert!(!report.decode_failed);
    assert!(report.lines.is_empty());
}
