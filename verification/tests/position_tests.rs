use gate_control::position::estimate;
use gate_control::position::gate_json_status;
use gate_control::position::gate_status;
use gate_control::position::GatePosition;

#[test]
fn estimate_covers_the_truth_table() {
    assert_eq!(estimate(true, false), GatePosition::Open);
    assert_eq!(estimate(true, true), GatePosition::Open);
    assert_eq!(estimate(false, true), GatePosition::Closed);
    assert_eq!(estimate(false, false), GatePosition::Intermediate);
}

#[test]
fn both_sensors_high_is_resolved_to_open() {
    assert_eq!(estimate(true, true), GatePosition::Open);
    assert_eq!(gate_status(true, true), 0);
}

#[test]
fn neither_sensor_high_is_intermediate() {
    assert_eq!(estimate(false, false), GatePosition::Intermediate);
    assert_eq!(gate_status(false, false), 2);
}

#[test]
fn codes_are_zero_one_two() {
    assert_eq!(GatePosition::Open.code(), 0);
    assert_eq!(GatePosition::Closed.code(), 1);
    assert_eq!(GatePosition::Intermediate.code(), 2);
}

#[test]
fn gate_status_follows_the_sensors() {
    assert_eq!(gate_status(true, false), 0);
    assert_eq!(gate_status(false, true), 1);
    assert_eq!(gate_status(false, false), 2);
}

#[test]
fn json_documents_are_exact() {
    assert_eq!(GatePosition::Open.json(), "{\"s\":0}");
    assert_eq!(GatePosition::Closed.json(), "{\"s\":1}");
    assert_eq!(GatePosition::Intermediate.json(), "{\"s\":2}");
}

#[test]
fn closed_gate_reports_status_one() {
    assert_eq!(gate_json_status(false, true), "{\"s\":1}");
}

#[test]
fn open_gate_reports_status_zero() {
    assert_eq!(gate_json_status(true, false), "{\"s\":0}");
}

#[test]
fn repeated_status_queries_agree() {
    for opened in [false, true] {
        for closed in [false, true] {
            let first = gate_json_status(opened, closed);
            let second = gate_json_status(opened, closed);
            let third = gate_json_status(opened, closed);
            assert_eq!(first, second);
            assert_eq!(second, third);
            assert_eq!(estimate(opened, closed), estimate(opened, closed));
        }
    }
}
