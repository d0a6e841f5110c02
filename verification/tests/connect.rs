use midi2vol_mac::midi::{connect_phase_failure, connect_step, ConnectPhase, Error};

#[test]
fn all_stages_succeeding_reach_listening() {
    let mut p = ConnectPhase::CreatingClient;
    p = connect_step(p, true);
    assert_eq!(p, ConnectPhase::ResolvingSource);
    p = connect_step(p, true);
    assert_eq!(p, ConnectPhase::OpeningPort);
    p = connect_step(p, true);
    assert_eq!(p, ConnectPhase::Connecting);
    p = connect_step(p, true);
    assert_eq!(p, ConnectPhase::Listening);
    assert_eq!(connect_phase_failure(p), None);
}

#[test]
fn client_failure_maps_to_its_error() {
    let p = connect_step(ConnectPhase::CreatingClient, false);
    assert_eq!(p, ConnectPhase::Failed(Error::ClientCannotBeCreated));
    assert_eq!(connect_phase_failure(p), Some(Error::ClientCannotBeCreated));
}

#[test]
fn source_resolution_failure_maps_to_its_error() {
    let p = connect_step(ConnectPhase::ResolvingSource, false);
    assert_eq!(p, ConnectPhase::Failed(Error::SourceNotFound));
    assert_eq!(connect_phase_failure(p), Some(Error::SourceNotFound));
}

#[test]
fn port_failure_maps_to_its_error() {
    let p = connect_step(ConnectPhase::OpeningPort, false);
    assert_eq!(p, ConnectPhase::Failed(Error::InputPortCannotBeCreated));
    assert_eq!(connect_phase_failure(p), Some(Error::InputPortCannotBeCreated));
}

#[test]
fn connect_failure_maps_to_its_error() {
    let p = connect_step(ConnectPhase::Connecting, false);
    assert_eq!(p, ConnectPhase::Failed(Error::SourceNotConnected));
    assert_eq!(connect_phase_failure(p), Some(Error::SourceNotConnected));
}

#[test]
fn terminal_phases_stay_put() {
    let f = ConnectPhase::Failed(Error::SourceNotFound);
    assert_eq!(connect_step(f, true), f);
    assert_eq!(connect_step(f, false), f);
    assert_eq!(connect_step(ConnectPhase::Listening, true), ConnectPhase::Listening);
    assert_eq!(connect_step(ConnectPhase::Listening, false), ConnectPhase::Listening);
}
