use icarus::error::IcarusBleError;
use icarus::session::resolve_characteristics;
use icarus::session::Discovery;
use icarus::session::DiscoveryAction;
use icarus::session::DiscoveryEvent;
use icarus::session::PeripheralInfo;
use icarus::session::ATTITUDE_CHARACTERISTIC;
use icarus::session::THROTTLE_CHARACTERISTIC;

fn named(name: &str, is_connected: bool) -> PeripheralInfo {
    PeripheralInfo { local_name: Some(name.to_string()), is_connected }
}

fn unnamed() -> PeripheralInfo {
    PeripheralInfo { local_name: None, is_connected: false }
}

#[test]
fn discovery_selects_exact_name_match() {
    let mut discovery = Discovery::new("icarus".to_string());
    let peripherals = vec![unnamed(), named("other", true), named("icarus", true)];
    let action = discovery.step(DiscoveryEvent::AdapterPeripherals(peripherals));
    assert_eq!(action, DiscoveryAction::Use(2));
}

#[test]
fn discovery_connects_an_unconnected_match() {
    let mut discovery = Discovery::new("icarus".to_string());
    let peripherals = vec![named("icarus", false)];
    let action = discovery.step(DiscoveryEvent::AdapterPeripherals(peripherals));
    assert_eq!(action, DiscoveryAction::Connect(0));
    let action = discovery.step(DiscoveryEvent::Connected);
    assert_eq!(action, DiscoveryAction::Use(0));
}

#[test]
fn discovery_continues_after_transient_connect_failure() {
    let mut discovery = Discovery::new("icarus".to_string());
    let peripherals = vec![named("icarus", false), named("icarus", false)];
    let action = discovery.step(DiscoveryEvent::AdapterPeripherals(peripherals));
    assert_eq!(action, DiscoveryAction::Connect(0));
    let action = discovery.step(DiscoveryEvent::ConnectFailed);
    assert_eq!(action, DiscoveryAction::Connect(1));
    let action = discovery.step(DiscoveryEvent::ConnectFailed);
    assert_eq!(action, DiscoveryAction::ScanNextAdapter);
}

#[test]
fn discovery_ignores_partial_name_matches() {
    let mut discovery = Discovery::new("icarus".to_string());
    let peripherals = vec![named("icarus-2", true), named("Icarus", true), named("icaru", true)];
    let action = discovery.step(DiscoveryEvent::AdapterPeripherals(peripherals));
    assert_eq!(action, DiscoveryAction::ScanNextAdapter);
}

#[test]
fn discovery_without_match_across_two_adapters_fails() {
    let mut discovery = Discovery::new("icarus".to_string());
    let first = vec![named("speaker", true), unnamed()];
    let action = discovery.step(DiscoveryEvent::AdapterPeripherals(first));
    assert_eq!(action, DiscoveryAction::ScanNextAdapter);
    let second = vec![named("watch", false)];
    let action = discovery.step(DiscoveryEvent::AdapterPeripherals(second));
    assert_eq!(action, DiscoveryAction::ScanNextAdapter);
    let action = discovery.step(DiscoveryEvent::AdaptersExhausted);
    assert_eq!(action, DiscoveryAction::Fail);
    assert_eq!(
        IcarusBleError::DeviceNotFound.message(),
        "The device was not found"
    );
}

#[test]
fn resolve_finds_both_characteristics() {
    let uuids = vec![0x1234u128, THROTTLE_CHARACTERISTIC, ATTITUDE_CHARACTERISTIC];
    assert_eq!(resolve_characteristics(&uuids), Ok((2, 1)));
}

#[test]
fn resolve_fails_without_attitude_characteristic() {
    let uuids = vec![THROTTLE_CHARACTERISTIC];
    assert_eq!(
        resolve_characteristics(&uuids),
        Err(IcarusBleError::CharacteristicNotFound)
    );
}

#[test]
fn resolve_fails_without_throttle_characteristic() {
    let uuids = vec![ATTITUDE_CHARACTERISTIC, 0x5u128];
    let err = resolve_characteristics(&uuids).unwrap_err();
    assert_eq!(err, IcarusBleError::CharacteristicNotFound);
    assert_eq!(err.message(), "Characteristic not found");
}

#[test]
fn resolve_fails_on_empty_characteristic_set() {
    assert_eq!(
        resolve_characteristics(&Vec::new()),
        Err(IcarusBleError::CharacteristicNotFound)
    );
}
