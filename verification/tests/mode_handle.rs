use shared_spi::DeviceFault;
use shared_spi::Phase;
use shared_spi::Polarity;
use shared_spi::RecordedCall;
use shared_spi::RecordingSpi;
use shared_spi::ShareableSpiWithConf;
use shared_spi::SharedSpi;
use shared_spi::SpiError;
use shared_spi::SpiLock;
use shared_spi::SpiMode;

fn mode_0() -> SpiMode {
    SpiMode { polarity: Polarity::IdleLow, phase: Phase::CaptureOnFirstTransition }
}

fn mode_3() -> SpiMode {
    SpiMode { polarity: Polarity::IdleHigh, phase: Phase::CaptureOnSecondTransition }
}

#[test]
fn a_handle_reports_its_bound_mode() {
    assert_eq!(ShareableSpiWithConf::new(mode_0()).mode(), mode_0());
    assert_eq!(ShareableSpiWithConf::new(mode_3()).mode(), mode_3());
}

#[test]
fn every_operation_reapplies_the_bound_mode() {
    let mut bus = SharedSpi::new(RecordingSpi::new(Vec::new()));
    let handle = ShareableSpiWithConf::new(mode_0());
    assert_eq!(handle.write(&mut bus, &vec![1]), Ok(()));
    assert_eq!(handle.write(&mut bus, &vec![2]), Ok(()));
    assert_eq!(
        bus.free().unwrap().calls(),
        &vec![
            RecordedCall::ModeChange(mode_0()),
            RecordedCall::Write(vec![1]),
            RecordedCall::ModeChange(mode_0()),
            RecordedCall::Write(vec![2]),
        ]
    );
}

#[test]
fn modes_are_independent_per_handle() {
    let mut bus = SharedSpi::new(RecordingSpi::new(Vec::new()));
    let first = ShareableSpiWithConf::new(mode_0());
    let second = ShareableSpiWithConf::new(mode_3());
    assert_eq!(first.write(&mut bus, &vec![1]), Ok(()));
    assert_eq!(second.write(&mut bus, &vec![2]), Ok(()));
    // a mode change to the first handle's mode, then to the second's, with no
    // transaction in between in the wrong mode
    assert_eq!(
        bus.free().unwrap().calls(),
        &vec![
            RecordedCall::ModeChange(mode_0()),
            RecordedCall::Write(vec![1]),
            RecordedCall::ModeChange(mode_3()),
            RecordedCall::Write(vec![2]),
        ]
    );
}

#[test]
fn two_handles_over_one_bus_scenario() {
    let mut bus = SharedSpi::new(RecordingSpi::new(vec![4, 5]));
    let h1 = ShareableSpiWithConf::new(mode_0());
    let h2 = ShareableSpiWithConf::new(mode_3());

    assert_eq!(h1.write(&mut bus, &vec![1, 2, 3]), Ok(()));
    assert!(!bus.busy());

    let mut words = vec![0, 0];
    assert_eq!(h2.transfer(&mut bus, &mut words), Ok(()));
    assert_eq!(words, vec![4, 5]);
    assert!(!bus.busy());

    assert_eq!(
        bus.free().unwrap().calls(),
        &vec![
            RecordedCall::ModeChange(mode_0()),
            RecordedCall::Write(vec![1, 2, 3]),
            RecordedCall::ModeChange(mode_3()),
            RecordedCall::Transfer(vec![0, 0], vec![4, 5]),
        ]
    );
}

#[test]
fn handle_transfer_round_trips_the_device_bytes() {
    let mut bus = SharedSpi::new(RecordingSpi::new(vec![7, 6, 5]));
    let handle = ShareableSpiWithConf::new(mode_0());
    let mut words = vec![1, 2, 3];
    assert_eq!(handle.transfer(&mut bus, &mut words), Ok(()));
    assert_eq!(words, vec![7, 6, 5]);
    assert_eq!(
        bus.free().unwrap().calls(),
        &vec![
            RecordedCall::ModeChange(mode_0()),
            RecordedCall::Transfer(vec![1, 2, 3], vec![7, 6, 5]),
        ]
    );
}

#[test]
fn a_handle_call_on_a_locked_bus_is_a_conflict() {
    let mut bus = SharedSpi::new(RecordingSpi::new(Vec::new()));
    let handle = ShareableSpiWithConf::new(mode_0());
    let dev = bus.lock().unwrap();
    let mut words = vec![1];
    assert_eq!(handle.transfer(&mut bus, &mut words), Err(SpiError::Conflict));
    assert_eq!(handle.write(&mut bus, &vec![1]), Err(SpiError::Conflict));
    assert_eq!(words, vec![1]);
    bus.unlock(dev);
    // once the bus is free again the same handle works
    assert_eq!(handle.write(&mut bus, &vec![1]), Ok(()));
    assert_eq!(
        bus.free().unwrap().calls(),
        &vec![RecordedCall::ModeChange(mode_0()), RecordedCall::Write(vec![1])]
    );
}

#[test]
fn device_error_through_a_handle_keeps_the_mode_change_only() {
    let mut rec = RecordingSpi::new(Vec::new());
    rec.fail_next_call();
    let mut bus = SharedSpi::new(rec);
    let handle = ShareableSpiWithConf::new(mode_3());
    let mut words = vec![1, 2];
    assert_eq!(
        handle.transfer(&mut bus, &mut words),
        Err(SpiError::Device(DeviceFault))
    );
    // the buffer is untouched, the bus released, and the device saw the mode
    // change but no transaction
    assert_eq!(words, vec![1, 2]);
    assert!(!bus.busy());
    assert_eq!(
        bus.free().unwrap().calls(),
        &vec![RecordedCall::ModeChange(mode_3())]
    );
}
