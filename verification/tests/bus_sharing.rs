use shared_spi::DeviceFault;
use shared_spi::RecordedCall;
use shared_spi::RecordingSpi;
use shared_spi::SharedSpi;
use shared_spi::SpiDevice;
use shared_spi::SpiError;
use shared_spi::SpiLock;

#[test]
fn busy_is_false_before_any_lock() {
    let bus = SharedSpi::new(RecordingSpi::new(Vec::new()));
    assert!(!bus.busy());
}

#[test]
fn busy_is_true_while_locked_and_false_after() {
    let mut bus = SharedSpi::new(RecordingSpi::new(Vec::new()));
    let dev = bus.lock().unwrap();
    assert!(bus.busy());
    bus.unlock(dev);
    assert!(!bus.busy());
}

#[test]
fn second_lock_fails_while_first_is_held() {
    let mut bus = SharedSpi::new(RecordingSpi::new(Vec::new()));
    let mut dev = bus.lock().unwrap();
    assert!(bus.lock().is_err());
    // the first critical section is unaffected by the refused second one
    assert_eq!(dev.write(&vec![5]), Ok(()));
    bus.unlock(dev);
    assert!(!bus.busy());
    assert_eq!(
        bus.free().unwrap().calls(),
        &vec![RecordedCall::Write(vec![5])]
    );
}

#[test]
fn operation_on_a_locked_bus_is_a_conflict() {
    let mut bus = SharedSpi::new(RecordingSpi::new(Vec::new()));
    let dev = bus.lock().unwrap();
    let mut words = vec![1, 2];
    assert_eq!(bus.transfer(&mut words), Err(SpiError::Conflict));
    assert_eq!(bus.write(&vec![3]), Err(SpiError::Conflict));
    // nothing was touched: the buffer is intact and the bus still locked
    assert_eq!(words, vec![1, 2]);
    assert!(bus.busy());
    bus.unlock(dev);
    assert_eq!(bus.free().unwrap().calls(), &Vec::new());
}

#[test]
fn write_hands_the_device_the_exact_bytes() {
    let mut bus = SharedSpi::new(RecordingSpi::new(Vec::new()));
    assert_eq!(bus.write(&vec![1, 2, 3]), Ok(()));
    assert!(!bus.busy());
    assert_eq!(
        bus.free().unwrap().calls(),
        &vec![RecordedCall::Write(vec![1, 2, 3])]
    );
}

#[test]
fn transfer_returns_the_exact_device_bytes() {
    let mut bus = SharedSpi::new(RecordingSpi::new(vec![9, 8]));
    let mut words = vec![0, 0];
    assert_eq!(bus.transfer(&mut words), Ok(()));
    assert_eq!(words, vec![9, 8]);
    assert_eq!(
        bus.free().unwrap().calls(),
        &vec![RecordedCall::Transfer(vec![0, 0], vec![9, 8])]
    );
}

#[test]
fn transfer_reply_is_cut_or_padded_to_the_sent_length() {
    let mut bus = SharedSpi::new(RecordingSpi::new(vec![9]));
    let mut words = vec![7, 7, 7];
    assert_eq!(bus.transfer(&mut words), Ok(()));
    assert_eq!(words, vec![9, 0, 0]);
}

#[test]
fn device_error_is_passed_through_unchanged() {
    let mut rec = RecordingSpi::new(Vec::new());
    rec.fail_next_call();
    let mut bus = SharedSpi::new(rec);
    assert_eq!(bus.write(&vec![1]), Err(SpiError::Device(DeviceFault)));
    // the failure is recoverable: the flag is clear and the next write works
    assert!(!bus.busy());
    assert_eq!(bus.write(&vec![2]), Ok(()));
    // the failed write was never observed by the device
    assert_eq!(
        bus.free().unwrap().calls(),
        &vec![RecordedCall::Write(vec![2])]
    );
}

#[test]
fn free_returns_the_device_only_when_unlocked() {
    let mut bus = SharedSpi::new(RecordingSpi::new(Vec::new()));
    let _dev = bus.lock().unwrap();
    assert!(bus.free().is_none());

    let bus2 = SharedSpi::new(RecordingSpi::new(Vec::new()));
    assert!(bus2.free().is_some());
}
