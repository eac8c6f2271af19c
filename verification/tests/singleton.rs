use eth_phy::instance::ETH0_BASE;
use eth_phy::InstanceId;
use eth_phy::Peripherals;

#[test]
fn second_live_handle_is_rejected() {
    let mut peripherals = Peripherals::new();
    let first = peripherals.take_eth();
    assert!(first.is_some());
    let second = peripherals.take_eth();
    assert!(second.is_none());
}

#[test]
fn release_allows_reacquisition() {
    let mut peripherals = Peripherals::new();
    let handle = peripherals.take_eth().expect("first acquisition succeeds");
    peripherals.release_eth(handle);
    let again = peripherals.take_eth();
    assert!(again.is_some());
    assert!(peripherals.take_eth().is_none());
}

#[test]
fn handle_reaches_its_register_block() {
    let mut peripherals = Peripherals::new();
    let handle = peripherals.take_eth().expect("first acquisition succeeds");
    let block = handle.regs();
    assert_eq!(block.instance(), InstanceId::Eth0);
    assert_eq!(block.base(), ETH0_BASE);
}
