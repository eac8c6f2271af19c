use eth_phy::phy::BCR;
use eth_phy::phy::BCR_RESET;
use eth_phy::phy::RESET_POLL_LIMIT;
use eth_phy::Lan8742a;
use eth_phy::SimBus;
use eth_phy::StationManagement;
use eth_phy::PHY;

#[test]
fn reset_returns_when_device_never_reports_ready() {
    // The simulated device holds whatever was written, so the reset request
    // bit never clears and readiness is never observed: the bounded poll must
    // run out and the driver must proceed anyway.
    let mut bus = SimBus::new();
    <Lan8742a as PHY>::phy_reset(&mut bus);
    assert_eq!(bus.smi_read(BCR), BCR_RESET);
}

#[test]
fn reset_stays_within_its_transaction_bound() {
    let mut bus = SimBus::new();
    <Lan8742a as PHY>::phy_reset(&mut bus);
    // One write to request the reset, then at most the bounded number of
    // readiness polls.
    assert_eq!(bus.transactions(), 1 + RESET_POLL_LIMIT as u64);
}

#[test]
fn reset_leaves_other_registers_untouched() {
    let mut bus = SimBus::new();
    bus.smi_write(17, 0x4242);
    <Lan8742a as PHY>::phy_reset(&mut bus);
    assert_eq!(bus.smi_read(17), 0x4242);
}
