use eth_phy::phy::classify_link;
use eth_phy::phy::BCR;
use eth_phy::phy::BCR_AN_ENABLE;
use eth_phy::phy::BSR;
use eth_phy::phy::BSR_LINK_UP;
use eth_phy::phy::SSR;
use eth_phy::phy::SSR_DUPLEX_FULL;
use eth_phy::phy::SSR_SPEED_100;
use eth_phy::Lan8742a;
use eth_phy::SimBus;
use eth_phy::StationManagement;
use eth_phy::PHY;

fn bus_reporting(bsr: u16, ssr: u16) -> SimBus {
    let mut bus = SimBus::new();
    bus.smi_write(BSR, bsr);
    bus.smi_write(SSR, ssr);
    bus
}

#[test]
fn link_up_full_duplex_100_reports_usable() {
    let mut bus = bus_reporting(BSR_LINK_UP, SSR_DUPLEX_FULL | SSR_SPEED_100);
    assert!(<Lan8742a as PHY>::poll_link(&mut bus));
}

#[test]
fn clearing_link_up_alone_downs_the_link() {
    let mut bus = bus_reporting(0, SSR_DUPLEX_FULL | SSR_SPEED_100);
    assert!(!<Lan8742a as PHY>::poll_link(&mut bus));
}

#[test]
fn clearing_full_duplex_alone_downs_the_link() {
    let mut bus = bus_reporting(BSR_LINK_UP, SSR_SPEED_100);
    assert!(!<Lan8742a as PHY>::poll_link(&mut bus));
}

#[test]
fn clearing_speed_100_alone_downs_the_link() {
    let mut bus = bus_reporting(BSR_LINK_UP, SSR_DUPLEX_FULL);
    assert!(!<Lan8742a as PHY>::poll_link(&mut bus));
}

#[test]
fn all_clear_downs_the_link() {
    let mut bus = bus_reporting(0, 0);
    assert!(!<Lan8742a as PHY>::poll_link(&mut bus));
}

#[test]
fn classification_ignores_unrelated_bits() {
    assert!(classify_link(
        BSR_LINK_UP | 0x0020,
        SSR_DUPLEX_FULL | SSR_SPEED_100 | 0x1000
    ));
    assert!(!classify_link(0x0020, SSR_DUPLEX_FULL | SSR_SPEED_100));
    assert!(!classify_link(BSR_LINK_UP, 0));
}

#[test]
fn polling_leaves_registers_untouched() {
    let mut bus = bus_reporting(BSR_LINK_UP, SSR_DUPLEX_FULL | SSR_SPEED_100);
    let _ = <Lan8742a as PHY>::poll_link(&mut bus);
    assert_eq!(bus.smi_read(BSR), BSR_LINK_UP);
    assert_eq!(bus.smi_read(SSR), SSR_DUPLEX_FULL | SSR_SPEED_100);
}

#[test]
fn init_selects_auto_negotiation() {
    let mut bus = SimBus::new();
    <Lan8742a as PHY>::phy_init(&mut bus);
    assert_eq!(bus.smi_read(BCR), BCR_AN_ENABLE);
}
