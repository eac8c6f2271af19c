use eth_phy::SimBus;
use eth_phy::StationManagement;

#[test]
fn fresh_bus_reads_zero_everywhere() {
    let mut bus = SimBus::new();
    for reg in 0u8..32 {
        assert_eq!(bus.smi_read(reg), 0);
    }
}

#[test]
fn write_read_round_trip_all_registers() {
    for value in [0u16, 1, 0x00ff, 0xabcd, 0xffff] {
        let mut bus = SimBus::new();
        for reg in 0u8..32 {
            bus.smi_write(reg, value);
            assert_eq!(bus.smi_read(reg), value);
        }
    }
}

#[test]
fn write_disturbs_no_other_register() {
    let mut bus = SimBus::new();
    for reg in 0u8..32 {
        bus.smi_write(reg, reg as u16 + 100);
    }
    bus.smi_write(7, 0x5555);
    for reg in 0u8..32 {
        let expected = if reg == 7 { 0x5555 } else { reg as u16 + 100 };
        assert_eq!(bus.smi_read(reg), expected);
    }
}

#[test]
fn last_write_wins() {
    let mut bus = SimBus::new();
    bus.smi_write(3, 0x1111);
    bus.smi_write(3, 0x2222);
    assert_eq!(bus.smi_read(3), 0x2222);
}

#[test]
fn transactions_are_counted() {
    let mut bus = SimBus::new();
    assert_eq!(bus.transactions(), 0);
    bus.smi_write(0, 1);
    let _ = bus.smi_read(0);
    assert_eq!(bus.transactions(), 2);
}
