use eth_phy::pins::all_roles_list;
use eth_phy::pins::lookup_af;
use eth_phy::pins::table;
use eth_phy::InstanceId;
use eth_phy::PinBinding;
use eth_phy::PinId;
use eth_phy::SignalRole;

#[test]
fn every_table_row_binds_to_its_selector() {
    let rows = table();
    assert_eq!(rows.len(), 12);
    for row in &rows {
        assert_eq!(lookup_af(row.instance, row.pin, row.role), Some(row.af));
        let binding = PinBinding::try_bind(row.instance, row.pin, row.role)
            .expect("listed triple must bind");
        assert_eq!(binding.instance(), row.instance);
        assert_eq!(binding.pin(), row.pin);
        assert_eq!(binding.role(), row.role);
        assert_eq!(binding.af(), row.af);
    }
}

#[test]
fn absent_triples_are_rejected() {
    assert_eq!(lookup_af(InstanceId::Eth0, PinId::PA1, SignalRole::Mdio), None);
    assert_eq!(lookup_af(InstanceId::Eth0, PinId::PC1, SignalRole::RefClk), None);
    assert_eq!(lookup_af(InstanceId::Eth0, PinId::PG11, SignalRole::Rxd0), None);
    assert!(PinBinding::try_bind(InstanceId::Eth0, PinId::PA2, SignalRole::Mdc).is_none());
    assert!(PinBinding::try_bind(InstanceId::Eth0, PinId::PB11, SignalRole::CrsDv).is_none());
}

#[test]
fn reference_binding_returns_documented_selector() {
    let binding = PinBinding::bind(InstanceId::Eth0, PinId::PA2, SignalRole::Mdio);
    assert_eq!(binding.af(), 11);
    assert_eq!(binding.pin(), PinId::PA2);
}

#[test]
fn nine_roles_all_representable() {
    let roles = all_roles_list();
    assert_eq!(roles.len(), 9);
    for (i, a) in roles.iter().enumerate() {
        for b in roles.iter().skip(i + 1) {
            assert_ne!(a, b);
        }
    }
    let rows = table();
    for role in &roles {
        assert!(
            rows.iter().any(|row| row.role == *role),
            "role must appear in the table"
        );
    }
}

#[test]
fn no_duplicate_role_for_same_instance_and_pin() {
    let rows = table();
    for (i, a) in rows.iter().enumerate() {
        for b in rows.iter().skip(i + 1) {
            let same_pin = a.instance == b.instance && a.pin == b.pin;
            assert!(!(same_pin && a.role == b.role));
        }
    }
}
