use smip::config::{
    AddressingMode, ConnectionType, IpAddress, Ipv4Address, Ipv6Address, VSomeIpServiceConfig,
    VsomeIpConfig,
};

#[test]
fn defaults() {
    let c = VsomeIpConfig::new();
    assert_eq!(c.app_id.0, "smip_app");
    assert_eq!(c.app_id.1, 0);
    assert!(c.services.is_empty());
    assert_eq!(c.addr_mode, AddressingMode::Unicast);
    assert!(!c.service_discovery);
    assert_eq!(c.instance_id, 0);
    assert!(c.routing.is_none());
    assert!(!c.has_addresses());
    assert_eq!(c.build_addr_mode(), "unicast");
    let d = VSomeIpServiceConfig::default();
    assert_eq!(d.id, 0);
    assert_eq!(d.conn_type, ConnectionType::Tcp(30509));
}

#[test]
fn builder_sets_fields() {
    let c = VsomeIpConfig::new()
        .application_id(("SimpleClient".to_string(), 0xEF))
        .service_discovery(true)
        .instance_id(3)
        .addr(IpAddress::v4(192, 168, 0, 23))
        .netmask(IpAddress::v4(255, 255, 255, 0))
        .service(VSomeIpServiceConfig { id: 2, ..Default::default() });
    assert_eq!(c.app_id.0, "SimpleClient");
    assert_eq!(c.app_id.1, 0xEF);
    assert!(c.service_discovery);
    assert_eq!(c.instance_id, 3);
    assert_eq!(c.addr, Some(IpAddress::v4(192, 168, 0, 23)));
    assert!(c.has_addresses());
    assert_eq!(c.services.len(), 1);
    assert_eq!(c.services[0].conn_type.port(), 30509);
    assert_eq!(ConnectionType::Udp(7).port(), 7);
}

#[test]
fn addresses_filled_from_defaults() {
    let c = VsomeIpConfig::new().addr(IpAddress::v4(10, 0, 0, 1));
    let r = c.resolve_addresses(IpAddress::v4(1, 2, 3, 4), IpAddress::v4(255, 0, 0, 0));
    assert_eq!(r.addr, Some(IpAddress::v4(10, 0, 0, 1)));
    assert_eq!(r.netmask, Some(IpAddress::v4(255, 0, 0, 0)));
    let mut m = VsomeIpConfig::new();
    m.addr_mode = AddressingMode::Multicast;
    assert_eq!(m.build_addr_mode(), "multicast");
}

#[test]
fn ipv6_addresses_are_kept() {
    let v6 = IpAddress::V6(Ipv6Address { s0: 0xfe80, s1: 0, s2: 0, s3: 0, s4: 0, s5: 0, s6: 0, s7: 1 });
    let c = VsomeIpConfig::new().addr(v6);
    assert_eq!(c.addr, Some(v6));
    assert_eq!(IpAddress::v4(1, 2, 3, 4), IpAddress::V4(Ipv4Address::new(1, 2, 3, 4)));
}
