//! The settings that the transport session is created with: application
//! identity, addresses, and the services it offers or uses.
use vstd::prelude::*;

use crate::primitives::{InstanceId, MajorVersion, MinorVersion, ServiceId};

verus! {

/// How a service is reached, with its port.
#[derive(Clone, Copy, Debug, PartialEq, Eq, Structural)]
pub enum ConnectionType {
    Tcp(u16),
    Udp(u16),
}

impl ConnectionType {
    pub open spec fn spec_port(self) -> u16 {
        match self {
            ConnectionType::Tcp(p) => p,
            ConnectionType::Udp(p) => p,
        }
    }

    /// The port, whatever the protocol.
    pub fn port(&self) -> (r: u16)
        ensures
            r == self.spec_port(),
    {
        match self {
            ConnectionType::Tcp(p) => *p,
            ConnectionType::Udp(p) => *p,
        }
    }
}

/// How the session's own address is used.
#[derive(Clone, Copy, Debug, PartialEq, Eq, Structural)]
pub enum AddressingMode {
    Unicast,
    Multicast,
}

/// An IPv4 address, as its four octets in network order.
#[derive(Clone, Copy, Debug, PartialEq, Eq, Structural)]
pub struct Ipv4Address {
    pub a: u8,
    pub b: u8,
    pub c: u8,
    pub d: u8,
}

impl Ipv4Address {
    pub fn new(a: u8, b: u8, c: u8, d: u8) -> (r: Ipv4Address)
        ensures
            r == (Ipv4Address { a, b, c, d }),
    {
        Ipv4Address { a, b, c, d }
    }
}

/// An IPv6 address, as its eight 16-bit segments in network order.
#[derive(Clone, Copy, Debug, PartialEq, Eq, Structural)]
pub struct Ipv6Address {
    pub s0: u16,
    pub s1: u16,
    pub s2: u16,
    pub s3: u16,
    pub s4: u16,
    pub s5: u16,
    pub s6: u16,
    pub s7: u16,
}

/// An IP address of either version.
#[derive(Clone, Copy, Debug, PartialEq, Eq, Structural)]
pub enum IpAddress {
    V4(Ipv4Address),
    V6(Ipv6Address),
}

impl IpAddress {
    /// The IPv4 address with the given octets.
    pub fn v4(a: u8, b: u8, c: u8, d: u8) -> (r: IpAddress)
        ensures
            r == IpAddress::V4(Ipv4Address { a, b, c, d }),
    {
        IpAddress::V4(Ipv4Address { a, b, c, d })
    }
}

/// One service that the session offers or uses.
#[derive(Clone, Copy, Debug, PartialEq, Eq, Structural)]
pub struct VSomeIpServiceConfig {
    pub id: ServiceId,
    pub conn_type: ConnectionType,
    pub major_version: MajorVersion,
    pub minor_version: MinorVersion,
}

impl Default for VSomeIpServiceConfig {
    /// Service 0, version 0.0, over TCP on port 30509.
    fn default() -> (r: Self)
        ensures
            r == (VSomeIpServiceConfig {
                id: 0,
                conn_type: ConnectionType::Tcp(30509),
                major_version: 0,
                minor_version: 0,
            }),
    {
        VSomeIpServiceConfig {
            id: 0,
            conn_type: ConnectionType::Tcp(30509),
            major_version: 0,
            minor_version: 0,
        }
    }
}

/// Settings of a transport session.
#[derive(Debug)]
pub struct VsomeIpConfig {
    /// Application name and numeric identifier.
    pub app_id: (String, u16),
    pub services: Vec<VSomeIpServiceConfig>,
    /// Own address; taken from the default interface when absent.
    pub addr: Option<IpAddress>,
    /// Own netmask; taken from the default interface when absent.
    pub netmask: Option<IpAddress>,
    pub addr_mode: AddressingMode,
    pub service_discovery: bool,
    pub instance_id: InstanceId,
    /// Name of the application that hosts the routing component.
    pub routing: Option<String>,
}

impl VsomeIpConfig {
    /// Application `smip_app` with identifier 0, no services, unicast, no
    /// service discovery, instance 0, addresses left open.
    pub fn new() -> (r: VsomeIpConfig)
        ensures
            r.app_id.0@ == "smip_app"@,
            r.app_id.1 == 0,
            r.services@ == Seq::<VSomeIpServiceConfig>::empty(),
            r.addr is None,
            r.netmask is None,
            r.addr_mode == AddressingMode::Unicast,
            !r.service_discovery,
            r.instance_id == 0,
            r.routing is None,
    {
        VsomeIpConfig {
            app_id: ("smip_app".to_owned(), 0),
            services: Vec::new(),
            addr: None,
            netmask: None,
            addr_mode: AddressingMode::Unicast,
            service_discovery: false,
            instance_id: 0,
            routing: None,
        }
    }

    pub fn application_id(self, app_id: (String, u16)) -> (r: VsomeIpConfig)
        ensures
            r == (VsomeIpConfig { app_id, ..self }),
    {
        VsomeIpConfig { app_id, ..self }
    }

    pub fn service_discovery(self, enable: bool) -> (r: VsomeIpConfig)
        ensures
            r == (VsomeIpConfig { service_discovery: enable, ..self }),
    {
        VsomeIpConfig { service_discovery: enable, ..self }
    }

    /// Appends a service.
    pub fn service(self, service: VSomeIpServiceConfig) -> (r: VsomeIpConfig)
        ensures
            r.services@ == self.services@.push(service),
            r.app_id == self.app_id,
            r.addr == self.addr,
            r.netmask == self.netmask,
            r.addr_mode == self.addr_mode,
            r.service_discovery == self.service_discovery,
            r.instance_id == self.instance_id,
            r.routing == self.routing,
    {
        let mut c = self;
        c.services.push(service);
        c
    }

    pub fn addr(self, addr: IpAddress) -> (r: VsomeIpConfig)
        ensures
            r == (VsomeIpConfig { addr: Some(addr), ..self }),
    {
        VsomeIpConfig { addr: Some(addr), ..self }
    }

    pub fn netmask(self, netmask: IpAddress) -> (r: VsomeIpConfig)
        ensures
            r == (VsomeIpConfig { netmask: Some(netmask), ..self }),
    {
        VsomeIpConfig { netmask: Some(netmask), ..self }
    }

    pub fn instance_id(self, instance_id: InstanceId) -> (r: VsomeIpConfig)
        ensures
            r == (VsomeIpConfig { instance_id, ..self }),
    {
        VsomeIpConfig { instance_id, ..self }
    }

    /// The key under which the own address is written: `unicast` or
    /// `multicast`.
    pub fn build_addr_mode(&self) -> (r: String)
        ensures
            self.addr_mode is Unicast ==> r@ == "unicast"@,
            self.addr_mode is Multicast ==> r@ == "multicast"@,
    {
        match self.addr_mode {
            AddressingMode::Unicast => "unicast".to_owned(),
            AddressingMode::Multicast => "multicast".to_owned(),
        }
    }

    /// Fills the addresses that were left open from the default interface's
    /// address and netmask; an address already set is kept.
    pub fn resolve_addresses(self, default_addr: IpAddress, default_netmask: IpAddress) -> (r:
        VsomeIpConfig)
        ensures
            r.addr == Some(
                match self.addr {
                    Some(a) => a,
                    None => default_addr,
                },
            ),
            r.netmask == Some(
                match self.netmask {
                    Some(n) => n,
                    None => default_netmask,
                },
            ),
            r.app_id == self.app_id,
            r.services == self.services,
            r.addr_mode == self.addr_mode,
            r.service_discovery == self.service_discovery,
            r.instance_id == self.instance_id,
            r.routing == self.routing,
    {
        let addr = match self.addr {
            Some(a) => a,
            None => default_addr,
        };
        let netmask = match self.netmask {
            Some(n) => n,
            None => default_netmask,
        };
        VsomeIpConfig { addr: Some(addr), netmask: Some(netmask), ..self }
    }

    /// Whether both addresses are set, so that no interface has to be asked.
    pub fn has_addresses(&self) -> (r: bool)
        ensures
            r == (self.addr is Some && self.netmask is Some),
    {
        self.addr.is_some() && self.netmask.is_some()
    }
}

} // verus!
