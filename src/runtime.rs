//! The server runtime: the services a process offers, when they are offered,
//! and where an inbound request is routed.
use vstd::prelude::*;

use crate::config::{ConnectionType, IpAddress, VSomeIpServiceConfig, VsomeIpConfig};
use crate::dispatch::{dispatch, is_error_reply};
use crate::error::RegistrationError;
use crate::message::Message;
use crate::primitives::{InstanceId, MajorVersion, MinorVersion, ReturnCode, ServiceId, State};
use crate::registry::{entry_of, unique_ids, MethodsBuilder, ServiceDefinition, ServiceMethods};

verus! {

/// Identity and addresses of a server process.
#[derive(Debug)]
pub struct RuntimeConfig {
    pub name: String,
    pub id: u16,
    pub addr: Option<IpAddress>,
    pub netmask: Option<IpAddress>,
    pub instance_id: InstanceId,
}

impl RuntimeConfig {
    /// A config with the given name, application id and instance; addresses
    /// left open.
    pub fn new(name: &str, id: u16, instance_id: InstanceId) -> (r: RuntimeConfig)
        ensures
            r.name@ == name@,
            r.id == id,
            r.addr is None,
            r.netmask is None,
            r.instance_id == instance_id,
    {
        RuntimeConfig { name: name.to_owned(), id, addr: None, netmask: None, instance_id }
    }

    pub fn addr(self, addr: IpAddress) -> (r: RuntimeConfig)
        ensures
            r == (RuntimeConfig { addr: Some(addr), ..self }),
    {
        RuntimeConfig { addr: Some(addr), ..self }
    }

    pub fn netmask(self, netmask: IpAddress) -> (r: RuntimeConfig)
        ensures
            r == (RuntimeConfig { netmask: Some(netmask), ..self }),
    {
        RuntimeConfig { netmask: Some(netmask), ..self }
    }
}

/// A service registered with the runtime, with its dispatch table.
pub struct ServiceRecord {
    pub id: ServiceId,
    pub major_version: MajorVersion,
    pub minor_version: MinorVersion,
    pub port: u16,
    pub methods: MethodsBuilder,
}

/// An offer to make to the transport.
#[derive(Clone, Copy, Debug, PartialEq, Eq, Structural)]
pub struct Offer {
    pub service: ServiceId,
    pub instance: InstanceId,
    pub major_version: MajorVersion,
    pub minor_version: MinorVersion,
}

/// The offer of service `s` on `instance`.
pub open spec fn offer_of(s: ServiceRecord, instance: InstanceId) -> Offer {
    Offer {
        service: s.id,
        instance,
        major_version: s.major_version,
        minor_version: s.minor_version,
    }
}

/// The offers of all of `services`, in order of registration.
pub open spec fn offers_of(services: Seq<ServiceRecord>, instance: InstanceId) -> Seq<Offer> {
    Seq::new(services.len(), |i: int| offer_of(services[i], instance))
}

/// The server runtime: configured services, their offer state, and routing.
pub struct Runtime {
    config: RuntimeConfig,
    vsomeip_config: VsomeIpConfig,
    services: Vec<ServiceRecord>,
    offered: bool,
}

impl Runtime {
    pub closed spec fn spec_services(&self) -> Seq<ServiceRecord> {
        self.services@
    }

    pub closed spec fn spec_instance(&self) -> InstanceId {
        self.config.instance_id
    }

    /// Whether the services are offered (the session reached the registered
    /// state and has not left it since).
    pub closed spec fn spec_offered(&self) -> bool {
        self.offered
    }

    pub closed spec fn spec_session_config(&self) -> VsomeIpConfig {
        self.vsomeip_config
    }

    /// A runtime with no services yet; the session config carries the
    /// process's name, id and instance, and routes through the process itself.
    pub fn new(config: RuntimeConfig) -> (r: Runtime)
        ensures
            r.spec_services() == Seq::<ServiceRecord>::empty(),
            r.spec_instance() == config.instance_id,
            !r.spec_offered(),
            r.spec_session_config().app_id.0@ == config.name@,
            r.spec_session_config().app_id.1 == config.id,
            r.spec_session_config().instance_id == config.instance_id,
            r.spec_session_config().routing matches Some(n) && n@ == config.name@,
            r.spec_session_config().services@ == Seq::<VSomeIpServiceConfig>::empty(),
            r.spec_session_config().addr == config.addr,
            r.spec_session_config().netmask == config.netmask,
    {
        let mut vsomeip_config = VsomeIpConfig::new();
        vsomeip_config.app_id = (config.name.clone(), config.id);
        vsomeip_config.instance_id = config.instance_id;
        vsomeip_config.routing = Some(config.name.clone());
        vsomeip_config.addr = config.addr;
        vsomeip_config.netmask = config.netmask;
        Runtime { config, vsomeip_config, services: Vec::new(), offered: false }
    }

    /// Registers service type `S` on TCP `port`. The methods of `S` are
    /// registered into a fresh dispatch table; if that fails (two methods
    /// share an identifier) the error is returned and no runtime is left to
    /// offer anything.
    pub fn service<S: ServiceDefinition + ServiceMethods>(self, port: u16) -> (r: Result<
        Runtime,
        RegistrationError,
    >)
        ensures
            r is Err <==> !unique_ids(S::spec_methods()),
            r matches Ok(rt) ==> {
                &&& rt.spec_services().last().id == S::spec_id()
                &&& rt.spec_services().last().major_version == S::spec_major()
                &&& rt.spec_services().last().minor_version == S::spec_minor()
                &&& rt.spec_services().last().methods@ == S::spec_methods()
                &&& rt.spec_session_config().services@.last().id == S::spec_id()
            },
            r matches Ok(rt) ==> rt.spec_services().len() == self.spec_services().len() + 1
                && rt.spec_services().subrange(0, self.spec_services().len() as int)
                == self.spec_services() && rt.spec_services().last().port == port
                && rt.spec_instance() == self.spec_instance() && rt.spec_offered()
                == self.spec_offered() && rt.spec_session_config().services@.last().conn_type
                == ConnectionType::Tcp(port),
    {
        let mut builder = MethodsBuilder::new();
        proof {
            assert(builder@ + S::spec_methods() =~= S::spec_methods());
        }
        S::register_methods(&mut builder)?;
        let id = S::id();
        let major_version = S::major_version();
        let minor_version = S::minor_version();
        let mut rt = self;
        rt.vsomeip_config.services.push(
            VSomeIpServiceConfig {
                id,
                conn_type: ConnectionType::Tcp(port),
                major_version,
                minor_version,
            },
        );
        rt.services.push(ServiceRecord { id, major_version, minor_version, port, methods: builder });
        proof {
            assert(rt.services@.subrange(0, self.services@.len() as int) =~= self.services@);
        }
        Ok(rt)
    }

    /// The session config that the transport is created with.
    pub fn session_config(&self) -> (r: &VsomeIpConfig)
        ensures
            *r == self.spec_session_config(),
    {
        &self.vsomeip_config
    }

    pub fn instance_id(&self) -> (r: InstanceId)
        ensures
            r == self.spec_instance(),
    {
        self.config.instance_id
    }

    pub fn service_count(&self) -> (r: usize)
        ensures
            r == self.spec_services().len(),
    {
        self.services.len()
    }

    pub fn is_offered(&self) -> (r: bool)
        ensures
            r == self.spec_offered(),
    {
        self.offered
    }

    /// Takes a registration state change of the session. On reaching the
    /// registered state every service is offered, once; on leaving it the
    /// services count as unoffered again.
    pub fn on_state(&mut self, state: State) -> (r: Vec<Offer>)
        ensures
            final(self).spec_services() == old(self).spec_services(),
            final(self).spec_instance() == old(self).spec_instance(),
            final(self).spec_session_config() == old(self).spec_session_config(),
            final(self).spec_offered() == (state == State::Registered),
            state == State::Registered && !old(self).spec_offered() ==> r@ == offers_of(
                old(self).spec_services(),
                old(self).spec_instance(),
            ),
            !(state == State::Registered && !old(self).spec_offered()) ==> r@ == Seq::<
                Offer,
            >::empty(),
    {
        let mut offers: Vec<Offer> = Vec::new();
        match state {
            State::Deregistered => {
                self.offered = false;
                return offers;
            },
            State::Registered => {
                if self.offered {
                    return offers;
                }
            },
        }
        let instance = self.config.instance_id;
        let mut i: usize = 0;
        while i < self.services.len()
            invariant
                0 <= i <= self.services@.len(),
                instance == self.config.instance_id,
                offers@ == offers_of(self.services@, instance).subrange(0, i as int),
            decreases self.services@.len() - i,
        {
            let s = &self.services[i];
            offers.push(
                Offer {
                    service: s.id,
                    instance,
                    major_version: s.major_version,
                    minor_version: s.minor_version,
                },
            );
            proof {
                assert(offers@ =~= offers_of(self.services@, instance).subrange(0, i + 1));
            }
            i = i + 1;
        }
        self.offered = true;
        proof {
            assert(offers@ =~= offers_of(self.services@, instance));
        }
        offers
    }

    /// The index of the registered service that an inbound message is for:
    /// the first with its service identifier, when the message is for this
    /// process's instance.
    pub fn route(&self, message: &Message) -> (r: Option<usize>)
        ensures
            r matches Some(i) ==> {
                &&& i < self.spec_services().len()
                &&& self.spec_services()[i as int].id == message.header.service
                &&& message.header.instance == self.spec_instance()
                &&& forall|k: int| 0 <= k < i ==> self.spec_services()[k].id != message.header.service
            },
            r is None ==> message.header.instance != self.spec_instance() || forall|k: int|
                0 <= k < self.spec_services().len() ==> self.spec_services()[k].id
                    != message.header.service,
    {
        if message.header.instance != self.config.instance_id {
            return None;
        }
        let mut i: usize = 0;
        while i < self.services.len()
            invariant
                0 <= i <= self.services@.len(),
                message.header.instance == self.config.instance_id,
                forall|k: int| 0 <= k < i ==> self.services@[k].id != message.header.service,
            decreases self.services@.len() - i,
        {
            if self.services[i].id == message.header.service {
                return Some(i);
            }
            i = i + 1;
        }
        None
    }

    /// Handles `request` for the service at `index` with that service's
    /// state: see `dispatch`.
    pub fn handle<S: ServiceMethods>(&self, index: usize, service: S, request: &Message) -> (r: (
        S,
        Option<Message>,
    ))
        requires
            index < self.spec_services().len(),
        ensures
            entry_of(self.spec_services()[index as int].methods@, request.header.method) is None
                ==> r.0 == service,
            entry_of(self.spec_services()[index as int].methods@, request.header.method) is None
                && request.header.message_type.spec_expects_reply() ==> (r.1 matches Some(m)
                && is_error_reply(m, request.header, ReturnCode::UnknownMethod)),
            entry_of(self.spec_services()[index as int].methods@, request.header.method) is None
                && !request.header.message_type.spec_expects_reply() ==> r.1 is None,
            entry_of(self.spec_services()[index as int].methods@, request.header.method) matches Some(
                e,
            ) && !e.shape.returns_value ==> r.1 is None,
            entry_of(self.spec_services()[index as int].methods@, request.header.method) matches Some(
                e,
            ) && e.shape.returns_value && !S::spec_argument_decodes(
                request.header.method,
                request.payload@,
            ) ==> r.0 == service && (r.1 matches Some(m) && is_error_reply(
                m,
                request.header,
                ReturnCode::MalformedMessage,
            )),
    {
        dispatch(&self.services[index].methods, service, request)
    }
}

} // verus!
