//! The client request engine: the decisions of a synchronous call over an
//! asynchronous transport, as a state machine. The embedding program runs
//! the transport and the timer; it hands each event to the engine and carries
//! out what the engine answers.
use vstd::prelude::*;

use crate::codec::{law_round_trip, FromPayload, ToPayload};
use crate::config::VsomeIpConfig;
use crate::error::SmipError;
use crate::message::{blank_header, Header, Message, Payload};
use crate::primitives::{InstanceId, MajorVersion, MessageType, MethodId, MinorVersion, ServiceId};

verus! {

/// The state of a client engine.
pub struct ClientModel {
    /// The target service and instance.
    pub service: ServiceId,
    pub instance: InstanceId,
    /// The readiness latch: set once the target was reported available, and
    /// never reset.
    pub available: bool,
    /// The method of the outstanding call, if one is outstanding.
    pub pending: Option<MethodId>,
    /// Requests held back until the target is available, oldest first.
    pub queued: Seq<Message>,
}

/// A message with header `h` is addressed to (or comes from) the target.
pub open spec fn targets(m: ClientModel, h: Header) -> bool {
    h.service == m.service && h.instance == m.instance
}

/// The engine after a request was submitted.
pub open spec fn after_submit(m: ClientModel, request: Message) -> ClientModel {
    if !targets(m, request.header) {
        m
    } else if m.available {
        ClientModel { pending: Some(request.header.method), ..m }
    } else {
        ClientModel { pending: Some(request.header.method), queued: m.queued.push(request), ..m }
    }
}

/// What goes on the wire when a request is submitted: the request itself if
/// the target is available, else nothing.
pub open spec fn submit_output(m: ClientModel, request: Message) -> Seq<Message> {
    if targets(m, request.header) && m.available {
        seq![request]
    } else {
        Seq::empty()
    }
}

/// An availability report that sets the readiness latch.
pub open spec fn sets_latch(
    m: ClientModel,
    service: ServiceId,
    instance: InstanceId,
    is_available: bool,
) -> bool {
    is_available && service == m.service && instance == m.instance && !m.available
}

/// The engine after an availability report.
pub open spec fn after_availability(
    m: ClientModel,
    service: ServiceId,
    instance: InstanceId,
    is_available: bool,
) -> ClientModel {
    if sets_latch(m, service, instance, is_available) {
        ClientModel { available: true, queued: Seq::empty(), ..m }
    } else {
        m
    }
}

/// What goes on the wire on an availability report: everything held back,
/// in order, when the readiness latch is set.
pub open spec fn availability_output(
    m: ClientModel,
    service: ServiceId,
    instance: InstanceId,
    is_available: bool,
) -> Seq<Message> {
    if sets_latch(m, service, instance, is_available) {
        m.queued
    } else {
        Seq::empty()
    }
}

/// An inbound message answers the outstanding call: a response from the
/// target for the pending method.
pub open spec fn answers(m: ClientModel, h: Header) -> bool {
    &&& m.pending == Some(h.method)
    &&& h.message_type == MessageType::Response
    &&& targets(m, h)
}

/// The engine after an inbound message.
pub open spec fn after_message(m: ClientModel, h: Header) -> ClientModel {
    if answers(m, h) {
        ClientModel { pending: None, ..m }
    } else {
        m
    }
}

/// The engine after the response timeout expired.
pub open spec fn after_timeout(m: ClientModel) -> ClientModel {
    ClientModel { pending: None, ..m }
}

/// The header of the request for `method` of the target.
pub open spec fn request_header(service: ServiceId, instance: InstanceId, method: MethodId) -> Header {
    Header { service, instance, method, ..blank_header(true, MessageType::Request) }
}

/// The request engine of one client, bound to one service instance.
pub struct Client {
    service: ServiceId,
    instance: InstanceId,
    major_version: MajorVersion,
    minor_version: MinorVersion,
    available: bool,
    pending: Option<MethodId>,
    queued: Vec<Message>,
}

impl View for Client {
    type V = ClientModel;

    closed spec fn view(&self) -> ClientModel {
        ClientModel {
            service: self.service,
            instance: self.instance,
            available: self.available,
            pending: self.pending,
            queued: self.queued@,
        }
    }
}

impl Client {
    /// An engine for the given service instance: readiness latch clear, no call
    /// outstanding, nothing held back.
    pub fn new(
        service: ServiceId,
        instance: InstanceId,
        major_version: MajorVersion,
        minor_version: MinorVersion,
    ) -> (r: Client)
        ensures
            r@ == (ClientModel {
                service,
                instance,
                available: false,
                pending: None,
                queued: Seq::empty(),
            }),
            r.major_version() == major_version,
            r.minor_version() == minor_version,
    {
        Client {
            service,
            instance,
            major_version,
            minor_version,
            available: false,
            pending: None,
            queued: Vec::new(),
        }
    }

    /// An engine for the one service that `config` names, on the config's
    /// instance; `None` unless the config names exactly one service.
    pub fn from_config(config: &VsomeIpConfig) -> (r: Option<Client>)
        ensures
            config.services@.len() != 1 ==> r is None,
            config.services@.len() == 1 ==> (r matches Some(e) && e@ == (ClientModel {
                service: config.services@[0].id,
                instance: config.instance_id,
                available: false,
                pending: None,
                queued: Seq::empty(),
            }) && e.major_version() == config.services@[0].major_version && e.minor_version()
                == config.services@[0].minor_version),
    {
        if config.services.len() != 1 {
            return None;
        }
        let s = config.services[0];
        Some(Client::new(s.id, config.instance_id, s.major_version, s.minor_version))
    }

    pub closed spec fn major_version(&self) -> MajorVersion {
        self.major_version
    }

    pub closed spec fn minor_version(&self) -> MinorVersion {
        self.minor_version
    }

    pub fn service_id(&self) -> (r: ServiceId)
        ensures
            r == self@.service,
    {
        self.service
    }

    pub fn instance_id(&self) -> (r: InstanceId)
        ensures
            r == self@.instance,
    {
        self.instance
    }

    pub fn get_major_version(&self) -> (r: MajorVersion)
        ensures
            r == self.major_version(),
    {
        self.major_version
    }

    pub fn get_minor_version(&self) -> (r: MinorVersion)
        ensures
            r == self.minor_version(),
    {
        self.minor_version
    }

    /// Whether the readiness latch is set.
    pub fn is_available(&self) -> (r: bool)
        ensures
            r == self@.available,
    {
        self.available
    }

    /// The method of the outstanding call.
    pub fn pending(&self) -> (r: Option<MethodId>)
        ensures
            r == self@.pending,
    {
        self.pending
    }

    /// The number of requests held back.
    pub fn queued_len(&self) -> (r: usize)
        ensures
            r == self@.queued.len(),
    {
        self.queued.len()
    }

    /// The request that calls `method_id` of the target with `data` as its
    /// argument.
    pub fn build_request<T: ToPayload>(&self, method_id: MethodId, data: &T) -> (r: Result<
        Message,
        SmipError,
    >)
        ensures
            r matches Ok(m) && m.header == request_header(self@.service, self@.instance, method_id)
                && m.payload@ == T::encoding(data@),
    {
        let bytes = data.to_payload()?;
        let mut message = Message::request(true);
        message.set_service(self.service);
        message.set_instance(self.instance);
        message.set_method(method_id);
        message.set_payload(&Payload::with_data(bytes.as_slice()));
        Ok(message)
    }

    /// Submits a request and makes its method the outstanding call. It goes
    /// on the wire at once if the target is available, else it is held back
    /// until then. A request for another service instance is dropped.
    pub fn submit(&mut self, request: Message) -> (r: Vec<Message>)
        ensures
            final(self)@ == after_submit(old(self)@, request),
            r@ == submit_output(old(self)@, request),
            final(self).major_version() == old(self).major_version(),
            final(self).minor_version() == old(self).minor_version(),
    {
        let mut out: Vec<Message> = Vec::new();
        if request.header.service != self.service || request.header.instance != self.instance {
            return out;
        }
        self.pending = Some(request.header.method);
        if self.available {
            out.push(request);
        } else {
            self.queued.push(request);
        }
        proof {
            if old(self)@.available {
                assert(out@ =~= submit_output(old(self)@, request));
            }
        }
        out
    }

    /// Takes an availability report. The first report that the target is
    /// available sets the readiness latch for good and releases what was held back.
    pub fn on_availability(&mut self, service: ServiceId, instance: InstanceId, is_available: bool) -> (r:
        Vec<Message>)
        ensures
            final(self)@ == after_availability(old(self)@, service, instance, is_available),
            r@ == availability_output(old(self)@, service, instance, is_available),
            final(self).major_version() == old(self).major_version(),
            final(self).minor_version() == old(self).minor_version(),
    {
        let mut out: Vec<Message> = Vec::new();
        if is_available && service == self.service && instance == self.instance && !self.available {
            self.available = true;
            std::mem::swap(&mut self.queued, &mut out);
        }
        out
    }

    /// Takes an inbound message. A response from the target for the pending
    /// method completes the call and is handed back; anything else is
    /// discarded and the call keeps waiting.
    pub fn on_message(&mut self, message: Message) -> (r: Option<Message>)
        ensures
            final(self)@ == after_message(old(self)@, message.header),
            answers(old(self)@, message.header) ==> r == Some(message),
            !answers(old(self)@, message.header) ==> r is None,
            final(self).major_version() == old(self).major_version(),
            final(self).minor_version() == old(self).minor_version(),
    {
        let h = message.header;
        let answered = match self.pending {
            Some(m) => m == h.method && h.message_type == MessageType::Response && h.service
                == self.service && h.instance == self.instance,
            None => false,
        };
        if answered {
            self.pending = None;
            Some(message)
        } else {
            None
        }
    }

    /// The response timeout expired: the outstanding call fails with
    /// `NoResponse` and the engine is ready for the next call.
    pub fn on_timeout(&mut self) -> (r: SmipError)
        ensures
            final(self)@ == after_timeout(old(self)@),
            r is NoResponse,
            final(self).major_version() == old(self).major_version(),
            final(self).minor_version() == old(self).minor_version(),
    {
        self.pending = None;
        SmipError::NoResponse
    }
}

/// A request submitted before the target is reported available stays off
/// the wire, and so do reports that do not concern the target or say it is
/// unavailable. The first report that the target is available releases the
/// held-back requests in order, the new one last; the response to it then
/// completes the call, and a reply payload that encodes `answer` decodes
/// (through `decode_reply`) to exactly `answer`.
pub proof fn law_send_waits_for_availability<R: FromPayload>(
    m: ClientModel,
    request: Message,
    other_service: ServiceId,
    other_instance: InstanceId,
    other_available: bool,
    response: Header,
    answer: R::V,
)
    requires
        R::representable(answer),
        !m.available,
        targets(m, request.header),
        !(other_available && other_service == m.service && other_instance == m.instance),
        response.service == request.header.service,
        response.instance == request.header.instance,
        response.method == request.header.method,
        response.message_type == MessageType::Response,
    ensures
        submit_output(m, request) == Seq::<Message>::empty(),
        availability_output(after_submit(m, request), other_service, other_instance, other_available)
            == Seq::<Message>::empty(),
        after_availability(after_submit(m, request), other_service, other_instance, other_available)
            == after_submit(m, request),
        availability_output(after_submit(m, request), m.service, m.instance, true) == m.queued.push(
            request,
        ),
        after_availability(after_submit(m, request), m.service, m.instance, true).available,
        answers(after_availability(after_submit(m, request), m.service, m.instance, true), response),
        after_message(
            after_availability(after_submit(m, request), m.service, m.instance, true),
            response,
        ).pending is None,
        R::decoding(R::encoding(answer)) == Some(answer),
{
    law_round_trip::<R>(answer);
}

/// The engine after submitting `requests` in order.
pub open spec fn after_submits(m: ClientModel, requests: Seq<Message>) -> ClientModel
    decreases requests.len(),
{
    if requests.len() == 0 {
        m
    } else {
        after_submit(after_submits(m, requests.drop_last()), requests.last())
    }
}

/// What goes on the wire while `requests` are submitted in order.
pub open spec fn submits_output(m: ClientModel, requests: Seq<Message>) -> Seq<Message>
    decreases requests.len(),
{
    if requests.len() == 0 {
        Seq::empty()
    } else {
        submits_output(m, requests.drop_last()) + submit_output(
            after_submits(m, requests.drop_last()),
            requests.last(),
        )
    }
}

proof fn lemma_submits_held(m: ClientModel, requests: Seq<Message>)
    requires
        !m.available,
        forall|i: int| 0 <= i < requests.len() ==> targets(m, #[trigger] requests[i].header),
    ensures
        submits_output(m, requests) == Seq::<Message>::empty(),
        after_submits(m, requests).queued == m.queued + requests,
        !after_submits(m, requests).available,
        after_submits(m, requests).service == m.service,
        after_submits(m, requests).instance == m.instance,
    decreases requests.len(),
{
    if requests.len() == 0 {
        assert(m.queued + requests =~= m.queued);
    } else {
        let front = requests.drop_last();
        assert forall|i: int| 0 <= i < front.len() implies targets(m, #[trigger] front[i].header) by {
            assert(front[i] == requests[i]);
        }
        lemma_submits_held(m, front);
        assert(targets(m, requests[requests.len() - 1].header));
        assert(m.queued + front.push(requests.last()) =~= m.queued + requests);
        assert(Seq::<Message>::empty() + Seq::<Message>::empty() =~= Seq::<Message>::empty());
    }
}

/// Any number of requests submitted while the target has not been reported
/// available stay off the wire, whatever availability reports that do not
/// concern the target or say it is unavailable come in between; the first
/// report that it is available releases all of them, after those held
/// before, in the order of submission, and the engine then sends at once.
pub proof fn law_held_requests_released_in_order(
    m: ClientModel,
    requests: Seq<Message>,
    other_service: ServiceId,
    other_instance: InstanceId,
    other_available: bool,
)
    requires
        !m.available,
        forall|i: int| 0 <= i < requests.len() ==> targets(m, #[trigger] requests[i].header),
        !(other_available && other_service == m.service && other_instance == m.instance),
    ensures
        submits_output(m, requests) == Seq::<Message>::empty(),
        availability_output(after_submits(m, requests), other_service, other_instance, other_available)
            == Seq::<Message>::empty(),
        after_availability(after_submits(m, requests), other_service, other_instance, other_available)
            == after_submits(m, requests),
        availability_output(after_submits(m, requests), m.service, m.instance, true) == m.queued
            + requests,
        after_availability(after_submits(m, requests), m.service, m.instance, true).available,
        after_availability(after_submits(m, requests), m.service, m.instance, true).queued
            == Seq::<Message>::empty(),
{
    lemma_submits_held(m, requests);
}

/// Once the timeout has failed a call, the engine keeps its readiness latch and its
/// queue, has no call outstanding, and a late response is discarded. A next
/// request to an available target goes on the wire at once and its response
/// completes it.
pub proof fn law_timeout_keeps_engine_usable(m: ClientModel, late: Header, next: Message, response: Header)
    requires
        targets(m, next.header),
        response.service == next.header.service,
        response.instance == next.header.instance,
        response.method == next.header.method,
        response.message_type == MessageType::Response,
    ensures
        after_timeout(m).pending is None,
        after_timeout(m).available == m.available,
        after_timeout(m).queued == m.queued,
        !answers(after_timeout(m), late),
        after_message(after_timeout(m), late) == after_timeout(m),
        m.available ==> submit_output(after_timeout(m), next) == seq![next],
        answers(after_submit(after_timeout(m), next), response),
        after_message(after_submit(after_timeout(m), next), response).pending is None,
{
}

/// A response that does not match the outstanding call (another method,
/// another instance, or not a response) leaves the call waiting.
pub proof fn law_mismatch_discarded(m: ClientModel, h: Header)
    requires
        m.pending is Some,
        m.pending != Some(h.method) || h.message_type != MessageType::Response || !targets(m, h),
    ensures
        after_message(m, h) == m,
        after_message(m, h).pending == m.pending,
{
}

/// The result that a response carries.
pub fn decode_reply<R: FromPayload>(response: &Message) -> (r: Result<R, SmipError>)
    ensures
        r is Ok <==> R::decoding(response.payload@) is Some,
        r matches Ok(v) ==> R::decoding(response.payload@) == Some(v@),
        r matches Err(e) ==> e is FromPayloadError,
{
    R::from_payload(response.payload.get_data())
}

} // verus!
