//! The method registry of a service and the rules that turn a typed method
//! into a byte-oriented message handler.
use vstd::prelude::*;

use crate::error::{RegistrationError, SmipError};
use crate::message::Message;
use crate::primitives::{MajorVersion, MethodId, MinorVersion, ServiceId};

verus! {

/// Wire behaviour of a method, fixed by its signature.
#[derive(Clone, Copy, Debug, PartialEq, Eq, Structural)]
pub struct MethodShape {
    /// The request payload carries one encoded argument.
    pub takes_argument: bool,
    /// The method answers with an encoded result; without one it is
    /// fire-and-forget.
    pub returns_value: bool,
}

/// One entry of the dispatch table.
#[derive(Clone, Copy, Debug, PartialEq, Eq, Structural)]
pub struct MethodEntry {
    pub id: MethodId,
    pub shape: MethodShape,
}

/// Whether some entry of `entries` has identifier `id`.
pub open spec fn has_method(entries: Seq<MethodEntry>, id: MethodId) -> bool {
    exists|i: int| 0 <= i < entries.len() && entries[i].id == id
}

/// No two entries share an identifier.
pub open spec fn unique_ids(entries: Seq<MethodEntry>) -> bool {
    forall|i: int, j: int|
        0 <= i < entries.len() && 0 <= j < entries.len() && i != j ==> entries[i].id
            != entries[j].id
}

/// The entry with identifier `id`, if any.
pub open spec fn entry_of(entries: Seq<MethodEntry>, id: MethodId) -> Option<MethodEntry> {
    if has_method(entries, id) {
        Some(entries[choose|i: int| 0 <= i < entries.len() && entries[i].id == id])
    } else {
        None
    }
}

/// The dispatch table of one service, filled at registration time.
pub struct MethodsBuilder {
    methods: Vec<MethodEntry>,
}

impl View for MethodsBuilder {
    type V = Seq<MethodEntry>;

    closed spec fn view(&self) -> Seq<MethodEntry> {
        self.methods@
    }
}

impl MethodsBuilder {
    #[verifier::type_invariant]
    spec fn inv(self) -> bool {
        unique_ids(self.methods@)
    }

    /// An empty table.
    pub fn new() -> (r: MethodsBuilder)
        ensures
            r@ == Seq::<MethodEntry>::empty(),
    {
        MethodsBuilder { methods: Vec::new() }
    }

    /// Whether a method with identifier `id` is registered.
    pub fn contains(&self, id: MethodId) -> (r: bool)
        ensures
            r == has_method(self@, id),
    {
        let mut i: usize = 0;
        while i < self.methods.len()
            invariant
                0 <= i <= self.methods@.len(),
                forall|k: int| 0 <= k < i ==> self.methods@[k].id != id,
            decreases self.methods@.len() - i,
        {
            if self.methods[i].id == id {
                return true;
            }
            i = i + 1;
        }
        false
    }

    /// Registers method `id` with the given shape. A second method with an
    /// identifier already present is refused and the table is left as it was.
    pub fn add_method(&mut self, id: MethodId, shape: MethodShape) -> (r: Result<
        (),
        RegistrationError,
    >)
        ensures
            has_method(old(self)@, id) ==> r == Err::<(), RegistrationError>(
                RegistrationError::DuplicateMethodId(id),
            ) && final(self)@ == old(self)@,
            !has_method(old(self)@, id) ==> r is Ok && final(self)@ == old(self)@.push(
                MethodEntry { id, shape },
            ),
            unique_ids(final(self)@),
    {
        proof {
            use_type_invariant(&*self);
        }
        if self.contains(id) {
            return Err(RegistrationError::DuplicateMethodId(id));
        }
        let mut methods = self.entries();
        methods.push(MethodEntry { id, shape });
        self.methods = methods;
        Ok(())
    }

    /// The entry registered under `id`.
    pub fn lookup(&self, id: MethodId) -> (r: Option<MethodEntry>)
        ensures
            r == entry_of(self@, id),
    {
        proof {
            use_type_invariant(self);
        }
        let mut i: usize = 0;
        while i < self.methods.len()
            invariant
                0 <= i <= self.methods@.len(),
                forall|k: int| 0 <= k < i ==> self.methods@[k].id != id,
                unique_ids(self.methods@),
            decreases self.methods@.len() - i,
        {
            if self.methods[i].id == id {
                let e = self.methods[i];
                proof {
                    let c = choose|k: int| 0 <= k < self@.len() && self@[k].id == id;
                    assert(c == i as int);
                }
                return Some(e);
            }
            i = i + 1;
        }
        None
    }

    /// The registered entries, in order of registration.
    pub fn entries(&self) -> (r: Vec<MethodEntry>)
        ensures
            r@ == self@,
            unique_ids(r@),
    {
        proof {
            use_type_invariant(self);
        }
        let mut r: Vec<MethodEntry> = Vec::new();
        let mut i: usize = 0;
        while i < self.methods.len()
            invariant
                0 <= i <= self.methods@.len(),
                r@ == self.methods@.subrange(0, i as int),
            decreases self.methods@.len() - i,
        {
            r.push(self.methods[i]);
            i = i + 1;
        }
        proof {
            assert(r@ =~= self.methods@);
        }
        r
    }
}

/// Once a method is registered its identifier is taken: the table that a
/// successful `add_method` of `id` leaves has a method `id`, so by the
/// contract of `add_method` every further method with that identifier is
/// refused, whatever its shape; and in a table without repeated identifiers
/// looking `id` up finds the entry that was added.
pub proof fn law_duplicate_id_refused(entries: Seq<MethodEntry>, id: MethodId, first: MethodShape)
    requires
        !has_method(entries, id),
    ensures
        has_method(entries.push(MethodEntry { id, shape: first }), id),
        entry_of(entries.push(MethodEntry { id, shape: first }), id) == Some(
            MethodEntry { id, shape: first },
        ) || !unique_ids(entries.push(MethodEntry { id, shape: first })),
{
    let e = entries.push(MethodEntry { id, shape: first });
    assert(e[entries.len() as int].id == id);
    if unique_ids(e) {
        let c = choose|i: int| 0 <= i < e.len() && e[i].id == id;
        assert(c == entries.len() as int);
    }
}

/// Identity and version of a service interface.
pub trait ServiceDefinition {
    /// The service identifier; an implementation whose `id` returns another
    /// value must state it here.
    open spec fn spec_id() -> ServiceId {
        0
    }

    open spec fn spec_major() -> MajorVersion {
        0
    }

    open spec fn spec_minor() -> MinorVersion {
        0
    }

    fn id() -> (r: ServiceId)
        ensures
            r == Self::spec_id(),
    ;

    fn major_version() -> (r: MajorVersion)
        ensures
            r == Self::spec_major(),
    ;

    fn minor_version() -> (r: MinorVersion)
        ensures
            r == Self::spec_minor(),
    ;
}

/// The methods of a service type, as registered in its dispatch table and as
/// run on its state.
pub trait ServiceMethods: Sized {
    /// The entries of the service's methods, in order of registration; an
    /// implementation that registers any must state them here.
    open spec fn spec_methods() -> Seq<MethodEntry> {
        Seq::empty()
    }

    /// Whether the request payload `payload` holds a well-formed argument for
    /// method `id`. Left at its default, every payload counts as well formed
    /// and `call` promises nothing about malformed ones.
    open spec fn spec_argument_decodes(id: MethodId, payload: Seq<u8>) -> bool {
        true
    }

    /// Registers every method of the service: the registration succeeds
    /// exactly when no identifier would then be used twice, and on success
    /// the table gains the service's entries in order.
    fn register_methods(builder: &mut MethodsBuilder) -> (r: Result<(), RegistrationError>)
        ensures
            r is Ok <==> unique_ids(old(builder)@ + Self::spec_methods()),
            r is Ok ==> final(builder)@ == old(builder)@ + Self::spec_methods(),
    ;

    /// Runs registered method `id` on `request`; hands the state back with
    /// the handler's outcome. A request whose argument does not decode does
    /// not reach the handler.
    fn call(self, id: MethodId, request: &Message) -> (r: (Self, Result<Option<Message>, SmipError>))
        ensures
            !Self::spec_argument_decodes(id, request.payload@) ==> r.0 == self && (r.1 matches Err(
                e,
            ) && e is FromPayloadError),
    ;
}

} // verus!
