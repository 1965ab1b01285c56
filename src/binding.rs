//! The method binding generator's rules. A service implementation block is
//! described by plain values (what its methods look like and how they are
//! tagged); from that description the rules decide, or reject, the dispatch
//! entry of every tagged method.
use vstd::prelude::*;
use vstd::string::StrSliceExecFns;

use crate::primitives::{MajorVersion, MethodId, MinorVersion, ServiceId, DEFAULT_MAJOR, DEFAULT_MINOR};
use crate::registry::MethodShape;

verus! {

/// The value on the right of `name = value` in a method attribute.
#[derive(Clone, Debug)]
pub enum AttrValue {
    /// An integer literal, by its base-10 digits.
    Int(String),
    /// Another literal (a string, a float, ...).
    OtherLiteral,
    /// Any other expression.
    OtherExpr,
}

/// The shape of a method attribute's arguments.
#[derive(Clone, Debug)]
pub enum AttrMeta {
    /// No parenthesised list (`#[name]` or `#[name = value]`).
    NoList,
    /// A list whose content is not a single `name = value` item.
    OtherList,
    /// A list `(name = value)`; `name` is absent when the path is not one
    /// identifier.
    NameValue { name: Option<String>, value: AttrValue },
}

/// One attribute on a method.
#[derive(Clone, Debug)]
pub struct AttributeDecl {
    /// The attribute's path, when it is a single identifier.
    pub name: Option<String>,
    pub meta: AttrMeta,
}

/// A method of a service implementation block.
#[derive(Clone, Debug)]
pub struct MethodDecl {
    pub name: String,
    pub attributes: Vec<AttributeDecl>,
    /// The first input is a `self` receiver.
    pub has_receiver: bool,
    /// The number of inputs, the receiver included.
    pub n_inputs: usize,
    pub n_generics: usize,
    pub has_where_clause: bool,
    /// The method declares a return type.
    pub has_return: bool,
}

/// An item of a service implementation block.
#[derive(Clone, Debug)]
pub enum ImplItemDecl {
    Method(MethodDecl),
    /// A constant, a type, a macro call, ...
    Other,
}

/// A service implementation block.
#[derive(Clone, Debug)]
pub struct ImplDecl {
    /// The block implements a trait.
    pub is_trait_impl: bool,
    pub n_generics: usize,
    pub has_where_clause: bool,
    pub items: Vec<ImplItemDecl>,
}

/// Why a declaration cannot be bound.
#[derive(Clone, Copy, Debug, PartialEq, Eq, Structural)]
pub enum BindingError {
    TraitImpl,
    GenericImpl,
    WhereClauseImpl,
    NonMethodItem,
    GenericMethod,
    WhereClauseMethod,
    MissingReceiver,
    /// More than one argument besides the receiver.
    TooManyArguments,
    /// The attribute is not of the form `(name = value)`.
    MalformedAttribute,
    /// The attribute's name is not `id`.
    ExpectedId,
    /// The id is not an integer literal.
    IdNotANumber,
    /// The id literal does not fit in a method identifier.
    IdOutOfRange,
    /// A second method with this identifier.
    DuplicateMethodId(MethodId),
}

/// The dispatch entry generated for a method.
#[derive(Clone, Debug)]
pub struct MethodBinding {
    pub name: String,
    pub id: MethodId,
    pub shape: MethodShape,
}

/// A generated entry as a value.
pub struct BindingModel {
    pub name: Seq<char>,
    pub id: MethodId,
    pub shape: MethodShape,
}

impl View for MethodBinding {
    type V = BindingModel;

    open spec fn view(&self) -> BindingModel {
        BindingModel { name: self.name@, id: self.id, shape: self.shape }
    }
}

/// The name of the attribute that tags a method with its identifier.
pub open spec fn method_attr_name() -> Seq<char> {
    "smip_method"@
}

pub open spec fn is_digit(c: char) -> bool {
    '0' <= c && c <= '9'
}

/// The number that a string of decimal digits denotes.
pub open spec fn decimal_value(s: Seq<char>) -> nat
    decreases s.len(),
{
    if s.len() == 0 {
        0
    } else {
        decimal_value(s.drop_last()) * 10 + (s.last() as nat - '0' as nat) as nat
    }
}

/// The method identifier that a digit string denotes, if it is one.
pub open spec fn parse_id(s: Seq<char>) -> Option<MethodId> {
    if s.len() > 0 && (forall|i: int| 0 <= i < s.len() ==> is_digit(#[trigger] s[i]))
        && decimal_value(s) <= u16::MAX {
        Some(decimal_value(s) as MethodId)
    } else {
        None
    }
}

/// The identifier that a method attribute sets.
pub open spec fn attr_id(meta: AttrMeta) -> Result<MethodId, BindingError> {
    match meta {
        AttrMeta::NameValue { name, value } => {
            if !(name matches Some(n) && n@ == "id"@) {
                Err(BindingError::ExpectedId)
            } else {
                match value {
                    AttrValue::Int(digits) => match parse_id(digits@) {
                        Some(id) => Ok(id),
                        None => Err(BindingError::IdOutOfRange),
                    },
                    _ => Err(BindingError::IdNotANumber),
                }
            }
        },
        _ => Err(BindingError::MalformedAttribute),
    }
}

/// Whether an attribute is the one that tags a method.
pub open spec fn is_method_attr(a: AttributeDecl) -> bool {
    a.name matches Some(n) && n@ == method_attr_name()
}

/// The index of the first attribute that tags a method.
pub open spec fn method_attr_index(attrs: Seq<AttributeDecl>) -> Option<int> {
    if exists|i: int| 0 <= i < attrs.len() && is_method_attr(#[trigger] attrs[i]) {
        Some(
            choose|i: int|
                {
                    &&& 0 <= i < attrs.len()
                    &&& is_method_attr(#[trigger] attrs[i])
                    &&& forall|j: int| 0 <= j < i ==> !is_method_attr(#[trigger] attrs[j])
                },
        )
    } else {
        None
    }
}

/// The rules on a tagged method's signature.
pub open spec fn method_check(m: MethodDecl) -> Result<(), BindingError> {
    if m.n_generics > 0 {
        Err(BindingError::GenericMethod)
    } else if m.has_where_clause {
        Err(BindingError::WhereClauseMethod)
    } else if !m.has_receiver {
        Err(BindingError::MissingReceiver)
    } else if !(m.n_inputs == 1 || m.n_inputs == 2) {
        Err(BindingError::TooManyArguments)
    } else {
        Ok(())
    }
}

/// The rules on the implementation block itself.
pub open spec fn impl_check(d: ImplDecl) -> Result<(), BindingError> {
    if d.is_trait_impl {
        Err(BindingError::TraitImpl)
    } else if d.n_generics > 0 {
        Err(BindingError::GenericImpl)
    } else if d.has_where_clause {
        Err(BindingError::WhereClauseImpl)
    } else {
        Ok(())
    }
}

/// The wire shape of a method: an argument when it has an input besides the
/// receiver, a reply when it returns something.
pub open spec fn shape_of(m: MethodDecl) -> MethodShape {
    MethodShape { takes_argument: m.n_inputs != 1, returns_value: m.has_return }
}

/// Whether one of `bound` already has identifier `id`.
pub open spec fn id_taken(bound: Seq<BindingModel>, id: MethodId) -> bool {
    exists|j: int| 0 <= j < bound.len() && (#[trigger] bound[j]).id == id
}

/// The entries generated for `items`, after `bound` were generated for the
/// items before them.
pub open spec fn bind_items(items: Seq<ImplItemDecl>, bound: Seq<BindingModel>) -> Result<
    Seq<BindingModel>,
    BindingError,
>
    decreases items.len(),
{
    if items.len() == 0 {
        Ok(bound)
    } else {
        match items[0] {
            ImplItemDecl::Other => Err(BindingError::NonMethodItem),
            ImplItemDecl::Method(m) => match method_attr_index(m.attributes@) {
                None => bind_items(items.drop_first(), bound),
                Some(k) => match method_check(m) {
                    Err(e) => Err(e),
                    Ok(_) => match attr_id(m.attributes@[k].meta) {
                        Err(e) => Err(e),
                        Ok(id) => if id_taken(bound, id) {
                            Err(BindingError::DuplicateMethodId(id))
                        } else {
                            bind_items(
                                items.drop_first(),
                                bound.push(BindingModel { name: m.name@, id, shape: shape_of(m) }),
                            )
                        },
                    },
                },
            },
        }
    }
}

/// The entries generated for a whole implementation block.
pub open spec fn bind_impl(d: ImplDecl) -> Result<Seq<BindingModel>, BindingError> {
    match impl_check(d) {
        Err(e) => Err(e),
        Ok(_) => bind_items(d.items@, Seq::empty()),
    }
}


/// No two of `bound` share an identifier.
pub open spec fn distinct_ids(bound: Seq<BindingModel>) -> bool {
    forall|i: int, j: int|
        0 <= i < bound.len() && 0 <= j < bound.len() && i != j ==> bound[i].id != bound[j].id
}

proof fn lemma_bind_items_distinct(items: Seq<ImplItemDecl>, bound: Seq<BindingModel>)
    requires
        distinct_ids(bound),
    ensures
        bind_items(items, bound) matches Ok(s) ==> distinct_ids(s),
    decreases items.len(),
{
    if items.len() > 0 {
        if let ImplItemDecl::Method(m) = items[0] {
            match method_attr_index(m.attributes@) {
                None => lemma_bind_items_distinct(items.drop_first(), bound),
                Some(k) => {
                    if method_check(m) is Ok {
                        if let Ok(id) = attr_id(m.attributes@[k].meta) {
                            if !id_taken(bound, id) {
                                let next = bound.push(
                                    BindingModel { name: m.name@, id, shape: shape_of(m) },
                                );
                                assert forall|i: int, j: int|
                                    0 <= i < next.len() && 0 <= j < next.len() && i != j implies next[i].id
                                    != next[j].id by {
                                    if i < bound.len() && j < bound.len() {
                                    } else if i < bound.len() {
                                        assert(bound[i].id == next[i].id);
                                    } else {
                                        assert(bound[j].id == next[j].id);
                                    }
                                }
                                lemma_bind_items_distinct(items.drop_first(), next);
                            }
                        }
                    }
                },
            }
        }
    }
}

/// The entries generated for a block never share an identifier: a block
/// with two tagged methods of one identifier is rejected, not bound.
pub proof fn law_generated_ids_distinct(d: ImplDecl)
    ensures
        bind_impl(d) matches Ok(s) ==> distinct_ids(s),
{
    lemma_bind_items_distinct(d.items@, Seq::empty());
}

/// The arguments of the service attribute: identifier, and versions that
/// default to 0.
#[derive(Clone, Copy, Debug, PartialEq, Eq, Structural)]
pub struct ServiceArgs {
    pub id: ServiceId,
    pub major_version: Option<MajorVersion>,
    pub minor_version: Option<MinorVersion>,
}

/// Identifier and version of a service interface.
#[derive(Clone, Copy, Debug, PartialEq, Eq, Structural)]
pub struct ServiceIdentity {
    pub id: ServiceId,
    pub major_version: MajorVersion,
    pub minor_version: MinorVersion,
}

/// The identity that a service attribute declares; an absent version is 0.
pub fn expand_service_impl(args: &ServiceArgs) -> (r: ServiceIdentity)
    ensures
        r.id == args.id,
        r.major_version == match args.major_version {
            Some(v) => v,
            None => DEFAULT_MAJOR,
        },
        r.minor_version == match args.minor_version {
            Some(v) => v,
            None => DEFAULT_MINOR,
        },
{
    let major_version = match args.major_version {
        Some(v) => v,
        None => DEFAULT_MAJOR,
    };
    let minor_version = match args.minor_version {
        Some(v) => v,
        None => DEFAULT_MINOR,
    };
    ServiceIdentity { id: args.id, major_version, minor_version }
}

proof fn lemma_decimal_prefix_le(s: Seq<char>, k: int)
    requires
        0 <= k <= s.len(),
        forall|i: int| 0 <= i < s.len() ==> is_digit(#[trigger] s[i]),
    ensures
        decimal_value(s.subrange(0, k)) <= decimal_value(s),
    decreases s.len() - k,
{
    if k < s.len() {
        let t = s.drop_last();
        assert(t.subrange(0, k) =~= s.subrange(0, k));
        assert forall|i: int| 0 <= i < t.len() implies is_digit(#[trigger] t[i]) by {
            assert(t[i] == s[i]);
        }
        lemma_decimal_prefix_le(t, k);
    } else {
        assert(s.subrange(0, k) =~= s);
    }
}

/// The method identifier that a string of decimal digits denotes: `None`
/// when it is empty, holds another character, or exceeds the identifier
/// range.
pub fn parse_method_id(digits: &str) -> (r: Option<MethodId>)
    ensures
        r == parse_id(digits@),
{
    let n = digits.unicode_len();
    if n == 0 {
        return None;
    }
    let mut v: u32 = 0;
    let mut too_large = false;
    let mut i: usize = 0;
    while i < n
        invariant
            n == digits@.len(),
            0 <= i <= n,
            forall|k: int| 0 <= k < i ==> is_digit(#[trigger] digits@[k]),
            !too_large ==> v == decimal_value(digits@.subrange(0, i as int)) && v <= u16::MAX,
            too_large ==> exists|j: int|
                0 <= j <= i && decimal_value(#[trigger] digits@.subrange(0, j)) > u16::MAX,
        decreases n - i,
    {
        let c = digits.get_char(i);
        if !('0' <= c && c <= '9') {
            return None;
        }
        proof {
            let p = digits@.subrange(0, i as int + 1);
            assert(p.drop_last() =~= digits@.subrange(0, i as int));
            assert(p.last() == c);
        }
        if !too_large {
            let d = (c as u32) - ('0' as u32);
            v = v * 10 + d;
            if v > 65535 {
                too_large = true;
                proof {
                    assert(decimal_value(digits@.subrange(0, i as int + 1)) > u16::MAX);
                }
            }
        }
        i = i + 1;
    }
    if too_large {
        proof {
            let j = choose|j: int|
                0 <= j <= n && decimal_value(#[trigger] digits@.subrange(0, j)) > u16::MAX;
            lemma_decimal_prefix_le(digits@, j);
        }
        return None;
    }
    proof {
        assert(digits@.subrange(0, n as int) =~= digits@);
    }
    Some(v as u16)
}

/// Whether an attribute is the one that tags a method.
pub fn is_method_attribute(a: &AttributeDecl) -> (r: bool)
    ensures
        r == is_method_attr(*a),
{
    match &a.name {
        Some(n) => *n == "smip_method".to_owned(),
        None => false,
    }
}

/// The index of the first attribute of `method` that tags it.
pub fn extract_method_attr(method: &MethodDecl) -> (r: Option<usize>)
    ensures
        r matches Some(i) ==> i < method.attributes@.len() && method_attr_index(
            method.attributes@,
        ) == Some(i as int),
        r is None ==> method_attr_index(method.attributes@) is None,
{
    let attrs = &method.attributes;
    let mut i: usize = 0;
    while i < attrs.len()
        invariant
            attrs@ == method.attributes@,
            0 <= i <= attrs@.len(),
            forall|j: int| 0 <= j < i ==> !is_method_attr(#[trigger] attrs@[j]),
        decreases attrs@.len() - i,
    {
        if is_method_attribute(&attrs[i]) {
            proof {
                assert(is_method_attr(attrs@[i as int]));
                let ii = i as int;
                assert({
                    &&& 0 <= ii < attrs@.len()
                    &&& is_method_attr(attrs@[ii])
                    &&& forall|j: int| 0 <= j < ii ==> !is_method_attr(#[trigger] attrs@[j])
                });
                let c = choose|k: int|
                    {
                        &&& 0 <= k < attrs@.len()
                        &&& is_method_attr(#[trigger] attrs@[k])
                        &&& forall|j: int| 0 <= j < k ==> !is_method_attr(#[trigger] attrs@[j])
                    };
                assert(c == i as int);
            }
            return Some(i);
        }
        i = i + 1;
    }
    None
}

/// The identifier that a method attribute sets: it must read
/// `(id = <integer>)` with an integer that fits a method identifier.
pub fn extract_method_id(meta: &AttrMeta) -> (r: Result<MethodId, BindingError>)
    ensures
        r == attr_id(*meta),
{
    match meta {
        AttrMeta::NameValue { name, value } => {
            let is_id = match name {
                Some(n) => *n == "id".to_owned(),
                None => false,
            };
            if !is_id {
                return Err(BindingError::ExpectedId);
            }
            match value {
                AttrValue::Int(digits) => match parse_method_id(digits.as_str()) {
                    Some(id) => Ok(id),
                    None => Err(BindingError::IdOutOfRange),
                },
                _ => Err(BindingError::IdNotANumber),
            }
        },
        _ => Err(BindingError::MalformedAttribute),
    }
}

/// The rules on a tagged method: no generics, no where clause, a receiver,
/// and at most one argument besides it.
pub fn check_valid_method(method: &MethodDecl) -> (r: Result<(), BindingError>)
    ensures
        r == method_check(*method),
{
    if method.n_generics > 0 {
        return Err(BindingError::GenericMethod);
    }
    if method.has_where_clause {
        return Err(BindingError::WhereClauseMethod);
    }
    if !method.has_receiver {
        return Err(BindingError::MissingReceiver);
    }
    if !(method.n_inputs == 1 || method.n_inputs == 2) {
        return Err(BindingError::TooManyArguments);
    }
    Ok(())
}

/// The rules on the block: an inherent implementation, without generics or
/// where clause.
pub fn check_valid_impl(decl: &ImplDecl) -> (r: Result<(), BindingError>)
    ensures
        r == impl_check(*decl),
{
    if decl.is_trait_impl {
        return Err(BindingError::TraitImpl);
    }
    if decl.n_generics > 0 {
        return Err(BindingError::GenericImpl);
    }
    if decl.has_where_clause {
        return Err(BindingError::WhereClauseImpl);
    }
    Ok(())
}

/// The dispatch entry of a tagged method: a method with only its receiver
/// takes no argument; one without a return type is fire-and-forget.
pub fn derive_service_method(method: &MethodDecl, id: MethodId) -> (r: MethodBinding)
    ensures
        r@ == (BindingModel { name: method.name@, id, shape: shape_of(*method) }),
{
    MethodBinding {
        name: method.name.clone(),
        id,
        shape: MethodShape {
            takes_argument: method.n_inputs != 1,
            returns_value: method.has_return,
        },
    }
}

/// The models of a sequence of entries.
pub open spec fn models(v: Seq<MethodBinding>) -> Seq<BindingModel> {
    v.map_values(|b: MethodBinding| b@)
}

fn id_in(bound: &Vec<MethodBinding>, id: MethodId) -> (r: bool)
    ensures
        r == id_taken(models(bound@), id),
{
    let mut j: usize = 0;
    while j < bound.len()
        invariant
            0 <= j <= bound@.len(),
            forall|k: int| 0 <= k < j ==> bound@[k].id != id,
        decreases bound@.len() - j,
    {
        if bound[j].id == id {
            proof {
                assert(models(bound@)[j as int].id == id);
            }
            return true;
        }
        j = j + 1;
    }
    proof {
        assert forall|k: int| 0 <= k < models(bound@).len() implies (#[trigger] models(
            bound@,
        )[k]).id != id by {
            assert(models(bound@)[k] == bound@[k]@);
        }
    }
    false
}

/// The dispatch entries of an implementation block, in order, one per
/// tagged method; untagged methods are skipped. The block, each tagged
/// method and each identifier are checked; the first violation is the
/// error, and a second method with an identifier already used is one.
pub fn expand_methods_impl(decl: &ImplDecl) -> (r: Result<Vec<MethodBinding>, BindingError>)
    ensures
        bind_impl(*decl) matches Ok(s) ==> (r matches Ok(v) && models(v@) == s),
        bind_impl(*decl) matches Err(e) ==> (r matches Err(e2) && e2 == e),
{
    check_valid_impl(decl)?;
    let items = &decl.items;
    let mut out: Vec<MethodBinding> = Vec::new();
    let mut i: usize = 0;
    proof {
        assert(items@.subrange(0, items@.len() as int) =~= items@);
        assert(models(out@) =~= Seq::<BindingModel>::empty());
    }
    while i < items.len()
        invariant
            0 <= i <= items@.len(),
            impl_check(*decl) is Ok,
            items == decl.items,
            bind_impl(*decl) == bind_items(
                items@.subrange(i as int, items@.len() as int),
                models(out@),
            ),
        decreases items@.len() - i,
    {
        let ghost rest = items@.subrange(i as int, items@.len() as int);
        proof {
            assert(rest[0] == items@[i as int]);
            assert(rest.drop_first() =~= items@.subrange(i as int + 1, items@.len() as int));
        }
        match &items[i] {
            ImplItemDecl::Other => {
                return Err(BindingError::NonMethodItem);
            },
            ImplItemDecl::Method(method) => {
                match extract_method_attr(method) {
                    None => {},
                    Some(k) => {
                        check_valid_method(method)?;
                        let id = extract_method_id(&method.attributes[k].meta)?;
                        if id_in(&out, id) {
                            return Err(BindingError::DuplicateMethodId(id));
                        }
                        let b = derive_service_method(method, id);
                        let ghost before = models(out@);
                        out.push(b);
                        proof {
                            assert(models(out@) =~= before.push(b@));
                        }
                    },
                }
            },
        }
        i = i + 1;
    }
    Ok(out)
}

} // verus!
