//! The registration of an interface's methods and the client plan derived
//! from it.
use vstd::prelude::*;
use vstd::string::*;
use crate::request::texts_of;

verus! {

/// A declared parameter: its name and its type, as written in the
/// interface.
#[derive(Debug, Clone, PartialEq, Eq)]
pub struct Param {
    pub name: String,
    pub ty: String,
}

/// One method of a declared interface.
#[derive(Debug, Clone, PartialEq, Eq)]
pub struct MethodDescriptor {
    /// The method's identifier in the interface.
    pub local_name: String,
    /// The name sent on the wire.
    pub wire_name: String,
    /// Further wire names that the server also answers to.
    pub aliases: Vec<String>,
    /// The parameters in order, the metadata parameter excluded.
    pub params: Vec<Param>,
    /// The type of the session metadata parameter, if the method takes one.
    pub metadata: Option<String>,
    /// The declared result type.
    pub result_type: String,
    /// Whether `result_type` is an explicit asynchronous result override.
    pub has_async_result_override: bool,
}

/// The client side of one method: what a call site sends and what its
/// decoder produces.
#[derive(Debug, Clone, PartialEq, Eq)]
pub struct ClientMethod {
    /// The method's identifier in the client interface.
    pub name: String,
    /// The name sent on the wire.
    pub wire_name: String,
    /// The parameters whose values go on the wire, in order.
    pub params: Vec<Param>,
    /// The type of the metadata argument that the call takes and keeps
    /// off the wire, if any.
    pub metadata: Option<String>,
    /// The type that the call resolves to on success.
    pub result_type: String,
}

/// The views of a parameter list: (name, type) pairs.
pub open spec fn params_view(ps: Seq<Param>) -> Seq<(Seq<char>, Seq<char>)> {
    ps.map_values(|p: Param| (p.name@, p.ty@))
}

/// The view of an optional type name.
pub open spec fn opt_view(o: Option<String>) -> Option<Seq<char>> {
    match o {
        Some(s) => Some(s@),
        None => None,
    }
}

/// The result type of a method's client call: its own when it is an
/// explicit override, the interface's default otherwise.
pub open spec fn client_result_type(m: MethodDescriptor, default_result: Seq<char>) -> Seq<char> {
    if m.has_async_result_override {
        m.result_type@
    } else {
        default_result
    }
}

/// `c` is the client side of `m` in an interface whose default result type
/// is `default_result`.
pub open spec fn is_client_of(c: ClientMethod, m: MethodDescriptor, default_result: Seq<char>) -> bool {
    &&& c.name@ == m.local_name@
    &&& c.wire_name@ == m.wire_name@
    &&& params_view(c.params@) == params_view(m.params@)
    &&& opt_view(c.metadata) == opt_view(m.metadata)
    &&& c.result_type@ == client_result_type(m, default_result)
}

fn copy_params(ps: &Vec<Param>) -> (r: Vec<Param>)
    ensures
        params_view(r@) == params_view(ps@),
{
    let mut r: Vec<Param> = Vec::new();
    let mut i: usize = 0;
    while i < ps.len()
        invariant
            i <= ps.len(),
            params_view(r@) == params_view(ps@.take(i as int)),
        decreases ps.len() - i,
    {
        let ghost before = r@;
        let p = Param { name: ps[i].name.clone(), ty: ps[i].ty.clone() };
        r.push(p);
        proof {
            assert(r@ =~= before.push(p));
            assert(params_view(before.push(p)) =~= params_view(before).push((p.name@, p.ty@)));
            assert(params_view(ps@.take(i + 1)) =~= params_view(ps@.take(i as int)).push(
                (ps@[i as int].name@, ps@[i as int].ty@),
            ));
            assert(ps@.take(i + 1) =~= ps@.take(i as int).push(ps@[i as int]));
            assert(params_view(r@) =~= params_view(ps@.take(i + 1)));
        }
        i = i + 1;
    }
    assert(ps@.take(ps.len() as int) =~= ps@);
    r
}

fn copy_opt(o: &Option<String>) -> (r: Option<String>)
    ensures
        opt_view(r) == opt_view(*o),
{
    match o {
        Some(s) => Some(s.clone()),
        None => None,
    }
}

/// The client side of one method: same names and parameters, the metadata
/// parameter kept apart, and the result type resolved against the
/// interface's default.
pub fn plan_method(m: &MethodDescriptor, default_result: &str) -> (r: ClientMethod)
    ensures
        is_client_of(r, *m, default_result@),
{
    let result_type = if m.has_async_result_override {
        m.result_type.clone()
    } else {
        String::from_str(default_result)
    };
    ClientMethod {
        name: m.local_name.clone(),
        wire_name: m.wire_name.clone(),
        params: copy_params(&m.params),
        metadata: copy_opt(&m.metadata),
        result_type,
    }
}

/// The client side of every method of an interface, in declaration order.
pub fn plan_client(methods: &Vec<MethodDescriptor>, default_result: &str) -> (r: Vec<ClientMethod>)
    ensures
        r@.len() == methods@.len(),
        forall|i: int| 0 <= i < r@.len() ==> is_client_of(#[trigger] r@[i], methods@[i], default_result@),
{
    let mut r: Vec<ClientMethod> = Vec::new();
    let mut i: usize = 0;
    while i < methods.len()
        invariant
            i <= methods.len(),
            r@.len() == i,
            forall|j: int| 0 <= j < i ==> is_client_of(#[trigger] r@[j], methods@[j], default_result@),
        decreases methods.len() - i,
    {
        let c = plan_method(&methods[i], default_result);
        r.push(c);
        i = i + 1;
    }
    r
}

/// The names a method answers to on the wire: its wire name, then its
/// aliases.
pub open spec fn method_names(m: MethodDescriptor) -> Seq<Seq<char>> {
    seq![m.wire_name@] + texts_of(m.aliases@)
}

/// The names of all methods of an interface, in declaration order.
pub open spec fn interface_names(ms: Seq<MethodDescriptor>) -> Seq<Seq<char>>
    decreases ms.len(),
{
    if ms.len() == 0 {
        Seq::empty()
    } else {
        interface_names(ms.drop_last()) + method_names(ms.last())
    }
}

/// No two of the names occur twice.
pub open spec fn all_distinct(names: Seq<Seq<char>>) -> bool {
    forall|i: int, j: int| 0 <= i < j < names.len() ==> names[i] != names[j]
}

/// Copies every wire name and alias of the interface, in order.
fn collect_names(methods: &Vec<MethodDescriptor>) -> (r: Vec<String>)
    ensures
        texts_of(r@) == interface_names(methods@),
{
    let mut r: Vec<String> = Vec::new();
    let mut i: usize = 0;
    while i < methods.len()
        invariant
            i <= methods.len(),
            texts_of(r@) == interface_names(methods@.take(i as int)),
        decreases methods.len() - i,
    {
        let m = &methods[i];
        let ghost start = texts_of(r@);
        r.push(m.wire_name.clone());
        assert(texts_of(r@) =~= start + seq![m.wire_name@]);
        let mut k: usize = 0;
        while k < m.aliases.len()
            invariant
                k <= m.aliases.len(),
                m == methods@[i as int],
                texts_of(r@) == start + seq![m.wire_name@] + texts_of(m.aliases@.take(k as int)),
            decreases m.aliases.len() - k,
        {
            let ghost before = r@;
            r.push(m.aliases[k].clone());
            proof {
                assert(texts_of(r@) =~= texts_of(before).push(m.aliases@[k as int]@));
                assert(texts_of(m.aliases@.take(k + 1)) =~= texts_of(m.aliases@.take(k as int)).push(
                    m.aliases@[k as int]@,
                ));
            }
            k = k + 1;
        }
        proof {
            assert(m.aliases@.take(m.aliases@.len() as int) =~= m.aliases@);
            let next = methods@.take(i + 1);
            assert(next.drop_last() =~= methods@.take(i as int));
            assert(next.last() == *m);
            assert(texts_of(r@) =~= interface_names(next));
        }
        i = i + 1;
    }
    assert(methods@.take(methods.len() as int) =~= methods@);
    r
}

/// Whether every wire name and alias of the interface is used once only,
/// the invariant that a declared interface must meet.
pub fn names_unique(methods: &Vec<MethodDescriptor>) -> (r: bool)
    ensures
        r == all_distinct(interface_names(methods@)),
{
    let names = collect_names(methods);
    let n = names.len();
    let mut i: usize = 0;
    while i < n
        invariant
            n == names@.len(),
            i <= n,
            texts_of(names@) == interface_names(methods@),
            forall|a: int, b: int| 0 <= a < i && a < b < n ==> names@[a]@ != names@[b]@,
        decreases n - i,
    {
        let mut j: usize = i + 1;
        while j < n
            invariant
                n == names@.len(),
                i < n,
                i + 1 <= j <= n,
                texts_of(names@) == interface_names(methods@),
                forall|a: int, b: int| 0 <= a < i && a < b < n ==> names@[a]@ != names@[b]@,
                forall|b: int| i < b < j ==> names@[i as int]@ != names@[b]@,
            decreases n - j,
        {
            if names[i] == names[j] {
                proof {
                    let s = interface_names(methods@);
                    assert(s[i as int] == names@[i as int]@);
                    assert(s[j as int] == names@[j as int]@);
                }
                return false;
            }
            j = j + 1;
        }
        i = i + 1;
    }
    proof {
        let s = interface_names(methods@);
        assert forall|a: int, b: int| 0 <= a < b < s.len() implies s[a] != s[b] by {
            assert(s[a] == names@[a]@);
            assert(s[b] == names@[b]@);
        }
    }
    true
}

} // verus!
