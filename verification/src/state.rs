//! Process-wide shared state: the learned prefix container and the
//! network-interface selector.
//!
//! The store itself is a plain owned value; the surrounding process wraps
//! it in a lock and hands each concurrency context exclusive access around
//! every call. Readers receive a cloned snapshot, never a live borrow.

use vstd::prelude::*;
use crate::prefix::{NetworkPrefix, spec_canonical};

verus! {

/// The queue number the match rule enqueues to and the verdict loop binds.
pub const QUEUE_NUM: u16 = 0;

/// The shared store: an append-only sequence of learned prefixes and the
/// optional name of the interface the match rule is restricted to.
pub struct SharedState {
    pub prefixes: Vec<NetworkPrefix>,
    pub interface: Option<String>,
}

/// What appending one observed prefix does to the container: the canonical
/// (truncated) form of the prefix goes to the end, nothing else moves.
pub open spec fn spec_append(s: Seq<NetworkPrefix>, p: NetworkPrefix) -> Seq<NetworkPrefix> {
    s.push(spec_canonical(p.addr, p.len))
}

impl SharedState {
    /// Every stored prefix is in canonical form.
    pub open spec fn wf(self) -> bool {
        forall|i: int| 0 <= i < self.prefixes@.len() ==> (#[trigger] self.prefixes@[i]).wf()
    }

    /// An empty store: no prefixes learned, no interface selected.
    pub fn new() -> (r: SharedState)
        ensures
            r.prefixes@ == Seq::<NetworkPrefix>::empty(),
            r.interface is None,
            r.wf(),
    {
        SharedState { prefixes: Vec::new(), interface: None }
    }
}

/// Appends an observed prefix to the container, in canonical form.
pub fn add_to_container(state: &mut SharedState, ip: NetworkPrefix)
    requires
        ip.len <= 128,
    ensures
        final(state).prefixes@ == spec_append(old(state).prefixes@, ip),
        final(state).interface == old(state).interface,
        old(state).wf() ==> final(state).wf(),
{
    let t = ip.trunc();
    state.prefixes.push(t);
}

/// Returns a point-in-time snapshot of the container: a copy of every
/// prefix, in the order the prefixes were appended.
pub fn get_container_data(state: &SharedState) -> (r: Vec<NetworkPrefix>)
    ensures
        r@ == state.prefixes@,
{
    let mut out: Vec<NetworkPrefix> = Vec::new();
    let n = state.prefixes.len();
    let mut i: usize = 0;
    while i < n
        invariant
            n == state.prefixes@.len(),
            i <= n,
            out@ == state.prefixes@.take(i as int),
        decreases n - i,
    {
        out.push(state.prefixes[i]);
        proof {
            assert(state.prefixes@.take(i + 1) =~= state.prefixes@.take(i as int).push(
                state.prefixes@[i as int],
            ));
        }
        i = i + 1;
    }
    proof {
        assert(state.prefixes@.take(n as int) =~= state.prefixes@);
    }
    out
}

/// Empties the prefix container; the interface selector is untouched.
pub fn clear_container(state: &mut SharedState)
    ensures
        final(state).prefixes@ == Seq::<NetworkPrefix>::empty(),
        final(state).interface == old(state).interface,
        final(state).wf(),
{
    state.prefixes.clear();
}

/// Selects the interface the match rule is restricted to.
pub fn set_interface_name(state: &mut SharedState, name: String)
    ensures
        final(state).interface == Some(name),
        final(state).prefixes@ == old(state).prefixes@,
{
    state.interface = Some(name);
}

/// Reads the configured interface name, if any, as a copy.
pub fn get_interface_name(state: &SharedState) -> (r: Option<String>)
    ensures
        r == state.interface,
{
    match &state.interface {
        Some(n) => Some(n.clone()),
        None => None,
    }
}

/// Clears the interface selector; the prefix container is untouched.
pub fn clear_interface_name(state: &mut SharedState)
    ensures
        final(state).interface is None,
        final(state).prefixes@ == old(state).prefixes@,
{
    state.interface = None;
}

/// Order preservation: appending three prefixes in order leaves the
/// container holding exactly the prior contents followed by the three
/// canonical prefixes, in that order.
pub proof fn lemma_order_preservation(
    s: Seq<NetworkPrefix>,
    p1: NetworkPrefix,
    p2: NetworkPrefix,
    p3: NetworkPrefix,
)
    ensures
        spec_append(spec_append(spec_append(s, p1), p2), p3) == s + seq![
            spec_canonical(p1.addr, p1.len),
            spec_canonical(p2.addr, p2.len),
            spec_canonical(p3.addr, p3.len),
        ],
{
    assert(spec_append(spec_append(spec_append(s, p1), p2), p3) =~= s + seq![
        spec_canonical(p1.addr, p1.len),
        spec_canonical(p2.addr, p2.len),
        spec_canonical(p3.addr, p3.len),
    ]);
}

} // verus!
