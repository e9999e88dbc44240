//! Dispatch by protocol identifier.

use vstd::prelude::*;

use crate::service::{Event, EventView, Scope, ScopeView, Service, ServiceError};

verus! {

/// The position of the entry a protocol identifier is routed to: the
/// first entry whose key equals it exactly.
pub open spec fn route_index<S>(entries: Seq<(String, S)>, protocol: Seq<char>) -> Option<int>
    decreases entries.len(),
{
    if entries.len() == 0 {
        None
    } else if entries[0].0@ == protocol {
        Some(0)
    } else {
        match route_index(entries.drop_first(), protocol) {
            Some(i) => Some(i + 1),
            None => None,
        }
    }
}

/// `entries` without its routes for `protocol`.
pub open spec fn remove_route<S>(entries: Seq<(String, S)>, protocol: Seq<char>) -> Seq<
    (String, S),
>
    decreases entries.len(),
{
    if entries.len() == 0 {
        Seq::empty()
    } else {
        (if entries[0].0@ == protocol {
            Seq::empty()
        } else {
            seq![entries[0]]
        }) + remove_route(entries.drop_first(), protocol)
    }
}

/// A prefix free of matches pins the routed index down.
proof fn lemma_route_index_exact<S>(entries: Seq<(String, S)>, protocol: Seq<char>, i: int)
    requires
        0 <= i <= entries.len(),
        forall|j: int| 0 <= j < i ==> entries[j].0@ != protocol,
        i == entries.len() || entries[i].0@ == protocol,
    ensures
        route_index(entries, protocol) == if i == entries.len() {
            None
        } else {
            Some(i)
        },
    decreases entries.len(),
{
    if entries.len() != 0 && i != 0 {
        lemma_route_index_exact(entries.drop_first(), protocol, i - 1);
    }
}

/// Dispatches each connection to the service registered for its scope's
/// protocol identifier; an unregistered identifier fails with
/// `UnsupportedProtocol` and no service runs.
pub struct ProtocolRouter<S> {
    entries: Vec<(String, S)>,
}

impl<S> ProtocolRouter<S> {
    /// The registered routes, in registration order.
    pub closed spec fn routes(&self) -> Seq<(String, S)> {
        self.entries@
    }

    /// A router with no routes.
    pub fn new() -> (r: Self)
        ensures
            r.routes() == Seq::<(String, S)>::empty(),
    {
        let r = ProtocolRouter { entries: Vec::new() };
        proof {
            assert(r.routes() =~= Seq::<(String, S)>::empty());
        }
        r
    }

    /// Registers `service` for `protocol`, replacing any route already
    /// registered for it.
    pub fn register(&mut self, protocol: String, service: S)
        ensures
            final(self).routes() == remove_route(old(self).routes(), protocol@).push(
                (protocol, service),
            ),
    {
        let ghost routes0 = self.entries@;
        let mut drained: Vec<(String, S)> = Vec::new();
        std::mem::swap(&mut drained, &mut self.entries);
        let mut kept: Vec<(String, S)> = Vec::new();
        proof {
            assert(drained@.skip(0) =~= drained@);
            assert(kept@ + remove_route(drained@, protocol@) =~= remove_route(routes0, protocol@));
        }
        while drained.len() > 0
            invariant
                kept@ + remove_route(drained@, protocol@) =~= remove_route(routes0, protocol@),
            decreases drained@.len(),
        {
            let ghost drained_prior = drained@;
            let entry = drained.remove(0);
            proof {
                assert(drained@ =~= drained_prior.drop_first());
            }
            let matches_protocol = crate::strutil::str_eq(entry.0.as_str(), protocol.as_str());
            let ghost kept_prior = kept@;
            let ghost entry_snap = entry;
            if !matches_protocol {
                kept.push(entry);
                proof {
                    assert(kept@ =~= kept_prior.push(entry_snap));
                }
            }
        }
        kept.push((protocol, service));
        self.entries = kept;
        proof {
            assert(self.routes() =~= remove_route(routes0, protocol@).push((protocol, service)));
        }
    }
}

impl<S: Service> Service for ProtocolRouter<S> {
    /// What the routed service answers, or `UnsupportedProtocol` when no
    /// route matches the scope's protocol identifier.
    open spec fn spec_call(&self, scope: ScopeView, inbound: Seq<EventView>) -> Result<
        Seq<EventView>,
        ServiceError,
    > {
        match route_index(self.routes(), scope.protocol) {
            Some(i) => self.routes()[i].1.spec_call(scope, inbound),
            None => Err(ServiceError::UnsupportedProtocol),
        }
    }

    fn call(&mut self, scope: &Scope, inbound: Vec<Event>) -> (r: Result<Vec<Event>, ServiceError>)
    {
        let n = self.entries.len();
        let mut i: usize = 0;
        while i < n
            invariant
                i <= n,
                n == self.entries@.len(),
                forall|j: int| 0 <= j < i ==> self.entries@[j].0@ != scope@.protocol,
            ensures
                i <= n,
                n == self.entries@.len(),
                forall|j: int| 0 <= j < i ==> self.entries@[j].0@ != scope@.protocol,
                i == n || self.entries@[i as int].0@ == scope@.protocol,
            decreases n - i,
        {
            if crate::strutil::str_eq(self.entries[i].0.as_str(), scope.protocol().as_str()) {
                break;
            }
            i = i + 1;
        }
        proof {
            lemma_route_index_exact(self.entries@, scope@.protocol, i as int);
        }
        if i == n {
            return Err(ServiceError::UnsupportedProtocol);
        }
        let mut entry = self.entries.remove(i);
        let r = entry.1.call(scope, inbound);
        self.entries.insert(i, entry);
        r
    }
}

} // verus!
