use vstd::prelude::*;
use crate::error::ResourceError;
use crate::outcome::{Next, Outcome, listed, listed_len};

verus! {

/// A call made once the VM is running.
#[derive(Clone, Copy, Debug, PartialEq, Eq, Structural)]
pub enum AfterStartCall {
    /// Run the share-filesystem backend's device setup after the VM started.
    SetupShareFsDevice,
    /// List the network's interfaces.
    GetInterfaces,
    /// Push interface `index` of the `count` listed to the guest agent.
    UpdateInterface { index: usize, count: usize },
    /// List the network's neighbour entries.
    GetNeighbors,
    /// Push all neighbour entries to the guest agent in one call.
    AddArpNeighbors,
    /// List the network's routes.
    GetRoutes,
    /// Push all routes to the guest agent in one call.
    UpdateRoutes,
}

/// Where a call stands in the fixed order of the phase: share-filesystem
/// first, then interfaces, neighbours, routes.
pub open spec fn rank(c: AfterStartCall) -> int {
    match c {
        AfterStartCall::SetupShareFsDevice => 0,
        AfterStartCall::GetInterfaces => 1,
        AfterStartCall::UpdateInterface { .. } => 2,
        AfterStartCall::GetNeighbors => 3,
        AfterStartCall::AddArpNeighbors => 4,
        AfterStartCall::GetRoutes => 5,
        AfterStartCall::UpdateRoutes => 6,
    }
}

/// Whether the call goes to the guest agent.
pub open spec fn is_agent_call(c: AfterStartCall) -> bool {
    match c {
        AfterStartCall::UpdateInterface { .. } => true,
        AfterStartCall::AddArpNeighbors => true,
        AfterStartCall::UpdateRoutes => true,
        _ => false,
    }
}

pub open spec fn failure_of(c: AfterStartCall) -> ResourceError {
    match c {
        AfterStartCall::SetupShareFsDevice => ResourceError::SetupShareFsAfterStart,
        AfterStartCall::GetInterfaces => ResourceError::GetInterfaces,
        AfterStartCall::UpdateInterface { .. } => ResourceError::UpdateInterface,
        AfterStartCall::GetNeighbors => ResourceError::GetNeighbors,
        AfterStartCall::AddArpNeighbors => ResourceError::AddArpNeighbors,
        AfterStartCall::GetRoutes => ResourceError::GetRoutes,
        AfterStartCall::UpdateRoutes => ResourceError::UpdateRoutes,
    }
}

/// The call that follows a successful `c`, which reported `o`, when a network
/// is configured or not; `None` once the phase is complete.
pub open spec fn follow(c: AfterStartCall, o: Outcome, network: bool) -> Option<AfterStartCall> {
    match c {
        AfterStartCall::SetupShareFsDevice => if network { Some(AfterStartCall::GetInterfaces) } else { None },
        AfterStartCall::GetInterfaces => if listed(o) > 0 {
            Some(AfterStartCall::UpdateInterface { index: 0, count: listed(o) as usize })
        } else {
            Some(AfterStartCall::GetNeighbors)
        },
        AfterStartCall::UpdateInterface { index, count } => if index + 1 < count {
            Some(AfterStartCall::UpdateInterface { index: (index + 1) as usize, count })
        } else {
            Some(AfterStartCall::GetNeighbors)
        },
        AfterStartCall::GetNeighbors => if listed(o) > 0 {
            Some(AfterStartCall::AddArpNeighbors)
        } else {
            Some(AfterStartCall::GetRoutes)
        },
        AfterStartCall::AddArpNeighbors => Some(AfterStartCall::GetRoutes),
        AfterStartCall::GetRoutes => if listed(o) > 0 { Some(AfterStartCall::UpdateRoutes) } else { None },
        AfterStartCall::UpdateRoutes => None,
    }
}

/// Post-boot setup in progress: the pending call (`None` once complete) and
/// the stage of a failure.
pub struct AfterStart {
    pub network: bool,
    pub pending: Option<AfterStartCall>,
    pub error: Option<ResourceError>,
}

impl AfterStart {
    pub open spec fn wf(&self) -> bool {
        match self.pending {
            Some(AfterStartCall::UpdateInterface { index, count }) => index < count,
            _ => true,
        }
    }

    pub open spec fn spec_next(&self) -> Next<AfterStartCall> {
        match self.error {
            Some(e) => Next::Aborted(e),
            None => match self.pending {
                Some(c) => Next::Perform(c),
                None => Next::Finished,
            },
        }
    }

    pub open spec fn after(self, o: Outcome) -> AfterStart {
        match (self.error, self.pending) {
            (None, Some(c)) => if o == Outcome::Failed {
                AfterStart { error: Some(failure_of(c)), ..self }
            } else {
                AfterStart { pending: follow(c, o, self.network), ..self }
            },
            _ => self,
        }
    }

    /// The state after the calls reported `outs`, in order.
    pub open spec fn run(self, outs: Seq<Outcome>) -> AfterStart
        decreases outs.len(),
    {
        if outs.len() == 0 {
            self
        } else {
            self.after(outs[0]).run(outs.drop_first())
        }
    }

    /// Starts the phase: share-filesystem setup when one exists, then the
    /// network propagation when a network exists.
    pub fn new(share_fs: bool, network: bool) -> (r: AfterStart)
        ensures
            r.wf(),
            r.network == network,
            r.error.is_none(),
            r.pending == (if share_fs {
                Some(AfterStartCall::SetupShareFsDevice)
            } else if network {
                Some(AfterStartCall::GetInterfaces)
            } else {
                None
            }),
    {
        let pending = if share_fs {
            Some(AfterStartCall::SetupShareFsDevice)
        } else if network {
            Some(AfterStartCall::GetInterfaces)
        } else {
            None
        };
        AfterStart { network, pending, error: None }
    }

    pub fn next(&self) -> (r: Next<AfterStartCall>)
        ensures
            r == self.spec_next(),
    {
        match self.error {
            Some(e) => Next::Aborted(e),
            None => match self.pending {
                Some(c) => Next::Perform(c),
                None => Next::Finished,
            },
        }
    }

    /// Records what the pending call reported.
    pub fn on_outcome(&mut self, o: Outcome)
        requires
            old(self).wf(),
        ensures
            *final(self) == old(self).after(o),
            final(self).wf(),
    {
        if self.error.is_some() {
            return;
        }
        let c = match self.pending {
            Some(c) => c,
            None => { return; },
        };
        if o == Outcome::Failed {
            self.error = Some(match c {
                AfterStartCall::SetupShareFsDevice => ResourceError::SetupShareFsAfterStart,
                AfterStartCall::GetInterfaces => ResourceError::GetInterfaces,
                AfterStartCall::UpdateInterface { .. } => ResourceError::UpdateInterface,
                AfterStartCall::GetNeighbors => ResourceError::GetNeighbors,
                AfterStartCall::AddArpNeighbors => ResourceError::AddArpNeighbors,
                AfterStartCall::GetRoutes => ResourceError::GetRoutes,
                AfterStartCall::UpdateRoutes => ResourceError::UpdateRoutes,
            });
            return;
        }
        self.pending = match c {
            AfterStartCall::SetupShareFsDevice => if self.network {
                Some(AfterStartCall::GetInterfaces)
            } else {
                None
            },
            AfterStartCall::GetInterfaces => {
                let n = listed_len(o);
                if n > 0 {
                    Some(AfterStartCall::UpdateInterface { index: 0, count: n })
                } else {
                    Some(AfterStartCall::GetNeighbors)
                }
            },
            AfterStartCall::UpdateInterface { index, count } => if index + 1 < count {
                Some(AfterStartCall::UpdateInterface { index: index + 1, count })
            } else {
                Some(AfterStartCall::GetNeighbors)
            },
            AfterStartCall::GetNeighbors => if listed_len(o) > 0 {
                Some(AfterStartCall::AddArpNeighbors)
            } else {
                Some(AfterStartCall::GetRoutes)
            },
            AfterStartCall::AddArpNeighbors => Some(AfterStartCall::GetRoutes),
            AfterStartCall::GetRoutes => if listed_len(o) > 0 {
                Some(AfterStartCall::UpdateRoutes)
            } else {
                None
            },
            AfterStartCall::UpdateRoutes => None,
        };
    }
}

/// The calls performed when the outcomes `outs` are reported in turn.
pub open spec fn performed(s: AfterStart, outs: Seq<Outcome>) -> Seq<AfterStartCall>
    decreases outs.len(),
{
    if outs.len() == 0 {
        Seq::empty()
    } else {
        match s.spec_next() {
            Next::Perform(c) => seq![c] + performed(s.after(outs[0]), outs.drop_first()),
            _ => Seq::empty(),
        }
    }
}

/// Whatever the calls report, the calls performed keep the fixed order
/// share-filesystem, interfaces, neighbours, routes, and none comes before
/// the pending one.
pub proof fn lemma_performed_in_fixed_order(s: AfterStart, outs: Seq<Outcome>)
    requires
        s.wf(),
    ensures
        forall|i: int, j: int|
            0 <= i < j < performed(s, outs).len() ==> rank(#[trigger] performed(s, outs)[i]) <= rank(
                #[trigger] performed(s, outs)[j],
            ),
        forall|i: int|
            0 <= i < performed(s, outs).len() ==> s.pending.is_some() && rank(s.pending.unwrap()) <= rank(
                #[trigger] performed(s, outs)[i],
            ),
    decreases outs.len(),
{
    if outs.len() > 0 {
        if let Next::Perform(c) = s.spec_next() {
            let t = s.after(outs[0]);
            let rest = outs.drop_first();
            if outs[0] != Outcome::Failed {
                lemma_calls_in_fixed_order(s, outs[0]);
            }
            lemma_performed_in_fixed_order(t, rest);
            let p = performed(s, outs);
            let q = performed(t, rest);
            assert(p == seq![c] + q);
            assert(q.len() > 0 ==> t.pending.is_some() && rank(c) <= rank(t.pending.unwrap()));
            assert forall|i: int, j: int| 0 <= i < j < p.len() implies rank(p[i]) <= rank(p[j]) by {
                if i > 0 {
                    assert(p[i] == q[i - 1]);
                }
                assert(p[j] == q[j - 1]);
            }
            assert forall|i: int| 0 <= i < p.len() implies s.pending.is_some() && rank(s.pending.unwrap()) <= rank(p[i]) by {
                if i > 0 {
                    assert(p[i] == q[i - 1]);
                }
            }
        }
    }
}

/// `k` successful outcomes.
pub open spec fn successes(k: nat) -> Seq<Outcome> {
    Seq::new(k, |j: int| Outcome::Succeeded)
}

/// The pushes of interfaces `i..n` of a listing of `n`, one call each.
pub open spec fn pushes(i: nat, n: nat) -> Seq<AfterStartCall>
    decreases n - i,
{
    if i >= n {
        Seq::empty()
    } else {
        seq![AfterStartCall::UpdateInterface { index: i as usize, count: n as usize }] + pushes(i + 1, n)
    }
}

/// The outcomes of the network propagation when the listings give `ni`
/// interfaces, `nn` neighbour entries and `nr` routes and every call succeeds.
pub open spec fn network_success(ni: usize, nn: usize, nr: usize) -> Seq<Outcome> {
    seq![Outcome::Listed(ni)] + successes(ni as nat) + seq![Outcome::Listed(nn)]
        + (if nn > 0 { seq![Outcome::Succeeded] } else { Seq::empty() }) + seq![Outcome::Listed(nr)]
        + (if nr > 0 { seq![Outcome::Succeeded] } else { Seq::empty() })
}

/// The calls of that propagation: each interface pushed on its own, then the
/// neighbour entries in one call if there are any, then the routes in one
/// call if there are any, each push after its listing.
pub open spec fn network_calls(ni: usize, nn: usize, nr: usize) -> Seq<AfterStartCall> {
    seq![AfterStartCall::GetInterfaces] + pushes(0, ni as nat) + seq![AfterStartCall::GetNeighbors]
        + (if nn > 0 { seq![AfterStartCall::AddArpNeighbors] } else { Seq::empty() }) + seq![AfterStartCall::GetRoutes]
        + (if nr > 0 { seq![AfterStartCall::UpdateRoutes] } else { Seq::empty() })
}

proof fn lemma_settled_after_start(s: AfterStart, outs: Seq<Outcome>)
    requires
        !(s.spec_next() matches Next::Perform(_)),
    ensures
        s.run(outs) == s,
        performed(s, outs) == Seq::<AfterStartCall>::empty(),
    decreases outs.len(),
{
    if outs.len() > 0 {
        lemma_settled_after_start(s.after(outs[0]), outs.drop_first());
    }
}

/// Outcomes reported in two stretches perform the calls of the first stretch,
/// then those of the second from where the first left off.
pub proof fn lemma_performed_append(s: AfterStart, a: Seq<Outcome>, b: Seq<Outcome>)
    ensures
        performed(s, a + b) == performed(s, a) + performed(s.run(a), b),
        s.run(a + b) == s.run(a).run(b),
    decreases a.len(),
{
    if a.len() == 0 {
        assert(a + b =~= b);
        assert(performed(s, a) + performed(s.run(a), b) =~= performed(s, b));
    } else {
        assert((a + b)[0] == a[0]);
        assert((a + b).drop_first() =~= a.drop_first() + b);
        lemma_performed_append(s.after(a[0]), a.drop_first(), b);
        match s.spec_next() {
            Next::Perform(c) => {
                assert(performed(s, a + b) =~= performed(s, a) + performed(s.run(a), b));
            },
            _ => {
                lemma_settled_after_start(s, a);
                lemma_settled_after_start(s, a + b);
                lemma_settled_after_start(s, b);
                assert(performed(s, a + b) =~= performed(s, a) + performed(s.run(a), b));
            },
        }
    }
}

proof fn lemma_one_outcome(s: AfterStart, o: Outcome)
    requires
        s.spec_next() matches Next::Perform(_),
    ensures
        performed(s, seq![o]) == seq![s.pending.unwrap()],
        s.run(seq![o]) == s.after(o),
{
    let outs = seq![o];
    assert(outs.drop_first() =~= Seq::<Outcome>::empty());
    assert(performed(s.after(o), outs.drop_first()) == Seq::<AfterStartCall>::empty());
    assert(performed(s, outs) =~= seq![s.pending.unwrap()]);
    assert(s.after(o).run(outs.drop_first()) == s.after(o));
}

proof fn lemma_no_outcome(s: AfterStart)
    ensures
        performed(s, Seq::empty()) == Seq::<AfterStartCall>::empty(),
        s.run(Seq::empty()) == s,
{
}

proof fn lemma_interface_pushes(s: AfterStart, i: usize, n: usize)
    requires
        s.error.is_none(),
        i < n,
        s.pending == Some(AfterStartCall::UpdateInterface { index: i, count: n }),
    ensures
        performed(s, successes((n - i) as nat)) == pushes(i as nat, n as nat),
        s.run(successes((n - i) as nat)) == (AfterStart { pending: Some(AfterStartCall::GetNeighbors), ..s }),
    decreases n - i,
{
    let outs = successes((n - i) as nat);
    let head = seq![Outcome::Succeeded];
    let rest = successes((n - i - 1) as nat);
    assert(outs =~= head + rest);
    lemma_performed_append(s, head, rest);
    lemma_one_outcome(s, Outcome::Succeeded);
    let t = s.after(Outcome::Succeeded);
    if i + 1 < n {
        lemma_interface_pushes(t, (i + 1) as usize, n);
        assert(performed(s, outs) =~= pushes(i as nat, n as nat));
    } else {
        assert(rest =~= Seq::<Outcome>::empty());
        lemma_no_outcome(t);
        assert(pushes((i + 1) as nat, n as nat) == Seq::<AfterStartCall>::empty());
        assert(performed(s, outs) =~= pushes(i as nat, n as nat));
    }
}

proof fn lemma_listing_then_push(s: AfterStart, n: usize, get: AfterStartCall, push: AfterStartCall)
    requires
        s.error.is_none(),
        s.pending == Some(get),
        get == AfterStartCall::GetNeighbors || get == AfterStartCall::GetRoutes,
        push == (if get == AfterStartCall::GetNeighbors { AfterStartCall::AddArpNeighbors } else { AfterStartCall::UpdateRoutes }),
    ensures
        ({
            let outs = seq![Outcome::Listed(n)] + (if n > 0 { seq![Outcome::Succeeded] } else { Seq::empty() });
            &&& performed(s, outs) == seq![get] + (if n > 0 { seq![push] } else { Seq::<AfterStartCall>::empty() })
            &&& s.run(outs).error.is_none()
            &&& s.run(outs).pending == (if get == AfterStartCall::GetNeighbors {
                Some(AfterStartCall::GetRoutes)
            } else {
                None
            })
        }),
{
    let a = seq![Outcome::Listed(n)];
    let b: Seq<Outcome> = if n > 0 { seq![Outcome::Succeeded] } else { Seq::empty() };
    lemma_performed_append(s, a, b);
    lemma_one_outcome(s, Outcome::Listed(n));
    let t = s.after(Outcome::Listed(n));
    if n > 0 {
        lemma_one_outcome(t, Outcome::Succeeded);
    } else {
        lemma_no_outcome(t);
    }
    assert(performed(s, a + b) =~= seq![get] + (if n > 0 { seq![push] } else { Seq::<AfterStartCall>::empty() }));
}

/// With a network configured and every call succeeding, the guest agent
/// receives exactly: one push per listed interface in listing order, then the
/// neighbour entries in one call only if there are any, then the routes in
/// one call only if there are any; and the phase finishes.
pub proof fn lemma_network_propagation(s: AfterStart, ni: usize, nn: usize, nr: usize)
    requires
        s.error.is_none(),
        s.pending == Some(AfterStartCall::GetInterfaces),
    ensures
        performed(s, network_success(ni, nn, nr)) == network_calls(ni, nn, nr),
        s.run(network_success(ni, nn, nr)).spec_next() == Next::<AfterStartCall>::Finished,
{
    let a = seq![Outcome::Listed(ni)];
    let b = successes(ni as nat);
    let cd = seq![Outcome::Listed(nn)] + (if nn > 0 { seq![Outcome::Succeeded] } else { Seq::empty() });
    let ef = seq![Outcome::Listed(nr)] + (if nr > 0 { seq![Outcome::Succeeded] } else { Seq::empty() });
    let outs = network_success(ni, nn, nr);
    assert(outs =~= a + (b + (cd + ef)));
    lemma_performed_append(s, a, b + (cd + ef));
    lemma_one_outcome(s, Outcome::Listed(ni));
    let s1 = s.after(Outcome::Listed(ni));
    lemma_performed_append(s1, b, cd + ef);
    if ni > 0 {
        lemma_interface_pushes(s1, 0, ni);
    } else {
        assert(b =~= Seq::<Outcome>::empty());
        lemma_no_outcome(s1);
        assert(pushes(0, 0) == Seq::<AfterStartCall>::empty());
    }
    let s2 = s1.run(b);
    lemma_performed_append(s2, cd, ef);
    lemma_listing_then_push(s2, nn, AfterStartCall::GetNeighbors, AfterStartCall::AddArpNeighbors);
    let s3 = s2.run(cd);
    lemma_listing_then_push(s3, nr, AfterStartCall::GetRoutes, AfterStartCall::UpdateRoutes);
    assert(performed(s, outs) =~= network_calls(ni, nn, nr));
}

/// The calls of the phase come in the fixed order share-filesystem,
/// interfaces, neighbours, routes: a successful call is followed only by a
/// call of a later rank, or by the next interface of the same listing.
pub proof fn lemma_calls_in_fixed_order(s: AfterStart, o: Outcome)
    requires
        s.wf(),
        s.spec_next() matches Next::Perform(_),
        o != Outcome::Failed,
    ensures
        s.after(o).wf(),
        s.after(o).error.is_none(),
        s.after(o).spec_next() matches Next::Perform(d) ==> {
            let c = s.pending.unwrap();
            rank(d) > rank(c) || (c matches AfterStartCall::UpdateInterface { index: i, count: n }
                && d == AfterStartCall::UpdateInterface { index: (i + 1) as usize, count: n })
        },
{
}

/// An empty listing makes no guest-agent call for its category: the phase
/// moves straight on to the next listing, or completes after the routes.
pub proof fn lemma_empty_list_no_agent_call(s: AfterStart, o: Outcome)
    requires
        s.wf(),
        s.spec_next() matches Next::Perform(_),
        o != Outcome::Failed,
        listed(o) == 0,
        s.pending == Some(AfterStartCall::GetInterfaces) || s.pending == Some(AfterStartCall::GetNeighbors)
            || s.pending == Some(AfterStartCall::GetRoutes),
    ensures
        s.after(o).pending matches Some(d) ==> !is_agent_call(d),
        s.pending == Some(AfterStartCall::GetInterfaces) ==> s.after(o).pending == Some(AfterStartCall::GetNeighbors),
        s.pending == Some(AfterStartCall::GetNeighbors) ==> s.after(o).pending == Some(AfterStartCall::GetRoutes),
        s.pending == Some(AfterStartCall::GetRoutes) ==> s.after(o).spec_next() == Next::<AfterStartCall>::Finished,
{
}

/// A listing of `n > 0` interfaces starts the pushes at the first of the `n`;
/// each push then moves on to the next one until all `n` are done.
pub proof fn lemma_one_call_per_interface(s: AfterStart, o: Outcome)
    requires
        s.wf(),
        s.spec_next() matches Next::Perform(_),
        s.pending == Some(AfterStartCall::GetInterfaces),
        listed(o) > 0,
        o != Outcome::Failed,
    ensures
        s.after(o).pending == Some(AfterStartCall::UpdateInterface { index: 0, count: listed(o) as usize }),
{
}

} // verus!
