use vstd::prelude::*;
use crate::error::ResourceError;
use crate::outcome::{Next, Outcome, supported, is_supported};

verus! {

/// The kind of a resource configuration entry handed over before the VM starts.
/// The entry's payload stays with the caller, which performs the calls.
#[derive(Clone, Copy, Debug, PartialEq, Eq, Structural)]
pub enum ResourceKind {
    ShareFs,
    Network,
}

/// A call made while preparing resources before the VM starts.
#[derive(Clone, Copy, Debug, PartialEq, Eq, Structural)]
pub enum PrepareCall {
    /// Ask the hypervisor whether it supports filesystem sharing.
    CheckFsSharing,
    /// Construct the share-filesystem backend from the entry.
    NewShareFs,
    /// Run the backend's device setup against the hypervisor.
    SetupShareFsDevice,
    /// Set up the sandbox bind mounts of the configuration.
    SetupBindMounts,
    /// Construct and configure the network on a namespace-pinned worker.
    SetupNetwork,
}

/// The call that starts the handling of an entry.
pub open spec fn first_call(k: ResourceKind) -> PrepareCall {
    match k {
        ResourceKind::ShareFs => PrepareCall::CheckFsSharing,
        ResourceKind::Network => PrepareCall::SetupNetwork,
    }
}

/// Whether a call belongs to the handling of an entry of kind `k`.
pub open spec fn call_fits(k: ResourceKind, c: PrepareCall) -> bool {
    match k {
        ResourceKind::ShareFs => c != PrepareCall::SetupNetwork,
        ResourceKind::Network => c == PrepareCall::SetupNetwork,
    }
}

/// The stage reported when a call fails.
pub open spec fn failure_of(c: PrepareCall) -> ResourceError {
    match c {
        PrepareCall::CheckFsSharing => ResourceError::Capabilities,
        PrepareCall::NewShareFs => ResourceError::NewShareFs,
        PrepareCall::SetupShareFsDevice => ResourceError::SetupShareFsBeforeStart,
        PrepareCall::SetupBindMounts => ResourceError::SetupBindMounts,
        PrepareCall::SetupNetwork => ResourceError::HandleNetwork,
    }
}

fn exec_first_call(k: ResourceKind) -> (r: PrepareCall)
    ensures
        r == first_call(k),
{
    match k {
        ResourceKind::ShareFs => PrepareCall::CheckFsSharing,
        ResourceKind::Network => PrepareCall::SetupNetwork,
    }
}

fn exec_failure_of(c: PrepareCall) -> (r: ResourceError)
    ensures
        r == failure_of(c),
{
    match c {
        PrepareCall::CheckFsSharing => ResourceError::Capabilities,
        PrepareCall::NewShareFs => ResourceError::NewShareFs,
        PrepareCall::SetupShareFsDevice => ResourceError::SetupShareFsBeforeStart,
        PrepareCall::SetupBindMounts => ResourceError::SetupBindMounts,
        PrepareCall::SetupNetwork => ResourceError::HandleNetwork,
    }
}

/// Pre-boot preparation in progress: the entries, handled strictly in the
/// order given, the entry at `pos` and its pending call, and what has been
/// established so far.
pub struct Prepare {
    pub entries: Vec<ResourceKind>,
    pub pos: usize,
    pub call: PrepareCall,
    pub share_fs: bool,
    pub network: bool,
    pub bind_mounts_empty: bool,
    pub error: Option<ResourceError>,
}

impl Prepare {
    pub open spec fn wf(&self) -> bool {
        &&& self.entries@.len() <= usize::MAX
        &&& self.pos <= self.entries@.len()
        &&& self.pos < self.entries@.len() ==> call_fits(self.entries@[self.pos as int], self.call)
    }

    /// No failure so far and an entry still to handle.
    pub open spec fn running(&self) -> bool {
        self.error.is_none() && self.pos < self.entries@.len()
    }

    pub open spec fn spec_next(&self) -> Next<PrepareCall> {
        match self.error {
            Some(e) => Next::Aborted(e),
            None => if self.pos < self.entries@.len() {
                Next::Perform(self.call)
            } else {
                Next::Finished
            },
        }
    }

    /// Moves on to the next entry, starting its handling if there is one.
    pub open spec fn advanced(self) -> Prepare {
        let p = self.pos + 1;
        Prepare {
            pos: p as usize,
            call: if p < self.entries@.len() { first_call(self.entries@[p]) } else { self.call },
            ..self
        }
    }

    /// The state after the pending call reported `o`. Once failed or finished,
    /// nothing changes any more.
    pub open spec fn after(self, o: Outcome) -> Prepare {
        if !self.running() {
            self
        } else if o == Outcome::Failed {
            Prepare { error: Some(failure_of(self.call)), ..self }
        } else {
            match self.call {
                PrepareCall::CheckFsSharing => if supported(o) {
                    Prepare { call: PrepareCall::NewShareFs, ..self }
                } else {
                    Prepare { share_fs: false, ..self }.advanced()
                },
                PrepareCall::NewShareFs => Prepare { call: PrepareCall::SetupShareFsDevice, ..self },
                PrepareCall::SetupShareFsDevice => if self.bind_mounts_empty {
                    Prepare { share_fs: true, ..self }.advanced()
                } else {
                    Prepare { call: PrepareCall::SetupBindMounts, ..self }
                },
                PrepareCall::SetupBindMounts => Prepare { share_fs: true, ..self }.advanced(),
                PrepareCall::SetupNetwork => Prepare { network: true, ..self }.advanced(),
            }
        }
    }

    /// The state after the calls reported `outs`, in order.
    pub open spec fn run(self, outs: Seq<Outcome>) -> Prepare
        decreases outs.len(),
    {
        if outs.len() == 0 {
            self
        } else {
            self.after(outs[0]).run(outs.drop_first())
        }
    }

    /// Starts preparing `entries`, from the share-filesystem and network
    /// presence that the manager has now.
    pub fn new(entries: Vec<ResourceKind>, share_fs: bool, network: bool, bind_mounts_empty: bool) -> (r: Prepare)
        ensures
            r.wf(),
            r.entries@ == entries@,
            r.pos == 0,
            r.share_fs == share_fs,
            r.network == network,
            r.bind_mounts_empty == bind_mounts_empty,
            r.error.is_none(),
            entries@.len() > 0 ==> r.call == first_call(entries@[0]),
    {
        let n = entries.len();
        let call = if n > 0 {
            exec_first_call(entries[0])
        } else {
            PrepareCall::CheckFsSharing
        };
        Prepare { entries, pos: 0, call, share_fs, network, bind_mounts_empty, error: None }
    }

    /// What to do next.
    pub fn next(&self) -> (r: Next<PrepareCall>)
        ensures
            r == self.spec_next(),
    {
        match self.error {
            Some(e) => Next::Aborted(e),
            None => if self.pos < self.entries.len() {
                Next::Perform(self.call)
            } else {
                Next::Finished
            },
        }
    }

    fn advance(&mut self)
        requires
            old(self).wf(),
            old(self).pos < old(self).entries@.len(),
        ensures
            *final(self) == old(self).advanced(),
    {
        let n = self.entries.len();
        self.pos = self.pos + 1;
        if self.pos < n {
            self.call = exec_first_call(self.entries[self.pos]);
        }
    }

    /// Records what the pending call reported.
    pub fn on_outcome(&mut self, o: Outcome)
        requires
            old(self).wf(),
        ensures
            *final(self) == old(self).after(o),
            final(self).wf(),
    {
        if self.error.is_some() || self.pos >= self.entries.len() {
            return;
        }
        if o == Outcome::Failed {
            self.error = Some(exec_failure_of(self.call));
            return;
        }
        match self.call {
            PrepareCall::CheckFsSharing => {
                if is_supported(o) {
                    self.call = PrepareCall::NewShareFs;
                } else {
                    self.share_fs = false;
                    self.advance();
                }
            },
            PrepareCall::NewShareFs => {
                self.call = PrepareCall::SetupShareFsDevice;
            },
            PrepareCall::SetupShareFsDevice => {
                if self.bind_mounts_empty {
                    self.share_fs = true;
                    self.advance();
                } else {
                    self.call = PrepareCall::SetupBindMounts;
                }
            },
            PrepareCall::SetupBindMounts => {
                self.share_fs = true;
                self.advance();
            },
            PrepareCall::SetupNetwork => {
                self.network = true;
                self.advance();
            },
        }
    }
}

/// Once failed or finished, further outcomes change nothing.
pub proof fn lemma_settled_run(s: Prepare, outs: Seq<Outcome>)
    requires
        !s.running(),
    ensures
        s.run(outs) == s,
    decreases outs.len(),
{
    if outs.len() > 0 {
        lemma_settled_run(s.after(outs[0]), outs.drop_first());
    }
}

/// Entries are handled in the order given: an outcome keeps the handling at
/// the same entry or moves it on to the next one, and a call that is asked for
/// always belongs to the entry at `pos`.
pub proof fn lemma_entries_in_order(s: Prepare, o: Outcome)
    requires
        s.wf(),
    ensures
        s.after(o).wf(),
        s.after(o).entries@ == s.entries@,
        s.after(o).pos == s.pos || (s.running() && s.after(o).pos == s.pos + 1),
        s.after(o).spec_next() matches Next::Perform(c) ==> s.after(o).pos < s.entries@.len()
            && call_fits(s.entries@[s.after(o).pos as int], c),
{
}

/// Over any sequence of outcomes the handling only moves forward through the
/// entries, one at a time, and never revisits an entry.
pub proof fn lemma_run_moves_forward(s: Prepare, outs: Seq<Outcome>)
    requires
        s.wf(),
    ensures
        s.run(outs).wf(),
        s.run(outs).entries@ == s.entries@,
        s.pos <= s.run(outs).pos <= s.pos + outs.len(),
    decreases outs.len(),
{
    if outs.len() > 0 {
        lemma_entries_in_order(s, outs[0]);
        lemma_run_moves_forward(s.after(outs[0]), outs.drop_first());
    }
}

/// The calls performed when the outcomes `outs` are reported in turn, each
/// with the position of the entry it belongs to.
pub open spec fn performed(s: Prepare, outs: Seq<Outcome>) -> Seq<(usize, PrepareCall)>
    decreases outs.len(),
{
    if outs.len() == 0 {
        Seq::empty()
    } else {
        match s.spec_next() {
            Next::Perform(c) => seq![(s.pos, c)] + performed(s.after(outs[0]), outs.drop_first()),
            _ => Seq::empty(),
        }
    }
}

/// The outcomes of an entry of kind `k` whose calls all succeed, with
/// `fs_sharing` the hypervisor's answer on filesystem sharing.
pub open spec fn entry_success(k: ResourceKind, bind_mounts_empty: bool, fs_sharing: bool) -> Seq<Outcome> {
    match k {
        ResourceKind::ShareFs => if !fs_sharing {
            seq![Outcome::Supported(false)]
        } else if bind_mounts_empty {
            seq![Outcome::Supported(true), Outcome::Succeeded, Outcome::Succeeded]
        } else {
            seq![Outcome::Supported(true), Outcome::Succeeded, Outcome::Succeeded, Outcome::Succeeded]
        },
        ResourceKind::Network => seq![Outcome::Succeeded],
    }
}

/// The calls that handling entry `i` of kind `k` makes when they all succeed.
pub open spec fn entry_calls(i: usize, k: ResourceKind, bind_mounts_empty: bool, fs_sharing: bool) -> Seq<(usize, PrepareCall)> {
    match k {
        ResourceKind::ShareFs => if !fs_sharing {
            seq![(i, PrepareCall::CheckFsSharing)]
        } else if bind_mounts_empty {
            seq![(i, PrepareCall::CheckFsSharing), (i, PrepareCall::NewShareFs), (i, PrepareCall::SetupShareFsDevice)]
        } else {
            seq![(i, PrepareCall::CheckFsSharing), (i, PrepareCall::NewShareFs), (i, PrepareCall::SetupShareFsDevice),
                (i, PrepareCall::SetupBindMounts)]
        },
        ResourceKind::Network => seq![(i, PrepareCall::SetupNetwork)],
    }
}

/// The outcomes of entries `i..` when all their calls succeed.
pub open spec fn all_success(entries: Seq<ResourceKind>, i: int, bind_mounts_empty: bool, fs_sharing: bool) -> Seq<Outcome>
    decreases entries.len() - i,
{
    if i < 0 || i >= entries.len() {
        Seq::empty()
    } else {
        entry_success(entries[i], bind_mounts_empty, fs_sharing) + all_success(entries, i + 1, bind_mounts_empty, fs_sharing)
    }
}

/// The calls of entries `i..`, entry after entry, when all succeed.
pub open spec fn all_calls(entries: Seq<ResourceKind>, i: int, bind_mounts_empty: bool, fs_sharing: bool) -> Seq<(usize, PrepareCall)>
    decreases entries.len() - i,
{
    if i < 0 || i >= entries.len() {
        Seq::empty()
    } else {
        entry_calls(i as usize, entries[i], bind_mounts_empty, fs_sharing) + all_calls(entries, i + 1, bind_mounts_empty, fs_sharing)
    }
}

/// Outcomes reported in two stretches perform the calls of the first stretch,
/// then those of the second from where the first left off.
pub proof fn lemma_performed_append(s: Prepare, a: Seq<Outcome>, b: Seq<Outcome>)
    ensures
        performed(s, a + b) == performed(s, a) + performed(s.run(a), b),
    decreases a.len(),
{
    if a.len() == 0 {
        assert(a + b =~= b);
        assert(performed(s, a) + performed(s.run(a), b) =~= performed(s, b));
    } else {
        assert((a + b)[0] == a[0]);
        assert((a + b).drop_first() =~= a.drop_first() + b);
        lemma_performed_append(s.after(a[0]), a.drop_first(), b);
        match s.spec_next() {
            Next::Perform(c) => {
                assert(performed(s, a + b) =~= performed(s, a) + performed(s.run(a), b));
            },
            _ => {
                lemma_settled_run(s, a);
                if b.len() > 0 {
                    assert(performed(s.run(a), b) == Seq::<(usize, PrepareCall)>::empty());
                }
                assert(performed(s, a + b) =~= performed(s, a) + performed(s.run(a), b));
            },
        }
    }
}

/// Handling one entry whose calls all succeed performs exactly its calls and
/// moves on to the next entry.
pub proof fn lemma_entry_success(s: Prepare, fs_sharing: bool)
    requires
        s.wf(),
        s.running(),
        s.call == first_call(s.entries@[s.pos as int]),
    ensures
        performed(s, entry_success(s.entries@[s.pos as int], s.bind_mounts_empty, fs_sharing))
            == entry_calls(s.pos, s.entries@[s.pos as int], s.bind_mounts_empty, fs_sharing),
        s.run(entry_success(s.entries@[s.pos as int], s.bind_mounts_empty, fs_sharing)).pos == s.pos + 1,
        s.run(entry_success(s.entries@[s.pos as int], s.bind_mounts_empty, fs_sharing)).wf(),
        s.run(entry_success(s.entries@[s.pos as int], s.bind_mounts_empty, fs_sharing)).error.is_none(),
        s.run(entry_success(s.entries@[s.pos as int], s.bind_mounts_empty, fs_sharing)).entries@ == s.entries@,
        s.run(entry_success(s.entries@[s.pos as int], s.bind_mounts_empty, fs_sharing)).bind_mounts_empty
            == s.bind_mounts_empty,
        s.pos + 1 < s.entries@.len() ==> s.run(entry_success(s.entries@[s.pos as int], s.bind_mounts_empty, fs_sharing)).call
            == first_call(s.entries@[s.pos + 1]),
{
    let outs = entry_success(s.entries@[s.pos as int], s.bind_mounts_empty, fs_sharing);
    reveal_with_fuel(performed, 5);
    reveal_with_fuel(Prepare::run, 5);
    if outs.len() == 1 {
        assert(outs.drop_first() =~= Seq::<Outcome>::empty());
    } else if outs.len() == 3 {
        assert(outs.drop_first().drop_first().drop_first() =~= Seq::<Outcome>::empty());
        assert(performed(s, outs) =~= entry_calls(s.pos, s.entries@[s.pos as int], s.bind_mounts_empty, fs_sharing));
    } else {
        assert(outs.drop_first().drop_first().drop_first().drop_first() =~= Seq::<Outcome>::empty());
        assert(performed(s, outs) =~= entry_calls(s.pos, s.entries@[s.pos as int], s.bind_mounts_empty, fs_sharing));
    }
}

/// When every call succeeds, the entries are handled strictly in the order
/// given, each completely before the next starts: the calls performed are
/// those of entry `pos`, then of entry `pos + 1`, and so on, and the
/// preparation finishes.
pub proof fn lemma_all_success_in_order(s: Prepare, fs_sharing: bool)
    requires
        s.wf(),
        s.error.is_none(),
        s.pos < s.entries@.len() ==> s.call == first_call(s.entries@[s.pos as int]),
    ensures
        performed(s, all_success(s.entries@, s.pos as int, s.bind_mounts_empty, fs_sharing))
            == all_calls(s.entries@, s.pos as int, s.bind_mounts_empty, fs_sharing),
        s.run(all_success(s.entries@, s.pos as int, s.bind_mounts_empty, fs_sharing)).spec_next()
            == Next::<PrepareCall>::Finished,
    decreases s.entries@.len() - s.pos,
{
    let e = s.entries@;
    let be = s.bind_mounts_empty;
    if s.pos >= e.len() {
        assert(all_success(e, s.pos as int, be, fs_sharing) =~= Seq::<Outcome>::empty());
    } else {
        let a = entry_success(e[s.pos as int], be, fs_sharing);
        let b = all_success(e, s.pos + 1, be, fs_sharing);
        assert(all_success(e, s.pos as int, be, fs_sharing) == a + b);
        lemma_entry_success(s, fs_sharing);
        lemma_performed_append(s, a, b);
        lemma_run_append(s, a, b);
        lemma_all_success_in_order(s.run(a), fs_sharing);
    }
}

/// Running two stretches of outcomes is running the first, then the second.
pub proof fn lemma_run_append(s: Prepare, a: Seq<Outcome>, b: Seq<Outcome>)
    ensures
        s.run(a + b) == s.run(a).run(b),
    decreases a.len(),
{
    if a.len() == 0 {
        assert(a + b =~= b);
    } else {
        assert((a + b)[0] == a[0]);
        assert((a + b).drop_first() =~= a.drop_first() + b);
        lemma_run_append(s.after(a[0]), a.drop_first(), b);
    }
}

/// A failure while handling the entry at `pos` aborts the preparation with
/// that call's stage, and no later outcome moves it on: the entries after it
/// are never handled.
pub proof fn lemma_failure_stops_preparation(s: Prepare, outs: Seq<Outcome>)
    requires
        s.wf(),
        s.running(),
    ensures
        s.after(Outcome::Failed).run(outs) == s.after(Outcome::Failed),
        s.after(Outcome::Failed).pos == s.pos,
        s.after(Outcome::Failed).spec_next() == Next::<PrepareCall>::Aborted(failure_of(s.call)),
{
    lemma_settled_run(s.after(Outcome::Failed), outs);
}

/// When the hypervisor reports filesystem sharing unsupported, the entry is
/// done without constructing a share-filesystem backend, and the manager is
/// left without one.
pub proof fn lemma_unsupported_skips_share_fs(s: Prepare, o: Outcome)
    requires
        s.wf(),
        s.running(),
        s.call == PrepareCall::CheckFsSharing,
        o != Outcome::Failed,
        !supported(o),
    ensures
        !s.after(o).share_fs,
        s.after(o).pos == s.pos + 1,
        s.after(o).spec_next() != Next::<PrepareCall>::Perform(PrepareCall::NewShareFs),
{
}

} // verus!
