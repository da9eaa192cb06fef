use vstd::prelude::*;
use crate::error::ResourceError;
use crate::outcome::{Next, Outcome};

verus! {

/// A call made while tearing the sandbox's resources down.
#[derive(Clone, Copy, Debug, PartialEq, Eq, Structural)]
pub enum CleanupCall {
    /// Delete the sandbox cgroup.
    DeleteCgroup,
    /// Clean up the sandbox bind mounts of the configuration.
    CleanupBindMounts,
    /// Clean up the share-filesystem host mounts.
    CleanupShareFsMount,
}

pub open spec fn failure_of(c: CleanupCall) -> ResourceError {
    match c {
        CleanupCall::DeleteCgroup => ResourceError::DeleteCgroup,
        CleanupCall::CleanupBindMounts => ResourceError::CleanupBindMounts,
        CleanupCall::CleanupShareFsMount => ResourceError::CleanupShareFsMount,
    }
}

/// The call after a successful `c`: bind mounts only when the configuration
/// lists some, share-filesystem mounts only when a share-filesystem exists.
pub open spec fn follow(c: CleanupCall, share_fs: bool, bind_mounts_empty: bool) -> Option<CleanupCall> {
    match c {
        CleanupCall::DeleteCgroup => if !bind_mounts_empty {
            Some(CleanupCall::CleanupBindMounts)
        } else if share_fs {
            Some(CleanupCall::CleanupShareFsMount)
        } else {
            None
        },
        CleanupCall::CleanupBindMounts => if share_fs { Some(CleanupCall::CleanupShareFsMount) } else { None },
        CleanupCall::CleanupShareFsMount => None,
    }
}

/// Teardown in progress: the pending call (`None` once complete) and the stage
/// of a failure, which stops the teardown.
pub struct Cleanup {
    pub share_fs: bool,
    pub bind_mounts_empty: bool,
    pub pending: Option<CleanupCall>,
    pub error: Option<ResourceError>,
}

impl Cleanup {
    pub open spec fn spec_next(&self) -> Next<CleanupCall> {
        match self.error {
            Some(e) => Next::Aborted(e),
            None => match self.pending {
                Some(c) => Next::Perform(c),
                None => Next::Finished,
            },
        }
    }

    pub open spec fn after(self, o: Outcome) -> Cleanup {
        match (self.error, self.pending) {
            (None, Some(c)) => if o == Outcome::Failed {
                Cleanup { error: Some(failure_of(c)), ..self }
            } else {
                Cleanup { pending: follow(c, self.share_fs, self.bind_mounts_empty), ..self }
            },
            _ => self,
        }
    }

    pub open spec fn run(self, outs: Seq<Outcome>) -> Cleanup
        decreases outs.len(),
    {
        if outs.len() == 0 {
            self
        } else {
            self.after(outs[0]).run(outs.drop_first())
        }
    }

    /// Starts the teardown, which always begins with the cgroup deletion.
    pub fn new(share_fs: bool, bind_mounts_empty: bool) -> (r: Cleanup)
        ensures
            r.share_fs == share_fs,
            r.bind_mounts_empty == bind_mounts_empty,
            r.pending == Some(CleanupCall::DeleteCgroup),
            r.error.is_none(),
    {
        Cleanup { share_fs, bind_mounts_empty, pending: Some(CleanupCall::DeleteCgroup), error: None }
    }

    pub fn next(&self) -> (r: Next<CleanupCall>)
        ensures
            r == self.spec_next(),
    {
        match self.error {
            Some(e) => Next::Aborted(e),
            None => match self.pending {
                Some(c) => Next::Perform(c),
                None => Next::Finished,
            },
        }
    }

    /// Records what the pending call reported.
    pub fn on_outcome(&mut self, o: Outcome)
        ensures
            *final(self) == old(self).after(o),
    {
        if self.error.is_some() {
            return;
        }
        let c = match self.pending {
            Some(c) => c,
            None => { return; },
        };
        if o == Outcome::Failed {
            self.error = Some(match c {
                CleanupCall::DeleteCgroup => ResourceError::DeleteCgroup,
                CleanupCall::CleanupBindMounts => ResourceError::CleanupBindMounts,
                CleanupCall::CleanupShareFsMount => ResourceError::CleanupShareFsMount,
            });
            return;
        }
        self.pending = match c {
            CleanupCall::DeleteCgroup => if !self.bind_mounts_empty {
                Some(CleanupCall::CleanupBindMounts)
            } else if self.share_fs {
                Some(CleanupCall::CleanupShareFsMount)
            } else {
                None
            },
            CleanupCall::CleanupBindMounts => if self.share_fs {
                Some(CleanupCall::CleanupShareFsMount)
            } else {
                None
            },
            CleanupCall::CleanupShareFsMount => None,
        };
    }
}

/// With no bind mounts configured, no outcome ever leads the teardown to a
/// bind-mount call; it performs the cgroup deletion and, when a
/// share-filesystem exists, its mount cleanup, and then completes.
pub proof fn lemma_empty_bind_mounts_skipped(s: Cleanup, outs: Seq<Outcome>)
    requires
        s.bind_mounts_empty,
        s.pending != Some(CleanupCall::CleanupBindMounts),
    ensures
        s.run(outs).pending != Some(CleanupCall::CleanupBindMounts),
        s.pending == Some(CleanupCall::DeleteCgroup) && s.error.is_none() ==>
            s.after(Outcome::Succeeded).spec_next() == (if s.share_fs {
                Next::Perform(CleanupCall::CleanupShareFsMount)
            } else {
                Next::<CleanupCall>::Finished
            }),
        s.pending == Some(CleanupCall::CleanupShareFsMount) && s.error.is_none() ==>
            s.after(Outcome::Succeeded).spec_next() == Next::<CleanupCall>::Finished,
    decreases outs.len(),
{
    if outs.len() > 0 {
        lemma_empty_bind_mounts_skipped(s.after(outs[0]), outs.drop_first());
    }
}

/// The teardown stops at its first failure: nothing after it is performed.
pub proof fn lemma_cleanup_stops_at_failure(s: Cleanup, outs: Seq<Outcome>)
    requires
        s.error.is_none(),
        s.pending.is_some(),
    ensures
        s.after(Outcome::Failed).run(outs) == s.after(Outcome::Failed),
        s.after(Outcome::Failed).spec_next() == Next::<CleanupCall>::Aborted(failure_of(s.pending.unwrap())),
    decreases outs.len(),
{
    lemma_settled_cleanup(s.after(Outcome::Failed), outs);
}

proof fn lemma_settled_cleanup(s: Cleanup, outs: Seq<Outcome>)
    requires
        s.error.is_some(),
    ensures
        s.run(outs) == s,
    decreases outs.len(),
{
    if outs.len() > 0 {
        lemma_settled_cleanup(s.after(outs[0]), outs.drop_first());
    }
}

} // verus!
