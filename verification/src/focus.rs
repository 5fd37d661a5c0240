//! Which application gets the keyboard focus back after recording: the most
//! recent frontmost application that is not this one.

use vstd::prelude::*;

verus! {

/// The most recent frontmost application other than this process.
pub struct FocusTracker {
    our_pid: i32,
    last_external_pid: i32,
}

impl FocusTracker {
    /// No application is known (-1), or a valid one that is not this process.
    #[verifier::type_invariant]
    spec fn known_pid_is_external(self) -> bool {
        self.last_external_pid == -1 || (self.last_external_pid > 0 && self.last_external_pid
            != self.our_pid)
    }

    /// The process identifier of this application.
    pub closed spec fn spec_our_pid(self) -> i32 {
        self.our_pid
    }

    /// The application to return to, -1 when none is known yet.
    pub closed spec fn spec_last_external_pid(self) -> i32 {
        self.last_external_pid
    }

    /// The remembered application is none (-1), or a valid process other than this one.
    pub open spec fn remembers_only_external(self) -> bool {
        self.spec_last_external_pid() == -1 || (self.spec_last_external_pid() > 0
            && self.spec_last_external_pid() != self.spec_our_pid())
    }

    /// A tracker for the process `our_pid` that knows no other application yet.
    pub fn new(our_pid: i32) -> (t: Self)
        ensures
            t.spec_our_pid() == our_pid,
            t.spec_last_external_pid() == -1,
            t.remembers_only_external(),
    {
        FocusTracker { our_pid, last_external_pid: -1 }
    }

    /// The process identifier of this application.
    pub fn our_pid(&self) -> (p: i32)
        ensures
            p == self.spec_our_pid(),
            self.remembers_only_external(),
    {
        proof {
            use_type_invariant(self);
        }
        self.our_pid
    }

    /// The application to return to, -1 when none is known yet.
    pub fn last_external_pid(&self) -> (p: i32)
        ensures
            p == self.spec_last_external_pid(),
            self.remembers_only_external(),
    {
        proof {
            use_type_invariant(self);
        }
        self.last_external_pid
    }

    /// Records the frontmost application seen by a poll: it is remembered when
    /// it is a valid process other than this one, and ignored otherwise.
    pub fn observe_frontmost(&mut self, pid: i32)
        ensures
            final(self).spec_our_pid() == old(self).spec_our_pid(),
            final(self).spec_last_external_pid() == after_poll(
                old(self).spec_last_external_pid(),
                old(self).spec_our_pid(),
                pid,
            ),
            old(self).remembers_only_external(),
            final(self).remembers_only_external(),
    {
        proof {
            use_type_invariant(&*self);
        }
        if pid > 0 && pid != self.our_pid {
            self.last_external_pid = pid;
        }
        proof {
            use_type_invariant(&*self);
        }
    }
}

/// The application to activate to give the focus back, if one is known.
pub fn restore_focus(tracker: &FocusTracker) -> (target: Option<i32>)
    ensures
        target == focus_target(tracker.spec_last_external_pid()),
        tracker.remembers_only_external(),
        target matches Some(p) ==> p > 0 && p != tracker.spec_our_pid(),
{
    proof {
        use_type_invariant(tracker);
    }
    let pid = tracker.last_external_pid;
    if pid <= 0 {
        None
    } else {
        Some(pid)
    }
}

/// The remembered application after a poll that saw `pid` frontmost.
pub open spec fn after_poll(last: i32, our: i32, pid: i32) -> i32 {
    if pid > 0 && pid != our {
        pid
    } else {
        last
    }
}

/// The remembered application after polls that saw `pids` frontmost, in order.
pub open spec fn after_polls(last: i32, our: i32, pids: Seq<i32>) -> i32
    decreases pids.len(),
{
    if pids.len() == 0 {
        last
    } else {
        after_poll(after_polls(last, our, pids.drop_last()), our, pids.last())
    }
}

/// The application that restoring the focus activates, given the remembered one.
pub open spec fn focus_target(last: i32) -> Option<i32> {
    if last <= 0 {
        None
    } else {
        Some(last)
    }
}

/// A poll that saw `pid` frontmost saw a valid process other than `our`.
pub open spec fn is_external(pid: i32, our: i32) -> bool {
    pid > 0 && pid != our
}

/// The focus goes back to the most recent frontmost application that is not
/// this one: after any run of polls from a fresh tracker, restoring the focus
/// targets the last polled valid process other than `our`, and nothing when
/// the polls saw none.
pub proof fn restore_targets_last_external(our: i32, pids: Seq<i32>)
    ensures
        match focus_target(after_polls(-1i32, our, pids)) {
            Some(p) => exists|k: int|
                0 <= k < pids.len() && pids[k] == p && #[trigger] is_external(pids[k], our)
                    && forall|m: int| k < m < pids.len() ==> !is_external(#[trigger] pids[m], our),
            None => forall|k: int| 0 <= k < pids.len() ==> !is_external(#[trigger] pids[k], our),
        },
    decreases pids.len(),
{
    if pids.len() > 0 {
        let init = pids.drop_last();
        let n = pids.len() - 1;
        restore_targets_last_external(our, init);
        if is_external(pids[n], our) {
            assert(is_external(pids[n], our));
        } else {
            match focus_target(after_polls(-1i32, our, init)) {
                Some(p) => {
                    let k = choose|k: int|
                        0 <= k < init.len() && init[k] == p && #[trigger] is_external(init[k], our)
                            && forall|m: int| k < m < init.len() ==> !is_external(#[trigger] init[m], our);
                    assert(pids[k] == init[k]);
                    assert forall|m: int| k < m < pids.len() implies !is_external(#[trigger] pids[m], our) by {
                        if m < n {
                            assert(pids[m] == init[m]);
                        }
                    }
                },
                None => {
                    assert forall|k: int| 0 <= k < pids.len() implies !is_external(#[trigger] pids[k], our) by {
                        if k < n {
                            assert(pids[k] == init[k]);
                        }
                    }
                },
            }
        }
    }
}

} // verus!
