use vstd::prelude::*;

use crate::config::{AutoproxyConfig, AutoproxyLatchScope, System};
use crate::types::{MemberId, Status, Timestamp};

verus! {

/// The presence a member's bot should advertise: invisible without a
/// policy; online only for the fixed member under a fixed-member policy;
/// under a latch policy, online only for the latched member, and only when
/// the latch is global and the indicator is on.
pub open spec fn spec_desired_status(
    config: System,
    latch: Option<(MemberId, Timestamp)>,
    member_id: int,
) -> Status {
    match config.autoproxy {
        None => Status::Invisible,
        Some(AutoproxyConfig::Member { name }) => {
            if 0 <= member_id < config.members@.len() && config.members@[member_id].name@ == name@ {
                Status::Online
            } else {
                Status::Invisible
            }
        },
        Some(AutoproxyConfig::Latch { scope, timeout_seconds, presence_indicator }) => {
            if scope is Server || !presence_indicator {
                Status::Invisible
            } else {
                match latch {
                    Some((m, _)) => if member_id == m as int {
                        Status::Online
                    } else {
                        Status::Invisible
                    },
                    None => Status::Invisible,
                }
            }
        },
    }
}

/// Computes the presence a member's bot should advertise.
pub fn desired_status(
    config: &System,
    latch: Option<(MemberId, Timestamp)>,
    member_id: usize,
) -> (r: Status)
    requires
        member_id < config.members@.len(),
    ensures
        r == spec_desired_status(*config, latch, member_id as int),
{
    match &config.autoproxy {
        None => Status::Invisible,
        Some(AutoproxyConfig::Member { name }) => {
            if config.members[member_id].name.eq(name) {
                Status::Online
            } else {
                Status::Invisible
            }
        },
        Some(AutoproxyConfig::Latch { scope, timeout_seconds: _, presence_indicator }) => {
            if matches!(scope, AutoproxyLatchScope::Server) || !*presence_indicator {
                Status::Invisible
            } else {
                match latch {
                    Some((m, _)) => if member_id == m {
                        Status::Online
                    } else {
                        Status::Invisible
                    },
                    None => Status::Invisible,
                }
            }
        },
    }
}

/// How one suppression step relates the per-member statuses before and
/// after: an update equal to the last sent one is swallowed, a different
/// one is sent and recorded; other members are untouched.
pub open spec fn plan_update_rel(
    pre: Seq<Status>,
    post: Seq<Status>,
    member: int,
    desired: Status,
    sent: Option<Status>,
) -> bool {
    &&& 0 <= member < pre.len()
    &&& post.len() == pre.len()
    &&& (if pre[member] == desired {
        sent is None && post == pre
    } else {
        sent == Some(desired) && post == pre.update(member, desired)
    })
}

/// The last presence each member's bot was asked to advertise. A fresh
/// gateway session starts out online, so the trackers do too.
pub struct PresenceTracker {
    pub last: Vec<Status>,
}

impl PresenceTracker {
    /// One tracker per member, all starting online.
    pub fn new(n: usize) -> (r: PresenceTracker)
        ensures
            r.last@.len() == n,
            forall|i: int| 0 <= i < n ==> r.last@[i] == Status::Online,
    {
        let mut last: Vec<Status> = Vec::new();
        let mut i: usize = 0;
        while i < n
            invariant
                0 <= i <= n,
                last@.len() == i,
                forall|k: int| 0 <= k < i ==> last@[k] == Status::Online,
            decreases n - i,
        {
            last.push(Status::Online);
            i = i + 1;
        }
        PresenceTracker { last }
    }

    /// Plans one status update: what to send, if anything, so that the
    /// member's bot advertises `desired`.
    pub fn plan_update(&mut self, member: MemberId, desired: Status) -> (sent: Option<Status>)
        requires
            member < old(self).last@.len(),
        ensures
            plan_update_rel(old(self).last@, final(self).last@, member as int, desired, sent),
    {
        if self.last[member] == desired {
            None
        } else {
            self.last.set(member, desired);
            Some(desired)
        }
    }
}

/// Presence idempotence: in a run of planned updates for one member in
/// which the desired status never changes, every update after the first
/// is suppressed — at most one is sent.
pub proof fn lemma_presence_idempotent(
    states: Seq<Seq<Status>>,
    sent: Seq<Option<Status>>,
    member: int,
    desired: Status,
)
    requires
        states.len() == sent.len() + 1,
        forall|i: int| 0 <= i < sent.len() ==> plan_update_rel(
            #[trigger] states[i],
            states[i + 1],
            member,
            desired,
            sent[i],
        ),
    ensures
        forall|i: int| 1 <= i < sent.len() ==> sent[i] is None,
{
    assert forall|i: int| 1 <= i < sent.len() implies sent[i] is None by {
        assert(plan_update_rel(states[i - 1], states[i], member, desired, sent[i - 1]));
        assert(states[i][member] == desired);
        assert(plan_update_rel(states[i], states[i + 1], member, desired, sent[i]));
    }
}

} // verus!
