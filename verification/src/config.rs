use vstd::prelude::*;

use crate::types::UserId;

verus! {

/// Scopes an autoproxy rule can be bound to.
pub enum AutoProxyScope {
    Global,
    Server,
    Channel,
}

/// Presence a member can ask its bot to advertise.
#[derive(Clone, Copy)]
pub enum PresenceMode {
    Online,
    Busy,
    Idle,
    Invisible,
}

/// The autoproxy policy of a system.
pub enum AutoproxyConfig {
    /// Always proxy as the named member.
    Member { name: String },
    /// Sticky proxying: keep attributing messages to the last explicitly
    /// proxied member until the timeout elapses.
    Latch { scope: AutoproxyLatchScope, timeout_seconds: u32, presence_indicator: bool },
}

/// How widely a latch applies.
#[derive(Clone, Copy, PartialEq, Eq, Structural)]
pub enum AutoproxyLatchScope {
    Global,
    Server,
}

/// Settings for the optional PluralKit side channel.
pub struct PluralkitConfig {
    /// Anchored pattern matching PluralKit-proxied messages.
    pub message_pattern: String,
    pub api_token: String,
}

/// One member identity of a system.
pub struct Member {
    pub name: String,
    /// Anchored pattern whose `content` capture group extracts the body
    /// of a message addressed to this member.
    pub message_pattern: String,
    pub discord_token: String,
    /// The member's bot account id, learned when that bot connects.
    pub user_id: Option<UserId>,
    pub presence: Option<PresenceMode>,
    pub status: Option<String>,
}

/// One system: a set of members sharing a reference user.
pub struct System {
    /// Decimal id of the human account whose messages are proxied.
    pub reference_user_id: String,
    pub members: Vec<Member>,
    pub forward_pings: bool,
    pub autoproxy: Option<AutoproxyConfig>,
    pub pluralkit: Option<PluralkitConfig>,
    pub ui_color: Option<String>,
}

/// A whole configuration: systems by name.
pub struct Config {
    pub systems: Vec<(String, System)>,
}

/// Whether ping forwarding is enabled when a configuration leaves it unset.
pub fn default_forward_pings() -> (r: bool)
    ensures
        r == false,
{
    false
}

/// A member pattern as compiled: wrapped in `^`/`$` unless already so.
pub open spec fn spec_anchor(p: Seq<char>) -> Seq<char> {
    let with_start = if p.len() > 0 && p[0] == '^' {
        p
    } else {
        seq!['^'] + p
    };
    if with_start.len() > 0 && with_start.last() == '$' {
        with_start
    } else {
        with_start + seq!['$']
    }
}

/// Anchors a pattern so a match must cover the whole content.
pub fn anchor_pattern(p: &str) -> (r: String)
    ensures
        r@ == spec_anchor(p@),
{
    let n = p.unicode_len();
    let with_start: String = if n > 0 && p.get_char(0) == '^' {
        p.to_owned()
    } else {
        let s = String::from_str("^");
        proof {
            reveal_strlit("^");
        }
        s.concat(p)
    };
    let m = with_start.as_str().unicode_len();
    proof {
        reveal_strlit("^");
        assert(with_start@ == (if p@.len() > 0 && p@[0] == '^' {
            p@
        } else {
            seq!['^'] + p@
        }));
    }
    if m > 0 && with_start.as_str().get_char(m - 1) == '$' {
        with_start
    } else {
        let r = with_start.concat("$");
        proof {
            reveal_strlit("$");
            assert(seq!['$'] =~= "$"@);
        }
        r
    }
}

impl System {
    /// An autoproxy rule naming a fixed member must name one of the
    /// system's members.
    /// Whether some member carries the given name.
    pub open spec fn spec_has_member_named(&self, name: Seq<char>) -> bool {
        exists|i: int| 0 <= i < self.members@.len() && (#[trigger] self.members@[i]).name@ == name
    }

    /// The member name a fixed-member autoproxy rule points at, if any.
    pub open spec fn spec_autoproxy_member_name(&self) -> Option<Seq<char>> {
        match self.autoproxy {
            Some(AutoproxyConfig::Member { name }) => Some(name@),
            _ => None,
        }
    }

    pub open spec fn spec_autoproxy_name_valid(&self) -> bool {
        match self.spec_autoproxy_member_name() {
            Some(nm) => self.spec_has_member_named(nm),
            None => true,
        }
    }

    /// Checks that an autoproxy member name refers to a defined member.
    pub fn autoproxy_name_valid(&self) -> (r: bool)
        ensures
            r == self.spec_autoproxy_name_valid(),
    {
        match &self.autoproxy {
            Some(AutoproxyConfig::Member { name }) => {
                proof {
                    assert(self.spec_autoproxy_member_name() == Some(name@));
                }
                let mut i: usize = 0;
                let n = self.members.len();
                while i < n
                    invariant
                        0 <= i <= n,
                        n == self.members@.len(),
                        self.spec_autoproxy_member_name() == Some(name@),
                        forall|k: int| 0 <= k < i ==> self.members@[k].name@ != name@,
                    decreases n - i,
                {
                    if self.members[i].name.eq(name) {
                        proof {
                            let wi = i as int;
                            assert(0 <= wi < self.members@.len() && self.members@[wi].name@
                                == name@);
                            assert(self.spec_has_member_named(name@));
                        }
                        return true;
                    }
                    i = i + 1;
                }
                false
            },
            _ => true,
        }
    }
}

impl Config {
    /// Whether every system's autoproxy rule is consistent with its members.
    pub open spec fn spec_valid(&self) -> bool {
        forall|i: int| 0 <= i < self.systems@.len() ==> (#[trigger] self.systems@[i].1)
            .spec_autoproxy_name_valid()
    }

    /// Load-time validation: each autoproxy member name must refer to a
    /// defined member of its system.
    pub fn validate(&self) -> (r: bool)
        ensures
            r == self.spec_valid(),
    {
        let mut i: usize = 0;
        let n = self.systems.len();
        while i < n
            invariant
                0 <= i <= n,
                n == self.systems@.len(),
                forall|k: int| 0 <= k < i ==> (#[trigger] self.systems@[k].1)
                    .spec_autoproxy_name_valid(),
            decreases n - i,
        {
            if !self.systems[i].1.autoproxy_name_valid() {
                return false;
            }
            i = i + 1;
        }
        true
    }
}

} // verus!
