use vstd::prelude::*;
use crate::json::{assoc_lookup, assoc_find};

verus! {

/// Milliseconds in the fixed counting window.
pub const RATE_WINDOW_MILLIS: u64 = 60_000;

/// Policy of one tool: whether a call needs approval, and how many
/// calls the window admits.
#[derive(Debug, Clone, Copy, PartialEq, Eq)]
pub struct ToolPolicy {
    pub requires_approval: bool,
    pub max_calls_per_minute: usize,
}

/// Gate for tool calls: per-tool policies, and a fixed-window call
/// counter keyed by tool name.
pub struct SecurityManager {
    pub tool_policies: Vec<(String, ToolPolicy)>,
    pub call_history: Vec<(String, Vec<u64>)>,
}

/// The calls of `h` still inside the window ending at `now`, in order.
pub open spec fn pruned(h: Seq<u64>, now: u64) -> Seq<u64>
    decreases h.len(),
{
    if h.len() == 0 {
        Seq::empty()
    } else {
        let rest = pruned(h.drop_first(), now);
        if h[0] + RATE_WINDOW_MILLIS > now {
            seq![h[0]] + rest
        } else {
            rest
        }
    }
}

/// Relies on std::time::SystemTime::now: the clock reading at the
/// call, in milliseconds since the epoch; nothing is promised of it.
#[verifier::external_body]
fn now_millis() -> u64 {
    match std::time::SystemTime::now().duration_since(std::time::UNIX_EPOCH) {
        Ok(d) => d.as_millis() as u64,
        Err(_) => 0,
    }
}

/// Prunes one tool's window at clock `now` and admits or refuses one
/// more call: admitted when the pruned window is under `max_calls`,
/// and an admitted call is appended to the window.
fn admit_call(hist: Vec<u64>, now: u64, max_calls: usize) -> (r: (bool, Vec<u64>))
    ensures
        r.0 == (pruned(hist@, now).len() < max_calls),
        r.1@ == (if r.0 {
            pruned(hist@, now).push(now)
        } else {
            pruned(hist@, now)
        }),
{
    let ghost orig: Seq<u64> = hist@;
    let mut kept: Vec<u64> = Vec::new();
    proof {
        assert(orig.skip(0) =~= orig);
        assert(Seq::<u64>::empty() + pruned(orig, now) =~= pruned(orig, now));
    }
    let mut j: usize = 0;
    while j < hist.len()
        invariant
            orig == hist@,
            j <= hist@.len(),
            pruned(orig, now) == kept@ + pruned(orig.skip(j as int), now),
        decreases hist@.len() - j,
    {
        let ghost pre_kept: Seq<u64> = kept@;
        let t = hist[j];
        proof {
            assert(orig.skip(j as int).drop_first() =~= orig.skip(j as int + 1));
            assert(orig.skip(j as int)[0] == orig[j as int]);
        }
        if (t as u128) + (RATE_WINDOW_MILLIS as u128) > (now as u128) {
            kept.push(t);
            proof {
                assert(kept@ + pruned(orig.skip(j as int + 1), now)
                    =~= pre_kept + pruned(orig.skip(j as int), now));
            }
        } else {
            proof {
                assert(kept@ + pruned(orig.skip(j as int + 1), now)
                    =~= pre_kept + pruned(orig.skip(j as int), now));
            }
        }
        j = j + 1;
    }
    proof {
        assert(orig.skip(orig.len() as int) =~= Seq::<u64>::empty());
        assert(kept@ + pruned(orig.skip(orig.len() as int), now) =~= kept@);
    }
    let allowed = kept.len() < max_calls;
    if allowed {
        kept.push(now);
    }
    (allowed, kept)
}

impl SecurityManager {
    /// Tool names are unique in both tables.
    pub open spec fn inv(&self) -> bool {
        &&& forall|i: int, j: int| 0 <= i < j < self.tool_policies@.len()
            ==> (#[trigger] self.tool_policies@[i]).0@ != (#[trigger] self.tool_policies@[j]).0@
        &&& forall|i: int, j: int| 0 <= i < j < self.call_history@.len()
            ==> (#[trigger] self.call_history@[i]).0@ != (#[trigger] self.call_history@[j]).0@
    }

    /// The policy that governs a tool: its registered one, or the
    /// fixed default (approval required, ten calls a minute).
    pub open spec fn effective_policy(ps: Seq<(String, ToolPolicy)>, name: Seq<char>) -> ToolPolicy {
        match assoc_lookup(ps, name) {
            Some(p) => p,
            None => ToolPolicy { requires_approval: true, max_calls_per_minute: 10 },
        }
    }

    /// One rate decision for `name` at clock `now` over `max` calls:
    /// the window was pruned, the decision read the pruned window, an
    /// admitted call was appended, and no other tool's window moved.
    pub open spec fn rate_limited(
        pre: SecurityManager,
        name: Seq<char>,
        max: usize,
        now: u64,
        post: SecurityManager,
        allowed: bool,
    ) -> bool {
        let h0 = match assoc_lookup(pre.call_history@, name) {
            Some(h) => h@,
            None => Seq::<u64>::empty(),
        };
        let h1 = if allowed {
            pruned(h0, now).push(now)
        } else {
            pruned(h0, now)
        };
        &&& allowed == (pruned(h0, now).len() < max)
        &&& post.tool_policies == pre.tool_policies
        &&& exists|i: int| 0 <= i < post.call_history@.len()
            && (#[trigger] post.call_history@[i]).0@ == name && post.call_history@[i].1@ == h1
        &&& post.call_history@.len() == (if assoc_lookup(pre.call_history@, name) is Some {
            pre.call_history@.len()
        } else {
            pre.call_history@.len() + 1
        })
        &&& forall|k: int| 0 <= k < pre.call_history@.len()
            && (#[trigger] pre.call_history@[k]).0@ != name
            ==> post.call_history@[k] == pre.call_history@[k]
    }

    /// The fixed starting policies: file writing and command execution
    /// gated tightly, plain reads loosely; no calls on record.
    pub fn new() -> (m: Self)
        ensures
            m.inv(),
            m.call_history@.len() == 0,
            m.tool_policies@.len() == 3,
            m.tool_policies@[0].0@ == "file-write"@,
            m.tool_policies@[0].1 == (ToolPolicy { requires_approval: true, max_calls_per_minute: 5 }),
            m.tool_policies@[1].0@ == "execute-command"@,
            m.tool_policies@[1].1 == (ToolPolicy { requires_approval: true, max_calls_per_minute: 2 }),
            m.tool_policies@[2].0@ == "read-data"@,
            m.tool_policies@[2].1 == (ToolPolicy { requires_approval: false, max_calls_per_minute: 20 }),
    {
        let mut ps: Vec<(String, ToolPolicy)> = Vec::new();
        ps.push((
            "file-write".to_owned(),
            ToolPolicy { requires_approval: true, max_calls_per_minute: 5 },
        ));
        ps.push((
            "execute-command".to_owned(),
            ToolPolicy { requires_approval: true, max_calls_per_minute: 2 },
        ));
        ps.push((
            "read-data".to_owned(),
            ToolPolicy { requires_approval: false, max_calls_per_minute: 20 },
        ));
        proof {
            reveal_strlit("file-write");
            reveal_strlit("execute-command");
            reveal_strlit("read-data");
            assert("file-write"@.len() == 10);
            assert("execute-command"@.len() == 15);
            assert("read-data"@.len() == 9);
        }
        SecurityManager { tool_policies: ps, call_history: Vec::new() }
    }

    /// Registers or replaces the policy of one tool.
    pub fn set_tool_policy(&mut self, tool_name: String, policy: ToolPolicy)
        requires
            old(self).inv(),
        ensures
            final(self).inv(),
            final(self).call_history == old(self).call_history,
            exists|i: int| 0 <= i < final(self).tool_policies@.len()
                && (#[trigger] final(self).tool_policies@[i]).0@ == tool_name@
                && final(self).tool_policies@[i].1 == policy,
            final(self).tool_policies@.len()
                == (if assoc_lookup(old(self).tool_policies@, tool_name@) is Some {
                old(self).tool_policies@.len()
            } else {
                old(self).tool_policies@.len() + 1
            }),
            forall|k: int| 0 <= k < old(self).tool_policies@.len()
                && (#[trigger] old(self).tool_policies@[k]).0@ != tool_name@
                ==> final(self).tool_policies@[k] == old(self).tool_policies@[k],
    {
        let ghost pre: Seq<(String, ToolPolicy)> = self.tool_policies@;
        let ghost gname: String = tool_name;
        match assoc_find(&self.tool_policies, tool_name.as_str()) {
            Some(i) => {
                self.tool_policies.remove(i);
                self.tool_policies.insert(i, (tool_name, policy));
                proof {
                    assert(self.tool_policies@[i as int] == (gname, policy));
                    assert(self.tool_policies@ =~= pre.update(i as int, (gname, policy)));
                }
            },
            None => {
                self.tool_policies.push((tool_name, policy));
                proof {
                    assert(self.tool_policies@[pre.len() as int] == (gname, policy));
                    assert(self.tool_policies@ =~= pre.push((gname, policy)));
                }
            },
        }
    }

    /// One gate decision for a tool call: the tool's effective policy
    /// picks the cap, and the call is counted against its window at
    /// the clock reading taken during the call.
    pub fn check_tool_call(&mut self, tool_name: &str) -> (r: bool)
        requires
            old(self).inv(),
        ensures
            final(self).inv(),
            exists|now: u64| #[trigger] Self::rate_limited(
                *old(self),
                tool_name@,
                Self::effective_policy(old(self).tool_policies@, tool_name@).max_calls_per_minute,
                now,
                *final(self),
                r,
            ),
    {
        let policy: ToolPolicy = match assoc_find(&self.tool_policies, tool_name) {
            Some(i) => self.tool_policies[i].1,
            None => ToolPolicy { requires_approval: true, max_calls_per_minute: 10 },
        };
        proof {
            assert(policy == Self::effective_policy(old(self).tool_policies@, tool_name@));
        }
        self.check_rate_limit(tool_name, policy.max_calls_per_minute)
    }

    /// One rate decision for a tool at the given cap, against the
    /// clock reading taken during the call.
    pub fn check_rate_limit(&mut self, tool_name: &str, max_calls: usize) -> (r: bool)
        requires
            old(self).inv(),
        ensures
            final(self).inv(),
            final(self).tool_policies == old(self).tool_policies,
            exists|now: u64| #[trigger] Self::rate_limited(
                *old(self),
                tool_name@,
                max_calls,
                now,
                *final(self),
                r,
            ),
    {
        let now = now_millis();
        let ghost pre: Seq<(String, Vec<u64>)> = self.call_history@;
        match assoc_find(&self.call_history, tool_name) {
            Some(i) => {
                let (k, h) = self.call_history.remove(i);
                let ghost gk: String = k;
                let ghost gh: Seq<u64> = h@;
                let (allowed, h2) = admit_call(h, now, max_calls);
                let ghost gh2: Seq<u64> = h2@;
                self.call_history.insert(i, (k, h2));
                proof {
                    assert(self.call_history@[i as int].0 == gk);
                    assert(self.call_history@[i as int].1@ == gh2);
                    assert(self.call_history@ =~= pre.update(
                        i as int,
                        self.call_history@[i as int],
                    ));
                    assert(Self::rate_limited(
                        *old(self),
                        tool_name@,
                        max_calls,
                        now,
                        *self,
                        allowed,
                    ));
                }
                allowed
            },
            None => {
                let empty: Vec<u64> = Vec::new();
                let (allowed, h2) = admit_call(empty, now, max_calls);
                let ghost gh2: Seq<u64> = h2@;
                self.call_history.push((tool_name.to_owned(), h2));
                proof {
                    assert(self.call_history@[pre.len() as int].0@ == tool_name@);
                    assert(self.call_history@[pre.len() as int].1@ == gh2);
                    assert(Self::rate_limited(
                        *old(self),
                        tool_name@,
                        max_calls,
                        now,
                        *self,
                        allowed,
                    ));
                }
                allowed
            },
        }
    }
}

impl Default for SecurityManager {
    /// The same starting policies `new` registers.
    fn default() -> (m: Self)
        ensures
            m.inv(),
            m.call_history@.len() == 0,
            m.tool_policies@.len() == 3,
    {
        Self::new()
    }
}

} // verus!
