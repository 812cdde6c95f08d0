//! Agents: the workers that register with the hub and poll it for tasks.

use vstd::prelude::*;

verus! {

/// A registered agent. `last_poll` is the time of its last poll, in nanoseconds since the
/// Unix epoch, or `None` if it has never polled.
#[derive(Debug, Clone)]
pub struct Agent {
    pub agent_id: String,
    pub display_name: String,
    pub capabilities: Vec<String>,
    pub endpoint: String,
    pub last_poll: Option<i128>,
}

/// Abstract value of an [`Agent`].
pub struct AgentView {
    pub agent_id: Seq<char>,
    pub display_name: Seq<char>,
    pub capabilities: Seq<Seq<char>>,
    pub endpoint: Seq<char>,
    pub last_poll: Option<int>,
}

pub open spec fn strings_view(strings: Seq<String>) -> Seq<Seq<char>> {
    strings.map_values(|s: String| s@)
}

pub open spec fn poll_view(last_poll: Option<i128>) -> Option<int> {
    match last_poll {
        Some(t) => Some(t as int),
        None => None,
    }
}

impl View for Agent {
    type V = AgentView;

    open spec fn view(&self) -> AgentView {
        AgentView {
            agent_id: self.agent_id@,
            display_name: self.display_name@,
            capabilities: strings_view(self.capabilities@),
            endpoint: self.endpoint@,
            last_poll: poll_view(self.last_poll),
        }
    }
}

/// The agent lists `intent` among its capabilities.
pub open spec fn serves(agent: AgentView, intent: Seq<char>) -> bool {
    agent.capabilities.contains(intent)
}

/// The agent counts as stale at time `now`: it has never polled, or more than `timeout`
/// nanoseconds have passed since its last poll.
pub open spec fn is_stale(agent: AgentView, now: int, timeout: int) -> bool {
    match agent.last_poll {
        Some(last) => now - last > timeout,
        None => true,
    }
}

/// The same agent, having polled at `now`.
pub open spec fn polled_at(agent: AgentView, now: int) -> AgentView {
    AgentView { last_poll: Some(now), ..agent }
}

/// Copies a list of strings, one by one.
pub fn copy_strings(strings: &Vec<String>) -> (copy: Vec<String>)
    ensures
        copy@ == strings@,
{
    let mut copy: Vec<String> = Vec::new();
    let n = strings.len();
    for i in 0..n
        invariant
            n == strings@.len(),
            copy@ == strings@.take(i as int),
    {
        copy.push(strings[i].clone());
        assert(copy@ =~= strings@.take(i + 1));
    }
    assert(strings@.take(n as int) =~= strings@);
    copy
}

impl Agent {
    /// An equal agent, built anew from its fields.
    pub fn duplicate(&self) -> (copy: Agent)
        ensures
            copy@ == self@,
    {
        Agent {
            agent_id: self.agent_id.clone(),
            display_name: self.display_name.clone(),
            capabilities: copy_strings(&self.capabilities),
            endpoint: self.endpoint.clone(),
            last_poll: self.last_poll,
        }
    }

    /// Whether the agent lists `intent` among its capabilities.
    pub fn serves(&self, intent: &str) -> (b: bool)
        ensures
            b == serves(self@, intent@),
    {
        let wanted = intent.to_owned();
        let n = self.capabilities.len();
        for i in 0..n
            invariant
                n == self.capabilities@.len(),
                wanted@ == intent@,
                forall|j: int| 0 <= j < i ==> self.capabilities@[j]@ != intent@,
        {
            if self.capabilities[i] == wanted {
                assert(strings_view(self.capabilities@)[i as int] == intent@);
                return true;
            }
        }
        assert forall|j: int|
            0 <= j < strings_view(self.capabilities@).len() implies strings_view(
            self.capabilities@,
        )[j] != intent@ by {
            assert(strings_view(self.capabilities@)[j] == self.capabilities@[j]@);
        }
        false
    }

    /// Whether the agent counts as stale at time `now` with the given timeout.
    ///
    /// The difference is taken with `checked_sub`: where it leaves the range of `i128`, its
    /// sign alone decides, since every timeout lies within that range.
    pub fn is_stale_at(&self, now: i128, timeout: i128) -> (b: bool)
        ensures
            b == is_stale(self@, now as int, timeout as int),
    {
        match self.last_poll {
            Some(last) => match now.checked_sub(last) {
                Some(elapsed) => elapsed > timeout,
                None => now > last,
            },
            None => true,
        }
    }
}

} // verus!
