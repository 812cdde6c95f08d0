//! The agent registry: agents keyed by their identifier, kept in the order in which they
//! first registered.

use vstd::prelude::*;

use crate::agent::{is_stale, polled_at, serves, Agent, AgentView};
use crate::error::HubError;

verus! {

/// No two agents share an identifier.
pub open spec fn agent_ids_distinct(agents: Seq<AgentView>) -> bool {
    forall|i: int, j: int|
        0 <= i < agents.len() && 0 <= j < agents.len() && i != j ==> agents[i].agent_id
            != agents[j].agent_id
}

/// Some agent has identifier `id`.
pub open spec fn has_agent(agents: Seq<AgentView>, id: Seq<char>) -> bool {
    exists|i: int| 0 <= i < agents.len() && agents[i].agent_id == id
}

/// The position of the agent with identifier `id`.
pub open spec fn agent_index(agents: Seq<AgentView>, id: Seq<char>) -> int {
    choose|i: int| 0 <= i < agents.len() && agents[i].agent_id == id
}

/// The agent with identifier `id`, if there is one.
pub open spec fn lookup_agent(agents: Seq<AgentView>, id: Seq<char>) -> Option<AgentView> {
    if has_agent(agents, id) {
        Some(agents[agent_index(agents, id)])
    } else {
        None
    }
}

/// Registers `agent`: it replaces the agent with the same identifier in place, or else
/// comes last.
pub open spec fn upsert_agent(agents: Seq<AgentView>, agent: AgentView) -> Seq<AgentView> {
    if has_agent(agents, agent.agent_id) {
        agents.update(agent_index(agents, agent.agent_id), agent)
    } else {
        agents.push(agent)
    }
}

/// Removes the agent with identifier `id`, if there is one.
pub open spec fn remove_agent(agents: Seq<AgentView>, id: Seq<char>) -> Seq<AgentView> {
    if has_agent(agents, id) {
        agents.remove(agent_index(agents, id))
    } else {
        agents
    }
}

/// Records that the agent with identifier `id` polled at `now`.
pub open spec fn record_poll(agents: Seq<AgentView>, id: Seq<char>, now: int) -> Seq<AgentView> {
    agents.update(agent_index(agents, id), polled_at(agents[agent_index(agents, id)], now))
}

/// Position `i` holds the first agent, in registry order, that serves `intent`.
pub open spec fn is_first_server(agents: Seq<AgentView>, intent: Seq<char>, i: int) -> bool {
    &&& 0 <= i < agents.len()
    &&& serves(agents[i], intent)
    &&& forall|j: int| 0 <= j < i ==> !serves(#[trigger] agents[j], intent)
}

/// Some registered agent serves `intent`.
pub open spec fn has_server(agents: Seq<AgentView>, intent: Seq<char>) -> bool {
    exists|i: int| 0 <= i < agents.len() && serves(#[trigger] agents[i], intent)
}

/// The position of the first agent that serves `intent`.
pub open spec fn first_server(agents: Seq<AgentView>, intent: Seq<char>) -> int {
    choose|i: int| is_first_server(agents, intent, i)
}

/// The agents that count as stale at `now`, in registry order.
pub open spec fn stale_agents(agents: Seq<AgentView>, now: int, timeout: int) -> Seq<AgentView> {
    agents.filter(|a: AgentView| is_stale(a, now, timeout))
}

/// The agents that do not count as stale at `now`, in registry order.
pub open spec fn live_agents(agents: Seq<AgentView>, now: int, timeout: int) -> Seq<AgentView> {
    agents.filter(|a: AgentView| !is_stale(a, now, timeout))
}

pub open spec fn ids_of(agents: Seq<AgentView>) -> Seq<Seq<char>> {
    agents.map_values(|a: AgentView| a.agent_id)
}

pub open spec fn agents_view(agents: Seq<Agent>) -> Seq<AgentView> {
    agents.map_values(|a: Agent| a@)
}

/// With distinct identifiers, position `i` is the one that holds identifier `agents[i].agent_id`.
pub proof fn lemma_agent_index(agents: Seq<AgentView>, i: int)
    requires
        agent_ids_distinct(agents),
        0 <= i < agents.len(),
    ensures
        has_agent(agents, agents[i].agent_id),
        agent_index(agents, agents[i].agent_id) == i,
{
}

/// There is at most one first server of an intent.
pub proof fn lemma_first_server_unique(agents: Seq<AgentView>, intent: Seq<char>, i: int)
    requires
        is_first_server(agents, intent, i),
    ensures
        has_server(agents, intent),
        first_server(agents, intent) == i,
{
    let k = first_server(agents, intent);
    assert(is_first_server(agents, intent, k));
    if k < i {
        assert(!serves(agents[k], intent));
    }
    if i < k {
        assert(!serves(agents[i], intent));
    }
}

/// Registering an agent keeps identifiers distinct.
pub proof fn lemma_upsert_agent_distinct(agents: Seq<AgentView>, agent: AgentView)
    requires
        agent_ids_distinct(agents),
    ensures
        agent_ids_distinct(upsert_agent(agents, agent)),
{
    if has_agent(agents, agent.agent_id) {
        let k = agent_index(agents, agent.agent_id);
        let s = upsert_agent(agents, agent);
        assert forall|i: int, j: int|
            0 <= i < s.len() && 0 <= j < s.len() && i != j implies s[i].agent_id
            != s[j].agent_id by {
            if i == k || j == k {
            }
        }
    }
}

/// Removing an agent keeps identifiers distinct.
pub proof fn lemma_remove_agent_distinct(agents: Seq<AgentView>, id: Seq<char>)
    requires
        agent_ids_distinct(agents),
    ensures
        agent_ids_distinct(remove_agent(agents, id)),
{
    if has_agent(agents, id) {
        let k = agent_index(agents, id);
        let s = remove_agent(agents, id);
        assert forall|i: int, j: int|
            0 <= i < s.len() && 0 <= j < s.len() && i != j implies s[i].agent_id
            != s[j].agent_id by {
            let i0 = if i < k { i } else { i + 1 };
            let j0 = if j < k { j } else { j + 1 };
            assert(s[i] == agents[i0]);
            assert(s[j] == agents[j0]);
        }
    }
}

/// A filtered sequence keeps identifiers distinct.
pub proof fn lemma_filter_distinct(agents: Seq<AgentView>, pred: spec_fn(AgentView) -> bool)
    requires
        agent_ids_distinct(agents),
    ensures
        agent_ids_distinct(agents.filter(pred)),
        forall|a: AgentView| #[trigger] agents.filter(pred).contains(a) ==> agents.contains(a),
    decreases agents.len(),
{
    reveal_with_fuel(Seq::<_>::filter, 1);
    if agents.len() > 0 {
        let rest = agents.drop_last();
        assert forall|i: int, j: int|
            0 <= i < rest.len() && 0 <= j < rest.len() && i != j implies rest[i].agent_id
            != rest[j].agent_id by {
            assert(rest[i] == agents[i] && rest[j] == agents[j]);
        }
        lemma_filter_distinct(rest, pred);
        let f = rest.filter(pred);
        assert forall|a: AgentView| #[trigger] f.contains(a) implies agents.contains(a) by {
            let k = choose|k: int| 0 <= k < f.len() && f[k] == a;
            assert(rest.contains(a));
            let m = choose|m: int| 0 <= m < rest.len() && rest[m] == a;
            assert(agents[m] == a);
        }
        if pred(agents.last()) {
            let s = f.push(agents.last());
            assert forall|i: int, j: int|
                0 <= i < s.len() && 0 <= j < s.len() && i != j implies s[i].agent_id
                != s[j].agent_id by {
                if i == f.len() || j == f.len() {
                    let other = if i == f.len() { j } else { i };
                    assert(f.contains(s[other]));
                    let m = choose|m: int| 0 <= m < rest.len() && rest[m] == s[other];
                    assert(agents[m] == s[other]);
                    assert(agents[agents.len() - 1] == agents.last());
                }
            }
            assert forall|a: AgentView| #[trigger] s.contains(a) implies agents.contains(a) by {
                let k = choose|k: int| 0 <= k < s.len() && s[k] == a;
                if k == f.len() {
                    assert(agents[agents.len() - 1] == a);
                } else {
                    assert(f.contains(a));
                }
            }
        }
    }
}

/// The agent registry.
pub struct AgentRegistry {
    agents: Vec<Agent>,
}

impl View for AgentRegistry {
    type V = Seq<AgentView>;

    closed spec fn view(&self) -> Seq<AgentView> {
        agents_view(self.agents@)
    }
}

impl AgentRegistry {
    pub open spec fn wf(&self) -> bool {
        agent_ids_distinct(self@)
    }

    /// An empty registry.
    pub fn new() -> (registry: AgentRegistry)
        ensures
            registry.wf(),
            registry@ == Seq::<AgentView>::empty(),
    {
        let registry = AgentRegistry { agents: Vec::new() };
        assert(registry@ =~= Seq::<AgentView>::empty());
        registry
    }

    /// The position of the agent with identifier `agent_id`, if there is one.
    pub fn position(&self, agent_id: &str) -> (pos: Option<usize>)
        requires
            self.wf(),
        ensures
            pos is None <==> !has_agent(self@, agent_id@),
            pos matches Some(i) ==> i < self@.len() && i == agent_index(self@, agent_id@)
                && self@[i as int].agent_id == agent_id@,
    {
        let wanted = agent_id.to_owned();
        let n = self.agents.len();
        for i in 0..n
            invariant
                n == self.agents@.len(),
                self.wf(),
                wanted@ == agent_id@,
                forall|j: int| 0 <= j < i ==> self@[j].agent_id != agent_id@,
        {
            if self.agents[i].agent_id == wanted {
                proof {
                    lemma_agent_index(self@, i as int);
                }
                return Some(i);
            }
        }
        None
    }

    /// The agent at position `i`.
    pub fn at(&self, i: usize) -> (agent: &Agent)
        requires
            i < self@.len(),
        ensures
            agent@ == self@[i as int],
    {
        &self.agents[i]
    }

    /// Registers `agent`, replacing the agent with the same identifier if there is one.
    pub fn register(&mut self, agent: Agent)
        requires
            old(self).wf(),
        ensures
            final(self).wf(),
            final(self)@ == upsert_agent(old(self)@, agent@),
    {
        proof {
            lemma_upsert_agent_distinct(self@, agent@);
        }
        match self.position(agent.agent_id.as_str()) {
            Some(i) => {
                self.agents.set(i, agent);
            },
            None => {
                self.agents.push(agent);
            },
        }
        assert(self@ =~= upsert_agent(old(self)@, agent@));
    }

    /// Removes the agent with identifier `agent_id` and hands it back, if there is one.
    pub fn unregister(&mut self, agent_id: &str) -> (removed: Option<Agent>)
        requires
            old(self).wf(),
        ensures
            final(self).wf(),
            final(self)@ == remove_agent(old(self)@, agent_id@),
            match removed {
                Some(a) => lookup_agent(old(self)@, agent_id@) == Some(a@),
                None => lookup_agent(old(self)@, agent_id@) is None,
            },
    {
        proof {
            lemma_remove_agent_distinct(self@, agent_id@);
        }
        match self.position(agent_id) {
            Some(i) => {
                let a = self.agents.remove(i);
                assert(self@ =~= remove_agent(old(self)@, agent_id@));
                Some(a)
            },
            None => None,
        }
    }

    /// The agent with identifier `agent_id`, if there is one.
    pub fn get(&self, agent_id: &str) -> (agent: Option<&Agent>)
        requires
            self.wf(),
        ensures
            match agent {
                Some(a) => lookup_agent(self@, agent_id@) == Some(a@),
                None => lookup_agent(self@, agent_id@) is None,
            },
    {
        match self.position(agent_id) {
            Some(i) => Some(&self.agents[i]),
            None => None,
        }
    }

    /// Copies of all registered agents, in registry order.
    pub fn list(&self) -> (agents: Vec<Agent>)
        ensures
            agents_view(agents@) == self@,
    {
        let mut out: Vec<Agent> = Vec::new();
        let n = self.agents.len();
        for i in 0..n
            invariant
                n == self.agents@.len(),
                out@.len() == i,
                agents_view(out@) == self@.take(i as int),
        {
            let ghost before = out@;
            out.push(self.agents[i].duplicate());
            assert(self@[i as int] == self.agents@[i as int]@);
            assert forall|j: int| 0 <= j < i implies agents_view(out@)[j] == agents_view(
                before,
            )[j] by {
                assert(out@[j] == before[j]);
            }
            assert(agents_view(out@) =~= self@.take(i + 1));
        }
        assert(self@.take(n as int) =~= self@);
        out
    }

    /// The position of the first agent, in registry order, that serves `intent`.
    pub fn find_for_intent(&self, intent: &str) -> (pos: Option<usize>)
        ensures
            pos is None <==> !has_server(self@, intent@),
            pos matches Some(i) ==> i == first_server(self@, intent@) && is_first_server(
                self@,
                intent@,
                i as int,
            ),
    {
        let n = self.agents.len();
        for i in 0..n
            invariant
                n == self.agents@.len(),
                forall|j: int| 0 <= j < i ==> !serves(#[trigger] self@[j], intent@),
        {
            assert(self@[i as int] == self.agents@[i as int]@);
            if self.agents[i].serves(intent) {
                proof {
                    lemma_first_server_unique(self@, intent@, i as int);
                }
                return Some(i);
            }
        }
        None
    }

    /// Records that agent `agent_id` polled at `now`; refused if no such agent is registered.
    pub fn update_poll_time(&mut self, agent_id: &str, now: i128) -> (r: Result<(), HubError>)
        requires
            old(self).wf(),
        ensures
            final(self).wf(),
            r is Ok <==> has_agent(old(self)@, agent_id@),
            r matches Err(e) ==> e@ == crate::error::HubErrorView::AgentNotFound(agent_id@),
            r is Ok ==> final(self)@ == record_poll(old(self)@, agent_id@, now as int),
            r is Err ==> final(self)@ == old(self)@,
    {
        match self.position(agent_id) {
            Some(i) => {
                let mut a = self.agents[i].duplicate();
                a.last_poll = Some(now);
                self.agents.set(i, a);
                assert(self@ =~= record_poll(old(self)@, agent_id@, now as int));
                assert forall|x: int, y: int|
                    0 <= x < self@.len() && 0 <= y < self@.len() && x != y implies self@[x].agent_id
                    != self@[y].agent_id by {
                    assert(old(self)@[x].agent_id == self@[x].agent_id);
                    assert(old(self)@[y].agent_id == self@[y].agent_id);
                }
                Ok(())
            },
            None => Err(HubError::AgentNotFound(agent_id.to_owned())),
        }
    }

    /// Removes every agent that counts as stale at `now` with the given timeout, and returns
    /// their identifiers in registry order.
    pub fn cleanup_stale_agents(&mut self, now: i128, timeout: i128) -> (removed: Vec<String>)
        requires
            old(self).wf(),
        ensures
            final(self).wf(),
            final(self)@ == live_agents(old(self)@, now as int, timeout as int),
            removed@.map_values(|s: String| s@) == ids_of(
                stale_agents(old(self)@, now as int, timeout as int),
            ),
    {
        let ghost all = self@;
        let ghost stale_pred = |a: AgentView| is_stale(a, now as int, timeout as int);
        let ghost live_pred = |a: AgentView| !is_stale(a, now as int, timeout as int);
        let mut kept: Vec<Agent> = Vec::new();
        let mut gone: Vec<String> = Vec::new();
        let n = self.agents.len();
        for i in 0..n
            invariant
                n == self.agents@.len(),
                all == self@,
                stale_pred == (|a: AgentView| is_stale(a, now as int, timeout as int)),
                live_pred == (|a: AgentView| !is_stale(a, now as int, timeout as int)),
                agents_view(kept@) == all.take(i as int).filter(live_pred),
                gone@.map_values(|s: String| s@) == ids_of(all.take(i as int).filter(stale_pred)),
        {
            reveal_with_fuel(Seq::<_>::filter, 1);
            assert(all.take(i + 1).drop_last() =~= all.take(i as int));
            assert(all[i as int] == self.agents@[i as int]@);
            let a = &self.agents[i];
            if a.is_stale_at(now, timeout) {
                let ghost before = gone@;
                gone.push(a.agent_id.clone());
                assert(gone@.map_values(|s: String| s@) =~= before.map_values(|s: String| s@).push(
                    all[i as int].agent_id,
                ));
                assert(ids_of(all.take(i + 1).filter(stale_pred)) =~= ids_of(
                    all.take(i as int).filter(stale_pred),
                ).push(all[i as int].agent_id));
            } else {
                let ghost before = kept@;
                kept.push(a.duplicate());
                assert(agents_view(kept@) =~= agents_view(before).push(all[i as int]));
            }
        }
        assert(all.take(n as int) =~= all);
        proof {
            lemma_filter_distinct(all, live_pred);
        }
        self.agents = kept;
        gone
    }
}

} // verus!
