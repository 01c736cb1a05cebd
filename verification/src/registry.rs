//! The agent registry: which principals may receive payouts.

use vstd::prelude::*;
use crate::principal::Principal;

verus! {

/// One line of the registry: a principal and whether it is registered.
#[derive(Clone, Copy, Debug, PartialEq, Eq, Structural)]
pub struct AgentEntry {
    pub agent: Principal,
    pub registered: bool,
}

/// A map from principal to "registered", kept as a list of lines that is
/// searched from its end, so that a lookup rests on the equality of
/// principals alone, which is the equality of their fields, and not on a
/// hash of them. Where a principal has several lines the last one counts;
/// `set` never writes a second one.
pub struct AgentRegistry {
    entries: Vec<AgentEntry>,
}

/// The map that a list of lines stands for: each line written over the map
/// of the lines before it.
pub open spec fn entries_map(entries: Seq<AgentEntry>) -> Map<Principal, bool>
    decreases entries.len(),
{
    if entries.len() == 0 {
        Map::empty()
    } else {
        entries_map(entries.drop_last()).insert(entries.last().agent, entries.last().registered)
    }
}

/// Whether `agent` is registered in the map `m`: it has a line, and the line
/// says so.
pub open spec fn registered_in(m: Map<Principal, bool>, agent: Principal) -> bool {
    m.contains_key(agent) && m[agent]
}

impl View for AgentRegistry {
    type V = Map<Principal, bool>;

    closed spec fn view(&self) -> Map<Principal, bool> {
        entries_map(self.entries@)
    }
}

impl AgentRegistry {
    /// The empty registry.
    pub fn new() -> (r: AgentRegistry)
        ensures
            r@ == Map::<Principal, bool>::empty(),
    {
        AgentRegistry { entries: Vec::new() }
    }

    /// Where the last line for `agent` stands, if there is one.
    fn position(&self, agent: &Principal) -> (at: Option<usize>)
        ensures
            match at {
                Some(i) => i < self.entries@.len() && self.entries@[i as int].agent == *agent
                    && forall|j: int|
                    i < j < self.entries@.len() ==> (#[trigger] self.entries@[j]).agent != *agent,
                None => forall|j: int|
                    0 <= j < self.entries@.len() ==> (#[trigger] self.entries@[j]).agent != *agent,
            },
    {
        let mut i: usize = self.entries.len();
        while i > 0
            invariant
                i <= self.entries@.len(),
                forall|j: int|
                    i <= j < self.entries@.len() ==> (#[trigger] self.entries@[j]).agent != *agent,
            decreases i,
        {
            i -= 1;
            if self.entries[i].agent == *agent {
                return Some(i);
            }
        }
        None
    }

    /// Whether `agent` is registered.
    pub fn is_registered(&self, agent: &Principal) -> (b: bool)
        ensures
            b == registered_in(self@, *agent),
    {
        match self.position(agent) {
            Some(i) => {
                proof {
                    lemma_last_line_counts(self.entries@, i as int);
                }
                self.entries[i].registered
            },
            None => {
                proof {
                    lemma_no_line(self.entries@, *agent);
                }
                false
            },
        }
    }

    /// Writes the line for `agent`, over the one that was there if any.
    pub fn set(&mut self, agent: Principal, registered: bool)
        ensures
            final(self)@ == old(self)@.insert(agent, registered),
    {
        let line = AgentEntry { agent, registered };
        match self.position(&agent) {
            Some(i) => {
                proof {
                    lemma_overwrite(self.entries@, i as int, line);
                }
                self.entries.set(i, line);
            },
            None => {
                proof {
                    assert(self.entries@.push(line).drop_last() =~= self.entries@);
                }
                self.entries.push(line);
            },
        }
    }
}

/// The last line for an agent is the one that the map shows.
proof fn lemma_last_line_counts(entries: Seq<AgentEntry>, i: int)
    requires
        0 <= i < entries.len(),
        forall|j: int| i < j < entries.len() ==> (#[trigger] entries[j]).agent != entries[i].agent,
    ensures
        entries_map(entries).contains_key(entries[i].agent),
        entries_map(entries)[entries[i].agent] == entries[i].registered,
    decreases entries.len(),
{
    if i < entries.len() - 1 {
        assert(entries.last().agent != entries[i].agent);
        lemma_last_line_counts(entries.drop_last(), i);
    }
}

/// An agent without a line is not in the map.
proof fn lemma_no_line(entries: Seq<AgentEntry>, agent: Principal)
    requires
        forall|j: int| 0 <= j < entries.len() ==> (#[trigger] entries[j]).agent != agent,
    ensures
        !entries_map(entries).contains_key(agent),
    decreases entries.len(),
{
    if entries.len() > 0 {
        assert(entries.last().agent != agent);
        lemma_no_line(entries.drop_last(), agent);
    }
}

/// Overwriting the last line of an agent changes the map at that agent only.
proof fn lemma_overwrite(entries: Seq<AgentEntry>, i: int, line: AgentEntry)
    requires
        0 <= i < entries.len(),
        entries[i].agent == line.agent,
        forall|j: int| i < j < entries.len() ==> (#[trigger] entries[j]).agent != line.agent,
    ensures
        entries_map(entries.update(i, line)) == entries_map(entries).insert(
            line.agent,
            line.registered,
        ),
    decreases entries.len(),
{
    let after = entries.update(i, line);
    if i == entries.len() - 1 {
        assert(after.drop_last() =~= entries.drop_last());
        assert(entries_map(after) =~= entries_map(entries).insert(line.agent, line.registered));
    } else {
        let last = entries.last();
        assert(last.agent != line.agent);
        lemma_overwrite(entries.drop_last(), i, line);
        assert(after.drop_last() =~= entries.drop_last().update(i, line));
        assert(after.last() == last);
        assert(entries_map(after) =~= entries_map(entries).insert(line.agent, line.registered));
    }
}

} // verus!
