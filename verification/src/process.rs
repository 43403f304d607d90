//! Process-lifecycle model.
//!
//! Detection and termination of the bypass workload are name-based, not
//! PID-based: the candidate script may spawn the real long-running process as
//! a grandchild with no handle relationship to the launched child, so the
//! expected executable name is the only reliable correlation. This implies a
//! deliberate policy trade-off: any process sharing that name is treated as
//! belonging to this tool and is subject to termination.
//!
//! The process table is modeled here as the plain list of running process
//! names, so the termination and wait policies are verified over it; the
//! driver that talks to the real OS process table mirrors these loops.

use vstd::prelude::*;
use vstd::string::*;

use crate::text::eq_str;

verus! {

/// Number of entries of `procs` equal to `name`.
pub open spec fn match_count(procs: Seq<Seq<char>>, name: Seq<char>) -> int
    decreases procs.len(),
{
    if procs.len() == 0 {
        0
    } else {
        match_count(procs.drop_last(), name) + if procs.last() == name {
            1int
        } else {
            0int
        }
    }
}

/// The table with every entry equal to `name` removed, order preserved.
pub open spec fn without_name(procs: Seq<Seq<char>>, name: Seq<char>) -> Seq<Seq<char>>
    decreases procs.len(),
{
    if procs.len() == 0 {
        procs
    } else {
        let rest = without_name(procs.drop_last(), name);
        if procs.last() == name {
            rest
        } else {
            rest.push(procs.last())
        }
    }
}

/// There are never more matches than entries.
pub proof fn lemma_match_count_bound(procs: Seq<Seq<char>>, name: Seq<char>)
    ensures
        0 <= match_count(procs, name) <= procs.len(),
    decreases procs.len(),
{
    if procs.len() > 0 {
        lemma_match_count_bound(procs.drop_last(), name);
    }
}

/// Removing a name removes every match.
pub proof fn lemma_without_name_clears(procs: Seq<Seq<char>>, name: Seq<char>)
    ensures
        match_count(without_name(procs, name), name) == 0,
    decreases procs.len(),
{
    if procs.len() > 0 {
        lemma_without_name_clears(procs.drop_last(), name);
        if procs.last() != name {
            let rest = without_name(procs.drop_last(), name);
            assert(rest.push(procs.last()).drop_last() =~= rest);
        }
    }
}

/// When nothing matches, removal is the identity: termination with no
/// matching process is a no-op.
pub proof fn lemma_without_name_identity(procs: Seq<Seq<char>>, name: Seq<char>)
    requires
        match_count(procs, name) == 0,
    ensures
        without_name(procs, name) =~= procs,
    decreases procs.len(),
{
    if procs.len() > 0 {
        lemma_match_count_bound(procs.drop_last(), name);
        lemma_without_name_identity(procs.drop_last(), name);
        assert(without_name(procs.drop_last(), name).push(procs.last()) =~= procs);
    }
}

/// A deterministic process table: the names of the processes it holds, in
/// arrival order. Stands in for the OS process table in the verified
/// termination and wait policies and in tests.
pub struct SimProcessTable {
    pub procs: Vec<String>,
}

impl SimProcessTable {
    /// The table as a sequence of process names.
    pub open spec fn names(self) -> Seq<Seq<char>> {
        self.procs.deep_view()
    }

    /// An empty table.
    pub fn new() -> (t: Self)
        ensures
            t.names() =~= Seq::<Seq<char>>::empty(),
    {
        SimProcessTable { procs: Vec::new() }
    }

    /// A process with this name starts: one entry is appended.
    pub fn spawn(&mut self, name: String)
        ensures
            final(self).names() == old(self).names().push(name@),
    {
        self.procs.push(name);
        proof {
            assert(self.names() =~= old(self).names().push(name@));
        }
    }

    /// How many processes named `name` the table holds.
    pub fn matching_count(&self, name: &str) -> (r: usize)
        ensures
            r == match_count(self.names(), name@),
    {
        let n = self.procs.len();
        let mut count: usize = 0;
        let mut i: usize = 0;
        while i < n
            invariant
                n == self.procs.len(),
                i <= n,
                count == match_count(self.names().take(i as int), name@),
                count <= i,
            decreases n - i,
        {
            proof {
                assert(self.names().take(i + 1).drop_last() =~= self.names().take(i as int));
                assert(self.names().take(i + 1).last() == self.procs@[i as int]@);
            }
            if eq_str(self.procs[i].as_str(), name) {
                count = count + 1;
            }
            i = i + 1;
        }
        proof {
            assert(self.names().take(n as int) =~= self.names());
        }
        count
    }

    /// Kills every process named `name`: all matching entries leave the
    /// table, the others stay in order.
    pub fn kill_matching(&mut self, name: &str)
        ensures
            final(self).names() == without_name(old(self).names(), name@),
    {
        let n = self.procs.len();
        let mut kept: Vec<String> = Vec::new();
        let mut i: usize = 0;
        while i < n
            invariant
                n == self.procs.len(),
                i <= n,
                kept.deep_view() == without_name(self.names().take(i as int), name@),
            decreases n - i,
        {
            proof {
                assert(self.names().take(i + 1).drop_last() =~= self.names().take(i as int));
                assert(self.names().take(i + 1).last() == self.procs@[i as int]@);
            }
            if !eq_str(self.procs[i].as_str(), name) {
                let entry = self.procs[i].clone();
                kept.push(entry);
                proof {
                    assert(kept.deep_view() =~= without_name(
                        self.names().take(i + 1),
                        name@,
                    ));
                }
            }
            i = i + 1;
        }
        proof {
            assert(self.names().take(n as int) =~= self.names());
        }
        self.procs = kept;
    }
}

/// Idempotent best-effort shutdown of every process named `name`, with a
/// bounded retry budget. Each round snapshots the table, stops early when no
/// match remains, and otherwise kills every match; it never fails the
/// caller. Returns how many kill rounds ran.
///
/// When nothing matches, the call is a no-op; with any budget at all, no
/// match survives it.
pub fn terminate_by_name(table: &mut SimProcessTable, name: &str, attempts: usize) -> (rounds:
    usize)
    ensures
        match_count(old(table).names(), name@) == 0 ==> final(table).names() == old(table).names()
            && rounds == 0,
        attempts == 0 ==> final(table).names() == old(table).names() && rounds == 0,
        attempts >= 1 ==> {
            &&& final(table).names() == without_name(old(table).names(), name@)
            &&& match_count(final(table).names(), name@) == 0
        },
        rounds <= attempts,
{
    let ghost orig = table.names();
    let mut rounds: usize = 0;
    let mut a: usize = 0;
    while a < attempts
        invariant
            orig == old(table).names(),
            a <= attempts,
            rounds <= a,
            rounds <= 1,
            rounds == 0 ==> a == 0 || match_count(orig, name@) == 0,
            rounds == 0 ==> table.names() == orig,
            rounds == 1 ==> match_count(orig, name@) > 0,
            rounds == 1 ==> table.names() == without_name(orig, name@) && match_count(
                table.names(),
                name@,
            ) == 0,
        decreases attempts - a,
    {
        if table.matching_count(name) == 0 {
            proof {
                if rounds == 0 {
                    lemma_without_name_identity(orig, name@);
                }
            }
            return rounds;
        }
        table.kill_matching(name);
        proof {
            lemma_without_name_clears(orig, name@);
        }
        rounds = rounds + 1;
        a = a + 1;
    }
    proof {
        if attempts >= 1 && rounds == 0 {
            lemma_without_name_identity(orig, name@);
        }
    }
    rounds
}

/// The named process shows up in one of the first `budget` polls of the
/// process table. `polls[i]` records whether a matching process was present
/// at the `i`-th poll.
pub open spec fn appears_within(polls: Seq<bool>, budget: int) -> bool {
    exists|i: int| 0 <= i < budget && i < polls.len() && polls[i]
}

/// The bounded wait policy: poll the table until the name is observed or the
/// budget of polls is spent, and report whether it appeared.
pub fn wait_observes_process(polls: &Vec<bool>, budget: usize) -> (r: bool)
    ensures
        r == appears_within(polls@, budget as int),
{
    let n = polls.len();
    let limit = if budget < n {
        budget
    } else {
        n
    };
    let mut i: usize = 0;
    while i < limit
        invariant
            limit <= n,
            n == polls@.len(),
            limit <= budget,
            i <= limit,
            forall|k: int| 0 <= k < i ==> !polls@[k],
        decreases limit - i,
    {
        if polls[i] {
            return true;
        }
        i = i + 1;
    }
    false
}

} // verus!
