//! The process ids of the PowerShell runs that are under way, so that they
//! can all be stopped when the window closes, and the command that stops
//! one of them.

use vstd::prelude::*;
use std::collections::HashSet;
use crate::number::{all_digits, decimal, digits_value, lemma_decimal, push_decimal};
use crate::text::string_of;
use vstd::std_specs::hash::spec_hash_keys_iter;
use vstd::std_specs::iter::IteratorSpec;

verus! {

/// The process ids of the PowerShell runs that are under way.
pub struct ActivePids {
    pids: HashSet<u32>,
}

impl View for ActivePids {
    type V = Set<u32>;

    closed spec fn view(&self) -> Set<u32> {
        self.pids@
    }
}

/// A registry with no run under way.
pub fn active_pids() -> (r: ActivePids)
    ensures
        r@ == Set::<u32>::empty(),
{
    ActivePids { pids: HashSet::new() }
}

impl ActivePids {
    /// Records that the run with process id `pid` has started.
    pub fn insert(&mut self, pid: u32)
        ensures
            final(self)@ == old(self)@.insert(pid),
    {
        self.pids.insert(pid);
    }

    /// Records that the run with process id `pid` has ended.
    pub fn remove(&mut self, pid: u32)
        ensures
            final(self)@ == old(self)@.remove(pid),
    {
        self.pids.remove(&pid);
    }

    /// Whether the run with process id `pid` is under way.
    pub fn contains(&self, pid: u32) -> (r: bool)
        ensures
            r == self@.contains(pid),
    {
        self.pids.contains(&pid)
    }

    /// The number of runs under way.
    pub fn len(&self) -> (r: usize)
        ensures
            r == self@.len(),
    {
        self.pids.len()
    }
}

/// Recording that a run started and then that it ended leaves the
/// registry as it was before the run.
pub proof fn law_start_then_end_restores(before: Set<u32>, pid: u32)
    requires
        !before.contains(pid),
    ensures
        before.insert(pid).remove(pid) == before,
{
    assert(before.insert(pid).remove(pid) =~= before);
}

/// Empties the registry and gives back every process id it held, each
/// once, so that the caller can stop them all.
pub fn kill_all_active_powershell(active: &mut ActivePids) -> (r: Vec<u32>)
    ensures
        final(active)@ == Set::<u32>::empty(),
        r@.to_set() == old(active)@,
        r@.no_duplicates(),
        r@.len() == old(active)@.len(),
{
    let mut r: Vec<u32> = Vec::new();
    let ghost keys = spec_hash_keys_iter(&active.pids).remaining();
    proof {
        assert(keys.unref().to_set() == active.pids@);
    }
    for pid in it: active.pids.iter()
        invariant
            r@ == it.seq().take(it.index()).unref(),
            it.seq() == keys,
    {
        r.push(*pid);
        assert(it.seq().take(it.index() + 1).unref() =~= it.seq().take(it.index()).unref().push(
            *pid,
        ));
    }
    assert(keys.take(keys.len() as int) =~= keys);
    active.pids.clear();
    r
}

/// The arguments of `taskkill.exe` that stop the process `pid` and its
/// children by force.
pub open spec fn taskkill_args_spec(pid: u32) -> Seq<Seq<char>> {
    seq!["/F"@, "/T"@, "/PID"@, decimal(pid as nat)]
}

/// The arguments of `taskkill.exe` that stop the process `pid` and its
/// children by force.
pub fn taskkill_args(pid: u32) -> (r: Vec<String>)
    ensures
        r@.len() == 4,
        forall|i: int| 0 <= i < 4 ==> #[trigger] r@[i]@ == taskkill_args_spec(pid)[i],
{
    let mut digits: Vec<char> = Vec::new();
    push_decimal(&mut digits, pid as u64);
    let r = vec![
        String::from_str("/F"),
        String::from_str("/T"),
        String::from_str("/PID"),
        string_of(&digits),
    ];
    r
}

/// `taskkill` is told to stop by force (`/F`) the process tree (`/T`) of
/// the process whose id (`/PID`) is the one given, written in decimal.
pub proof fn law_taskkill_names_the_process(pid: u32)
    ensures
        taskkill_args_spec(pid).len() == 4,
        taskkill_args_spec(pid)[0] == "/F"@,
        taskkill_args_spec(pid)[1] == "/T"@,
        taskkill_args_spec(pid)[2] == "/PID"@,
        all_digits(taskkill_args_spec(pid)[3]),
        digits_value(taskkill_args_spec(pid)[3]) == pid,
{
    lemma_decimal(pid as nat);
}

} // verus!
