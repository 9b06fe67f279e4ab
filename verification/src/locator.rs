//! The process locator's decision: given the process table as a plain
//! list of (name, pid) in enumeration order, keep the processes whose
//! name matches the search pattern case-insensitively, and group their
//! identifiers by exact process name. Per name, identifiers keep their
//! enumeration order.

use vstd::prelude::*;
use crate::text::{name_matches, name_matches_spec};

verus! {

/// The exact process name of the media player watched for.
pub open spec fn target_process_name() -> Seq<char> {
    "Spotify.exe"@
}

/// The exact process name of the media player watched for.
pub fn target_process_name_text() -> (r: &'static str)
    ensures
        r@ == target_process_name(),
{
    "Spotify.exe"
}

/// The pattern the locator searches process names for.
pub open spec fn search_pattern() -> Seq<char> {
    "spotify"@
}

/// The pattern the locator searches process names for.
pub fn search_pattern_text() -> (r: &'static str)
    ensures
        r@ == search_pattern(),
{
    "spotify"
}

/// One process table entry: its exact name and its identifier.
#[verifier::ext_equal]
pub struct ProcessInfo {
    pub name: String,
    pub pid: u32,
}

/// One group of the locator's answer: an exact process name and the
/// identifiers carrying it, in enumeration order.
pub struct ProcessGroup {
    pub name: String,
    pub pids: Vec<u32>,
}

/// The identifiers of the processes named exactly `name`, in order.
pub open spec fn pids_of_name(procs: Seq<ProcessInfo>, name: Seq<char>) -> Seq<u32>
    decreases procs.len(),
{
    if procs.len() == 0 {
        Seq::empty()
    } else {
        pids_of_name(procs.drop_last(), name) + if procs.last().name@ == name {
            seq![procs.last().pid]
        } else {
            Seq::empty()
        }
    }
}

/// The identifiers of the processes named exactly `name`, in order.
pub fn collect_pids(procs: &Vec<ProcessInfo>, name: &String) -> (r: Vec<u32>)
    ensures
        r@ == pids_of_name(procs@, name@),
{
    let mut r: Vec<u32> = Vec::new();
    let mut i: usize = 0;
    while i < procs.len()
        invariant
            i <= procs.len(),
            r@ == pids_of_name(procs@.take(i as int), name@),
        decreases procs.len() - i,
    {
        let ghost prev = r@;
        if procs[i].name == *name {
            r.push(procs[i].pid);
        }
        proof {
            let taken = procs@.take(i as int + 1);
            assert(taken.drop_last() =~= procs@.take(i as int));
            assert(taken.last() == procs@[i as int]);
            if procs@[i as int].name@ == name@ {
                assert(r@ =~= prev + seq![procs@[i as int].pid]);
            }
            assert(r@ == pids_of_name(taken, name@));
        }
        i += 1;
    }
    proof {
        assert(procs@.take(procs@.len() as int) =~= procs@);
    }
    r
}

/// The process table entries whose name matches the pattern
/// case-insensitively, in enumeration order.
pub open spec fn matching_processes_spec(procs: Seq<ProcessInfo>, pattern: Seq<char>) -> Seq<
    ProcessInfo,
>
    decreases procs.len(),
{
    if procs.len() == 0 {
        Seq::empty()
    } else {
        matching_processes_spec(procs.drop_last(), pattern) + if name_matches_spec(
            procs.last().name@,
            pattern,
        ) {
            seq![procs.last()]
        } else {
            Seq::empty()
        }
    }
}

/// The processes whose name matches the pattern case-insensitively, in
/// enumeration order.
pub fn matching_processes(procs: &Vec<ProcessInfo>, pattern: &str) -> (r: Vec<ProcessInfo>)
    ensures
        r@ == matching_processes_spec(procs@, pattern@),
{
    let mut r: Vec<ProcessInfo> = Vec::new();
    let mut i: usize = 0;
    while i < procs.len()
        invariant
            i <= procs.len(),
            r@ == matching_processes_spec(procs@.take(i as int), pattern@),
        decreases procs.len() - i,
    {
        let ghost prev = r@;
        if name_matches(procs[i].name.as_str(), pattern) {
            let entry = ProcessInfo { name: procs[i].name.clone(), pid: procs[i].pid };
            proof {
                assert(entry =~= procs@[i as int]);
            }
            r.push(entry);
        }
        proof {
            let taken = procs@.take(i as int + 1);
            assert(taken.drop_last() =~= procs@.take(i as int));
            assert(taken.last() == procs@[i as int]);
            if name_matches_spec(procs@[i as int].name@, pattern@) {
                assert(r@ =~= prev + seq![procs@[i as int]]);
            }
            assert(r@ == matching_processes_spec(taken, pattern@));
        }
        i += 1;
    }
    proof {
        assert(procs@.take(procs@.len() as int) =~= procs@);
    }
    r
}

fn name_listed(names: &Vec<String>, name: &String) -> (r: bool)
    ensures
        r == exists|i: int| 0 <= i < names@.len() && (#[trigger] names@[i])@ == name@,
{
    let mut i: usize = 0;
    while i < names.len()
        invariant
            i <= names.len(),
            forall|k: int| 0 <= k < i ==> (#[trigger] names@[k])@ != name@,
        decreases names.len() - i,
    {
        if names[i] == *name {
            return true;
        }
        i += 1;
    }
    false
}

/// Every process named exactly `name` puts its identifier into
/// `pids_of_name`, so the list is nonempty as soon as one such process
/// stands in the table.
proof fn lemma_pids_of_name_nonempty(procs: Seq<ProcessInfo>, name: Seq<char>, q: int)
    requires
        0 <= q < procs.len(),
        procs[q].name@ == name,
    ensures
        pids_of_name(procs, name).len() > 0,
    decreases procs.len(),
{
    if q < procs.len() - 1 {
        assert(procs.drop_last()[q] == procs[q]);
        lemma_pids_of_name_nonempty(procs.drop_last(), name, q);
    }
}

/// The locator's answer: the identifiers of every process whose name
/// matches the pattern case-insensitively, grouped by exact name. Group
/// names are unique and each is borne by some process, every matching
/// process is accounted for, and each group holds exactly the
/// identifiers carrying its name, in enumeration order — so no group is
/// empty, and the answer is empty exactly when no process matches.
pub fn find_target_pids(procs: &Vec<ProcessInfo>, pattern: &str) -> (r: Vec<ProcessGroup>)
    ensures
        forall|i: int|
            0 <= i < r@.len() ==> name_matches_spec((#[trigger] r@[i]).name@, pattern@),
        forall|i: int|
            0 <= i < r@.len() ==> (#[trigger] r@[i]).pids@ == pids_of_name(procs@, r@[i].name@),
        forall|i: int, j: int|
            0 <= i < j < r@.len() ==> (#[trigger] r@[i]).name@ != (#[trigger] r@[j]).name@,
        forall|k: int|
            0 <= k < procs@.len() && name_matches_spec((#[trigger] procs@[k]).name@, pattern@)
                ==> exists|i: int| 0 <= i < r@.len() && (#[trigger] r@[i]).name@ == procs@[k].name@,
        forall|i: int| 0 <= i < r@.len() ==> (#[trigger] r@[i]).pids@.len() > 0,
{
    let mut names: Vec<String> = Vec::new();
    let mut k: usize = 0;
    while k < procs.len()
        invariant
            k <= procs.len(),
            forall|i: int|
                0 <= i < names@.len() ==> name_matches_spec((#[trigger] names@[i])@, pattern@),
            forall|i: int, j: int|
                0 <= i < j < names@.len() ==> (#[trigger] names@[i])@ != (#[trigger] names@[j])@,
            forall|q: int|
                0 <= q < k && name_matches_spec((#[trigger] procs@[q]).name@, pattern@)
                    ==> exists|i: int|
                    0 <= i < names@.len() && (#[trigger] names@[i])@ == procs@[q].name@,
            forall|i: int|
                0 <= i < names@.len() ==> pids_of_name(procs@, (#[trigger] names@[i])@).len() > 0,
        decreases procs.len() - k,
    {
        let matched = name_matches(procs[k].name.as_str(), pattern);
        if matched && !name_listed(&names, &procs[k].name) {
            let ghost before = names@;
            names.push(procs[k].name.clone());
            proof {
                assert(names@[before.len() as int] == procs@[k as int].name);
                assert(forall|i: int| 0 <= i < before.len() ==> names@[i] == before[i]);
                lemma_pids_of_name_nonempty(procs@, procs@[k as int].name@, k as int);
            }
        }
        proof {
            if name_matches_spec(procs@[k as int].name@, pattern@) {
                assert(exists|i: int|
                    0 <= i < names@.len() && (#[trigger] names@[i])@ == procs@[k as int].name@);
            }
        }
        k += 1;
    }
    let mut r: Vec<ProcessGroup> = Vec::new();
    let mut i: usize = 0;
    while i < names.len()
        invariant
            i <= names.len(),
            r@.len() == i,
            forall|j: int| 0 <= j < i ==> (#[trigger] r@[j]).name@ == names@[j]@,
            forall|j: int|
                0 <= j < i ==> (#[trigger] r@[j]).pids@ == pids_of_name(procs@, names@[j]@),
            forall|j: int|
                0 <= j < names@.len() ==> name_matches_spec((#[trigger] names@[j])@, pattern@),
            forall|p: int, q: int|
                0 <= p < q < names@.len() ==> (#[trigger] names@[p])@ != (#[trigger] names@[q])@,
            forall|q: int|
                0 <= q < procs@.len() && name_matches_spec((#[trigger] procs@[q]).name@, pattern@)
                    ==> exists|j: int|
                    0 <= j < names@.len() && (#[trigger] names@[j])@ == procs@[q].name@,
            forall|j: int|
                0 <= j < names@.len() ==> pids_of_name(procs@, (#[trigger] names@[j])@).len() > 0,
        decreases names.len() - i,
    {
        let nm = names[i].clone();
        let pids = collect_pids(procs, &nm);
        r.push(ProcessGroup { name: nm, pids });
        i += 1;
    }
    proof {
        assert forall|q: int|
            0 <= q < procs@.len() && name_matches_spec((#[trigger] procs@[q]).name@, pattern@)
                implies exists|j: int|
            0 <= j < r@.len() && (#[trigger] r@[j]).name@ == procs@[q].name@ by {
            let j = choose|j: int|
                0 <= j < names@.len() && (#[trigger] names@[j])@ == procs@[q].name@;
            assert(r@[j].name@ == procs@[q].name@);
        }
        assert forall|j: int| 0 <= j < r@.len() implies (#[trigger] r@[j]).pids@.len() > 0 by {
            assert(r@[j].pids@ == pids_of_name(procs@, names@[j]@));
            assert(pids_of_name(procs@, names@[j]@).len() > 0);
        }
    }
    r
}

} // verus!
