//! Process discovery: from a snapshot of the host's process table, the set
//! of process ids whose executable lives under the conventional install
//! prefix of the services this system cares about. An empty set is a
//! valid, non-error outcome; only failing to read the table at all is an
//! error.

use vstd::prelude::*;
use vstd::string::StrSliceExecFns;

use crate::outcome::CommandError;

verus! {

/// One row of a process-table snapshot: a process id and the path of the
/// executable it is running.
#[derive(Debug, Clone)]
pub struct ProcessEntry {
    pub pid: u32,
    pub path: String,
}

/// The install-location prefix that identifies the processes discovery
/// looks for.
pub open spec fn spec_oxide_prefix() -> Seq<char> {
    "/opt/oxide"@
}

/// The exec counterpart of `spec_oxide_prefix`.
pub fn oxide_prefix() -> (r: &'static str)
    ensures
        r@ == spec_oxide_prefix(),
{
    "/opt/oxide"
}

/// `p` is a prefix of `s`.
pub open spec fn spec_starts_with(s: Seq<char>, p: Seq<char>) -> bool {
    p.len() <= s.len() && s.subrange(0, p.len() as int) == p
}

/// Character-by-character prefix test on strings.
pub fn starts_with(s: &str, p: &str) -> (r: bool)
    ensures
        r == spec_starts_with(s@, p@),
{
    let s_len = s.unicode_len();
    let p_len = p.unicode_len();
    if p_len > s_len {
        return false;
    }
    let mut i: usize = 0;
    while i < p_len
        invariant
            i <= p_len,
            p_len == p@.len(),
            s_len == s@.len(),
            p_len <= s_len,
            forall|j: int| 0 <= j < i ==> s@[j] == p@[j],
        decreases p_len - i,
    {
        if s.get_char(i) != p.get_char(i) {
            proof {
                assert(s@.subrange(0, p@.len() as int)[i as int] == s@[i as int]);
            }
            return false;
        }
        i += 1;
    }
    proof {
        assert(s@.subrange(0, p@.len() as int) =~= p@);
    }
    true
}

/// `p` is the id of some process-table entry whose executable lives under
/// the install prefix.
pub open spec fn matching_pid(entries: Seq<ProcessEntry>, p: u32) -> bool {
    exists|j: int|
        0 <= j < entries.len() && entries[j].pid == p && spec_starts_with(
            entries[j].path@,
            spec_oxide_prefix(),
        )
}

fn pids_contain(pids: &Vec<u32>, pid: u32) -> (r: bool)
    ensures
        r == pids@.contains(pid),
{
    let mut i: usize = 0;
    while i < pids.len()
        invariant
            i <= pids@.len(),
            forall|j: int| 0 <= j < i ==> pids@[j] != pid,
        decreases pids@.len() - i,
    {
        if pids[i] == pid {
            return true;
        }
        i += 1;
    }
    false
}

/// The set of process ids, without duplicates, whose entry in the given
/// process-table snapshot names an executable under the install prefix —
/// exactly those ids and no other. Zero matching entries give an empty
/// collection, which is not an error.
pub fn filter_matching_pids(entries: &Vec<ProcessEntry>) -> (r: Vec<u32>)
    ensures
        forall|p: u32| #[trigger] r@.contains(p) <==> matching_pid(entries@, p),
        forall|i: int, j: int| 0 <= i < j < r@.len() ==> r@[i] != r@[j],
{
    let mut r: Vec<u32> = Vec::new();
    let mut i: usize = 0;
    while i < entries.len()
        invariant
            i <= entries@.len(),
            forall|p: u32| #[trigger] r@.contains(p) <==> matching_pid(entries@.take(i as int), p),
            forall|a: int, b: int| 0 <= a < b < r@.len() ==> r@[a] != r@[b],
        decreases entries@.len() - i,
    {
        let entry = &entries[i];
        let ghost prefix_take = entries@.take(i as int);
        let ghost next_take = entries@.take(i + 1);
        proof {
            assert(next_take.drop_last() =~= prefix_take);
            assert(next_take.last() == entries@[i as int]);
        }
        if starts_with(entry.path.as_str(), oxide_prefix()) && !pids_contain(&r, entry.pid) {
            let ghost old_r = r@;
            r.push(entry.pid);
            proof {
                assert forall|p: u32| #[trigger] r@.contains(p) implies matching_pid(
                    next_take,
                    p,
                ) by {
                    if p == entry.pid {
                        assert(next_take[i as int] == entries@[i as int]);
                        assert(matching_pid(next_take, p));
                    } else {
                        let k = choose|k: int| 0 <= k < r@.len() && r@[k] == p;
                        assert(old_r[k] == p);
                        assert(old_r.contains(p));
                        let j = choose|j: int|
                            0 <= j < prefix_take.len() && prefix_take[j].pid == p
                                && spec_starts_with(prefix_take[j].path@, spec_oxide_prefix());
                        assert(next_take[j] == prefix_take[j]);
                        assert(matching_pid(next_take, p));
                    }
                }
                assert forall|p: u32| matching_pid(next_take, p) implies #[trigger] r@.contains(
                    p,
                ) by {
                    let j = choose|j: int|
                        0 <= j < next_take.len() && next_take[j].pid == p && spec_starts_with(
                            next_take[j].path@,
                            spec_oxide_prefix(),
                        );
                    if j < i {
                        assert(prefix_take[j] == next_take[j]);
                        assert(matching_pid(prefix_take, p));
                        assert(old_r.contains(p));
                        let k = choose|k: int| 0 <= k < old_r.len() && old_r[k] == p;
                        assert(r@[k] == p);
                    } else {
                        assert(r@[r@.len() - 1] == p);
                    }
                }
            }
        } else {
            proof {
                assert forall|p: u32| #[trigger] r@.contains(p) implies matching_pid(
                    next_take,
                    p,
                ) by {
                    let j = choose|j: int|
                        0 <= j < prefix_take.len() && prefix_take[j].pid == p && spec_starts_with(
                            prefix_take[j].path@,
                            spec_oxide_prefix(),
                        );
                    assert(next_take[j] == prefix_take[j]);
                }
                assert forall|p: u32| matching_pid(next_take, p) implies #[trigger] r@.contains(
                    p,
                ) by {
                    let j = choose|j: int|
                        0 <= j < next_take.len() && next_take[j].pid == p && spec_starts_with(
                            next_take[j].path@,
                            spec_oxide_prefix(),
                        );
                    if j < i {
                        assert(prefix_take[j] == next_take[j]);
                        assert(matching_pid(prefix_take, p));
                    } else {
                        assert(next_take[j] == entries@[i as int]);
                        if spec_starts_with(entries@[i as int].path@, spec_oxide_prefix()) {
                            assert(r@.contains(entries@[i as int].pid));
                        }
                    }
                }
            }
        }
        i += 1;
    }
    proof {
        assert(entries@.take(entries@.len() as int) =~= entries@);
    }
    r
}

/// Discovery over a process-table snapshot that may itself have failed to
/// be taken. A snapshot yields the matching id set — possibly empty, which
/// is a valid outcome, not an error. A failure to enumerate at all is a
/// hard `ProcessDiscoveryFailure`, distinct from an empty set.
pub fn discover_oxide_pids(table: Result<Vec<ProcessEntry>, String>) -> (r: Result<
    Vec<u32>,
    CommandError,
>)
    ensures
        table matches Ok(entries) ==> {
            &&& r matches Ok(pids)
            &&& forall|p: u32| #[trigger] pids@.contains(p) <==> matching_pid(entries@, p)
            &&& forall|i: int, j: int| 0 <= i < j < pids@.len() ==> pids@[i] != pids@[j]
        },
        table matches Err(reason) ==> {
            &&& r matches Err(CommandError::ProcessDiscoveryFailure { reason: given })
            &&& given@ == reason@
        },
{
    match table {
        Ok(entries) => Ok(filter_matching_pids(&entries)),
        Err(reason) => Err(CommandError::ProcessDiscoveryFailure { reason }),
    }
}

} // verus!
