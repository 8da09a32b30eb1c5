//! Reshaping of the external daemon's status output: projecting a job record
//! down to the façade's response shape, and building the listing, ordered
//! ascending by numeric id whatever order the daemon's mapping was walked in.

use vstd::prelude::*;
use vstd::seq_lib::group_to_multiset_ensures;

use crate::task::{ExternalTask, PueueStatus, StatusDisplayable, TaskDisplayable};

verus! {

/// The projection of one job record: id, command, status and the timestamps
/// are copied verbatim; `output` is whatever the context supplies — the
/// captured log text for the single-task endpoint, absent for the listing.
pub open spec fn project_spec(t: ExternalTask, output: Option<String>) -> TaskDisplayable {
    TaskDisplayable {
        id: t.id,
        command: t.command,
        status: t.status,
        created_at: t.created_at,
        start: t.start,
        end: t.end,
        output,
    }
}

/// Projects one job record down to the façade's output shape.
pub fn project_status(task: ExternalTask, output: Option<String>) -> (r: TaskDisplayable)
    ensures
        r == project_spec(task, output),
{
    TaskDisplayable {
        id: task.id,
        command: task.command,
        status: task.status,
        created_at: task.created_at,
        start: task.start,
        end: task.end,
        output,
    }
}

pub open spec fn sorted_by_id(s: Seq<TaskDisplayable>) -> bool {
    forall|i: int, j: int| 0 <= i < j < s.len() ==> s[i].id <= s[j].id
}

pub open spec fn distinct_ids(s: Seq<TaskDisplayable>) -> bool {
    forall|i: int, j: int| 0 <= i < j < s.len() ==> s[i].id != s[j].id
}

/// The projections of all records of a snapshot, in the order given, with no
/// log output attached.
pub open spec fn listing_of(tasks: Seq<ExternalTask>) -> Seq<TaskDisplayable> {
    tasks.map_values(|t: ExternalTask| project_spec(t, Option::<String>::None))
}

/// Builds the listing response: every record projected with `output` absent,
/// the results ordered ascending by id. The order of `tasks` — the order the
/// daemon's mapping happened to be walked in — only permutes the input, so
/// by the ensures it cannot show in the result.
pub fn build_listing(tasks: Vec<ExternalTask>) -> (r: StatusDisplayable)
    ensures
        sorted_by_id(r.tasks@),
        r.tasks@.to_multiset() == listing_of(tasks@).to_multiset(),
        forall|i: int| 0 <= i < r.tasks@.len() ==> r.tasks@[i].output is None,
{
    let ghost orig = tasks@;
    let mut remaining = tasks;
    let mut projected: Vec<TaskDisplayable> = Vec::new();
    while remaining.len() > 0
        invariant
            projected@ + listing_of(remaining@) =~= listing_of(orig),
        decreases remaining@.len(),
    {
        let t = remaining.remove(0);
        let p = project_status(t, None);
        projected.push(p);
        proof {
            assert(projected@ + listing_of(remaining@) =~= listing_of(orig));
        }
    }
    proof {
        assert(projected@ =~= listing_of(orig));
    }
    let mut out: Vec<TaskDisplayable> = Vec::new();
    proof {
        broadcast use group_to_multiset_ensures;

        assert(forall|t: TaskDisplayable| out@.to_multiset().count(t) == 0) by {
            assert(forall|t: TaskDisplayable| !out@.contains(t));
        }
        assert(out@.to_multiset().add(projected@.to_multiset()) =~= listing_of(
            orig,
        ).to_multiset());
    }
    while projected.len() > 0
        invariant
            sorted_by_id(out@),
            out@.to_multiset().add(projected@.to_multiset()) =~= listing_of(orig).to_multiset(),
            forall|i: int, j: int|
                0 <= i < out@.len() && 0 <= j < projected@.len() ==> out@[i].id
                    <= projected@[j].id,
            forall|i: int| 0 <= i < out@.len() ==> out@[i].output is None,
            forall|j: int| 0 <= j < projected@.len() ==> projected@[j].output is None,
        decreases projected@.len(),
    {
        let mut m: usize = 0;
        let mut k: usize = 1;
        while k < projected.len()
            invariant
                projected@.len() > 0,
                m < k,
                k <= projected@.len(),
                forall|t: int| 0 <= t < k ==> projected@[m as int].id <= projected@[t].id,
            decreases projected@.len() - k,
        {
            if projected[k].id < projected[m].id {
                m = k;
            }
            k += 1;
        }
        let ghost before = projected@;
        let x = projected.remove(m);
        proof {
            broadcast use group_to_multiset_ensures;

            assert(projected@.to_multiset() =~= before.to_multiset().remove(x));
            assert(out@.push(x).to_multiset() =~= out@.to_multiset().insert(x));
            assert(out@.push(x).to_multiset().add(projected@.to_multiset())
                =~= out@.to_multiset().add(before.to_multiset()));
        }
        out.push(x);
    }
    proof {
        broadcast use group_to_multiset_ensures;

        assert(forall|t: TaskDisplayable| projected@.to_multiset().count(t) == 0) by {
            assert(forall|t: TaskDisplayable| !projected@.contains(t));
        }
        assert(out@.to_multiset() =~= listing_of(orig).to_multiset());
    }
    StatusDisplayable { tasks: out }
}

impl PueueStatus {
    /// The listing response for a whole status snapshot: its task records,
    /// projected and ordered by id; its groups take no part in the response.
    pub fn into_listing(self) -> (r: StatusDisplayable)
        ensures
            sorted_by_id(r.tasks@),
            r.tasks@.to_multiset() == listing_of(self.tasks@).to_multiset(),
            forall|i: int| 0 <= i < r.tasks@.len() ==> r.tasks@[i].output is None,
    {
        build_listing(self.tasks)
    }
}

/// Law: the listing is determined by the tasks alone. Any two sequences that
/// are sorted ascending by id, hold the same tasks, and repeat no id are
/// equal — so the insertion order of the daemon's mapping cannot influence
/// the listing.
pub proof fn lemma_sorted_listing_unique(a: Seq<TaskDisplayable>, b: Seq<TaskDisplayable>)
    requires
        sorted_by_id(a),
        sorted_by_id(b),
        a.to_multiset() == b.to_multiset(),
        distinct_ids(a),
    ensures
        a == b,
    decreases a.len(),
{
    broadcast use group_to_multiset_ensures;

    if a.len() == 0 {
        assert(b.to_multiset().len() == 0);
        assert(a =~= b);
    } else {
        assert(a.contains(a[0]));
        assert(b.to_multiset().count(a[0]) > 0);
        assert(b.contains(a[0]));
        let j = choose|j: int| 0 <= j < b.len() && b[j] == a[0];
        assert(b.contains(b[0]));
        assert(a.to_multiset().count(b[0]) > 0);
        assert(a.contains(b[0]));
        let i = choose|i: int| 0 <= i < a.len() && a[i] == b[0];
        assert(a[0].id <= a[i].id);
        assert(b[0].id <= b[j].id);
        assert(a[0].id == b[0].id);
        assert(i == 0) by {
            if i != 0 {
                assert(a[0].id != a[i].id);
            }
        }
        assert(a[0] == b[0]);
        let a1 = a.remove(0);
        let b1 = b.remove(0);
        assert(a1.to_multiset() =~= a.to_multiset().remove(a[0]));
        assert(b1.to_multiset() =~= b.to_multiset().remove(b[0]));
        assert(a1.to_multiset() == b1.to_multiset());
        assert(sorted_by_id(a1));
        assert(sorted_by_id(b1));
        assert(distinct_ids(a1));
        lemma_sorted_listing_unique(a1, b1);
        assert(a.len() == b.len());
        assert forall|k: int| 0 <= k < a.len() implies a[k] == b[k] by {
            if k != 0 {
                assert(a1[k - 1] == b1[k - 1]);
                assert(a[k] == a1[k - 1]);
                assert(b[k] == b1[k - 1]);
            }
        }
        assert(a =~= b);
    }
}

} // verus!
