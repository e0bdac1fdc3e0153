//! The single-workspace view: the nested answer of the workspace detail
//! route, and the merge of its task groups with their tasks.

use vstd::prelude::*;

verus! {

/// The nested answer of the workspace detail route.
pub struct FoundWorkspace {
    pub title: String,
    pub description: Option<String>,
    pub labels: Vec<FoundLabel>,
    pub task_groups: Vec<FoundTaskGroup>,
}

pub struct FoundLabel {
    pub id: i32,
    pub color: String,
    pub description: Option<String>,
}

pub struct FoundTaskGroup {
    pub id: i32,
    pub title: String,
    pub tasks: Vec<FoundTask>,
}

pub struct FoundTask {
    pub id: i32,
    pub title: String,
    pub description: String,
    pub labels_ids: Option<Vec<i32>>,
}

/// A task-group row as the storage layer hands it over.
pub struct TaskGroupRow {
    pub id: i32,
    pub title: String,
}

/// A task row as the storage layer hands it over.
pub struct TaskRow {
    pub id: i32,
    pub task_group_id: i32,
    pub title: String,
    pub description: String,
    pub labels_ids: Option<Vec<i32>>,
}

/// The rows of a task list that belong to one task group, in list order.
pub open spec fn spec_tasks_of_group(tasks: Seq<TaskRow>, group_id: int) -> Seq<TaskRow>
    decreases tasks.len(),
{
    if tasks.len() == 0 {
        Seq::<TaskRow>::empty()
    } else {
        spec_tasks_of_group(tasks.drop_last(), group_id) + (if tasks.last().task_group_id
            == group_id {
            seq![tasks.last()]
        } else {
            Seq::<TaskRow>::empty()
        })
    }
}

/// A view task carries exactly a row's fields.
pub open spec fn task_converted(f: FoundTask, t: TaskRow) -> bool {
    &&& f.id == t.id
    &&& f.title@ == t.title@
    &&& f.description@ == t.description@
    &&& (match (f.labels_ids, t.labels_ids) {
        (None, None) => true,
        (Some(a), Some(b)) => a@ == b@,
        _ => false,
    })
}

pub open spec fn tasks_converted(fs: Seq<FoundTask>, ts: Seq<TaskRow>) -> bool {
    fs.len() == ts.len() && (forall|i: int| 0 <= i < fs.len() ==> task_converted(
        #[trigger] fs[i],
        #[trigger] ts[i],
    ))
}

/// Merges the task groups of a workspace with the tasks that belong to
/// them: one view group per row, in order, each holding exactly its own
/// tasks in list order.
pub fn group_tasks(task_groups: &Vec<TaskGroupRow>, tasks: &Vec<TaskRow>) -> (r: Vec<
    FoundTaskGroup,
>)
    ensures
        r@.len() == task_groups@.len(),
        forall|i: int|
            0 <= i < r@.len() ==> (#[trigger] r@[i]).id == task_groups@[i].id && r@[i].title@
                == task_groups@[i].title@ && tasks_converted(
                r@[i].tasks@,
                spec_tasks_of_group(tasks@, task_groups@[i].id as int),
            ),
{
    let mut r: Vec<FoundTaskGroup> = Vec::new();
    let gn = task_groups.len();
    let tn = tasks.len();
    let mut g: usize = 0;
    while g < gn
        invariant
            0 <= g <= gn == task_groups@.len(),
            tn == tasks@.len(),
            r@.len() == g,
            forall|i: int|
                0 <= i < g ==> (#[trigger] r@[i]).id == task_groups@[i].id && r@[i].title@
                    == task_groups@[i].title@ && tasks_converted(
                    r@[i].tasks@,
                    spec_tasks_of_group(tasks@, task_groups@[i].id as int),
                ),
        decreases gn - g,
    {
        let group = &task_groups[g];
        let mut current: Vec<FoundTask> = Vec::new();
        let mut t: usize = 0;
        proof {
            assert(tasks@.subrange(0, 0) =~= Seq::<TaskRow>::empty());
        }
        while t < tn
            invariant
                0 <= t <= tn == tasks@.len(),
                0 <= g < task_groups@.len(),
                group == task_groups@[g as int],
                tasks_converted(
                    current@,
                    spec_tasks_of_group(tasks@.subrange(0, t as int), group.id as int),
                ),
            decreases tn - t,
        {
            proof {
                assert(tasks@.subrange(0, t + 1).drop_last() =~= tasks@.subrange(0, t as int));
                assert(tasks@.subrange(0, t + 1).last() == tasks@[t as int]);
            }
            let task = &tasks[t];
            if task.task_group_id == group.id {
                let labels_ids = match &task.labels_ids {
                    Some(ids) => Some(ids.clone()),
                    None => None,
                };
                current.push(
                    FoundTask {
                        id: task.id,
                        title: task.title.clone(),
                        description: task.description.clone(),
                        labels_ids,
                    },
                );
            }
            t += 1;
        }
        proof {
            assert(tasks@.subrange(0, tn as int) =~= tasks@);
        }
        r.push(FoundTaskGroup { id: group.id, title: group.title.clone(), tasks: current });
        g += 1;
    }
    r
}

} // verus!
