//! The tasks that are done.

use crate::tasks::Task;
use crate::tasks::TaskView;
use vstd::prelude::*;

verus! {

/// The test that `completed` keeps a task by: the task is finished.
pub open spec fn is_finished() -> spec_fn(TaskView) -> bool {
    |task: TaskView| task.finished
}

/// The finished tasks among `tasks`, in their order. Dates play no part: a
/// finished task without a due date is one of them.
pub fn completed(tasks: &Vec<Task>) -> (done: Vec<Task>)
    ensures
        done.deep_view() == tasks.deep_view().filter(is_finished()),
{
    let ghost keep = is_finished();
    let mut done: Vec<Task> = Vec::new();
    let mut i: usize = 0;
    proof {
        assert(tasks.deep_view().take(0) =~= Seq::<TaskView>::empty());
        assert(done.deep_view() =~= Seq::<TaskView>::empty());
        reveal(Seq::filter);
    }
    while i < tasks.len()
        invariant
            i <= tasks.len(),
            keep == is_finished(),
            done.deep_view() == tasks.deep_view().take(i as int).filter(keep),
        decreases tasks.len() - i,
    {
        let task = &tasks[i];
        let ghost before = done.deep_view();
        proof {
            tasks.deep_view().lemma_take_succ_push(i as int);
            tasks.deep_view().take(i as int).lemma_filter_push(task@, keep);
        }
        if task.finished {
            done.push(task.clone());
            assert(done.deep_view() =~= before.push(task@));
        }
        i += 1;
    }
    proof {
        tasks.deep_view().lemma_take_len();
    }
    done
}

} // verus!
