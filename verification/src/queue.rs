//! A queue of tasks kept in memory.
use vstd::prelude::*;

use crate::tasks::TaskType;

verus! {

/// Tasks waiting to run, in the order they were added.
#[derive(Debug)]
pub struct MemoryTaskQueue {
    pub tasks: Vec<TaskType>,
}

impl MemoryTaskQueue {
    pub fn new() -> (q: MemoryTaskQueue)
        ensures
            q.tasks@.len() == 0,
    {
        MemoryTaskQueue { tasks: Vec::new() }
    }

    /// Adds a task at the end of the queue.
    pub fn add_task(&mut self, task: TaskType)
        ensures
            final(self).tasks@ == old(self).tasks@.push(task),
    {
        self.tasks.push(task);
    }

    /// Hands out every waiting task, in order, and empties the queue.
    pub fn get_available_tasks(&mut self) -> (r: Vec<TaskType>)
        ensures
            r@ == old(self).tasks@,
            final(self).tasks@.len() == 0,
    {
        let mut taken: Vec<TaskType> = Vec::new();
        std::mem::swap(&mut taken, &mut self.tasks);
        taken
    }
}

/// Tasks come out in the order they were added: if a queue went through
/// `states`, each state after the first being the one before with the next
/// task of `added` pushed at its end (what `add_task` does), the last state
/// holds what the queue held at first followed by every added task, in order.
/// `get_available_tasks` hands out exactly that and leaves the queue empty.
pub proof fn lemma_queue_keeps_order(states: Seq<Seq<TaskType>>, added: Seq<TaskType>)
    requires
        states.len() == added.len() + 1,
        forall|i: int| 0 <= i < added.len() ==> #[trigger] states[i + 1] == states[i].push(added[i]),
    ensures
        states.last() == states[0] + added,
    decreases added.len(),
{
    if added.len() > 0 {
        let n = added.len() - 1;
        let fewer_states = states.take(n + 1);
        let fewer = added.take(n);
        assert forall|i: int| 0 <= i < fewer.len() implies #[trigger] fewer_states[i + 1] == fewer_states[i].push(fewer[i]) by {
            assert(states[i + 1] == states[i].push(added[i]));
        }
        lemma_queue_keeps_order(fewer_states, fewer);
        assert(states[n + 1] == states[n].push(added[n]));
        assert(added == fewer.push(added[n]));
        assert(states[0] + added == (states[0] + fewer).push(added[n]));
    }
}

} // verus!
