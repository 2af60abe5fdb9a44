use vstd::prelude::*;

use crate::task::{CoStatus, SchedulerStatus};

verus! {

/// Hands out coroutine ids: increasing, each one once, starting at 1.
pub struct IdGen {
    next: usize,
}

impl IdGen {
    pub closed spec fn next(&self) -> usize {
        self.next
    }

    pub fn new() -> (r: IdGen)
        ensures
            r.next() == 1,
    {
        IdGen { next: 1 }
    }

    /// The next id; `None`, with nothing changed, once `usize` is exhausted.
    pub fn next_id(&mut self) -> (r: Option<usize>)
        ensures
            old(self).next() < usize::MAX ==> r == Some(old(self).next()) && final(self).next()
                == old(self).next() + 1,
            old(self).next() == usize::MAX ==> r is None && *final(self) == *old(self),
    {
        if self.next < usize::MAX {
            let id = self.next;
            self.next = self.next + 1;
            Some(id)
        } else {
            None
        }
    }
}

/// One row of the status table.
pub struct TaskStatus {
    pub name: String,
    pub co_id: usize,
    pub co_status: CoStatus,
    pub sched: SchedulerStatus,
}

/// Why a task was not registered.
#[derive(Clone, Copy, Debug, PartialEq, Eq, Structural)]
pub enum StatusError {
    /// A live task of that name is registered already.
    DuplicateTask,
}

/// Status of every registered task, in registration order.
pub struct StatusTable {
    rows: Vec<TaskStatus>,
}

impl StatusTable {
    pub closed spec fn rows(&self) -> Seq<TaskStatus> {
        self.rows@
    }

    /// A row named `name` whose coroutine has not completed.
    pub open spec fn has_live(&self, name: Seq<char>) -> bool {
        exists|i: int|
            0 <= i < self.rows().len() && #[trigger] self.rows()[i].name@ == name
                && self.rows()[i].co_status != CoStatus::COMPLETED
    }

    pub fn new() -> (r: StatusTable)
        ensures
            r.rows().len() == 0,
    {
        StatusTable { rows: Vec::new() }
    }

    pub fn len(&self) -> (r: usize)
        ensures
            r == self.rows().len(),
    {
        self.rows.len()
    }

    /// Adds task `name`, run by coroutine `co_id`; refused, with the table
    /// unchanged, while a live task of that name is there.
    pub fn register(&mut self, name: String, co_id: usize, co_status: CoStatus, sched: SchedulerStatus) -> (r:
        Result<(), StatusError>)
        ensures
            old(self).has_live(name@) ==> r == Err::<(), StatusError>(StatusError::DuplicateTask)
                && *final(self) == *old(self),
            !old(self).has_live(name@) ==> {
                &&& r is Ok
                &&& final(self).rows().drop_last() == old(self).rows()
                &&& final(self).rows().len() == old(self).rows().len() + 1
                &&& final(self).rows().last().name@ == name@
                &&& final(self).rows().last().co_id == co_id
                &&& final(self).rows().last().co_status == co_status
                &&& final(self).rows().last().sched == sched
            },
    {
        let mut i: usize = 0;
        while i < self.rows.len()
            invariant
                0 <= i <= self.rows@.len(),
                forall|k: int|
                    0 <= k < i ==> #[trigger] self.rows@[k].name@ != name@ || self.rows@[k].co_status
                        == CoStatus::COMPLETED,
            decreases self.rows@.len() - i,
        {
            if self.rows[i].name == name && self.rows[i].co_status != CoStatus::COMPLETED {
                return Err(StatusError::DuplicateTask);
            }
            i = i + 1;
        }
        let ghost before = self.rows@;
        self.rows.push(TaskStatus { name, co_id, co_status, sched });
        proof {
            assert(self.rows@.drop_last() =~= before);
        }
        Ok(())
    }

    /// Records the status and bookkeeping of coroutine `co_id` in every row
    /// it runs; other rows are untouched. False when no row names it.
    pub fn update(&mut self, co_id: usize, co_status: CoStatus, sched: SchedulerStatus) -> (r: bool)
        ensures
            final(self).rows().len() == old(self).rows().len(),
            r == exists|i: int| 0 <= i < old(self).rows().len() && #[trigger] old(self).rows()[i].co_id == co_id,
            forall|i: int|
                0 <= i < old(self).rows().len() ==> {
                    let a = #[trigger] old(self).rows()[i];
                    let b = final(self).rows()[i];
                    &&& b.name == a.name
                    &&& b.co_id == a.co_id
                    &&& a.co_id == co_id ==> b.co_status == co_status && b.sched == sched
                    &&& a.co_id != co_id ==> b == a
                },
    {
        let ghost before = self.rows@;
        let mut found = false;
        let mut i: usize = 0;
        while i < self.rows.len()
            invariant
                0 <= i <= self.rows@.len(),
                self.rows@.len() == before.len(),
                found == exists|k: int| 0 <= k < i && #[trigger] before[k].co_id == co_id,
                forall|k: int|
                    0 <= k < before.len() ==> {
                        let a = #[trigger] before[k];
                        let b = self.rows@[k];
                        &&& b.name == a.name
                        &&& b.co_id == a.co_id
                        &&& (k < i && a.co_id == co_id) ==> b.co_status == co_status && b.sched == sched
                        &&& !(k < i && a.co_id == co_id) ==> b == a
                    },
            decreases self.rows@.len() - i,
        {
            if self.rows[i].co_id == co_id {
                let mut row = self.rows.remove(i);
                row.co_status = co_status;
                row.sched = sched;
                self.rows.insert(i, row);
                found = true;
            }
            proof {
                assert(before[i as int].co_id == co_id ==> exists|k: int| 0 <= k < i + 1 && #[trigger] before[k].co_id == co_id);
            }
            i = i + 1;
        }
        found
    }

    /// The newest row named `name`.
    pub fn status_of(&self, name: &String) -> (r: Option<&TaskStatus>)
        ensures
            r is None <==> forall|i: int| 0 <= i < self.rows().len() ==> #[trigger] self.rows()[i].name@ != name@,
            r matches Some(t) ==> exists|i: int|
                0 <= i < self.rows().len() && #[trigger] self.rows()[i] == *t && t.name@ == name@
                    && forall|j: int| i < j < self.rows().len() ==> #[trigger] self.rows()[j].name@ != name@,
    {
        let mut i: usize = self.rows.len();
        while i > 0
            invariant
                0 <= i <= self.rows@.len(),
                forall|j: int| i <= j < self.rows@.len() ==> #[trigger] self.rows@[j].name@ != name@,
            decreases i,
        {
            i = i - 1;
            if self.rows[i].name == *name {
                return Some(&self.rows[i]);
            }
        }
        None
    }

    /// Every row, in registration order.
    pub fn all_statuses(&self) -> (r: &Vec<TaskStatus>)
        ensures
            r@ == self.rows(),
    {
        &self.rows
    }
}

} // verus!
