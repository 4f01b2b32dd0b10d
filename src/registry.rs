//! Running tasks and their cancellation flags.
use vstd::prelude::*;

use std::sync::atomic::{AtomicBool, Ordering};
use std::sync::Arc;

verus! {

/// A running task: its identifier and the flag that asks it to stop. The
/// flag is shared with the task, which polls it; it only ever goes from
/// `false` to `true`.
pub struct TaskEntry {
    pub id: String,
    pub flag: Arc<AtomicBool>,
}

/// The running tasks, each identifier at most once.
pub struct TaskRegistry {
    pub entries: Vec<TaskEntry>,
}

impl TaskRegistry {
    /// The identifiers, in order of registration.
    pub open spec fn ids(self) -> Seq<Seq<char>> {
        self.entries@.map_values(|e: TaskEntry| e.id@)
    }

    /// No identifier is registered twice.
    pub open spec fn wf(self) -> bool {
        forall|i: int, j: int|
            0 <= i < j < self.entries@.len() ==> self.entries@[i].id@ != self.entries@[j].id@
    }

    /// An empty registry.
    pub fn new() -> (r: TaskRegistry)
        ensures
            r.wf(),
            r.ids() == Seq::<Seq<char>>::empty(),
    {
        let r = TaskRegistry { entries: Vec::new() };
        assert(r.ids() =~= Seq::<Seq<char>>::empty());
        r
    }

    /// The position of the task, when it is registered.
    pub fn position(&self, id: &str) -> (r: Option<usize>)
        ensures
            r matches Some(i) ==> i < self.entries@.len() && self.entries@[i as int].id@ == id@,
            r is None ==> !self.ids().contains(id@),
    {
        let key = String::from_str(id);
        let mut i: usize = 0;
        while i < self.entries.len()
            invariant
                key@ == id@,
                i <= self.entries@.len(),
                forall|j: int| 0 <= j < i ==> self.entries@[j].id@ != id@,
            decreases self.entries@.len() - i,
        {
            if self.entries[i].id == key {
                return Some(i);
            }
            i += 1;
        }
        proof {
            if self.ids().contains(id@) {
                let k = choose|k: int| 0 <= k < self.ids().len() && self.ids()[k] == id@;
                assert(self.entries@[k].id@ == id@);
            }
        }
        None
    }

    /// Registers a task under `id` with its flag; a task already registered
    /// under that identifier has its flag replaced.
    pub fn register(&mut self, id: String, flag: Arc<AtomicBool>)
        requires
            old(self).wf(),
        ensures
            final(self).wf(),
            old(self).ids().contains(id@) ==> final(self).ids() == old(self).ids(),
            !old(self).ids().contains(id@) ==> final(self).ids() == old(self).ids().push(id@),
    {
        match self.position(id.as_str()) {
            Some(i) => {
                let ghost key = id@;
                self.entries.set(i, TaskEntry { id, flag });
                assert(self.ids() =~= old(self).ids());
                assert forall|a: int, b: int| 0 <= a < b < self.entries@.len() implies
                    self.entries@[a].id@ != self.entries@[b].id@ by {
                    assert(self.entries@[a].id@ == self.ids()[a]);
                    assert(self.entries@[b].id@ == self.ids()[b]);
                    assert(old(self).entries@[a].id@ == old(self).ids()[a]);
                    assert(old(self).entries@[b].id@ == old(self).ids()[b]);
                }
                assert(old(self).ids()[i as int] == key);
            },
            None => {
                let ghost key = id@;
                self.entries.push(TaskEntry { id, flag });
                assert(self.ids() =~= old(self).ids().push(key));
                assert forall|a: int, b: int| 0 <= a < b < self.entries@.len() implies
                    self.entries@[a].id@ != self.entries@[b].id@ by {
                    if b == old(self).entries@.len() {
                        assert(old(self).ids()[a] == self.entries@[a].id@);
                    }
                }
            },
        }
    }

    /// Asks the task to stop by setting its flag. Returns whether `id` names
    /// a registered task; an unknown identifier changes nothing, and asking
    /// twice is the same as asking once.
    pub fn stop(&self, id: &str) -> (r: bool)
        ensures
            r == self.ids().contains(id@),
    {
        match self.position(id) {
            Some(i) => {
                self.entries[i].flag.store(true, Ordering::Relaxed);
                assert(self.ids()[i as int] == id@);
                true
            },
            None => false,
        }
    }
}

} // verus!
