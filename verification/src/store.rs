use vstd::prelude::*;

verus! {

/// A single record of the store: a title and a description. Records carry no
/// identity beyond their position in the store; empty strings are valid.
#[derive(Debug, PartialEq, Eq)]
pub struct TaskList {
    pub title: String,
    pub description: String,
}

/// The mathematical model of a record: both fields as character sequences.
pub struct TaskListView {
    pub title: Seq<char>,
    pub description: Seq<char>,
}

impl View for TaskList {
    type V = TaskListView;

    open spec fn view(&self) -> TaskListView {
        TaskListView { title: self.title@, description: self.description@ }
    }
}

impl DeepView for TaskList {
    type V = TaskListView;

    open spec fn deep_view(&self) -> TaskListView {
        self@
    }
}

impl Clone for TaskList {
    fn clone(&self) -> (r: TaskList)
        ensures
            r == *self,
    {
        TaskList { title: self.title.clone(), description: self.description.clone() }
    }
}

/// An ordered, index-addressable collection of records. Indices are
/// contiguous and zero-based after every operation; insertion order is
/// preserved on append, and deletion shifts later records down (ordered
/// removal), so no gaps ever appear.
pub struct Task {
    pub list: Vec<TaskList>,
}

impl View for Task {
    type V = Seq<TaskListView>;

    open spec fn view(&self) -> Seq<TaskListView> {
        self.list.deep_view()
    }
}

impl Task {
    /// Creates an empty store.
    pub fn new() -> (r: Self)
        ensures
            r@ == Seq::<TaskListView>::empty(),
    {
        let r = Self { list: Vec::new() };
        proof {
            assert(r@ =~= Seq::<TaskListView>::empty());
        }
        r
    }

    /// Creates an empty store; equivalent to `new`.
    pub fn default() -> (r: Self)
        ensures
            r@ == Seq::<TaskListView>::empty(),
    {
        Self::new()
    }

    /// Appends a record built from the two inputs to the end of the store.
    /// Always succeeds; the new record occupies index = previous length.
    pub fn add(&mut self, title: String, description: String)
        ensures
            final(self)@ == old(self)@.push(
                (TaskListView { title: title@, description: description@ }),
            ),
    {
        let ghost pre = self@;
        self.list.push(TaskList { title, description });
        proof {
            assert(self@ =~= pre.push(TaskListView { title: title@, description: description@ }));
        }
    }

    /// Replaces both fields of the record at `index`, preserving its
    /// position; no other record is touched. `index` must be in bounds.
    pub fn update_task(&mut self, index: u32, title: String, description: String)
        requires
            index < old(self)@.len(),
        ensures
            final(self)@ == old(self)@.update(
                index as int,
                (TaskListView { title: title@, description: description@ }),
            ),
    {
        let ghost pre = self@;
        let index_usize: usize = index as usize;
        self.list[index_usize] = TaskList { title, description };
        proof {
            assert(self@ =~= pre.update(
                index as int,
                TaskListView { title: title@, description: description@ },
            ));
        }
    }

    /// Removes the record at `index` by ordered removal: every record after
    /// `index` shifts down by one position, so the relative order of the
    /// remaining records is preserved. `index` must be in bounds.
    pub fn delete_task(&mut self, index: u32)
        requires
            index < old(self)@.len(),
        ensures
            final(self)@ == old(self)@.remove(index as int),
    {
        let ghost pre = self@;
        let index_usize: usize = index as usize;
        self.list.remove(index_usize);
        proof {
            assert(self@ =~= pre.remove(index as int));
        }
    }

    /// Returns a copy of the full sequence of records in current order. The
    /// copy is independent of the store's internal state.
    pub fn get_list(&self) -> (r: Vec<TaskList>)
        ensures
            r.deep_view() == self@,
    {
        let mut r: Vec<TaskList> = Vec::new();
        let mut i: usize = 0;
        while i < self.list.len()
            invariant
                i <= self.list.len(),
                r@.len() == i,
                forall|j: int| 0 <= j < i ==> r@[j] == self.list@[j],
            decreases self.list.len() - i,
        {
            r.push(self.list[i].clone());
            i = i + 1;
        }
        proof {
            assert(r.deep_view() =~= self@);
        }
        r
    }

    /// Returns a copy of the record at `index`, or `None` when `index` is
    /// out of range (including on an empty store). This is the sole
    /// operation with graceful out-of-range handling.
    pub fn get_task(&self, index: u32) -> (r: Option<TaskList>)
        ensures
            index < self@.len() ==> (r matches Some(t) && t@ == self@[index as int]),
            index >= self@.len() ==> r is None,
    {
        let index_usize: usize = index as usize;
        if index_usize < self.list.len() {
            Some(self.list[index_usize].clone())
        } else {
            None
        }
    }
}

} // verus!
