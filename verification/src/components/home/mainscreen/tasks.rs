//! The tasks viewer: the requests that are running or have failed.
use std::collections::HashMap;
use vstd::prelude::*;

use crate::query::QueryStatus;
use crate::strings::{dec, dec_string};

verus! {

broadcast use vstd::std_specs::hash::group_hash_axioms;

/// The state of a listed request.
#[derive(Clone, Copy, Debug, PartialEq, Eq, Structural)]
pub enum Status {
    Running,
    Failed,
}

/// The label of a state.
pub open spec fn status_text(s: Status) -> Seq<char> {
    match s {
        Status::Running => "Running"@,
        Status::Failed => "Failed!"@,
    }
}

impl Status {
    /// The label of the state.
    pub fn to_string(&self) -> (s: String)
        ensures
            s@ == status_text(*self),
    {
        match self {
            Status::Running => "Running",
            Status::Failed => "Failed!",
        }.to_string()
    }
}

/// One row of the viewer's table: the ticket, the request and its state.
pub open spec fn task_row(id: usize, entry: (String, Status)) -> (Seq<char>, Seq<char>, Seq<char>) {
    (dec(id as nat), entry.0@, status_text(entry.1))
}

/// The text of a row of strings.
pub open spec fn row_text(r: (String, String, String)) -> (Seq<char>, Seq<char>, Seq<char>) {
    (r.0@, r.1@, r.2@)
}

/// Row `i` of `rows` shows one of the requests of `tasks`.
pub open spec fn listed(rows: Seq<(String, String, String)>, tasks: Map<usize, (String, Status)>, i: int) -> bool {
    exists|id: usize| tasks.contains_key(id) && row_text(rows[i]) == task_row(id, tasks[id])
}

/// The requests listed after a change of state of the request `ticket`: a finished request
/// leaves the list, a cancelled one too, a failed one stays marked as failed, and a request
/// that is sent joins it, running, when it is to be shown.
pub open spec fn tasks_after(
    tasks: Map<usize, (String, Status)>,
    ticket: usize,
    status: QueryStatus,
) -> Map<usize, (String, Status)> {
    match status {
        QueryStatus::Finished => tasks.remove(ticket),
        QueryStatus::Aborted(cancelled) => if tasks.contains_key(ticket) {
            if cancelled {
                tasks.remove(ticket)
            } else {
                tasks.insert(ticket, (tasks[ticket].0, Status::Failed))
            }
        } else {
            tasks
        },
        QueryStatus::Requested { description, show } => if show {
            tasks.insert(ticket, (description, Status::Running))
        } else {
            tasks
        },
    }
}

/// The tasks viewer.
pub struct Tasks {
    pub tasks: HashMap<usize, (String, Status)>,
    /// Whether requests the program makes on its own are listed.
    pub show_internal: bool,
}

impl Tasks {
    /// An empty viewer.
    pub fn new(show_internal: bool) -> (r: Self)
        ensures
            r.tasks@ == Map::<usize, (String, Status)>::empty(),
            r.show_internal == show_internal,
    {
        Self { tasks: HashMap::new(), show_internal }
    }

    /// Follows a change of state of the request `ticket`.
    pub fn update_task(&mut self, ticket: &usize, status: &QueryStatus)
        ensures
            final(self).tasks@ == tasks_after(old(self).tasks@, *ticket, *status),
            final(self).show_internal == old(self).show_internal,
    {
        match status {
            QueryStatus::Finished => {
                self.tasks.remove(ticket);
            },
            QueryStatus::Aborted(cancelled) => {
                if let Some(entry) = self.tasks.get(ticket) {
                    if *cancelled {
                        self.tasks.remove(ticket);
                    } else {
                        let msg = entry.0.clone();
                        self.tasks.insert(*ticket, (msg, Status::Failed));
                    }
                }
            },
            QueryStatus::Requested { description, show } => {
                if *show {
                    self.tasks.insert(*ticket, (description.clone(), Status::Running));
                }
            },
        }
    }

    /// The number of listed requests.
    pub fn get_task_count(&self) -> (n: usize)
        ensures
            n == self.tasks@.len(),
    {
        self.tasks.len()
    }

    /// The rows of the table: a header, then one row per listed request, in the map's order.
    pub fn gen_rows(&self) -> (rows: Vec<(String, String, String)>)
        ensures
            rows@.len() == self.tasks@.len() + 1,
            row_text(rows@[0]) == ("ID"@, "Task"@, "Status"@),
            forall|i: int| 1 <= i < rows@.len() ==> #[trigger] listed(rows@, self.tasks@, i),
            forall|id: usize|
                #[trigger] self.tasks@.contains_key(id) ==> exists|i: int|
                    1 <= i < rows@.len() && row_text(rows@[i]) == task_row(id, self.tasks@[id]),
    {
        let ghost v = vstd::std_specs::iter::IteratorSpec::remaining(
            &vstd::std_specs::hash::spec_hash_map_iter(&self.tasks),
        );
        let mut rows: Vec<(String, String, String)> = Vec::new();
        rows.push((String::from_str("ID"), String::from_str("Task"), String::from_str("Status")));
        for item in it: self.tasks.iter()
            invariant
                it.seq() == v,
                rows@.len() == it.index() + 1,
                row_text(rows@[0]) == ("ID"@, "Task"@, "Status"@),
                forall|i: int| 0 <= i < it.index() ==> #[trigger] row_text(rows@[i + 1]) == task_row(*v[i].0, *v[i].1),
        {
            let (id, entry) = item;
            rows.push((dec_string(*id as u64), entry.0.clone(), entry.1.to_string()));
        }
        proof {
            assert(rows@.len() == v.len() + 1);
            assert forall|i: int| 1 <= i < rows@.len() implies #[trigger] listed(rows@, self.tasks@, i) by {
                let k = *v[i - 1].0;
                assert(self.tasks@.contains_key(k) && self.tasks@[k] == *v[i - 1].1);
                assert(row_text(rows@[(i - 1) + 1]) == task_row(*v[i - 1].0, *v[i - 1].1));
            }
            assert forall|id: usize| #[trigger] self.tasks@.contains_key(id) implies exists|i: int|
                1 <= i < rows@.len() && row_text(rows@[i]) == task_row(id, self.tasks@[id]) by {
                assert(v.contains((&id, &self.tasks@[id])));
                let j = choose|j: int| 0 <= j < v.len() && v[j] == (&id, &self.tasks@[id]);
                assert(row_text(rows@[j + 1]) == task_row(*v[j].0, *v[j].1));
            }
        }
        rows
    }
}

/// A finished request is no longer listed, and neither is a cancelled one; a failed one stays
/// listed with its description; a request shown when sent is listed as running.
pub proof fn lemma_task_lifecycle(tasks: Map<usize, (String, Status)>, ticket: usize, description: String)
    ensures
        !tasks_after(tasks, ticket, QueryStatus::Finished).contains_key(ticket),
        !tasks_after(tasks, ticket, QueryStatus::Aborted(true)).contains_key(ticket),
        tasks.contains_key(ticket) ==> tasks_after(tasks, ticket, QueryStatus::Aborted(false))[ticket] == (
            tasks[ticket].0,
            Status::Failed,
        ),
        tasks_after(tasks, ticket, QueryStatus::Requested { description, show: true })[ticket] == (
            description,
            Status::Running,
        ),
{
}

} // verus!
