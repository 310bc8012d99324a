//! A stored project together with the handle of the system that stores it:
//! the write that an update sends, and what an update's outcome does to the
//! context.
use vstd::prelude::*;
use crate::entity::{clone_text, ColumnValue, Project, ProjectActiveModel};
use crate::pagination::PaginatedResults;

verus! {

/// A project and the system it was read from.
#[derive(Debug)]
pub struct ProjectContext<S> {
    pub system: S,
    pub project: Project,
}

/// The column state that an update sends for one column: the requested
/// value where the request sets one, the value the row holds otherwise.
pub open spec fn merged_column<T>(requested: ColumnValue<T>, current: T) -> ColumnValue<T> {
    match requested {
        ColumnValue::Changed(v) => ColumnValue::Changed(v),
        _ => ColumnValue::Unchanged(current),
    }
}

/// The write that an update of `project` by `requested` sends: the id is
/// never changed; name and description change only where the request sets
/// them.
pub open spec fn update_model_of(project: Project, requested: ProjectActiveModel) -> ProjectActiveModel {
    ProjectActiveModel {
        id: ColumnValue::Unchanged(project.id),
        name: merged_column(requested.name, project.name),
        description: merged_column(requested.description, project.description),
    }
}

impl<S> ProjectContext<S> {
    pub fn new(system: S, project: Project) -> (context: Self)
        ensures
            context.system == system,
            context.project == project,
    {
        ProjectContext { system, project }
    }

    /// The write that updating this project with `requested` sends to the
    /// database. Only the columns that `requested` sets change; the id is
    /// kept whatever `requested` holds.
    pub fn update_request(&self, requested: &ProjectActiveModel) -> (write: ProjectActiveModel)
        ensures
            write == update_model_of(self.project, *requested),
    {
        let mut write = self.project.into_active_model();
        if let ColumnValue::Changed(name) = &requested.name {
            write.name = ColumnValue::Changed(name.clone());
        }
        if let ColumnValue::Changed(description) = &requested.description {
            write.description = ColumnValue::Changed(clone_text(description));
        }
        write
    }

    /// Takes in the outcome of the update's write: on success the context
    /// holds the row that the database returned, on failure it stays as it
    /// was and the failure is handed back.
    pub fn finish_update<E>(&mut self, outcome: Result<Project, E>) -> (result: Result<(), E>)
        ensures
            match outcome {
                Ok(updated) => {
                    &&& result is Ok
                    &&& final(self).project == updated
                    &&& final(self).system == old(self).system
                },
                Err(e) => {
                    &&& result == Err::<(), E>(e)
                    &&& *final(self) == *old(self)
                },
            },
    {
        match outcome {
            Ok(updated) => {
                self.project = updated;
                Ok(())
            },
            Err(e) => Err(e),
        }
    }
}

impl<S: Clone> ProjectContext<S> {
    /// A context for `project`, with its own clone of the system handle.
    pub fn from_system(system: &S, project: Project) -> (context: Self)
        ensures
            context.project == project,
            vstd::pervasive::cloned(*system, context.system),
    {
        ProjectContext { system: system.clone(), project }
    }

    /// The context of the row that a lookup by id found, if it found one.
    pub fn from_lookup(system: &S, found: Option<Project>) -> (context: Option<Self>)
        ensures
            match found {
                Some(p) => context matches Some(c) && c.project == p && vstd::pervasive::cloned(
                    *system,
                    c.system,
                ),
                None => context is None,
            },
    {
        match found {
            Some(p) => Some(ProjectContext::from_system(system, p)),
            None => None,
        }
    }

    /// Wraps each fetched row of a page into a context, in order, and
    /// records how many rows the whole listing holds.
    pub fn page_of_contexts(system: &S, rows: Vec<Project>, num_items: u64) -> (page:
        PaginatedResults<ProjectContext<S>>)
        ensures
            page.num_items == num_items,
            page.items@.len() == rows@.len(),
            forall|i: int| 0 <= i < rows@.len() ==> #[trigger] page.items@[i].project == rows@[i],
            forall|i: int|
                0 <= i < rows@.len() ==> vstd::pervasive::cloned(*system, #[trigger] page.items@[i].system),
    {
        let mut items: Vec<ProjectContext<S>> = Vec::new();
        let mut i: usize = 0;
        while i < rows.len()
            invariant
                i <= rows@.len(),
                items@.len() == i,
                forall|j: int| 0 <= j < i ==> #[trigger] items@[j].project == rows@[j],
                forall|j: int| 0 <= j < i ==> vstd::pervasive::cloned(*system, #[trigger] items@[j].system),
            decreases rows@.len() - i,
        {
            items.push(ProjectContext::from_system(system, rows[i].clone()));
            i = i + 1;
        }
        PaginatedResults { items, num_items }
    }
}

} // verus!
