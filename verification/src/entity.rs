//! A row of the `project` table and the writes that change it.
use vstd::prelude::*;

verus! {

/// A stored project, as the `project` table holds it.
#[derive(Debug, PartialEq, Eq)]
pub struct Project {
    pub id: i32,
    pub name: String,
    pub description: Option<String>,
}

/// Copies an optional text, keeping it equal to the original.
pub fn clone_text(text: &Option<String>) -> (copy: Option<String>)
    ensures
        copy == *text,
{
    match text {
        Some(s) => Some(s.clone()),
        None => None,
    }
}

impl Clone for Project {
    fn clone(&self) -> (copy: Self)
        ensures
            copy == *self,
    {
        Project { id: self.id, name: self.name.clone(), description: clone_text(&self.description) }
    }
}

/// The state of one column in a write: a new value, the value the row
/// already holds, or no value at all (the database chooses it).
#[derive(Debug, PartialEq, Eq)]
pub enum ColumnValue<T> {
    Changed(T),
    Unchanged(T),
    NotSet,
}

/// A write to the `project` table: one column state per column.
#[derive(Debug, PartialEq, Eq)]
pub struct ProjectActiveModel {
    pub id: ColumnValue<i32>,
    pub name: ColumnValue<String>,
    pub description: ColumnValue<Option<String>>,
}

impl Project {
    /// The write that keeps every column of this row as it is.
    pub open spec fn unchanged_model(self) -> ProjectActiveModel {
        ProjectActiveModel {
            id: ColumnValue::Unchanged(self.id),
            name: ColumnValue::Unchanged(self.name),
            description: ColumnValue::Unchanged(self.description),
        }
    }

    /// Turns the row into a write that changes nothing yet.
    pub fn into_active_model(&self) -> (model: ProjectActiveModel)
        ensures
            model == self.unchanged_model(),
    {
        ProjectActiveModel {
            id: ColumnValue::Unchanged(self.id),
            name: ColumnValue::Unchanged(self.name.clone()),
            description: ColumnValue::Unchanged(clone_text(&self.description)),
        }
    }
}

} // verus!
