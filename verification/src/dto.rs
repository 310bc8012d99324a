//! The shapes in which projects travel over HTTP.
use vstd::prelude::*;
use crate::entity::{clone_text, ColumnValue, Project, ProjectActiveModel};

verus! {

/// A project as the endpoints return it.
#[derive(Debug, PartialEq, Eq)]
pub struct ProjectDto {
    pub id: i32,
    pub name: String,
    pub description: Option<String>,
}

/// The body of a request that creates or renames a project.
#[derive(Debug, PartialEq, Eq)]
pub struct NewProjectDto {
    pub name: String,
    pub description: Option<String>,
}

/// The answer that describes a stored project.
pub open spec fn dto_of(project: Project) -> ProjectDto {
    ProjectDto { id: project.id, name: project.name, description: project.description }
}

/// The write that inserts a new project: the database picks the id, the
/// name and the description come from the request.
pub open spec fn insert_model_of(dto: NewProjectDto) -> ProjectActiveModel {
    ProjectActiveModel {
        id: ColumnValue::NotSet,
        name: ColumnValue::Changed(dto.name),
        description: ColumnValue::Changed(dto.description),
    }
}

impl From<Project> for ProjectDto {
    fn from(project: Project) -> (dto: Self) {
        ProjectDto { id: project.id, name: project.name, description: project.description }
    }
}

impl vstd::std_specs::convert::FromSpecImpl<Project> for ProjectDto {
    open spec fn obeys_from_spec() -> bool {
        true
    }

    open spec fn from_spec(project: Project) -> Self {
        dto_of(project)
    }
}

impl From<NewProjectDto> for ProjectActiveModel {
    fn from(dto: NewProjectDto) -> (model: Self) {
        ProjectActiveModel {
            id: ColumnValue::NotSet,
            name: ColumnValue::Changed(dto.name),
            description: ColumnValue::Changed(dto.description),
        }
    }
}

impl vstd::std_specs::convert::FromSpecImpl<NewProjectDto> for ProjectActiveModel {
    open spec fn obeys_from_spec() -> bool {
        true
    }

    open spec fn from_spec(dto: NewProjectDto) -> Self {
        insert_model_of(dto)
    }
}

impl ProjectDto {
    /// Describes a stored project without consuming it.
    pub fn of_project(project: &Project) -> (dto: Self)
        ensures
            dto == dto_of(*project),
    {
        ProjectDto { id: project.id, name: project.name.clone(), description: clone_text(&project.description) }
    }
}

} // verus!
