//! The decisions of the project endpoints. Each endpoint hands a request to
//! the database and answers from the database's reply; here stand the
//! functions from that reply (and the request) to the answer, or to the next
//! write that the endpoint sends.
use vstd::prelude::*;
use crate::dto::{dto_of, NewProjectDto, ProjectDto};
use crate::entity::{ColumnValue, Project, ProjectActiveModel};
use crate::reply::{
    internal_error, BodyView, HttpReply, ReplyBody, ReplyView, STATUS_CREATED, STATUS_NOT_FOUND,
    STATUS_NO_CONTENT, STATUS_OK,
};
use crate::text::{not_found_message, not_found_text, MissingProject};

verus! {

/// A database reply that carries a list of rows, by the rows' sequence.
pub open spec fn rows_outcome<E>(outcome: Result<Vec<Project>, E>) -> Result<Seq<Project>, E> {
    match outcome {
        Ok(rows) => Ok(rows@),
        Err(e) => Err(e),
    }
}

/// The answer to a listing of all projects.
pub open spec fn list_reply<E>(outcome: Result<Seq<Project>, E>) -> ReplyView {
    match outcome {
        Ok(rows) => ReplyView {
            status: STATUS_OK,
            body: BodyView::Projects(rows.map_values(|p: Project| dto_of(p))),
        },
        Err(_) => internal_error(),
    }
}

/// The answer to the creation of a project, from the insert's outcome.
pub open spec fn create_reply<E>(outcome: Result<Project, E>) -> ReplyView {
    match outcome {
        Ok(created) => ReplyView { status: STATUS_CREATED, body: BodyView::Project(dto_of(created)) },
        Err(_) => internal_error(),
    }
}

/// The answer to a request for the project `project_id`, from the lookup's
/// outcome.
pub open spec fn get_reply<E>(project_id: i32, outcome: Result<Option<Project>, E>) -> ReplyView {
    match outcome {
        Ok(Some(found)) => ReplyView { status: STATUS_OK, body: BodyView::Project(dto_of(found)) },
        Ok(None) => ReplyView {
            status: STATUS_NOT_FOUND,
            body: BodyView::Text(not_found_text(project_id, MissingProject::Lookup)),
        },
        Err(_) => internal_error(),
    }
}

/// The write that renames the stored project `found` as `request` asks.
pub open spec fn rename_model(found: Project, request: NewProjectDto) -> ProjectActiveModel {
    ProjectActiveModel {
        id: ColumnValue::Unchanged(found.id),
        name: ColumnValue::Changed(request.name),
        description: ColumnValue::Changed(request.description),
    }
}

/// What an update endpoint does next: send a write, or answer.
#[derive(Debug)]
pub enum UpdateStep {
    Write(ProjectActiveModel),
    Reply(HttpReply),
}

pub enum UpdateStepView {
    Write(ProjectActiveModel),
    Reply(ReplyView),
}

impl View for UpdateStep {
    type V = UpdateStepView;

    open spec fn view(&self) -> UpdateStepView {
        match self {
            UpdateStep::Write(m) => UpdateStepView::Write(*m),
            UpdateStep::Reply(r) => UpdateStepView::Reply(r@),
        }
    }
}

/// What the update of project `project_id` does once the lookup of that
/// project has answered.
pub open spec fn update_after_lookup<E>(
    project_id: i32,
    request: NewProjectDto,
    found: Result<Option<Project>, E>,
) -> UpdateStepView {
    match found {
        Ok(Some(p)) => UpdateStepView::Write(rename_model(p, request)),
        Ok(None) => UpdateStepView::Reply(
            ReplyView {
                status: STATUS_NOT_FOUND,
                body: BodyView::Text(not_found_text(project_id, MissingProject::Update)),
            },
        ),
        Err(_) => UpdateStepView::Reply(internal_error()),
    }
}

/// The answer to an update, from the outcome of its write.
pub open spec fn update_reply<E>(outcome: Result<Project, E>) -> ReplyView {
    match outcome {
        Ok(updated) => ReplyView { status: STATUS_OK, body: BodyView::Project(dto_of(updated)) },
        Err(_) => internal_error(),
    }
}

/// The answer to the deletion of project `project_id`, from the number of
/// rows that the delete removed.
pub open spec fn delete_reply<E>(project_id: i32, outcome: Result<u64, E>) -> ReplyView {
    match outcome {
        Ok(rows_affected) => if rows_affected == 1 {
            ReplyView { status: STATUS_NO_CONTENT, body: BodyView::Empty }
        } else {
            ReplyView {
                status: STATUS_NOT_FOUND,
                body: BodyView::Text(not_found_text(project_id, MissingProject::Delete)),
            }
        },
        Err(_) => internal_error(),
    }
}

/// Answers `GET /projects` from the rows that the database listed.
pub fn list_projects_reply<E>(outcome: Result<Vec<Project>, E>) -> (reply: HttpReply)
    ensures
        reply@ == list_reply(rows_outcome(outcome)),
{
    match outcome {
        Ok(rows) => {
            let mut dtos: Vec<ProjectDto> = Vec::new();
            let mut i: usize = 0;
            while i < rows.len()
                invariant
                    i <= rows@.len(),
                    dtos@.len() == i,
                    forall|j: int| 0 <= j < i ==> #[trigger] dtos@[j] == dto_of(rows@[j]),
                decreases rows@.len() - i,
            {
                dtos.push(ProjectDto::of_project(&rows[i]));
                i = i + 1;
            }
            assert(dtos@ =~= rows@.map_values(|p: Project| dto_of(p)));
            HttpReply { status: STATUS_OK, body: ReplyBody::Projects(dtos) }
        },
        Err(_) => HttpReply::internal_server_error(),
    }
}

/// Answers `POST /projects` from the outcome of the insert.
pub fn create_project_reply<E>(outcome: Result<Project, E>) -> (reply: HttpReply)
    ensures
        reply@ == create_reply(outcome),
{
    match outcome {
        Ok(created) => HttpReply { status: STATUS_CREATED, body: ReplyBody::Project(ProjectDto::from(created)) },
        Err(_) => HttpReply::internal_server_error(),
    }
}

/// Answers `GET /projects/{project_id}` from the outcome of the lookup.
pub fn get_project_reply<E>(project_id: i32, outcome: Result<Option<Project>, E>) -> (reply: HttpReply)
    ensures
        reply@ == get_reply(project_id, outcome),
{
    match outcome {
        Ok(Some(found)) => HttpReply { status: STATUS_OK, body: ReplyBody::Project(ProjectDto::from(found)) },
        Ok(None) => HttpReply {
            status: STATUS_NOT_FOUND,
            body: ReplyBody::Text(not_found_message(project_id, MissingProject::Lookup)),
        },
        Err(_) => HttpReply::internal_server_error(),
    }
}

/// The first decision of `PUT /projects/{project_id}`: once the project has
/// been looked up, either send the write that renames it or answer.
pub fn update_project_after_lookup<E>(
    project_id: i32,
    request: NewProjectDto,
    found: Result<Option<Project>, E>,
) -> (step: UpdateStep)
    ensures
        step@ == update_after_lookup(project_id, request, found),
{
    match found {
        Ok(Some(p)) => {
            let mut write = p.into_active_model();
            write.name = ColumnValue::Changed(request.name);
            write.description = ColumnValue::Changed(request.description);
            UpdateStep::Write(write)
        },
        Ok(None) => UpdateStep::Reply(
            HttpReply {
                status: STATUS_NOT_FOUND,
                body: ReplyBody::Text(not_found_message(project_id, MissingProject::Update)),
            },
        ),
        Err(_) => UpdateStep::Reply(HttpReply::internal_server_error()),
    }
}

/// The last decision of `PUT /projects/{project_id}`: answer from the
/// outcome of the write.
pub fn update_project_reply<E>(outcome: Result<Project, E>) -> (reply: HttpReply)
    ensures
        reply@ == update_reply(outcome),
{
    match outcome {
        Ok(updated) => HttpReply { status: STATUS_OK, body: ReplyBody::Project(ProjectDto::from(updated)) },
        Err(_) => HttpReply::internal_server_error(),
    }
}

/// Answers `DELETE /projects/{project_id}` from the number of rows that the
/// delete removed.
pub fn delete_project_reply<E>(project_id: i32, outcome: Result<u64, E>) -> (reply: HttpReply)
    ensures
        reply@ == delete_reply(project_id, outcome),
{
    match outcome {
        Ok(rows_affected) => if rows_affected == 1 {
            HttpReply { status: STATUS_NO_CONTENT, body: ReplyBody::Empty }
        } else {
            HttpReply {
                status: STATUS_NOT_FOUND,
                body: ReplyBody::Text(not_found_message(project_id, MissingProject::Delete)),
            }
        },
        Err(_) => HttpReply::internal_server_error(),
    }
}

} // verus!
