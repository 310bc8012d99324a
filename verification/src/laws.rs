//! Properties of the library's functions, stated over all inputs: what each
//! answer and each write must hold, and how several functions relate.
use vstd::prelude::*;
use crate::context::update_model_of;
use crate::dto::{insert_model_of, NewProjectDto};
use crate::dto::ProjectDto;
use crate::entity::{ColumnValue, Project, ProjectActiveModel};
use crate::handlers::{
    create_reply, delete_reply, get_reply, list_reply, rename_model, update_after_lookup,
    update_reply, UpdateStepView,
};
use crate::reply::{internal_error, BodyView};
use crate::text::{decimal, lemma_decimal_injective, missing_suffix, not_found_text, MissingProject};

verus! {

/// Whatever an endpoint asked of the database, a failed database call is
/// answered with status 500 and no body.
pub proof fn lemma_store_failure_is_internal_error<E>(project_id: i32, request: NewProjectDto, error: E)
    ensures
        list_reply(Err::<Seq<Project>, E>(error)) == internal_error(),
        create_reply(Err::<Project, E>(error)) == internal_error(),
        get_reply(project_id, Err::<Option<Project>, E>(error)) == internal_error(),
        update_after_lookup(project_id, request, Err::<Option<Project>, E>(error))
            == UpdateStepView::Reply(internal_error()),
        update_reply(Err::<Project, E>(error)) == internal_error(),
        delete_reply(project_id, Err::<u64, E>(error)) == internal_error(),
        internal_error() == (crate::reply::ReplyView { status: 500, body: BodyView::Empty }),
{
}

/// The text that answers a request for a missing project names the
/// project: two such texts of the same request are equal only for the same
/// id.
pub proof fn lemma_not_found_text_names_project(a: i32, b: i32, kind: MissingProject)
    ensures
        not_found_text(a, kind) == not_found_text(b, kind) ==> a == b,
{
    if not_found_text(a, kind) == not_found_text(b, kind) {
        let prefix = "Project with ID "@;
        let suffix = missing_suffix(kind);
        let ta = not_found_text(a, kind);
        let start = prefix.len() as int;
        assert(ta.subrange(start, ta.len() - suffix.len()) =~= decimal(a as int));
        let tb = not_found_text(b, kind);
        assert(tb.subrange(start, tb.len() - suffix.len()) =~= decimal(b as int));
        lemma_decimal_injective(a as int, b as int);
    }
}

/// Updating a project through its context with the write that a creation
/// request would insert sends the same write as the endpoint that renames
/// the project with that request.
pub proof fn lemma_rename_is_context_update(found: Project, request: NewProjectDto)
    ensures
        update_model_of(found, insert_model_of(request)) == rename_model(found, request),
{
}

/// The write that an update sends, sent again as the request of an update
/// of the same row, gives itself back.
pub proof fn lemma_update_write_is_stable(project: Project, requested: ProjectActiveModel)
    ensures
        update_model_of(project, update_model_of(project, requested)) == update_model_of(project, requested),
{
}

/// An update whose request changes neither the name nor the description
/// sends a write that keeps every column of the row.
pub proof fn lemma_update_without_changes_keeps_row(project: Project, requested: ProjectActiveModel)
    requires
        !(requested.name is Changed),
        !(requested.description is Changed),
    ensures
        update_model_of(project, requested) == project.unchanged_model(),
{
}

/// An update through a context writes each column as follows: the id is
/// kept as the row holds it whatever the request says; a column that the
/// request sets gets the requested value; a column that the request does not
/// set is kept with the value the row holds, whatever the other column of
/// the request is.
pub proof fn lemma_update_changes_only_requested_columns(project: Project, requested: ProjectActiveModel)
    ensures
        update_model_of(project, requested).id == ColumnValue::Unchanged(project.id),
        requested.name matches ColumnValue::Changed(n) ==> update_model_of(project, requested).name
            == ColumnValue::Changed(n),
        !(requested.name is Changed) ==> update_model_of(project, requested).name == ColumnValue::Unchanged(
            project.name,
        ),
        requested.description matches ColumnValue::Changed(d) ==> update_model_of(project, requested).description
            == ColumnValue::Changed(d),
        !(requested.description is Changed) ==> update_model_of(project, requested).description
            == ColumnValue::Unchanged(project.description),
{
}

/// A creation request becomes an insert that leaves the id to the database
/// and sets the name and the description to the requested ones, an absent
/// description included.
pub proof fn lemma_insert_sets_name_and_description(request: NewProjectDto)
    ensures
        insert_model_of(request).id == ColumnValue::<i32>::NotSet,
        insert_model_of(request).name == ColumnValue::Changed(request.name),
        insert_model_of(request).description == ColumnValue::Changed(request.description),
{
}

/// `PUT /projects/{id}` on a stored project writes the requested name and
/// the requested description (an absent one included) over the row and keeps
/// its id; only a project that the lookup did not find is answered 404, and
/// only a failed lookup 500.
pub proof fn lemma_update_endpoint_writes_the_request<E>(
    project_id: i32,
    request: NewProjectDto,
    found: Result<Option<Project>, E>,
)
    ensures
        found matches Ok(Some(p)) ==> update_after_lookup(project_id, request, found) == UpdateStepView::Write(
            ProjectActiveModel {
                id: ColumnValue::Unchanged(p.id),
                name: ColumnValue::Changed(request.name),
                description: ColumnValue::Changed(request.description),
            },
        ),
        update_after_lookup(project_id, request, found) matches UpdateStepView::Reply(r) ==> (r.status == 404
            <==> found == Ok::<Option<Project>, E>(None)),
        update_after_lookup(project_id, request, found) matches UpdateStepView::Reply(r) ==> (r.status == 500
            <==> found is Err),
        found matches Ok(Some(p)) ==> (update_after_lookup(project_id, request, found) is Write),
        found == Ok::<Option<Project>, E>(None) ==> update_after_lookup(project_id, request, found)
            == UpdateStepView::Reply(
            crate::reply::ReplyView {
                status: 404,
                body: BodyView::Text("Project with ID "@ + decimal(project_id as int) + " not found to update"@),
            },
        ),
{
}

/// `GET /projects/{id}` answers 200 with every column of the stored row
/// whenever the lookup found one, whatever the row holds; 404 exactly when
/// the lookup found nothing, 500 exactly when it failed.
pub proof fn lemma_get_answers_the_stored_row<E>(project_id: i32, outcome: Result<Option<Project>, E>)
    ensures
        outcome matches Ok(Some(p)) ==> get_reply(project_id, outcome).status == 200 && get_reply(
            project_id,
            outcome,
        ).body == BodyView::Project(ProjectDto { id: p.id, name: p.name, description: p.description }),
        get_reply(project_id, outcome).status == 404 <==> outcome == Ok::<Option<Project>, E>(None),
        outcome == Ok::<Option<Project>, E>(None) ==> get_reply(project_id, outcome).body == BodyView::Text(
            "Project with ID "@ + decimal(project_id as int) + " not found"@,
        ),
        get_reply(project_id, outcome).status == 500 <==> outcome is Err,
{
}

/// `POST /projects` answers 201 with every column of the inserted row
/// whenever the insert succeeded, and 500 exactly when it failed.
pub proof fn lemma_create_answers_the_inserted_row<E>(outcome: Result<Project, E>)
    ensures
        outcome matches Ok(p) ==> create_reply(outcome).status == 201 && create_reply(outcome).body
            == BodyView::Project(ProjectDto { id: p.id, name: p.name, description: p.description }),
        create_reply(outcome).status == 500 <==> outcome is Err,
{
}

/// The answer to a successful update carries every column of the row that
/// the database returned; 500 exactly when the write failed.
pub proof fn lemma_update_answers_the_written_row<E>(outcome: Result<Project, E>)
    ensures
        outcome matches Ok(p) ==> update_reply(outcome).status == 200 && update_reply(outcome).body
            == BodyView::Project(ProjectDto { id: p.id, name: p.name, description: p.description }),
        update_reply(outcome).status == 500 <==> outcome is Err,
{
}

/// `GET /projects` answers 200 with one entry per listed row, in the order
/// of the rows, each entry holding every column of its row; 500 exactly when
/// the listing failed.
pub proof fn lemma_list_answers_every_row<E>(outcome: Result<Seq<Project>, E>)
    ensures
        outcome matches Ok(rows) ==> {
            &&& list_reply(outcome).status == 200
            &&& list_reply(outcome).body matches BodyView::Projects(entries)
            &&& entries.len() == rows.len()
            &&& forall|i: int|
                0 <= i < rows.len() ==> #[trigger] entries[i] == ProjectDto {
                    id: rows[i].id,
                    name: rows[i].name,
                    description: rows[i].description,
                }
        },
        list_reply(outcome).status == 500 <==> outcome is Err,
{
}

/// `DELETE /projects/{id}` answers 204 with no body exactly when one row was
/// removed, 404 exactly when the delete succeeded but removed some other
/// number of rows, and 500 exactly when it failed.
pub proof fn lemma_delete_answers_by_rows_removed<E>(project_id: i32, outcome: Result<u64, E>)
    ensures
        delete_reply(project_id, outcome).status == 204 <==> outcome == Ok::<u64, E>(1),
        delete_reply(project_id, outcome).status == 204 ==> delete_reply(project_id, outcome).body == BodyView::Empty,
        delete_reply(project_id, outcome).status == 404 <==> (outcome matches Ok(n) && n != 1),
        delete_reply(project_id, outcome).status == 404 ==> delete_reply(project_id, outcome).body
            == BodyView::Text("Project with ID "@ + decimal(project_id as int) + " not found to delete"@),
        delete_reply(project_id, outcome).status == 500 <==> outcome is Err,
{
}

/// The write of an untouched row keeps every column as the row holds it.
pub proof fn lemma_into_active_model_keeps_every_column(project: Project)
    ensures
        project.unchanged_model() == (ProjectActiveModel {
            id: ColumnValue::Unchanged(project.id),
            name: ColumnValue::Unchanged(project.name),
            description: ColumnValue::Unchanged(project.description),
        }),
{
}

} // verus!
