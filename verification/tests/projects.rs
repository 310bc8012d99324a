use openubl_projects::context::ProjectContext;
use openubl_projects::dto::{NewProjectDto, ProjectDto};
use openubl_projects::entity::{ColumnValue, Project, ProjectActiveModel};
use openubl_projects::pagination::{PageRequest, Paginated};

fn project(id: i32, name: &str, description: Option<&str>) -> Project {
    Project { id, name: name.to_string(), description: description.map(|s| s.to_string()) }
}

#[test]
fn into_active_model_keeps_every_column() {
    let p = project(7, "Initial Name", Some("Initial Desc"));
    let model = p.into_active_model();
    assert_eq!(model.id, ColumnValue::Unchanged(7));
    assert_eq!(model.name, ColumnValue::Unchanged("Initial Name".to_string()));
    assert_eq!(model.description, ColumnValue::Unchanged(Some("Initial Desc".to_string())));
}

#[test]
fn project_clone_is_equal() {
    let p = project(3, "Project B", Some("Desc B"));
    assert_eq!(p.clone(), p);
    let q = project(4, "Project C", None);
    assert_eq!(q.clone(), q);
}

#[test]
fn dto_carries_the_row() {
    let dto = ProjectDto::from(project(12, "Specific Project", Some("Specific Desc")));
    assert_eq!(dto.id, 12);
    assert_eq!(dto.name, "Specific Project");
    assert_eq!(dto.description, Some("Specific Desc".to_string()));
    let p = project(13, "Project Beta", None);
    let dto2 = ProjectDto::of_project(&p);
    assert_eq!(dto2, ProjectDto { id: 13, name: "Project Beta".to_string(), description: None });
}

#[test]
fn new_project_dto_becomes_an_insert() {
    let dto = NewProjectDto { name: "Test API Project".to_string(), description: Some("API Test Description".to_string()) };
    let model = ProjectActiveModel::from(dto);
    assert_eq!(model.id, ColumnValue::NotSet);
    assert_eq!(model.name, ColumnValue::Changed("Test API Project".to_string()));
    assert_eq!(model.description, ColumnValue::Changed(Some("API Test Description".to_string())));
}

#[test]
fn update_request_sets_requested_columns() {
    let ctx = ProjectContext::new((), project(5, "Initial Name", Some("Initial Desc")));
    let requested = ProjectActiveModel {
        id: ColumnValue::NotSet,
        name: ColumnValue::Changed("Updated Name".to_string()),
        description: ColumnValue::Changed(Some("Updated Desc".to_string())),
    };
    let write = ctx.update_request(&requested);
    assert_eq!(write.id, ColumnValue::Unchanged(5));
    assert_eq!(write.name, ColumnValue::Changed("Updated Name".to_string()));
    assert_eq!(write.description, ColumnValue::Changed(Some("Updated Desc".to_string())));
}

#[test]
fn update_request_keeps_unrequested_columns() {
    let ctx = ProjectContext::new((), project(5, "Initial Name", Some("Initial Desc")));
    let requested = ProjectActiveModel {
        id: ColumnValue::Changed(99),
        name: ColumnValue::Unchanged("Ignored".to_string()),
        description: ColumnValue::Changed(None),
    };
    let write = ctx.update_request(&requested);
    assert_eq!(write.id, ColumnValue::Unchanged(5));
    assert_eq!(write.name, ColumnValue::Unchanged("Initial Name".to_string()));
    assert_eq!(write.description, ColumnValue::Changed(None));
}

#[test]
fn update_request_without_changes_is_unchanged_model() {
    let p = project(8, "Original Name", None);
    let ctx = ProjectContext::new((), p.clone());
    let requested = ProjectActiveModel { id: ColumnValue::NotSet, name: ColumnValue::NotSet, description: ColumnValue::NotSet };
    assert_eq!(ctx.update_request(&requested), p.into_active_model());
}

#[test]
fn update_write_sent_again_is_the_same() {
    let ctx = ProjectContext::new((), project(9, "A", Some("a")));
    let requested = ProjectActiveModel {
        id: ColumnValue::NotSet,
        name: ColumnValue::Changed("B".to_string()),
        description: ColumnValue::NotSet,
    };
    let first = ctx.update_request(&requested);
    let second = ctx.update_request(&first);
    assert_eq!(first, second);
}

#[test]
fn finish_update_replaces_the_row_on_success() {
    let mut ctx = ProjectContext::new("system", project(5, "Initial Name", Some("Initial Desc")));
    let outcome: Result<Project, String> = Ok(project(5, "Updated Name", Some("Updated Desc")));
    assert_eq!(ctx.finish_update(outcome), Ok(()));
    assert_eq!(ctx.project.name, "Updated Name");
    assert_eq!(ctx.project.description, Some("Updated Desc".to_string()));
    assert_eq!(ctx.system, "system");
}

#[test]
fn finish_update_keeps_the_row_on_failure() {
    let mut ctx = ProjectContext::new("system", project(5, "Initial Name", Some("Initial Desc")));
    let outcome: Result<Project, String> = Err("connection lost".to_string());
    assert_eq!(ctx.finish_update(outcome), Err("connection lost".to_string()));
    assert_eq!(ctx.project, project(5, "Initial Name", Some("Initial Desc")));
}

#[test]
fn from_system_holds_a_clone_of_the_system() {
    let system = "db handle".to_string();
    let ctx = ProjectContext::from_system(&system, project(2, "To Be Deleted", None));
    assert_eq!(ctx.system, system);
    assert_eq!(ctx.project, project(2, "To Be Deleted", None));
}

#[test]
fn from_lookup_wraps_found_rows() {
    let system = 42u8;
    let found = ProjectContext::from_lookup(&system, Some(project(1, "Test Project 1", Some("Description 1"))));
    let ctx = found.unwrap();
    assert_eq!(ctx.project.id, 1);
    assert_eq!(ctx.project.name, "Test Project 1");
    assert_eq!(ctx.system, 42);
    assert!(ProjectContext::from_lookup(&system, None).is_none());
}

#[test]
fn page_of_contexts_keeps_order_and_total() {
    let rows = vec![project(1, "Project A", None), project(2, "Project B", Some("Desc B"))];
    let page = ProjectContext::page_of_contexts(&"sys".to_string(), rows, 3);
    assert_eq!(page.num_items, 3);
    assert_eq!(page.items.len(), 2);
    assert_eq!(page.items[0].project.name, "Project A");
    assert_eq!(page.items[1].project.name, "Project B");
    assert_eq!(page.items[0].system, "sys");
    assert_eq!(page.items[1].system, "sys");
    let empty = ProjectContext::page_of_contexts(&(), Vec::new(), 0);
    assert_eq!(empty.items.len(), 0);
    assert_eq!(empty.num_items, 0);
}

#[test]
fn page_index_of_listing_requests() {
    assert_eq!(Paginated { offset: 0, limit: 2 }.page_index(), 0);
    assert_eq!(Paginated { offset: 2, limit: 2 }.page_index(), 1);
    assert_eq!(Paginated { offset: 3, limit: 2 }.page_index(), 1);
    assert_eq!(Paginated { offset: 0, limit: 5 }.page_index(), 0);
    assert_eq!(Paginated { offset: 7, limit: 0 }.page_index(), 0);
    assert_eq!(Paginated { offset: 10, limit: 3 }.page_index(), 3);
    let p = Paginated { offset: 11, limit: 4 };
    assert_eq!(p.offset(), 11);
    assert_eq!(p.limit(), 4);
}

#[test]
fn page_request_holds_the_offset() {
    assert_eq!(Paginated { offset: 2, limit: 2 }.page_request(), PageRequest { page_size: 2, page: 1 });
    assert_eq!(Paginated { offset: 0, limit: 5 }.page_request(), PageRequest { page_size: 5, page: 0 });
    let r = Paginated { offset: 17, limit: 5 }.page_request();
    assert_eq!(r, PageRequest { page_size: 5, page: 3 });
    assert!(r.page * r.page_size <= 17 && 17 < (r.page + 1) * r.page_size);
}

#[test]
fn each_row_is_on_one_page() {
    let limit = 3u64;
    for row in 0u64..20 {
        let page = Paginated { offset: row, limit }.page_request();
        let covering: Vec<u64> = (0u64..10).filter(|k| k * limit <= row && row < k * limit + limit).collect();
        assert_eq!(covering, vec![page.page]);
    }
}
