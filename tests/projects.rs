use collabobot::error::AppError;
use collabobot::handlers::{
    get_new_project_form, get_project, get_projects, get_root, handler_404, post_project,
    validate_project_form,
};
use collabobot::project::{Project, ProjectForm, RecordId, Timestamp};
use collabobot::reply::{ContentKind, Status};
use collabobot::routes::{route_for_key, SUB_DOMAIN};

fn project(name: &str, key: &str) -> Project {
    Project {
        project_name: name.to_string(),
        created_at: Timestamp { seconds: 1_700_000_000, nanos: 5 },
        id: RecordId { table: "projects".to_string(), key: key.to_string() },
    }
}

#[test]
fn route_is_projects_root_and_raw_id() {
    let p = project("Alpha", "k1x9");
    assert_eq!(p.raw_id(), "k1x9");
    assert_eq!(p.route_to(), "/projects/k1x9");
    assert_eq!(route_for_key("abc"), "/projects/abc");
    assert_eq!(SUB_DOMAIN, "/projects");
}

#[test]
fn equal_ids_give_equal_routes() {
    let a = project("Alpha", "same");
    let b = project("Beta", "same");
    let c = project("Alpha", "other");
    assert_eq!(a.route_to(), b.route_to());
    assert_ne!(a.route_to(), c.route_to());
}

#[test]
fn list_item_links_to_the_project() {
    let p = project("Alpha", "a1");
    assert_eq!(p.as_list_item(), "<li><a href=\"/projects/a1\">Alpha</a></li>");
    assert_eq!(p.as_detail(), "<h1>Alpha</h1>");
}

#[test]
fn list_page_has_one_item_per_project() {
    let ps = vec![project("Alpha", "a"), project("Beta", "b"), project("Gamma", "c")];
    let r = get_projects(&ps);
    assert_eq!(r.status, Status::Success);
    assert_eq!(r.kind, ContentKind::Html);
    assert_eq!(
        r.content,
        "<ul><li><a href=\"/projects/a\">Alpha</a></li>\n<li><a href=\"/projects/b\">Beta</a></li>\n<li><a href=\"/projects/c\">Gamma</a></li></ul>"
    );
    assert_eq!(r.content.matches("<li>").count(), 3);
    assert_eq!(r.content.matches("</li>").count(), 3);
    for p in &ps {
        assert!(r.content.contains(&p.as_list_item()));
    }
}

#[test]
fn list_page_of_no_projects_is_empty() {
    let r = get_projects(&Vec::new());
    assert_eq!(r.status, Status::Success);
    assert_eq!(r.content, "<ul></ul>");
}

#[test]
fn list_page_of_one_project() {
    let r = get_projects(&vec![project("Solo", "s")]);
    assert_eq!(r.content, "<ul><li><a href=\"/projects/s\">Solo</a></li></ul>");
}

#[test]
fn create_alpha_redirects_to_its_page_which_shows_it() {
    let form = validate_project_form(ProjectForm::new("Alpha".to_string())).unwrap();
    assert_eq!(form.project_name, "Alpha");
    let created = project(&form.project_name, "gen42");
    let r = post_project(vec![created.clone()]);
    assert_eq!(r.status, Status::Found);
    assert_eq!(r.status.code(), 302);
    assert_eq!(r.kind, ContentKind::Location);
    assert_eq!(r.content, "/projects/gen42");
    let id = r.content.strip_prefix("/projects/").unwrap();
    let shown = get_project(id, Some(created));
    assert_eq!(shown.status.code(), 200);
    assert_eq!(shown.kind, ContentKind::Html);
    assert!(shown.content.contains("<h1>Alpha</h1>"));
}

#[test]
fn create_redirects_to_the_first_record() {
    let r = post_project(vec![project("One", "first"), project("Two", "second")]);
    assert_eq!(r.content, "/projects/first");
}

#[test]
fn create_with_no_record_is_a_server_error() {
    let r = post_project(Vec::new());
    assert_eq!(r.status, Status::InternalServerError);
    assert_eq!(r.status.code(), 500);
    assert_eq!(r.kind, ContentKind::Text);
    assert_eq!(r.content, "<p>No project was created</p>");
}

#[test]
fn empty_project_name_is_rejected() {
    let r = validate_project_form(ProjectForm::new(String::new()));
    let e = r.unwrap_err();
    assert_eq!(e.status, Status::BadRequest);
    assert_eq!(e.status.code(), 400);
    assert_eq!(e.content, "<p>a project needs a name</p>");
    assert!(!ProjectForm::new(String::new()).has_name());
    assert!(ProjectForm::new(" ".to_string()).has_name());
}

#[test]
fn unknown_id_is_not_found() {
    let r = get_project("does-not-exist", None);
    assert_eq!(r.status, Status::NotFound);
    assert_eq!(r.status.code(), 404);
    assert_eq!(r.content, "no projects matching \"does-not-exist\"");
    assert!(r.content.contains("\"does-not-exist\""));
}

#[test]
fn new_project_form_posts_to_new() {
    let r = get_new_project_form();
    assert_eq!(r.status, Status::Success);
    assert_eq!(r.kind, ContentKind::Html);
    assert_eq!(
        r.content,
        " <form action=\"/projects/new\" method=\"POST\" enctype=\"application/x-www-form-urlencoded\"><label for=\"project_name\">enter your project name</label><input type=text name=project_name></input></form>"
    );
}

#[test]
fn unmatched_path_is_not_found() {
    let r = handler_404();
    assert_eq!(r.status.code(), 404);
    assert_eq!(r.content, "nothing to see here");
}

#[test]
fn root_redirects_permanently_to_projects() {
    let r = get_root();
    assert_eq!(r.status, Status::PermanentRedirect);
    assert_eq!(r.status.code(), 308);
    assert_eq!(r.kind, ContentKind::Location);
    assert_eq!(r.content, "/projects");
}

#[test]
fn failed_request_is_a_server_error_with_a_generic_text() {
    let r = AppError::new("connection reset".to_string()).into_response();
    assert_eq!(r.status.code(), 500);
    assert_eq!(r.kind, ContentKind::Text);
    assert_eq!(r.content, "<h1>Whoops!</h1> <p>Something went wrong</p>");
    let other = AppError::new("table not found".to_string()).into_response();
    assert_eq!(other.status, r.status);
    assert_eq!(other.content, r.content);
}

#[test]
fn status_codes() {
    let all = [
        (Status::Success, 200),
        (Status::Found, 302),
        (Status::PermanentRedirect, 308),
        (Status::BadRequest, 400),
        (Status::NotFound, 404),
        (Status::InternalServerError, 500),
    ];
    for (s, c) in all {
        assert_eq!(s.code(), c);
    }
}
