//! The answer of each endpoint, given what the database returned for the
//! request.

use vstd::prelude::*;

use crate::project::{detail_of, list_item_of, Project, ProjectForm};
use crate::reply::{page, plain, redirect, ContentKind, Reply, ReplyView, Status};
use crate::routes::{route_of, NEW, SUB_DOMAIN};
use crate::text::{
    contains, is_simple_tag, lemma_absent_first, lemma_absent_last, lemma_contains_left,
    lemma_contains_right, lemma_contains_self, lemma_occurrences_absent, lemma_occurrences_concat,
    lemma_occurrences_self, lemma_occurrences_short, lemma_seam_left, lemma_seam_no_start,
    lemma_seam_right, lemma_tag_absent, occurrences,
};

verus! {

/// The page with the form that creates a project.
pub open spec fn new_project_form_html() -> Seq<char> {
    " <form action=\""@ + SUB_DOMAIN@ + NEW@
        + "\" method=\"POST\" enctype=\"application/x-www-form-urlencoded\"><label for=\"project_name\">enter your project name</label><input type=text name=project_name></input></form>"@
}

/// The body that answers a request for a project that does not exist.
pub open spec fn unknown_project_text(id: Seq<char>) -> Seq<char> {
    "no projects matching \""@ + id + "\""@
}

/// The answer to a request for the project `id`, given what the database
/// found under that id.
pub open spec fn get_project_reply(id: Seq<char>, found: Option<Project>) -> ReplyView {
    match found {
        Some(p) => page(Status::Success, detail_of(p.project_name@)),
        None => page(Status::NotFound, unknown_project_text(id)),
    }
}

/// The answer to a submitted form, given the records that the database
/// created for it.
pub open spec fn post_project_reply(created: Seq<Project>) -> ReplyView {
    if created.len() > 0 {
        redirect(Status::Found, route_of(created[0].id.key@))
    } else {
        plain(Status::InternalServerError, "<p>No project was created</p>"@)
    }
}

/// The list items of the projects, one for each, in their order.
pub open spec fn list_items(ps: Seq<Project>) -> Seq<Seq<char>> {
    Seq::new(ps.len(), |i: int| list_item_of(ps[i].project_name@, ps[i].id.key@))
}

/// The lines joined by line breaks.
pub open spec fn join_lines(lines: Seq<Seq<char>>) -> Seq<char>
    decreases lines.len(),
{
    if lines.len() == 0 {
        Seq::empty()
    } else if lines.len() == 1 {
        lines[0]
    } else {
        join_lines(lines.drop_last()) + "\n"@ + lines.last()
    }
}

/// The page that lists the projects.
pub open spec fn list_page_html(ps: Seq<Project>) -> Seq<char> {
    "<ul>"@ + join_lines(list_items(ps)) + "</ul>"@
}

/// The answer to a form that names no project.
pub open spec fn missing_name_reply() -> ReplyView {
    plain(Status::BadRequest, "<p>a project needs a name</p>"@)
}

/// The answer to a path that no endpoint serves.
pub open spec fn fallback_reply() -> ReplyView {
    plain(Status::NotFound, "nothing to see here"@)
}

/// Answers `GET /projects/new` with the form that creates a project.
pub fn get_new_project_form() -> (r: Reply)
    ensures
        r@ == page(Status::Success, new_project_form_html()),
{
    let mut html = String::from_str(" <form action=\"");
    html.append(SUB_DOMAIN);
    html.append(NEW);
    html.append(
        "\" method=\"POST\" enctype=\"application/x-www-form-urlencoded\"><label for=\"project_name\">enter your project name</label><input type=text name=project_name></input></form>",
    );
    Reply { status: Status::Success, kind: ContentKind::Html, content: html }
}

/// Answers `GET /projects/{id}`, given what the database found under `id`:
/// the project's detail page, or 404 naming the id.
pub fn get_project(id: &str, found: Option<Project>) -> (r: Reply)
    ensures
        r@ == get_project_reply(id@, found),
{
    match found {
        Some(project) => Reply {
            status: Status::Success,
            kind: ContentKind::Html,
            content: project.as_detail(),
        },
        None => {
            let mut text = String::from_str("no projects matching \"");
            text.append(id);
            text.append("\"");
            Reply { status: Status::NotFound, kind: ContentKind::Html, content: text }
        },
    }
}

/// Checks a submitted form before anything is created: a project needs a
/// non-empty name, else the answer is 400.
pub fn validate_project_form(form: ProjectForm) -> (r: Result<ProjectForm, Reply>)
    ensures
        match r {
            Ok(f) => form.project_name@.len() > 0 && f.project_name@ == form.project_name@,
            Err(e) => form.project_name@.len() == 0 && e@ == missing_name_reply(),
        },
{
    if form.has_name() {
        Ok(form)
    } else {
        Err(
            Reply {
                status: Status::BadRequest,
                kind: ContentKind::Text,
                content: String::from_str("<p>a project needs a name</p>"),
            },
        )
    }
}

/// Answers `POST /projects/new`, given the records that the database
/// created: a redirect to the first one's page, or 500 where there is none.
pub fn post_project(created: Vec<Project>) -> (r: Reply)
    ensures
        r@ == post_project_reply(created@),
{
    if created.len() > 0 {
        let location = created[0].route_to();
        Reply { status: Status::Found, kind: ContentKind::Location, content: location }
    } else {
        Reply {
            status: Status::InternalServerError,
            kind: ContentKind::Text,
            content: String::from_str("<p>No project was created</p>"),
        }
    }
}

/// Answers `GET /projects/`, given all the projects that the database holds.
pub fn get_projects(projects: &Vec<Project>) -> (r: Reply)
    ensures
        r@ == page(Status::Success, list_page_html(projects@)),
{
    let n = projects.len();
    let mut inner = String::new();
    let mut i: usize = 0;
    while i < n
        invariant
            n == projects@.len(),
            i <= n,
            inner@ == join_lines(list_items(projects@.take(i as int))),
        decreases n - i,
    {
        let item = projects[i].as_list_item();
        proof {
            let before = list_items(projects@.take(i as int));
            let after = list_items(projects@.take(i + 1));
            assert(after =~= before.push(item@));
            assert(after.drop_last() =~= before);
        }
        if i > 0 {
            inner.append("\n");
        } else {
            assert(Seq::<char>::empty() + item@ =~= item@);
        }
        inner.append(item.as_str());
        i = i + 1;
    }
    assert(projects@.take(n as int) =~= projects@);
    let mut html = String::from_str("<ul>");
    html.append(inner.as_str());
    html.append("</ul>");
    Reply { status: Status::Success, kind: ContentKind::Html, content: html }
}

/// Answers a path that no endpoint serves.
pub fn handler_404() -> (r: Reply)
    ensures
        r@ == fallback_reply(),
{
    Reply {
        status: Status::NotFound,
        kind: ContentKind::Text,
        content: String::from_str("nothing to see here"),
    }
}

/// Answers `GET /` with a permanent redirect to the list of projects.
pub fn get_root() -> (r: Reply)
    ensures
        r@ == redirect(Status::PermanentRedirect, SUB_DOMAIN@),
{
    Reply {
        status: Status::PermanentRedirect,
        kind: ContentKind::Location,
        content: String::from_str(SUB_DOMAIN),
    }
}

/// Each line occurs in the lines joined.
proof fn lemma_join_contains(lines: Seq<Seq<char>>, i: int)
    requires
        0 <= i < lines.len(),
    ensures
        contains(join_lines(lines), lines[i]),
    decreases lines.len(),
{
    if lines.len() == 1 {
        lemma_contains_self(lines[i]);
    } else {
        let rest = lines.drop_last();
        if i < lines.len() - 1 {
            lemma_join_contains(rest, i);
            lemma_contains_left(join_lines(rest), "\n"@, lines[i]);
            lemma_contains_left(join_lines(rest) + "\n"@, lines.last(), lines[i]);
        } else {
            lemma_contains_self(lines[i]);
            lemma_contains_right(join_lines(rest) + "\n"@, lines.last(), lines[i]);
        }
    }
}

/// The list page has one item for each project, in the projects' order;
/// each item links to the project's path under the project's name, and
/// each occurs in the page.
pub proof fn lemma_list_page_shows_every_project(ps: Seq<Project>)
    ensures
        list_items(ps).len() == ps.len(),
        forall|i: int|
            0 <= i < ps.len() ==> {
                let item = #[trigger] list_items(ps)[i];
                &&& item == list_item_of(ps[i].project_name@, ps[i].id.key@)
                &&& contains(list_page_html(ps), item)
                &&& contains(item, ps[i].project_name@)
                &&& contains(item, route_of(ps[i].id.key@))
            },
{
    let items = list_items(ps);
    assert forall|i: int| 0 <= i < ps.len() implies {
        let item = #[trigger] list_items(ps)[i];
        &&& item == list_item_of(ps[i].project_name@, ps[i].id.key@)
        &&& contains(list_page_html(ps), item)
        &&& contains(item, ps[i].project_name@)
        &&& contains(item, route_of(ps[i].id.key@))
    } by {
        let item = items[i];
        let name = ps[i].project_name@;
        let route = route_of(ps[i].id.key@);
        lemma_join_contains(items, i);
        lemma_contains_right("<ul>"@, join_lines(items), item);
        lemma_contains_left("<ul>"@ + join_lines(items), "</ul>"@, item);
        let head = "<li>"@ + "<a href=\""@;
        lemma_contains_self(route);
        lemma_contains_right(head, route, route);
        lemma_contains_left(head + route, "\">"@, route);
        lemma_contains_left(head + route + "\">"@, name, route);
        lemma_contains_left(head + route + "\">"@ + name, "</a>"@, route);
        lemma_contains_left(head + route + "\">"@ + name + "</a>"@, "</li>"@, route);
        lemma_contains_self(name);
        lemma_contains_right(head + route + "\">"@, name, name);
        lemma_contains_left(head + route + "\">"@ + name, "</a>"@, name);
        lemma_contains_left(head + route + "\">"@ + name + "</a>"@, "</li>"@, name);
    }
}

/// A created project is reached by the redirect that answers its creation,
/// and its page, looked up by the raw id in that path, shows its name.
pub proof fn lemma_created_project_is_shown(created: Seq<Project>)
    requires
        created.len() > 0,
    ensures
        post_project_reply(created) == redirect(Status::Found, route_of(created[0].id.key@)),
        get_project_reply(created[0].id.key@, Some(created[0])) == page(
            Status::Success,
            detail_of(created[0].project_name@),
        ),
        contains(detail_of(created[0].project_name@), created[0].project_name@),
{
    let name = created[0].project_name@;
    lemma_contains_self(name);
    lemma_contains_right("<h1>"@, name, name);
    lemma_contains_left("<h1>"@ + name, "</h1>"@, name);
}

/// A request for an id that the database does not hold is answered with
/// 404, never 500, and the answer names the id.
pub proof fn lemma_unknown_id_is_not_found(id: Seq<char>)
    ensures
        get_project_reply(id, None).0 == Status::NotFound,
        get_project_reply(id, None).0 != Status::InternalServerError,
        contains(get_project_reply(id, None).2, id),
{
    lemma_contains_self(id);
    lemma_contains_right("no projects matching \""@, id, id);
    lemma_contains_left("no projects matching \""@ + id, "\""@, id);
}

/// A list item holds a simple tag as often as its opening and closing tags
/// do, where neither the name nor the raw id holds it.
proof fn lemma_item_occurrences(name: Seq<char>, key: Seq<char>, t: Seq<char>)
    requires
        is_simple_tag(t),
        !contains(name, t),
        !contains(key, t),
    ensures
        occurrences(list_item_of(name, key), t) == occurrences("<li>"@, t) + occurrences(
            "</li>"@,
            t,
        ),
        list_item_of(name, key).len() > 0,
        list_item_of(name, key).last() == '>',
{
    reveal_strlit("<li>");
    reveal_strlit("<a href=\"");
    reveal_strlit("/projects");
    reveal_strlit("/");
    reveal_strlit("\">");
    reveal_strlit("</a>");
    reveal_strlit("</li>");
    let l1 = "<li>"@;
    let l2 = "<a href=\""@;
    let l3 = SUB_DOMAIN@;
    let l4 = "/"@;
    let l5 = "\">"@;
    let l6 = "</a>"@;
    let l7 = "</li>"@;
    assert(l3 == "/projects"@);
    let p1 = l1 + l2;
    let p2 = p1 + l3;
    let p3 = p2 + l4;
    let p4 = p3 + key;
    let p5 = p4 + l5;
    let p6 = p5 + name;
    let p7 = p6 + l6;
    let p8 = p7 + l7;
    assert(list_item_of(name, key) =~= p8);
    lemma_seam_left(l1, l2, t);
    lemma_occurrences_concat(l1, l2, t);
    lemma_seam_left(p1, l3, t);
    lemma_occurrences_concat(p1, l3, t);
    lemma_seam_left(p2, l4, t);
    lemma_occurrences_concat(p2, l4, t);
    assert forall|i: int| 0 <= i < p3.len() && p3.len() - t.len() < i implies p3[i] != t[0] by {
        if i < p2.len() {
            assert(p3[i] == l3[i - p1.len()]);
        } else {
            assert(p3[i] == l4[0]);
        }
    }
    lemma_seam_no_start(p3, key, t);
    lemma_occurrences_concat(p3, key, t);
    lemma_seam_right(p4, l5, t);
    lemma_occurrences_concat(p4, l5, t);
    lemma_seam_left(p5, name, t);
    lemma_occurrences_concat(p5, name, t);
    lemma_seam_right(p6, l6, t);
    lemma_occurrences_concat(p6, l6, t);
    lemma_seam_right(p7, l7, t);
    lemma_occurrences_concat(p7, l7, t);
    lemma_absent_last(l2, t);
    lemma_absent_first(l3, t);
    lemma_absent_first(l4, t);
    lemma_absent_first(l5, t);
    lemma_occurrences_absent(key, t);
    lemma_occurrences_absent(name, t);
    if l6.len() == t.len() {
        assert(l6[2] != t[2]);
    }
    lemma_tag_absent(l6, t);
}

/// Lines that each hold a simple tag `c` times, and each end in `>`, hold
/// it `c` times each once joined.
proof fn lemma_join_occurrences(lines: Seq<Seq<char>>, t: Seq<char>, c: nat)
    requires
        is_simple_tag(t),
        forall|i: int|
            0 <= i < lines.len() ==> occurrences(#[trigger] lines[i], t) == c && lines[i].len()
                > 0 && lines[i].last() == '>',
    ensures
        occurrences(join_lines(lines), t) == lines.len() * c,
        lines.len() > 0 ==> join_lines(lines).len() > 0 && join_lines(lines).last() == '>',
    decreases lines.len(),
{
    if lines.len() == 1 {
        assert(occurrences(lines[0], t) == c);
    } else if lines.len() > 1 {
        reveal_strlit("\n");
        let rest = lines.drop_last();
        let joined = join_lines(rest);
        let last = lines.last();
        assert(occurrences(last, t) == c);
        lemma_join_occurrences(rest, t, c);
        lemma_seam_left(joined, "\n"@, t);
        lemma_occurrences_concat(joined, "\n"@, t);
        lemma_absent_first("\n"@, t);
        lemma_seam_left(joined + "\n"@, last, t);
        lemma_occurrences_concat(joined + "\n"@, last, t);
        assert(rest.len() * c + c == lines.len() * c) by (nonlinear_arith)
            requires
                lines.len() == rest.len() + 1,
        ;
    }
}

/// Where no project's name or raw id holds `<li>` or `</li>`, the list page
/// holds exactly one `<li>` and one `</li>` for each project.
pub proof fn lemma_list_page_item_count(ps: Seq<Project>)
    requires
        forall|i: int|
            0 <= i < ps.len() ==> {
                &&& !contains(#[trigger] ps[i].project_name@, "<li>"@)
                &&& !contains(ps[i].project_name@, "</li>"@)
                &&& !contains(ps[i].id.key@, "<li>"@)
                &&& !contains(ps[i].id.key@, "</li>"@)
            },
    ensures
        occurrences(list_page_html(ps), "<li>"@) == ps.len(),
        occurrences(list_page_html(ps), "</li>"@) == ps.len(),
{
    reveal_strlit("<li>");
    reveal_strlit("</li>");
    reveal_strlit("<ul>");
    reveal_strlit("</ul>");
    let open_tag = "<li>"@;
    let close_tag = "</li>"@;
    assert(is_simple_tag(open_tag));
    assert(is_simple_tag(close_tag));
    lemma_occurrences_self(open_tag);
    lemma_occurrences_self(close_tag);
    lemma_occurrences_short(open_tag, close_tag);
    assert(close_tag[1] != open_tag[1]);
    lemma_tag_absent(close_tag, open_tag);
    let items = list_items(ps);
    let page = list_page_html(ps);
    let joined = join_lines(items);
    let ul = "<ul>"@;
    let end_ul = "</ul>"@;
    assert forall|i: int| 0 <= i < items.len() implies occurrences(#[trigger] items[i], open_tag)
        == 1 && items[i].len() > 0 && items[i].last() == '>' by {
        lemma_item_occurrences(ps[i].project_name@, ps[i].id.key@, open_tag);
    }
    lemma_join_occurrences(items, open_tag, 1);
    assert forall|i: int| 0 <= i < items.len() implies occurrences(#[trigger] items[i], close_tag)
        == 1 && items[i].len() > 0 && items[i].last() == '>' by {
        lemma_item_occurrences(ps[i].project_name@, ps[i].id.key@, close_tag);
    }
    lemma_join_occurrences(items, close_tag, 1);
    assert(ul[1] != open_tag[1]);
    assert(end_ul[2] != close_tag[2]);
    lemma_tag_absent(ul, open_tag);
    lemma_occurrences_short(ul, close_tag);
    lemma_tag_absent(end_ul, open_tag);
    lemma_tag_absent(end_ul, close_tag);
    lemma_seam_left(ul, joined, open_tag);
    lemma_occurrences_concat(ul, joined, open_tag);
    lemma_seam_right(ul + joined, end_ul, open_tag);
    lemma_occurrences_concat(ul + joined, end_ul, open_tag);
    lemma_seam_left(ul, joined, close_tag);
    lemma_occurrences_concat(ul, joined, close_tag);
    lemma_seam_right(ul + joined, end_ul, close_tag);
    lemma_occurrences_concat(ul + joined, end_ul, close_tag);
}

} // verus!
