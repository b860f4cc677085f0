//! The project entity, the form that creates one, and the views derived
//! from a project.

use vstd::prelude::*;

use crate::routes::{route_for_key, route_of};

verus! {

/// The database table that holds the projects.
pub const TABLE: &'static str = "projects";

/// The identifier that the database assigns to a record: the table that
/// holds it and the record's own key, in its raw textual form.
#[derive(Clone, Debug)]
pub struct RecordId {
    pub table: String,
    pub key: String,
}

/// A point in time as the database stores it: whole seconds since the Unix
/// epoch and the nanoseconds past that second.
#[derive(Clone, Copy, Debug, PartialEq, Eq, Structural)]
pub struct Timestamp {
    pub seconds: i64,
    pub nanos: u32,
}

/// A project as read back from the database.
#[derive(Clone, Debug)]
pub struct Project {
    pub project_name: String,
    pub created_at: Timestamp,
    pub id: RecordId,
}

/// What a visitor submits to create a project.
#[derive(Clone, Debug)]
pub struct ProjectForm {
    pub project_name: String,
}

/// `<li><a href="{route}">{name}</a></li>`: a project as an item of the list page.
pub open spec fn list_item_of(name: Seq<char>, key: Seq<char>) -> Seq<char> {
    "<li>"@ + "<a href=\""@ + route_of(key) + "\">"@ + name + "</a>"@ + "</li>"@
}

/// `<h1>{name}</h1>`: a project's detail page.
pub open spec fn detail_of(name: Seq<char>) -> Seq<char> {
    "<h1>"@ + name + "</h1>"@
}

impl ProjectForm {
    pub fn new(project_name: String) -> (r: ProjectForm)
        ensures
            r.project_name@ == project_name@,
    {
        ProjectForm { project_name }
    }

    /// Whether the form names a project at all.
    pub fn has_name(&self) -> (r: bool)
        ensures
            r == (self.project_name@.len() > 0),
    {
        self.project_name.as_str().unicode_len() > 0
    }
}

impl Project {
    /// The record's key in its raw form, as it stands in the project's path.
    pub fn raw_id(&self) -> (r: String)
        ensures
            r@ == self.id.key@,
    {
        String::from_str(self.id.key.as_str())
    }

    /// The path of this project's page; it depends on the id alone.
    pub fn route_to(&self) -> (r: String)
        ensures
            r@ == route_of(self.id.key@),
    {
        route_for_key(self.id.key.as_str())
    }

    /// This project as an item of the list page.
    pub fn as_list_item(&self) -> (r: String)
        ensures
            r@ == list_item_of(self.project_name@, self.id.key@),
    {
        let mut r = String::from_str("<li>");
        r.append("<a href=\"");
        let route = self.route_to();
        r.append(route.as_str());
        r.append("\">");
        r.append(self.project_name.as_str());
        r.append("</a>");
        r.append("</li>");
        r
    }

    /// This project's detail page.
    pub fn as_detail(&self) -> (r: String)
        ensures
            r@ == detail_of(self.project_name@),
    {
        let mut r = String::from_str("<h1>");
        r.append(self.project_name.as_str());
        r.append("</h1>");
        r
    }
}

} // verus!
