//! The project gallery: browsing previously created projects.
//!
//! The gallery reads every stored project and offers them in a clamped list
//! selector. A registry with zero records is a precondition failure, reported
//! before any selector is built.

use vstd::prelude::*;

use crate::languages::language_from_name_spec;
use crate::project::Project;
use crate::registry::{db_rows, get_all_projects, StorageError};
use crate::selector::{ListSelector, WrapPolicy};

verus! {

/// Why the gallery could not be shown: there was nothing to browse, or the
/// registry itself failed.
#[derive(Debug, Clone, Copy, PartialEq, Eq, Structural)]
pub enum GalleryError {
    EmptyCollection,
    Storage(StorageError),
}

/// The label under which a project is listed: its name and its path.
pub fn gallery_line(p: &Project) -> (r: String)
    ensures
        r@ == p.name@ + " - "@ + p.path@,
{
    let mut s = p.name.clone();
    s.append(" - ");
    s.append(p.path.as_str());
    s
}

/// Builds the gallery over projects already read from the registry. An empty
/// list is the precondition failure, and only that: a non-empty list always
/// yields the clamped selector over the name-and-path labels, its cursor on
/// the first project.
pub fn gallery_from_projects(projects: Vec<Project>) -> (r: Result<
    (Vec<Project>, ListSelector),
    GalleryError,
>)
    ensures
        (projects@.len() == 0 <==> r == Err::<(Vec<Project>, ListSelector), GalleryError>(
            GalleryError::EmptyCollection,
        )),
        (r matches Err(e) ==> e == GalleryError::EmptyCollection),
        (r matches Ok(pair) ==> {
            &&& pair.0 == projects
            &&& pair.1.wf()
            &&& pair.1.items@.len() == projects@.len()
            &&& (forall|i: int|
                0 <= i < projects@.len() ==> pair.1.items@[i]@ == projects@[i].name@ + " - "@
                    + projects@[i].path@)
            &&& pair.1.cursor == 0
            &&& pair.1.policy == WrapPolicy::Clamped
        }),
{
    if projects.len() == 0 {
        return Err(GalleryError::EmptyCollection);
    }
    let mut items: Vec<String> = Vec::new();
    let mut i: usize = 0;
    while i < projects.len()
        invariant
            0 <= i <= projects@.len(),
            items@.len() == i,
            forall|j: int|
                0 <= j < i ==> items@[j]@ == projects@[j].name@ + " - "@ + projects@[j].path@,
        decreases projects@.len() - i,
    {
        items.push(gallery_line(&projects[i]));
        i = i + 1;
    }
    let selector = ListSelector::new(items, WrapPolicy::Clamped);
    Ok((projects, selector))
}

/// Prepares the gallery over the registry behind `conn`: reads every stored
/// project and hands the list to `gallery_from_projects`, whose contract
/// forces the result, so a storage fault can only come from the read itself.
/// An empty registry yields `EmptyCollection`, and no selector is ever built
/// for it.
pub fn open_gallery(conn: &rusqlite::Connection) -> (r: Result<
    (Vec<Project>, ListSelector),
    GalleryError,
>)
    ensures
        (r matches Ok(pair) ==> {
            &&& db_rows(*conn).len() > 0
            &&& pair.0@.len() == db_rows(*conn).len()
            &&& (forall|i: int|
                0 <= i < pair.0@.len() ==> pair.0@[i].record_model() == db_rows(*conn)[i])
            &&& pair.1.wf()
            &&& pair.1.items@.len() == pair.0@.len()
            &&& (forall|i: int|
                0 <= i < pair.0@.len() ==> pair.1.items@[i]@ == pair.0@[i].name@ + " - "@
                    + pair.0@[i].path@)
            &&& pair.1.cursor == 0
            &&& pair.1.policy == WrapPolicy::Clamped
        }),
        (r == Err::<(Vec<Project>, ListSelector), GalleryError>(GalleryError::EmptyCollection)
            ==> db_rows(*conn).len() == 0),
        r == Err::<(Vec<Project>, ListSelector), GalleryError>(
            GalleryError::Storage(StorageError::UnknownLanguage),
        ) ==> exists|i: int|
            0 <= i < db_rows(*conn).len() && language_from_name_spec(
                db_rows(*conn)[i].language,
            ) is None,
{
    let projects = match get_all_projects(conn) {
        Ok(v) => v,
        Err(e) => return Err(GalleryError::Storage(e)),
    };
    gallery_from_projects(projects)
}

} // verus!
