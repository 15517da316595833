//! The registry store: one persistent table of project records, kept in a
//! SQLite database behind trusted wrappers. The table's contents are modelled
//! as the sequence of rows a read returns; row order is never relied on, so
//! mutations are specified up to multiset equality.

use vstd::prelude::*;
use vstd::seq_lib::group_to_multiset_ensures;

use crate::languages::{
    language_from_name_spec, lemma_language_name_injective, lemma_language_name_round_trip,
    ProgrammingLanguage,
};
use crate::project::{Project, ProjectRecord, RecordModel};

verus! {

/// A failure of the backing store: the medium itself was unavailable, or a
/// language name in a record does not match the closed enumeration.
#[derive(Debug, Clone, Copy, PartialEq, Eq, Structural)]
pub enum StorageError {
    Unavailable,
    UnknownLanguage,
}

#[verifier::external_type_specification]
#[verifier::external_body]
pub struct ExConnection(rusqlite::Connection);

/// The rows of the projects table behind a connection, in the stable order a
/// read returns them; empty while the table does not exist yet. The store
/// assumes a single interactive process that drives one connection at a
/// time, so the table's contents are a function of the connection. Two
/// connections opened on the same file would share one table behind distinct
/// values and are outside this model: no caller here holds more than one.
pub uninterp spec fn db_rows(conn: rusqlite::Connection) -> Seq<RecordModel>;

/// Opens (creating the file if absent) the database at `path`.
///
/// Relies on rusqlite's `Connection::open`, whose every failure is an `Err`;
/// nothing is assumed about the contents already stored at that path.
#[verifier::external_body]
fn db_open(path: &str) -> (r: Result<rusqlite::Connection, StorageError>)
    ensures
        (r matches Err(e) ==> e == StorageError::Unavailable),
{
    match rusqlite::Connection::open(path) {
        Ok(c) => Ok(c),
        Err(_) => Err(StorageError::Unavailable),
    }
}

/// Opens a fresh database backed by memory alone.
///
/// Relies on rusqlite's `Connection::open_in_memory`: a new in-memory
/// database holds no tables, hence no project rows.
#[verifier::external_body]
fn db_open_in_memory() -> (r: Result<rusqlite::Connection, StorageError>)
    ensures
        (r matches Ok(c) ==> db_rows(c) == Seq::<RecordModel>::empty()),
        (r matches Err(e) ==> e == StorageError::Unavailable),
{
    match rusqlite::Connection::open_in_memory() {
        Ok(c) => Ok(c),
        Err(_) => Err(StorageError::Unavailable),
    }
}

/// Creates the projects table if it is not there yet.
///
/// Relies on rusqlite's `Connection::execute` running `CREATE TABLE IF NOT
/// EXISTS`, which never touches existing rows.
#[verifier::external_body]
fn db_create_schema(conn: &mut rusqlite::Connection) -> (r: Result<(), StorageError>)
    ensures
        db_rows(*final(conn)) == db_rows(*old(conn)),
        (r matches Err(e) ==> e == StorageError::Unavailable),
{
    let sql =
        "CREATE TABLE IF NOT EXISTS projects (id INTEGER PRIMARY KEY, type_lang TEXT NOT NULL, name TEXT NOT NULL, path TEXT NOT NULL, last_opened TIMESTAMP, created_on TIMESTAMP NOT NULL)";
    match conn.execute(sql, []) {
        Ok(_) => Ok(()),
        Err(_) => Err(StorageError::Unavailable),
    }
}

/// Appends one row to the projects table.
///
/// Relies on rusqlite's `Connection::execute` running a single-row `INSERT`:
/// on success exactly the given row is added, on failure the statement
/// changes nothing. Where the new row lands in the read order is left open.
#[verifier::external_body]
fn db_insert_record(conn: &mut rusqlite::Connection, rec: &ProjectRecord) -> (r: Result<
    (),
    StorageError,
>)
    ensures
        r is Ok ==> db_rows(*final(conn)).to_multiset() == db_rows(
            *old(conn),
        ).to_multiset().insert(rec.model()),
        (r matches Err(e) ==> e == StorageError::Unavailable && db_rows(*final(conn)) == db_rows(
            *old(conn),
        )),
{
    let res = conn.execute(
        "INSERT INTO projects (type_lang, name, path, last_opened, created_on) VALUES (?1, ?2, ?3, ?4, ?5)",
        (&rec.language, &rec.name, &rec.path, &rec.last_opened, &rec.created_on),
    );
    match res {
        Ok(_) => Ok(()),
        Err(_) => Err(StorageError::Unavailable),
    }
}

/// Reads every row of the projects table, in the table's stable read order.
///
/// Relies on rusqlite's `Connection::prepare` and `Statement::query_map`
/// running a `SELECT` over all rows; the columns come back exactly as stored.
#[verifier::external_body]
fn db_select_records(conn: &rusqlite::Connection) -> (r: Result<Vec<ProjectRecord>, StorageError>)
    ensures
        (r matches Ok(v) ==> v@.map_values(|x: ProjectRecord| x.model()) == db_rows(*conn)),
        (r matches Err(e) ==> e == StorageError::Unavailable),
{
    let sql = "SELECT type_lang, name, path, last_opened, created_on FROM projects";
    let mut stmt = conn.prepare(sql).map_err(|_| StorageError::Unavailable)?;
    let rows = stmt.query_map([], |row| Ok(ProjectRecord {
        language: row.get(0)?, name: row.get(1)?, path: row.get(2)?,
        last_opened: row.get(3)?, created_on: row.get(4)?,
    })).map_err(|_| StorageError::Unavailable)?;
    let mut out = Vec::new();
    for row in rows {
        out.push(row.map_err(|_| StorageError::Unavailable)?);
    }
    Ok(out)
}

/// Opens (creating file and schema if absent) the registry at `db_path`.
/// What the store already holds is whatever is on disk, so nothing is claimed
/// of the contents; the one error it can report is an unavailable medium.
pub fn setup_database(db_path: &str) -> (r: Result<rusqlite::Connection, StorageError>)
    ensures
        (r matches Err(e) ==> e == StorageError::Unavailable),
{
    let mut conn = match db_open(db_path) {
        Ok(c) => c,
        Err(e) => return Err(e),
    };
    match db_create_schema(&mut conn) {
        Ok(()) => Ok(conn),
        Err(e) => Err(e),
    }
}

/// Opens a fresh registry backed by memory alone; it starts with no records.
pub fn open_memory_database() -> (r: Result<rusqlite::Connection, StorageError>)
    ensures
        (r matches Ok(c) ==> db_rows(c) == Seq::<RecordModel>::empty()),
        (r matches Err(e) ==> e == StorageError::Unavailable),
{
    let mut conn = match db_open_in_memory() {
        Ok(c) => c,
        Err(e) => return Err(e),
    };
    match db_create_schema(&mut conn) {
        Ok(()) => Ok(conn),
        Err(e) => Err(e),
    }
}

/// Appends one raw record. A record whose language name is not in the closed
/// enumeration is rejected with `UnknownLanguage` and the table is left
/// untouched; otherwise the row is appended unless the backing medium fails.
pub fn add_record(conn: &mut rusqlite::Connection, rec: &ProjectRecord) -> (r: Result<
    (),
    StorageError,
>)
    ensures
        (r == Err::<(), StorageError>(StorageError::UnknownLanguage) <==> language_from_name_spec(
            rec.language@,
        ) is None),
        r is Ok ==> db_rows(*final(conn)).to_multiset() == db_rows(
            *old(conn),
        ).to_multiset().insert(rec.model()),
        r is Err ==> db_rows(*final(conn)) == db_rows(*old(conn)),
{
    if ProgrammingLanguage::from_name(rec.language.as_str()).is_none() {
        return Err(StorageError::UnknownLanguage);
    }
    db_insert_record(conn, rec)
}

/// Appends one project. Its language comes from the closed enumeration, so
/// its stored name is always recognized and `UnknownLanguage` never arises.
pub fn add_project(conn: &mut rusqlite::Connection, project: &Project) -> (r: Result<
    (),
    StorageError,
>)
    ensures
        r is Ok ==> db_rows(*final(conn)).to_multiset() == db_rows(
            *old(conn),
        ).to_multiset().insert(project.record_model()),
        r is Err ==> r == Err::<(), StorageError>(StorageError::Unavailable) && db_rows(
            *final(conn),
        ) == db_rows(*old(conn)),
{
    project.insert(conn)
}

impl Project {
    /// Appends this project to the registry.
    pub fn insert(&self, conn: &mut rusqlite::Connection) -> (r: Result<(), StorageError>)
        ensures
            r is Ok ==> db_rows(*final(conn)).to_multiset() == db_rows(
                *old(conn),
            ).to_multiset().insert(self.record_model()),
            r is Err ==> r == Err::<(), StorageError>(StorageError::Unavailable) && db_rows(
                *final(conn),
            ) == db_rows(*old(conn)),
    {
        let rec = ProjectRecord {
            language: self.type_lang.name().to_owned(),
            name: self.name.clone(),
            path: self.path.clone(),
            last_opened: self.last_opened,
            created_on: self.created_on,
        };
        proof {
            lemma_language_name_round_trip(self.type_lang);
            assert(rec.model() == self.record_model());
        }
        match add_record(conn, &rec) {
            Ok(u) => Ok(u),
            Err(e) => {
                // The stored name round-trips, so the only error left is an
                // unavailable medium.
                proof {
                    assert(e == StorageError::Unavailable);
                }
                Err(e)
            },
        }
    }
}

/// Decodes raw rows into projects. It succeeds if and only if every row's
/// language name is recognized, and on success each project re-encodes to
/// exactly its row; one unrecognized name refuses the whole batch.
pub fn records_to_projects(rows: &Vec<ProjectRecord>) -> (r: Result<Vec<Project>, StorageError>)
    ensures
        (r is Ok <==> forall|i: int|
            0 <= i < rows@.len() ==> language_from_name_spec(rows@[i].language@) is Some),
        (r matches Ok(v) ==> v@.len() == rows@.len() && (forall|i: int|
            0 <= i < rows@.len() ==> v@[i].record_model() == rows@[i].model())),
        (r matches Err(e) ==> e == StorageError::UnknownLanguage),
{
    let mut out: Vec<Project> = Vec::new();
    let mut i: usize = 0;
    while i < rows.len()
        invariant
            0 <= i <= rows@.len(),
            out@.len() == i,
            forall|j: int| 0 <= j < i ==> language_from_name_spec(rows@[j].language@) is Some,
            forall|j: int| 0 <= j < i ==> out@[j].record_model() == rows@[j].model(),
        decreases rows@.len() - i,
    {
        let rec = &rows[i];
        let lang = match ProgrammingLanguage::from_name(rec.language.as_str()) {
            Some(l) => l,
            None => {
                return Err(StorageError::UnknownLanguage);
            },
        };
        proof {
            lemma_language_name_injective(rec.language@, lang);
        }
        out.push(
            Project {
                type_lang: lang,
                name: rec.name.clone(),
                path: rec.path.clone(),
                last_opened: rec.last_opened,
                created_on: rec.created_on,
            },
        );
        i = i + 1;
    }
    Ok(out)
}

/// Reads every stored project, in the table's stable order; each returned
/// project re-encodes to exactly its stored row. A table whose language
/// names are all recognized decodes without error, one unrecognized name
/// fails the read with `UnknownLanguage` rather than being silently
/// reinterpreted, and beyond that only the medium itself can fail, in the
/// read. The decoding is `records_to_projects`, whose contract forces its
/// result.
pub fn get_all_projects(conn: &rusqlite::Connection) -> (r: Result<Vec<Project>, StorageError>)
    ensures
        (r matches Ok(v) ==> v@.len() == db_rows(*conn).len() && (forall|i: int|
            0 <= i < v@.len() ==> v@[i].record_model() == db_rows(*conn)[i])),
        r == Err::<Vec<Project>, StorageError>(StorageError::UnknownLanguage) ==> exists|i: int|
            0 <= i < db_rows(*conn).len() && language_from_name_spec(
                db_rows(*conn)[i].language,
            ) is None,
{
    let rows = match db_select_records(conn) {
        Ok(v) => v,
        Err(e) => return Err(e),
    };
    let r = records_to_projects(&rows);
    proof {
        assert(rows@.map_values(|x: ProjectRecord| x.model()) == db_rows(*conn));
        if r == Err::<Vec<Project>, StorageError>(StorageError::UnknownLanguage) {
            let i = choose|i: int|
                0 <= i < rows@.len() && !(language_from_name_spec(rows@[i].language@) is Some);
            assert(db_rows(*conn)[i] == rows@[i].model());
        }
    }
    r
}

/// A row just appended is among the rows a following read returns: when the
/// table's contents grow by exactly `m`, any read of those contents holds `m`
/// somewhere.
pub proof fn lemma_inserted_row_listed(
    rows0: Seq<RecordModel>,
    rows1: Seq<RecordModel>,
    m: RecordModel,
)
    requires
        rows1.to_multiset() == rows0.to_multiset().insert(m),
    ensures
        rows1.contains(m),
{
    broadcast use group_to_multiset_ensures;

    assert(rows1.to_multiset().count(m) > 0);
}

} // verus!
