//! Bookkeeping of a run and of each file in the database: which row
//! identifier a run or file received, and what the closing updates write.

use vstd::prelude::*;

verus! {

/// The database row of one run, known once it has been inserted.
pub struct DbExecutionModel {
    pub execution_id: Option<i32>,
}

/// What closing a run writes: the number of files that went well, on the
/// run's row (no row when the run was never recorded).
pub struct ExecutionUpdate {
    pub files_processed_successfully: i32,
    pub execution_id: Option<i32>,
}

impl DbExecutionModel {
    /// A run not yet recorded.
    pub fn new() -> (m: DbExecutionModel)
        ensures
            m.execution_id is None,
    {
        DbExecutionModel { execution_id: None }
    }

    /// Keeps the identifier that the database gave the run's new row.
    pub fn start_of_process(&mut self, inserted_id: i32)
        ensures
            final(self).execution_id == Some(inserted_id),
    {
        self.execution_id = Some(inserted_id);
    }

    /// The update that closes the run.
    pub fn end_of_process(&self, files_processed_successfully: i32) -> (u: ExecutionUpdate)
        ensures
            u.files_processed_successfully == files_processed_successfully,
            u.execution_id == self.execution_id,
    {
        ExecutionUpdate { files_processed_successfully, execution_id: self.execution_id }
    }

    /// The run's row identifier; the run must have been recorded.
    pub fn get_execution_id(&self) -> (id: i32)
        requires
            self.execution_id is Some,
        ensures
            self.execution_id == Some(id),
    {
        match self.execution_id {
            Some(id) => id,
            None => 0,
        }
    }
}

/// The database row of one downloaded file, belonging to a run.
pub struct DbFileModel {
    pub execution_id: i32,
    pub file_id: Option<i64>,
}

impl DbFileModel {
    /// A file of run `execution_id`, not yet recorded.
    pub fn new(execution_id: i32) -> (m: DbFileModel)
        ensures
            m.execution_id == execution_id,
            m.file_id is None,
    {
        DbFileModel { execution_id, file_id: None }
    }

    /// Keeps the identifier that the database gave the file's new row.
    pub fn start_of_process(&mut self, inserted_id: i64)
        ensures
            final(self).file_id == Some(inserted_id),
            final(self).execution_id == old(self).execution_id,
    {
        self.file_id = Some(inserted_id);
    }

    /// The row that closing the file updates (none when it was never recorded).
    pub fn end_of_process(&self) -> (row: Option<i64>)
        ensures
            row == self.file_id,
    {
        self.file_id
    }
}

/// `"postgresql://{user}:{password}@{host}/{db}"`
pub open spec fn connection_url_text(user: Seq<char>, password: Seq<char>, host: Seq<char>, db: Seq<char>) -> Seq<char> {
    "postgresql://"@ + user + ":"@ + password + "@"@ + host + "/"@ + db
}

/// The address used to open the database connection.
pub fn connection_url(user: &str, password: &str, host: &str, db: &str) -> (r: String)
    ensures
        r@ == connection_url_text(user@, password@, host@, db@),
{
    let mut out = String::from_str("postgresql://");
    out.append(user);
    out.append(":");
    out.append(password);
    out.append("@");
    out.append(host);
    out.append("/");
    out.append(db);
    out
}

/// Law: the identifier read back from a run is the one recorded last.
pub proof fn law_execution_id_read_back(after: DbExecutionModel, id: i32)
    requires
        after.execution_id == Some(id),
    ensures
        after.execution_id is Some,
        after.execution_id.unwrap() == id,
{
}

} // verus!
