use vstd::prelude::*;
use crate::error::Error;

verus! {

/// One row of the `data` table.
#[derive(Clone, Debug)]
pub struct DbData {
    id: i64,
    name: String,
}

impl DbData {
    pub closed spec fn spec_id(&self) -> i64 {
        self.id
    }

    pub closed spec fn spec_name(&self) -> String {
        self.name
    }

    pub fn new(id: i64, name: String) -> (r: DbData)
        ensures
            r.spec_id() == id,
            r.spec_name() == name,
    {
        DbData { id, name }
    }

    pub fn id(&self) -> (r: i64)
        ensures
            r == self.spec_id(),
    {
        self.id
    }

    pub fn name(&self) -> (r: &String)
        ensures
            *r == self.spec_name(),
    {
        &self.name
    }
}

/// Access to stored rows, implemented by the application's storage.
pub trait IRepository {
    /// The row with this id.
    fn get(&self, id: i64) -> Result<DbData, Error>;

    /// The stored rows.
    fn get_all(&self) -> Result<Vec<DbData>, Error>;
}

} // verus!
