//! The session's table registry: the names registered against the query
//! engine, in registration order. The registry is append-only for the life
//! of a run; nothing a query does can shrink or reorder it.
use vstd::prelude::*;

verus! {

/// The registered tables of one run, owned by the session for the process
/// lifetime. Duplicate names are kept as they come: a later registration
/// under the same name supersedes the earlier one inside the engine.
pub struct Session {
    tables: Vec<String>,
}

impl Session {
    /// The names registered so far, in registration order.
    pub closed spec fn registry(self) -> Seq<Seq<char>> {
        self.tables.deep_view()
    }

    /// A fresh session holds no table.
    pub fn new() -> (s: Session)
        ensures
            s.registry() =~= Seq::<Seq<char>>::empty(),
    {
        Session { tables: Vec::new() }
    }

    /// Records one successful registration; exactly the given name is
    /// appended and everything registered before stays.
    pub fn record_registration(&mut self, name: String)
        ensures
            final(self).registry() =~= old(self).registry().push(name@),
    {
        self.tables.push(name);
    }

    /// The registered names, in registration order.
    pub fn table_names(&self) -> (r: &Vec<String>)
        ensures
            r.deep_view() == self.registry(),
    {
        &self.tables
    }
}

} // verus!
