//! The fluent surface for building a write query.
//!
//! Writing mirrors reading but is far thinner: a [`Writer`] only carries
//! its checker and table list for now, and sealing fixes them.

use vstd::prelude::*;

verus! {

/// A write query under construction.
pub struct Writer<C> {
    pub(crate) checker: C,
    pub(crate) tables: Vec<String>,
}

/// A sealed write query: its tables, fixed.
pub struct SealedWriter {
    tables: Vec<String>,
}

impl<C> Writer<C> {
    /// The names of the tables added so far.
    pub closed spec fn spec_tables(&self) -> Seq<Seq<char>> {
        self.tables@.map_values(|s: String| s@)
    }

    /// The checker this writer was opened with.
    pub closed spec fn spec_checker(&self) -> C {
        self.checker
    }

    /// A fresh writer, used by the schema entry points.
    pub(crate) fn fresh(checker: C) -> (r: Writer<C>)
        ensures
            r.spec_checker() == checker,
            r.spec_tables() == Seq::<Seq<char>>::empty(),
    {
        let r = Writer { checker, tables: Vec::new() };
        proof {
            assert(r.spec_tables() =~= Seq::<Seq<char>>::empty());
        }
        r
    }

    /// Add a table to write into.
    pub fn table(self, id: &str) -> (r: Writer<C>)
        ensures
            r.spec_checker() == self.spec_checker(),
            r.spec_tables() == self.spec_tables().push(id@),
    {
        let mut tables = self.tables;
        tables.push(id.to_owned());
        let r = Writer { tables, ..self };
        proof {
            assert(r.spec_tables() =~= self.spec_tables().push(id@));
        }
        r
    }

    /// Seal the query.  Succeeds exactly when a table was named.
    pub fn seal(self) -> (r: Result<SealedWriter, String>)
        ensures
            r is Ok <==> self.spec_tables().len() > 0,
            r matches Ok(s) ==> s.spec_tables() == self.spec_tables(),
            r matches Err(m) ==> m@ == "no table selected"@,
    {
        if self.tables.len() == 0 {
            return Err("no table selected".to_owned());
        }
        let s = SealedWriter { tables: self.tables };
        proof {
            assert(s.spec_tables() =~= self.spec_tables());
        }
        Ok(s)
    }
}

impl SealedWriter {
    /// The names of the tables the sealed query writes into.
    pub closed spec fn spec_tables(&self) -> Seq<Seq<char>> {
        self.tables@.map_values(|s: String| s@)
    }
}

} // verus!
