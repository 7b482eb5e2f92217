//! The fluent surface for building a read query.
//!
//! A [`Reader`] accumulates tables and filter expressions, then seals the
//! query: sealing succeeds exactly when a table was named and no filter
//! recorded a defect.  The sealed form can no longer be modified.

use vstd::prelude::*;
use crate::ir::table::{Column, Table};
use crate::ir::ExprResult;
use crate::protocol::Checker;

verus! {

/// A read query under construction, drifting towards a seal.
pub struct Reader<C> {
    pub(crate) checker: C,
    pub(crate) tables: Vec<String>,
    pub(crate) filters: Vec<ExprResult>,
}

/// A sealed read query: its tables and selected columns, fixed.
pub struct SealedReader {
    tables: Vec<String>,
    columns: Vec<Column>,
}

impl SealedReader {
    /// The names of the tables the sealed query reads from.
    pub closed spec fn spec_tables(&self) -> Seq<Seq<char>> {
        self.tables@.map_values(|s: String| s@)
    }

    /// The columns the sealed query selects.
    pub closed spec fn spec_columns(&self) -> Seq<Column> {
        self.columns@
    }
}

/// The first recorded defect message among the filters, if any.
pub open spec fn spec_first_error(filters: Seq<ExprResult>, i: int) -> Option<Seq<char>>
    decreases filters.len() - i,
{
    if i < 0 || i >= filters.len() {
        None
    } else {
        match filters[i].error {
            Some(e) => Some(e.0@),
            None => spec_first_error(filters, i + 1),
        }
    }
}

impl<C> Reader<C> {
    /// The names of the tables added so far.
    pub closed spec fn spec_tables(&self) -> Seq<Seq<char>> {
        self.tables@.map_values(|s: String| s@)
    }

    /// The filter expressions recorded so far.
    pub closed spec fn spec_filters(&self) -> Seq<ExprResult> {
        self.filters@
    }

    /// The checker this reader was opened with.
    pub closed spec fn spec_checker(&self) -> C {
        self.checker
    }

    /// Whether no recorded filter carries a defect.
    pub open spec fn spec_filters_clean(&self) -> bool {
        forall|i: int| 0 <= i < self.spec_filters().len()
            ==> (#[trigger] self.spec_filters()[i]).error is None
    }

    /// The table a filter is built against: the last one added, or the
    /// anonymous table when none was.
    pub open spec fn spec_current_table(&self) -> Seq<char> {
        if self.spec_tables().len() > 0 {
            self.spec_tables().last()
        } else {
            Seq::empty()
        }
    }

    /// A fresh reader, used by the schema entry points.
    pub(crate) fn fresh(checker: C) -> (r: Reader<C>)
        ensures
            r.spec_checker() == checker,
            r.spec_tables() == Seq::<Seq<char>>::empty(),
            r.spec_filters() == Seq::<ExprResult>::empty(),
    {
        let r = Reader { checker, tables: Vec::new(), filters: Vec::new() };
        proof {
            assert(r.spec_tables() =~= Seq::<Seq<char>>::empty());
        }
        r
    }

    /// Open a reader that validates through the given checker.
    pub fn new(checker: C) -> (r: Reader<C>)
        where C: Checker,
        ensures
            r.spec_checker() == checker,
            r.spec_tables() == Seq::<Seq<char>>::empty(),
            r.spec_filters() == Seq::<ExprResult>::empty(),
    {
        Reader::fresh(checker)
    }

    /// Add a table to read from.
    pub fn table(self, id: &str) -> (r: Reader<C>)
        ensures
            r.spec_checker() == self.spec_checker(),
            r.spec_tables() == self.spec_tables().push(id@),
            r.spec_filters() == self.spec_filters(),
    {
        let mut tables = self.tables;
        tables.push(id.to_owned());
        let r = Reader { tables, ..self };
        proof {
            assert(r.spec_tables() =~= self.spec_tables().push(id@));
        }
        r
    }

    /// Add a group of joined tables.
    pub fn tables(self, ids: Vec<String>) -> (r: Reader<C>)
        ensures
            r.spec_checker() == self.spec_checker(),
            r.spec_tables() == self.spec_tables() + ids@.map_values(|s: String| s@),
            r.spec_filters() == self.spec_filters(),
    {
        let mut tables = self.tables;
        let mut ids = ids;
        let ghost ids0 = ids@;
        tables.append(&mut ids);
        let r = Reader { tables, ..self };
        proof {
            assert(r.spec_tables() =~= self.spec_tables() + ids0.map_values(|s: String| s@));
        }
        r
    }

    /// Record a filter over the current table.
    pub fn filter<F: FnOnce(Table) -> ExprResult>(self, f: F) -> (r: Reader<C>)
        requires
            forall|t: Table| #[trigger] f.requires((t,)),
        ensures
            r.spec_checker() == self.spec_checker(),
            r.spec_tables() == self.spec_tables(),
            exists|t: Table, fr: ExprResult|
                #[trigger] call_ensures(f, (t,), fr)
                    && t.spec_name() == self.spec_current_table()
                    && r.spec_filters() == self.spec_filters().push(fr),
    {
        let t = if self.tables.len() > 0 {
            Table::new(self.tables[self.tables.len() - 1].as_str())
        } else {
            Table::new("")
        };
        let ghost tg = t;
        let fr = f(t);
        let mut filters = self.filters;
        filters.push(fr);
        let r = Reader { filters, ..self };
        proof {
            assert(call_ensures(f, (tg,), fr));
            assert(self.spec_tables().len() == self.tables@.len());
            if self.tables@.len() > 0 {
                assert(self.spec_tables().last() == self.tables@[self.tables@.len() - 1]@);
            } else {
                reveal_strlit("");
                assert(""@ =~= Seq::<char>::empty());
            }
            assert(tg.spec_name() == self.spec_current_table());
            assert(r.spec_filters() == self.spec_filters().push(fr));
        }
        r
    }

    /// Seal the query, selecting the columns the closure picks from the
    /// current table.  Sealing succeeds exactly when a table was named
    /// and every filter is free of defects.
    pub fn select<F: FnOnce(Table) -> Vec<Column>>(self, f: F) -> (r: Result<SealedReader, String>)
        requires
            forall|t: Table| #[trigger] f.requires((t,)),
        ensures
            r is Ok <==> self.spec_tables().len() > 0 && self.spec_filters_clean(),
            r matches Ok(s) ==> s.spec_tables() == self.spec_tables()
                && exists|t: Table, cols: Vec<Column>|
                    #[trigger] call_ensures(f, (t,), cols)
                        && t.spec_name() == self.spec_current_table()
                        && s.spec_columns() == cols@,
            r matches Err(m) ==> if self.spec_tables().len() == 0 {
                m@ == "no table selected"@
            } else {
                spec_first_error(self.spec_filters(), 0) == Some(m@)
            },
    {
        if self.tables.len() == 0 {
            return Err("no table selected".to_owned());
        }
        match self.first_filter_error() {
            Some(msg) => Err(msg),
            None => {
                let t = Table::new(self.tables[self.tables.len() - 1].as_str());
                let cols = f(t);
                let s = SealedReader { tables: self.tables, columns: cols };
                proof {
                    assert(s.spec_tables() =~= self.spec_tables());
                }
                Ok(s)
            }
        }
    }

    /// Seal the query, selecting every column.  Succeeds exactly when a
    /// table was named and every filter is free of defects.
    pub fn select_all(self) -> (r: Result<SealedReader, String>)
        ensures
            r is Ok <==> self.spec_tables().len() > 0 && self.spec_filters_clean(),
            r matches Ok(s) ==> s.spec_tables() == self.spec_tables()
                && s.spec_columns() == Seq::<Column>::empty(),
            r matches Err(m) ==> if self.spec_tables().len() == 0 {
                m@ == "no table selected"@
            } else {
                spec_first_error(self.spec_filters(), 0) == Some(m@)
            },
    {
        if self.tables.len() == 0 {
            return Err("no table selected".to_owned());
        }
        match self.first_filter_error() {
            Some(msg) => Err(msg),
            None => {
                let s = SealedReader { tables: self.tables, columns: Vec::new() };
                proof {
                    assert(s.spec_tables() =~= self.spec_tables());
                    assert(s.spec_columns() =~= Seq::<Column>::empty());
                }
                Ok(s)
            }
        }
    }

    /// The message of the first filter defect, if any filter has one.
    #[verifier::loop_isolation(false)]
    fn first_filter_error(&self) -> (r: Option<String>)
        ensures
            match r {
                Some(m) => spec_first_error(self.spec_filters(), 0) == Some(m@),
                None => spec_first_error(self.spec_filters(), 0) is None,
            },
            r is None <==> self.spec_filters_clean(),
    {
        let n = self.filters.len();
        for i in 0..n
            invariant
                n == self.filters@.len(),
                spec_first_error(self.spec_filters(), 0) == spec_first_error(self.spec_filters(), i as int),
                forall|j: int| 0 <= j < i ==> (#[trigger] self.filters@[j]).error is None,
        {
            match &self.filters[i].error {
                Some(e) => {
                    return Some(e.0.clone());
                }
                None => {}
            }
        }
        None
    }
}

} // verus!
