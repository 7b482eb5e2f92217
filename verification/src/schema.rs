//! Column schemas: name-to-type tables, inferred or supplied.
//!
//! A schema is modelled as an association list from column names to
//! evaluation types, first binding wins; insertion keeps names unique.
//! [`DerivedSchema`] grows as a derived checker observes facts;
//! [`CompiledSchema`] is fixed by the caller and only ever read.

use vstd::prelude::*;
use crate::expr::ExprType;
use crate::reader::Reader;
use crate::writer::Writer;

verus! {

/// The model of a schema: column names with their types, in insertion
/// order.
pub type Binds = Seq<(Seq<char>, ExprType)>;

/// The model of an exec column table.
pub open spec fn binds_view(b: Seq<(String, ExprType)>) -> Binds {
    b.map_values(|p: (String, ExprType)| (p.0@, p.1))
}

/// The type bound to `name`, scanning from the front.
pub open spec fn spec_lookup_from(binds: Binds, i: int, name: Seq<char>) -> Option<ExprType>
    decreases binds.len() - i,
{
    if i < 0 || i >= binds.len() {
        None
    } else if binds[i].0 == name {
        Some(binds[i].1)
    } else {
        spec_lookup_from(binds, i + 1, name)
    }
}

/// The type bound to `name`, if any.
pub open spec fn spec_lookup(binds: Binds, name: Seq<char>) -> Option<ExprType> {
    spec_lookup_from(binds, 0, name)
}

/// `binds` with the first binding of `name` replaced by `t`, scanning
/// from the front; a fresh binding is appended when none exists.
pub open spec fn spec_update_from(binds: Binds, i: int, name: Seq<char>, t: ExprType) -> Binds
    decreases binds.len() - i,
{
    if i < 0 || i >= binds.len() {
        binds.push((name, t))
    } else if binds[i].0 == name {
        binds.update(i, (name, t))
    } else {
        spec_update_from(binds, i + 1, name, t)
    }
}

/// `binds` with `name` bound to `t`, replacing its first binding or
/// appending a fresh one.
pub open spec fn spec_update(binds: Binds, name: Seq<char>, t: ExprType) -> Binds {
    spec_update_from(binds, 0, name, t)
}

/// A schema built up from observed usage.
pub struct DerivedSchema {
    pub(crate) binds: Vec<(String, ExprType)>,
}

impl DerivedSchema {
    /// The association list this table holds.
    pub closed spec fn view(&self) -> Binds {
        binds_view(self.binds@)
    }

    /// An empty schema.
    pub fn new() -> (r: DerivedSchema)
        ensures
            r@ == Seq::<(Seq<char>, ExprType)>::empty(),
    {
        let r = DerivedSchema { binds: Vec::new() };
        proof {
            assert(r@ =~= Seq::<(Seq<char>, ExprType)>::empty());
        }
        r
    }

    /// Look `name` up in a raw column table.
    #[verifier::loop_isolation(false)]
    pub(crate) fn find_in(binds: &Vec<(String, ExprType)>, name: &String) -> (r: Option<ExprType>)
        ensures
            r == spec_lookup(binds_view(binds@), name@),
    {
        let n = binds.len();
        for i in 0..n
            invariant
                n == binds@.len(),
                spec_lookup(binds_view(binds@), name@)
                    == spec_lookup_from(binds_view(binds@), i as int, name@),
        {
            proof {
                assert(binds_view(binds@)[i as int] == (binds@[i as int].0@, binds@[i as int].1));
            }
            if binds[i].0 == *name {
                return Some(binds[i].1);
            }
        }
        None
    }

    /// Rebind `name` to `t` in a raw column table, or append it.
    #[verifier::loop_isolation(false)]
    pub(crate) fn update_in(binds: &mut Vec<(String, ExprType)>, name: &String, t: ExprType)
        ensures
            binds_view(final(binds)@) == spec_update(binds_view(old(binds)@), name@, t),
    {
        let n = binds.len();
        for i in 0..n
            invariant
                n == binds@.len(),
                binds@ == old(binds)@,
                spec_update(binds_view(binds@), name@, t)
                    == spec_update_from(binds_view(binds@), i as int, name@, t),
        {
            proof {
                assert(binds_view(binds@)[i as int] == (binds@[i as int].0@, binds@[i as int].1));
            }
            if binds[i].0 == *name {
                let value = (name.clone(), t);
                binds.remove(i);
                binds.insert(i, value);
                proof {
                    assert(binds_view(binds@)
                        =~= binds_view(old(binds)@).update(i as int, (name@, t)));
                }
                return ;
            }
        }
        binds.push((name.clone(), t));
        proof {
            assert(binds_view(binds@) =~= binds_view(old(binds)@).push((name@, t)));
        }
    }

    /// The type recorded for `name`, if any.
    pub fn find(&self, name: &String) -> (r: Option<ExprType>)
        ensures
            r == spec_lookup(self@, name@),
    {
        DerivedSchema::find_in(&self.binds, name)
    }
}

/// Inside the crate, a derived table's model is the view of its raw
/// column list.
pub(crate) proof fn lemma_derived_view(s: DerivedSchema)
    ensures
        s@ == binds_view(s.binds@),
{
}

/// A complete schema provided by the caller.
pub struct CompiledSchema {
    cols: Vec<(String, ExprType)>,
}

impl CompiledSchema {
    /// The association list this schema holds.
    pub closed spec fn view(&self) -> Binds {
        binds_view(self.cols@)
    }

    /// An empty schema.
    pub fn new() -> (r: CompiledSchema)
        ensures
            r@ == Seq::<(Seq<char>, ExprType)>::empty(),
    {
        let r = CompiledSchema { cols: Vec::new() };
        proof {
            assert(r@ =~= Seq::<(Seq<char>, ExprType)>::empty());
        }
        r
    }

    /// Record `name` with type `t`, replacing any earlier binding.
    pub fn insert(&mut self, name: &String, t: ExprType)
        ensures
            final(self)@ == spec_update(old(self)@, name@, t),
    {
        DerivedSchema::update_in(&mut self.cols, name, t)
    }

    /// The type this schema fixes for `name`, if the column exists.
    pub fn find(&self, name: &String) -> (r: Option<ExprType>)
        ensures
            r == spec_lookup(self@, name@),
    {
        DerivedSchema::find_in(&self.cols, name)
    }

    /// Borrow the raw column table.
    pub(crate) fn raw(&self) -> (r: &Vec<(String, ExprType)>)
        ensures
            binds_view(r@) == self@,
    {
        &self.cols
    }
}

/// A schema that can open fluent readers and writers over itself.
pub trait Schema: Sized {
    /// Open a read query validated against this schema.
    fn read(self) -> (r: Reader<Self>)
        ensures
            r.spec_checker() == self,
            r.spec_tables() == Seq::<Seq<char>>::empty(),
            r.spec_filters() == Seq::<crate::ir::ExprResult>::empty(),
    ;

    /// Open a write query validated against this schema.
    fn write(self) -> (r: Writer<Self>)
        ensures
            r.spec_checker() == self,
            r.spec_tables() == Seq::<Seq<char>>::empty(),
    ;
}

impl Schema for DerivedSchema {
    fn read(self) -> (r: Reader<DerivedSchema>) {
        Reader::fresh(self)
    }

    fn write(self) -> (r: Writer<DerivedSchema>) {
        Writer::fresh(self)
    }
}

impl Schema for CompiledSchema {
    fn read(self) -> (r: Reader<CompiledSchema>) {
        Reader::fresh(self)
    }

    fn write(self) -> (r: Writer<CompiledSchema>) {
        Writer::fresh(self)
    }
}

} // verus!
