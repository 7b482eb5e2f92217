//! Rendering expressions to SQL text.
//!
//! [`Expr::display`] is deterministic and structurally stable: the text of a
//! node is a fixed function of the node kind and the texts of its children,
//! with parenthesisation fixed by node kind alone.

use vstd::prelude::*;
use super::{Case, CaseBranch, Dialect, Expr};

verus! {

/// The decimal digit character for `d` (which must be below ten).
pub open spec fn digit_char(d: nat) -> char {
    if d == 0 { '0' }
    else if d == 1 { '1' }
    else if d == 2 { '2' }
    else if d == 3 { '3' }
    else if d == 4 { '4' }
    else if d == 5 { '5' }
    else if d == 6 { '6' }
    else if d == 7 { '7' }
    else if d == 8 { '8' }
    else { '9' }
}

/// The decimal rendering of a natural number, most significant digit first.
pub open spec fn spec_dec_nat(n: nat) -> Seq<char>
    decreases n,
{
    if n < 10 {
        seq![digit_char(n)]
    } else {
        spec_dec_nat(n / 10).push(digit_char(n % 10))
    }
}

/// The decimal rendering of an integer, with a leading minus when negative.
pub open spec fn spec_dec_int(i: int) -> Seq<char> {
    if i < 0 {
        seq!['-'] + spec_dec_nat((-i) as nat)
    } else {
        spec_dec_nat(i as nat)
    }
}

/// One decimal digit as a string slice.
fn digit_str(d: u64) -> (r: &'static str)
    requires
        d < 10,
    ensures
        r@ == seq![digit_char(d as nat)],
{
    proof {
        reveal_strlit("0");
        reveal_strlit("1");
        reveal_strlit("2");
        reveal_strlit("3");
        reveal_strlit("4");
        reveal_strlit("5");
        reveal_strlit("6");
        reveal_strlit("7");
        reveal_strlit("8");
        reveal_strlit("9");
    }
    let r = match d {
        0 => "0",
        1 => "1",
        2 => "2",
        3 => "3",
        4 => "4",
        5 => "5",
        6 => "6",
        7 => "7",
        8 => "8",
        _ => "9",
    };
    proof {
        assert(r@ =~= seq![digit_char(d as nat)]);
    }
    r
}

/// Render a natural number in decimal.
fn dec_nat_string(n: u64) -> (r: String)
    ensures
        r@ == spec_dec_nat(n as nat),
    decreases n,
{
    if n < 10 {
        digit_str(n).to_owned()
    } else {
        let mut s = dec_nat_string(n / 10);
        s.append(digit_str(n % 10));
        proof {
            assert(s@ =~= spec_dec_nat(n as nat));
        }
        s
    }
}

/// Render a signed number in decimal.
fn dec_int_string(n: i64) -> (r: String)
    ensures
        r@ == spec_dec_int(n as int),
{
    if n >= 0 {
        dec_nat_string(n as u64)
    } else {
        let magnitude: u64 = ((-(n + 1)) as u64) + 1;
        assert(magnitude as int == -(n as int));
        let mut s = "-".to_owned();
        proof {
            reveal_strlit("-");
        }
        s.append(dec_nat_string(magnitude).as_str());
        proof {
            assert(s@ =~= spec_dec_int(n as int));
        }
        s
    }
}

impl Expr {
    /// The text of an expression: a fixed function of the node kind, the
    /// dialect and the texts of the children.
    pub open spec fn spec_display(self, dialect: Dialect) -> Seq<char>
        decreases self, 2int, 0int,
    {
        match self {
            Expr::BoolLit(b) => if b { "true"@ } else { "false"@ },
            Expr::NumLit(n) => spec_dec_int(n as int),
            Expr::Col(c) => c.name@,
            Expr::Case(c) => "CASE "@ + Case::spec_display_branches(c, c.branches@.len() as int, dialect) + " END"@,
            Expr::Eq(b) => b.lhs.spec_display(dialect) + " = "@ + b.rhs.spec_display(dialect),
            Expr::Neq(b) => b.lhs.spec_display(dialect) + " != "@ + b.rhs.spec_display(dialect),
            Expr::Gt(b) => b.lhs.spec_display(dialect) + " > "@ + b.rhs.spec_display(dialect),
            Expr::Geq(b) => b.lhs.spec_display(dialect) + " >= "@ + b.rhs.spec_display(dialect),
            Expr::Lt(b) => b.lhs.spec_display(dialect) + " < "@ + b.rhs.spec_display(dialect),
            Expr::Leq(b) => b.lhs.spec_display(dialect) + " <= "@ + b.rhs.spec_display(dialect),
            Expr::Between(b) => b.inner.spec_display(dialect) + " BETWEEN "@ + b.lower.spec_display(dialect)
                + " AND "@ + b.upper.spec_display(dialect),
            Expr::And(b) => b.lhs.spec_display(dialect) + " AND "@ + b.rhs.spec_display(dialect),
            Expr::Or(b) => b.lhs.spec_display(dialect) + " OR "@ + b.rhs.spec_display(dialect),
            Expr::Not(b) => "NOT "@ + b.inner.spec_display(dialect),
            Expr::Add(b) => "("@ + b.lhs.spec_display(dialect) + " + "@ + b.rhs.spec_display(dialect) + ")"@,
            Expr::Sub(b) => "("@ + b.lhs.spec_display(dialect) + " - "@ + b.rhs.spec_display(dialect) + ")"@,
            Expr::Mul(b) => "("@ + b.lhs.spec_display(dialect) + " * "@ + b.rhs.spec_display(dialect) + ")"@,
            Expr::Div(b) => "("@ + b.lhs.spec_display(dialect) + " / "@ + b.rhs.spec_display(dialect) + ")"@,
            Expr::Rem(b) => "("@ + b.lhs.spec_display(dialect) + " % "@ + b.rhs.spec_display(dialect) + ")"@,
            Expr::Len(b) => "LENGTH("@ + b.inner.spec_display(dialect) + ")"@,
            Expr::Alias(b) => b.inner.spec_display(dialect) + " AS "@ + b.alias@,
        }
    }
}

impl CaseBranch {
    /// The text of one branch: `WHEN pattern THEN result`, or `ELSE result`
    /// for a branch without a pattern.
    pub open spec fn spec_display(self, dialect: Dialect) -> Seq<char>
        decreases self, 2int, 0int,
    {
        match self.pattern {
            Some(p) => "WHEN "@ + p.spec_display(dialect) + " THEN "@ + self.result.spec_display(dialect),
            None => "ELSE "@ + self.result.spec_display(dialect),
        }
    }
}

impl Case {
    /// The texts of the first `n` branches, joined by single spaces.
    pub open spec fn spec_display_branches(c: Case, n: int, dialect: Dialect) -> Seq<char>
        decreases c, 1int, n,
        via Case::display_branches_decreases
    {
        if n <= 0 {
            Seq::empty()
        } else if n > c.branches@.len() {
            Case::spec_display_branches(c, c.branches@.len() as int, dialect)
        } else if n == 1 {
            c.branches@[0].spec_display(dialect)
        } else {
            Case::spec_display_branches(c, n - 1, dialect) + " "@ + c.branches@[n - 1].spec_display(dialect)
        }
    }

    #[via_fn]
    proof fn display_branches_decreases(c: Case, n: int, dialect: Dialect) {
        if 0 < n <= c.branches@.len() {
            assert(decreases_to!(c => c.branches));
            assert(decreases_to!(c.branches => c.branches@));
            assert(decreases_to!(c.branches@ => c.branches@[0]));
            assert(decreases_to!(c.branches@ => c.branches@[n - 1]));
        }
    }
}

impl Expr {
    /// Render this expression in the given dialect.
    #[verifier::rlimit(100)]
    pub fn display(&self, dialect: Dialect) -> (r: String)
        ensures
            r@ == self.spec_display(dialect),
        decreases self, 2int, 0int,
    {
        match self {
            Expr::BoolLit(b) => {
                if *b {
                    "true".to_owned()
                } else {
                    "false".to_owned()
                }
            }
            Expr::NumLit(n) => dec_int_string(*n),
            Expr::Col(c) => c.name.clone(),
            Expr::Case(c) => c.display_branches(dialect),
            Expr::Eq(b) => {
                let mut s = b.lhs.display(dialect);
                s.append(" = ");
                s.append(b.rhs.display(dialect).as_str());
                s
            }
            Expr::Neq(b) => {
                let mut s = b.lhs.display(dialect);
                s.append(" != ");
                s.append(b.rhs.display(dialect).as_str());
                s
            }
            Expr::Gt(b) => {
                let mut s = b.lhs.display(dialect);
                s.append(" > ");
                s.append(b.rhs.display(dialect).as_str());
                s
            }
            Expr::Geq(b) => {
                let mut s = b.lhs.display(dialect);
                s.append(" >= ");
                s.append(b.rhs.display(dialect).as_str());
                s
            }
            Expr::Lt(b) => {
                let mut s = b.lhs.display(dialect);
                s.append(" < ");
                s.append(b.rhs.display(dialect).as_str());
                s
            }
            Expr::Leq(b) => {
                let mut s = b.lhs.display(dialect);
                s.append(" <= ");
                s.append(b.rhs.display(dialect).as_str());
                s
            }
            Expr::Between(b) => {
                let mut s = b.inner.display(dialect);
                s.append(" BETWEEN ");
                s.append(b.lower.display(dialect).as_str());
                s.append(" AND ");
                s.append(b.upper.display(dialect).as_str());
                s
            }
            Expr::And(b) => {
                let mut s = b.lhs.display(dialect);
                s.append(" AND ");
                s.append(b.rhs.display(dialect).as_str());
                s
            }
            Expr::Or(b) => {
                let mut s = b.lhs.display(dialect);
                s.append(" OR ");
                s.append(b.rhs.display(dialect).as_str());
                s
            }
            Expr::Not(b) => {
                let mut s = "NOT ".to_owned();
                s.append(b.inner.display(dialect).as_str());
                s
            }
            Expr::Add(b) => {
                let mut s = "(".to_owned();
                s.append(b.lhs.display(dialect).as_str());
                s.append(" + ");
                s.append(b.rhs.display(dialect).as_str());
                s.append(")");
                s
            }
            Expr::Sub(b) => {
                let mut s = "(".to_owned();
                s.append(b.lhs.display(dialect).as_str());
                s.append(" - ");
                s.append(b.rhs.display(dialect).as_str());
                s.append(")");
                s
            }
            Expr::Mul(b) => {
                let mut s = "(".to_owned();
                s.append(b.lhs.display(dialect).as_str());
                s.append(" * ");
                s.append(b.rhs.display(dialect).as_str());
                s.append(")");
                s
            }
            Expr::Div(b) => {
                let mut s = "(".to_owned();
                s.append(b.lhs.display(dialect).as_str());
                s.append(" / ");
                s.append(b.rhs.display(dialect).as_str());
                s.append(")");
                s
            }
            Expr::Rem(b) => {
                let mut s = "(".to_owned();
                s.append(b.lhs.display(dialect).as_str());
                s.append(" % ");
                s.append(b.rhs.display(dialect).as_str());
                s.append(")");
                s
            }
            Expr::Len(b) => {
                let mut s = "LENGTH(".to_owned();
                s.append(b.inner.display(dialect).as_str());
                s.append(")");
                s
            }
            Expr::Alias(b) => {
                let mut s = b.inner.display(dialect);
                s.append(" AS ");
                s.append(b.alias.as_str());
                s
            }
        }
    }
}

impl CaseBranch {
    /// Render one branch.
    fn display(&self, dialect: Dialect) -> (r: String)
        ensures
            r@ == self.spec_display(dialect),
        decreases self, 2int, 0int,
    {
        match &self.pattern {
            Some(p) => {
                let mut s = "WHEN ".to_owned();
                s.append(p.display(dialect).as_str());
                s.append(" THEN ");
                s.append(self.result.display(dialect).as_str());
                s
            }
            None => {
                let mut s = "ELSE ".to_owned();
                s.append(self.result.display(dialect).as_str());
                s
            }
        }
    }
}

impl Case {
    /// Render the whole `CASE ... END` form.
    #[verifier::loop_isolation(false)]
    fn display_branches(&self, dialect: Dialect) -> (r: String)
        ensures
            r@ == "CASE "@ + Case::spec_display_branches(*self, self.branches@.len() as int, dialect) + " END"@,
        decreases self, 1int, 0int,
    {
        let mut s = "CASE ".to_owned();
        let n = self.branches.len();
        for i in 0..n
            invariant
                n == self.branches@.len(),
                s@ == "CASE "@ + Case::spec_display_branches(*self, i as int, dialect),
            decreases n - i,
        {
            proof {
                assert(decreases_to!(self => self.branches));
                assert(decreases_to!(self.branches => self.branches@));
                assert(decreases_to!(self.branches@ => self.branches@[i as int]));
            }
            if i > 0 {
                s.append(" ");
            }
            s.append(self.branches[i].display(dialect).as_str());
            proof {
                assert(s@ =~= "CASE "@ + Case::spec_display_branches(*self, i as int + 1, dialect));
            }
        }
        s.append(" END");
        proof {
            assert(s@ =~= "CASE "@ + Case::spec_display_branches(*self, self.branches@.len() as int, dialect) + " END"@);
        }
        s
    }
}

} // verus!
