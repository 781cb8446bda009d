//! The CNF data model: variables, literals and three-literal clauses.

use vstd::prelude::*;
use vstd::std_specs::cmp::PartialEqSpec;
use vstd::string::StringExecFns;
use crate::SatError;
use crate::rng::{draw_index, draw_polarity};
use crate::text::{dec_str, push_decimal};

verus! {

/// A reference to a boolean variable: a zero-based index plus a polarity.
#[derive(Debug, Copy, Clone)]
pub struct Literal {
    pub index: usize,
    pub negated: Negated,
}

/// A variable binding inside an assignment: an index and its boolean value.
#[derive(Debug, Copy, Clone, PartialEq, Eq, Structural)]
pub struct Variable {
    pub index: usize,
    pub value: bool,
}

/// The polarity of a literal.
#[derive(Debug, Copy, Clone)]
pub enum Negated {
    YES,
    NO,
}

/// A clause of exactly three literals, read as their disjunction.
#[derive(Debug, Copy, Clone)]
pub struct Clause {
    pub literals: [Literal; 3],
}

/// The value of a literal under an assignment: the bound value at the
/// literal's index, inverted when the literal is negated.
pub open spec fn lit_eval(l: Literal, v: Seq<Variable>) -> bool
    recommends
        l.index < v.len(),
{
    match l.negated {
        Negated::NO => v[l.index as int].value,
        Negated::YES => !v[l.index as int].value,
    }
}

/// The value of a clause under an assignment: the disjunction of its
/// three literals.
pub open spec fn clause_eval(c: Clause, v: Seq<Variable>) -> bool
    recommends
        clause_in_range(c, v.len() as int),
{
    lit_eval(c.literals[0], v) || lit_eval(c.literals[1], v) || lit_eval(c.literals[2], v)
}

/// Every literal of the clause references an index below `n`.
pub open spec fn clause_in_range(c: Clause, n: int) -> bool {
    forall|j: int| 0 <= j < 3 ==> #[trigger] c.literals[j].index < n
}

/// The three literals of the clause reference pairwise distinct variables.
pub open spec fn clause_distinct(c: Clause) -> bool {
    c.literals[0].index != c.literals[1].index
    && c.literals[0].index != c.literals[2].index
    && c.literals[1].index != c.literals[2].index
}

/// The clause rendering of a literal: the zero-based index prefixed with
/// `x`, or with `!x` when negated.
pub open spec fn lit_str(l: Literal) -> Seq<char> {
    match l.negated {
        Negated::NO => seq!['x'] + dec_str(l.index as nat),
        Negated::YES => seq!['!', 'x'] + dec_str(l.index as nat),
    }
}

/// The ` || ` separator between a clause's literals.
pub open spec fn lit_sep() -> Seq<char> {
    seq![' ', '|', '|', ' ']
}

/// The rendering of a clause: its three literals joined by ` || `.
pub open spec fn clause_str(c: Clause) -> Seq<char> {
    lit_str(c.literals[0]) + lit_sep() + lit_str(c.literals[1]) + lit_sep() + lit_str(
        c.literals[2],
    )
}

/// The display rendering of a literal, as the graph labels show one:
/// `x` and the one-based index, with the polarity left out.
pub open spec fn lit_display(l: Literal) -> Seq<char> {
    seq!['x'] + dec_str(l.index as nat + 1)
}

/// The rendering of a boolean value.
pub open spec fn bool_str(b: bool) -> Seq<char> {
    if b {
        seq!['t', 'r', 'u', 'e']
    } else {
        seq!['f', 'a', 'l', 's', 'e']
    }
}

/// The display rendering of a variable binding: the one-based index and
/// the bound value, parenthesized.
pub open spec fn variable_str(v: Variable) -> Seq<char> {
    seq!['(', 'x'] + dec_str(v.index as nat + 1) + seq![',', ' '] + bool_str(v.value) + seq![')']
}

/// The rendering of a whole assignment: one binding per line, each line
/// closed by a newline.
pub open spec fn valuation_str(vs: Seq<Variable>) -> Seq<char>
    decreases vs.len(),
{
    if vs.len() == 0 {
        Seq::empty()
    } else {
        valuation_str(vs.drop_last()) + variable_str(vs.last()) + seq!['\n']
    }
}

/// Renders an assignment for display: one binding per line.
pub fn valuation_to_string(vs: &Vec<Variable>) -> (r: String)
    requires
        forall|j: int| 0 <= j < vs@.len() ==> (#[trigger] vs@[j]).index < usize::MAX,
    ensures
        r@ == valuation_str(vs@),
{
    let mut s = String::new();
    let count = vs.len();
    for k in 0..count
        invariant
            count == vs@.len(),
            forall|j: int| 0 <= j < vs@.len() ==> (#[trigger] vs@[j]).index < usize::MAX,
            s@ == valuation_str(vs@.take(k as int)),
    {
        proof {
            reveal_strlit("\n");
        }
        let line = vs[k].to_string();
        s.append(line.as_str());
        s.append("\n");
        proof {
            let taken = vs@.take(k + 1 as int);
            assert(taken.drop_last() =~= vs@.take(k as int));
            assert(taken.last() == vs@[k as int]);
            assert(s@ =~= valuation_str(taken));
        }
    }
    assert(vs@.take(count as int) == vs@);
    s
}

impl PartialEq for Literal {
    /// Literal equality is decided by the variable index alone; the
    /// polarity is deliberately ignored.
    fn eq(&self, other: &Literal) -> (r: bool) {
        self.index == other.index
    }
}

impl vstd::std_specs::cmp::PartialEqSpecImpl for Literal {
    open spec fn obeys_eq_spec() -> bool {
        true
    }

    open spec fn eq_spec(&self, other: &Literal) -> bool {
        self.index == other.index
    }
}

/// The `==` operator on literals compares the variable indices and
/// nothing else: two literals of opposite polarity on the same variable
/// are equal.
pub proof fn lemma_literal_eq_ignores_polarity(a: Literal, b: Literal)
    ensures
        a.eq_spec(&b) <==> a.index == b.index,
{
}

impl Literal {
    /// The display form of the literal: `x` and the one-based index.
    pub fn to_string(&self) -> (r: String)
        requires
            self.index < usize::MAX,
        ensures
            r@ == lit_display(*self),
    {
        let mut s = String::new();
        proof {
            reveal_strlit("x");
        }
        s.append("x");
        push_decimal(&mut s, self.index + 1);
        assert(s@ =~= lit_display(*self));
        s
    }

    /// The literal's value under `valuations`, or `IndexOutOfRange` when
    /// the assignment does not cover the literal's variable index.
    pub fn negated_value(&self, valuations: &[Variable]) -> (r: Result<bool, SatError>)
        ensures
            r is Ok <==> self.index < valuations@.len(),
            r is Ok ==> r->Ok_0 == lit_eval(*self, valuations@),
            r is Err ==> r == Err::<bool, SatError>(SatError::IndexOutOfRange),
    {
        if self.index < valuations.len() {
            let bound = valuations[self.index].value;
            match self.negated {
                Negated::NO => Ok(bound),
                Negated::YES => Ok(!bound),
            }
        } else {
            Err(SatError::IndexOutOfRange)
        }
    }
}

impl Variable {
    /// The display form of the binding: the one-based index and the
    /// bound value, parenthesized.
    pub fn to_string(&self) -> (r: String)
        requires
            self.index < usize::MAX,
        ensures
            r@ == variable_str(*self),
    {
        let mut s = String::new();
        proof {
            reveal_strlit("(x");
            reveal_strlit(", ");
            reveal_strlit("true");
            reveal_strlit("false");
            reveal_strlit(")");
        }
        s.append("(x");
        push_decimal(&mut s, self.index + 1);
        s.append(", ");
        if self.value {
            s.append("true");
        } else {
            s.append("false");
        }
        s.append(")");
        assert(s@ =~= variable_str(*self));
        s
    }
}

impl Clause {
    /// A clause built directly from three indices and three polarities,
    /// bypassing the random generator and its distinctness guarantee.
    pub fn new(us: [usize; 3], flips: [Negated; 3]) -> (r: Clause)
        ensures
            forall|j: int| 0 <= j < 3 ==> #[trigger] r.literals[j].index == us[j],
            forall|j: int| 0 <= j < 3 ==> #[trigger] r.literals[j].negated == flips[j],
    {
        Clause {
            literals: [
                Literal { index: us[0], negated: flips[0] },
                Literal { index: us[1], negated: flips[1] },
                Literal { index: us[2], negated: flips[2] },
            ],
        }
    }

    /// A random clause over `variables` variables, or
    /// `InvalidConfiguration` when fewer than three variables are
    /// declared: three distinct indices are drawn uniformly without
    /// replacement, each literal with an independent fair-coin polarity.
    pub fn random(variables: usize, rng: &mut rand::rngs::StdRng) -> (r: Result<Clause, SatError>)
        ensures
            r is Ok <==> variables >= 3,
            r is Err ==> r == Err::<Clause, SatError>(SatError::InvalidConfiguration),
            r is Ok ==> clause_in_range(r->Ok_0, variables as int) && clause_distinct(r->Ok_0),
    {
        if variables < 3 {
            return Err(SatError::InvalidConfiguration);
        }
        let i0 = draw_index(rng, variables);
        // A draw from the range shrunk by one, shifted past i0, is a
        // uniform draw over the remaining indices.
        let r1 = draw_index(rng, variables - 1);
        let i1 = if r1 < i0 {
            r1
        } else {
            r1 + 1
        };
        let lo = if i0 < i1 {
            i0
        } else {
            i1
        };
        let hi = if i0 < i1 {
            i1
        } else {
            i0
        };
        // Likewise for the third index, shifted past both earlier draws.
        let r2 = draw_index(rng, variables - 2);
        let s1 = if r2 < lo {
            r2
        } else {
            r2 + 1
        };
        let i2 = if s1 < hi {
            s1
        } else {
            s1 + 1
        };
        let flip0 = if draw_polarity(rng) {
            Negated::YES
        } else {
            Negated::NO
        };
        let flip1 = if draw_polarity(rng) {
            Negated::YES
        } else {
            Negated::NO
        };
        let flip2 = if draw_polarity(rng) {
            Negated::YES
        } else {
            Negated::NO
        };
        let c = Clause::new([i0, i1, i2], [flip0, flip1, flip2]);
        assert(c.literals[0].index == i0 && c.literals[1].index == i1 && c.literals[2].index == i2);
        Ok(c)
    }

    /// The disjunction of the three literals' values under `valuations`.
    pub fn evaluate(self, valuations: &[Variable]) -> (r: bool)
        requires
            clause_in_range(self, valuations@.len() as int),
        ensures
            r == clause_eval(self, valuations@),
    {
        assert(self.literals[0].index < valuations@.len());
        assert(self.literals[1].index < valuations@.len());
        assert(self.literals[2].index < valuations@.len());
        let v1 = match self.literals[0].negated {
            Negated::NO => valuations[self.literals[0].index].value,
            Negated::YES => !valuations[self.literals[0].index].value,
        };
        let v2 = match self.literals[1].negated {
            Negated::NO => valuations[self.literals[1].index].value,
            Negated::YES => !valuations[self.literals[1].index].value,
        };
        let v3 = match self.literals[2].negated {
            Negated::NO => valuations[self.literals[2].index].value,
            Negated::YES => !valuations[self.literals[2].index].value,
        };
        v1 || v2 || v3
    }

    /// The rendering of the clause: its literals joined by ` || `, each
    /// with its zero-based index and a `!` prefix when negated.
    pub fn to_string(&self) -> (r: String)
        ensures
            r@ == clause_str(*self),
    {
        let mut s = String::new();
        proof {
            reveal_strlit("x");
            reveal_strlit("!x");
            reveal_strlit(" || ");
        }
        match self.literals[0].negated {
            Negated::NO => s.append("x"),
            Negated::YES => s.append("!x"),
        }
        push_decimal(&mut s, self.literals[0].index);
        assert(s@ =~= lit_str(self.literals[0]));
        s.append(" || ");
        match self.literals[1].negated {
            Negated::NO => s.append("x"),
            Negated::YES => s.append("!x"),
        }
        push_decimal(&mut s, self.literals[1].index);
        assert(s@ =~= lit_str(self.literals[0]) + lit_sep() + lit_str(self.literals[1]));
        s.append(" || ");
        match self.literals[2].negated {
            Negated::NO => s.append("x"),
            Negated::YES => s.append("!x"),
        }
        push_decimal(&mut s, self.literals[2].index);
        assert(s@ =~= clause_str(*self));
        s
    }
}

} // verus!
