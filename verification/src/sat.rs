//! The brute-force satisfiability engine: formula evaluation and
//! exhaustive search over the `2^n` assignments of `n` variables.

use vstd::prelude::*;
use vstd::string::StringExecFns;
use crate::SatError;
use crate::cnf::{
    Clause,
    Variable,
    clause_distinct,
    clause_eval,
    clause_in_range,
    clause_str,
    lit_display,
};

verus! {

/// A CNF formula: the conjunction of a sequence of three-literal clauses.
pub struct SAT {
    pub clauses: Vec<Clause>,
}

/// Every literal of every clause references an index below `n`.
pub open spec fn formula_in_range(clauses: Seq<Clause>, n: int) -> bool {
    forall|k: int| 0 <= k < clauses.len() ==> clause_in_range(#[trigger] clauses[k], n)
}

/// The value of a formula under an assignment: the conjunction of its
/// clauses' values. An empty formula evaluates to true.
pub open spec fn formula_eval(clauses: Seq<Clause>, v: Seq<Variable>) -> bool {
    forall|k: int| 0 <= k < clauses.len() ==> clause_eval(#[trigger] clauses[k], v)
}

/// `2^n`, as the search space bound over `n` variables.
pub open spec fn two_pow(n: usize) -> u128
    recommends
        n < 128,
{
    1u128 << (n as u128)
}

/// Bit `j` of the binary counter value `i`.
pub open spec fn bit_at(i: u128, j: u128) -> bool {
    (i >> j) & 1 != 0
}

/// Assignment number `i` over `n` variables: variable `j` is bound to
/// bit `j` of the binary counter value `i`.
pub open spec fn assignment_seq(i: u128, n: usize) -> Seq<Variable> {
    Seq::new(n as nat, |j: int| Variable { index: j as usize, value: bit_at(i, j as u128) })
}

/// Assignment number `i` satisfies the formula.
pub open spec fn sat_at(clauses: Seq<Clause>, n: usize, i: u128) -> bool {
    formula_eval(clauses, assignment_seq(i, n))
}

/// The counter values below `k` whose assignments satisfy the formula,
/// in increasing order.
pub open spec fn sat_indices(clauses: Seq<Clause>, n: usize, k: u128) -> Seq<u128>
    decreases k,
{
    if k == 0 {
        Seq::empty()
    } else {
        let prev = sat_indices(clauses, n, (k - 1) as u128);
        if sat_at(clauses, n, (k - 1) as u128) {
            prev.push((k - 1) as u128)
        } else {
            prev
        }
    }
}

/// The satisfying assignments themselves, in the order of their counter
/// values.
pub open spec fn sat_assignments(clauses: Seq<Clause>, n: usize, k: u128) -> Seq<Seq<Variable>> {
    sat_indices(clauses, n, k).map_values(|i: u128| assignment_seq(i, n))
}

/// The views of a vector of assignment vectors, element by element.
pub open spec fn views_of(vs: Seq<Vec<Variable>>) -> Seq<Seq<Variable>> {
    vs.map_values(|v: Vec<Variable>| v@)
}

/// The rendering of one clause inside a formula: parenthesized.
pub open spec fn paren_clause(c: Clause) -> Seq<char> {
    seq!['('] + clause_str(c) + seq![')']
}

/// The ` && ` separator between a formula's clauses.
pub open spec fn clause_sep() -> Seq<char> {
    seq![' ', '&', '&', ' ']
}

/// The rendering of a formula: each clause parenthesized, joined by
/// ` && `; empty for an empty formula.
pub open spec fn formula_str(clauses: Seq<Clause>) -> Seq<char>
    decreases clauses.len(),
{
    if clauses.len() == 0 {
        Seq::empty()
    } else if clauses.len() == 1 {
        paren_clause(clauses[0])
    } else {
        formula_str(clauses.drop_last()) + clause_sep() + paren_clause(clauses.last())
    }
}

/// The views of a vector of strings, element by element.
pub open spec fn str_views(ss: Seq<String>) -> Seq<Seq<char>> {
    ss.map_values(|s: String| s@)
}

/// `acc` extended with `s`, unless `s` is already present.
pub open spec fn insert_unique(acc: Seq<Seq<char>>, s: Seq<char>) -> Seq<Seq<char>> {
    if acc.contains(s) {
        acc
    } else {
        acc.push(s)
    }
}

/// The display strings of a clause's three literals folded into `acc`.
pub open spec fn collect_clause_lits(acc: Seq<Seq<char>>, c: Clause) -> Seq<Seq<char>> {
    insert_unique(
        insert_unique(insert_unique(acc, lit_display(c.literals[0])), lit_display(c.literals[1])),
        lit_display(c.literals[2]),
    )
}

/// The distinct literal display strings of a formula, in order of first
/// occurrence.
pub open spec fn collect_lits(clauses: Seq<Clause>) -> Seq<Seq<char>>
    decreases clauses.len(),
{
    if clauses.len() == 0 {
        Seq::empty()
    } else {
        collect_clause_lits(collect_lits(clauses.drop_last()), clauses.last())
    }
}

/// Mapping string views commutes with appending one string.
proof fn lemma_str_views_push(ss: Seq<String>, s: String)
    ensures
        str_views(ss.push(s)) == str_views(ss).push(s@),
{
    assert(str_views(ss.push(s)) =~= str_views(ss).push(s@));
}

/// Whether some string in `haystack` has the same characters as `needle`.
fn contains_string(haystack: &Vec<String>, needle: &String) -> (r: bool)
    ensures
        r == str_views(haystack@).contains(needle@),
{
    let count = haystack.len();
    for k in 0..count
        invariant
            count == haystack@.len(),
            forall|j: int| 0 <= j < k ==> haystack@[j]@ != needle@,
    {
        if haystack[k].eq(needle) {
            assert(str_views(haystack@)[k as int] == needle@);
            return true;
        }
    }
    assert forall|j: int| 0 <= j < str_views(haystack@).len() implies str_views(haystack@)[j]
        != needle@ by {
        assert(str_views(haystack@)[j] == haystack@[j]@);
    }
    false
}

/// An empty formula evaluates to true under every assignment.
pub proof fn lemma_empty_formula_true(v: Seq<Variable>)
    ensures
        formula_eval(Seq::<Clause>::empty(), v),
{
}

/// Every entry of `sat_indices` is below the enumeration bound `k`.
pub proof fn lemma_sat_indices_bounded(clauses: Seq<Clause>, n: usize, k: u128, j: int)
    requires
        0 <= j < sat_indices(clauses, n, k).len(),
    ensures
        sat_indices(clauses, n, k)[j] < k,
    decreases k,
{
    if k > 0 {
        let prev = sat_indices(clauses, n, (k - 1) as u128);
        if j < prev.len() {
            lemma_sat_indices_bounded(clauses, n, (k - 1) as u128, j);
        }
    }
}

/// `sat_indices` holds exactly the counter values below `k` whose
/// assignments satisfy the formula: the search is complete and sound.
pub proof fn lemma_sat_indices_complete(clauses: Seq<Clause>, n: usize, k: u128, i: u128)
    ensures
        sat_indices(clauses, n, k).contains(i) <==> (i < k && sat_at(clauses, n, i)),
    decreases k,
{
    broadcast use vstd::seq_lib::lemma_seq_contains_after_push;

    if k > 0 {
        lemma_sat_indices_complete(clauses, n, (k - 1) as u128, i);
    }
}

/// The satisfying counter values are listed in strictly increasing order.
pub proof fn lemma_sat_indices_increasing(clauses: Seq<Clause>, n: usize, k: u128, j1: int, j2: int)
    requires
        0 <= j1 < j2 < sat_indices(clauses, n, k).len(),
    ensures
        sat_indices(clauses, n, k)[j1] < sat_indices(clauses, n, k)[j2],
    decreases k,
{
    if k > 0 {
        let prev = sat_indices(clauses, n, (k - 1) as u128);
        if j2 < prev.len() {
            lemma_sat_indices_increasing(clauses, n, (k - 1) as u128, j1, j2);
        } else {
            lemma_sat_indices_bounded(clauses, n, (k - 1) as u128, j1);
        }
    }
}

/// A formula is satisfiable over `k` enumerated assignments exactly when
/// the list of satisfying counter values is non-empty.
pub proof fn lemma_satisfiable_iff_nonempty(clauses: Seq<Clause>, n: usize, k: u128)
    ensures
        sat_indices(clauses, n, k).len() > 0 <==> exists|i: u128| i < k && sat_at(clauses, n, i),
{
    if sat_indices(clauses, n, k).len() > 0 {
        let w = sat_indices(clauses, n, k)[0];
        assert(sat_indices(clauses, n, k).contains(w));
        lemma_sat_indices_complete(clauses, n, k, w);
    }
    if exists|i: u128| i < k && sat_at(clauses, n, i) {
        let w = choose|i: u128| i < k && sat_at(clauses, n, i);
        lemma_sat_indices_complete(clauses, n, k, w);
        assert(sat_indices(clauses, n, k).contains(w));
    }
}

/// The first entry of `sat_indices` is the least satisfying counter
/// value: it satisfies the formula and no smaller value does.
pub proof fn lemma_sat_indices_first(clauses: Seq<Clause>, n: usize, k: u128)
    requires
        sat_indices(clauses, n, k).len() > 0,
    ensures
        sat_at(clauses, n, sat_indices(clauses, n, k)[0]),
        forall|i: u128| i < sat_indices(clauses, n, k)[0] ==> !sat_at(clauses, n, i),
    decreases k,
{
    let s = sat_indices(clauses, n, k);
    if k > 0 {
        let prev = sat_indices(clauses, n, (k - 1) as u128);
        if prev.len() > 0 {
            lemma_sat_indices_first(clauses, n, (k - 1) as u128);
            assert(s[0] == prev[0]);
        } else {
            assert(s[0] == (k - 1) as u128);
            assert forall|i: u128| i < s[0] implies !sat_at(clauses, n, i) by {
                lemma_sat_indices_complete(clauses, n, (k - 1) as u128, i);
            }
        }
    }
}

/// The least satisfying counter value heads the list: a value that
/// satisfies the formula while nothing below it does is exactly
/// `sat_indices(..)[0]`, so a first-found search result is the first
/// entry of the full enumeration.
pub proof fn lemma_first_is_head(clauses: Seq<Clause>, n: usize, k: u128, i: u128)
    requires
        i < k,
        sat_at(clauses, n, i),
        forall|i2: u128| i2 < i ==> !sat_at(clauses, n, i2),
    ensures
        sat_indices(clauses, n, k).len() > 0,
        sat_indices(clauses, n, k)[0] == i,
{
    lemma_sat_indices_complete(clauses, n, k, i);
    assert(sat_indices(clauses, n, k).contains(i));
    lemma_sat_indices_first(clauses, n, k);
    let head = sat_indices(clauses, n, k)[0];
    lemma_sat_indices_bounded(clauses, n, k, 0);
    if head < i {
        assert(!sat_at(clauses, n, head));
    }
    if i < head {
        assert(!sat_at(clauses, n, i));
    }
}

/// The number whose binary digits an assignment's values spell, least
/// significant bit at position zero.
pub open spec fn counter_of(v: Seq<Variable>) -> nat
    decreases v.len(),
{
    if v.len() == 0 {
        0
    } else {
        (if v[0].value {
            1nat
        } else {
            0nat
        }) + 2 * counter_of(v.subrange(1, v.len() as int))
    }
}

/// `counter_of` reads the bound values alone: two assignments that agree
/// on every value decode to the same number.
proof fn lemma_counter_of_values(v1: Seq<Variable>, v2: Seq<Variable>)
    requires
        v1.len() == v2.len(),
        forall|j: int| 0 <= j < v1.len() ==> v1[j].value == v2[j].value,
    ensures
        counter_of(v1) == counter_of(v2),
    decreases v1.len(),
{
    if v1.len() > 0 {
        let t1 = v1.subrange(1, v1.len() as int);
        let t2 = v2.subrange(1, v2.len() as int);
        assert forall|j: int| 0 <= j < t1.len() implies t1[j].value == t2[j].value by {
            assert(t1[j] == v1[j + 1]);
            assert(t2[j] == v2[j + 1]);
        }
        lemma_counter_of_values(t1, t2);
    }
}

/// Decoding inverts the enumeration: assignment number `i` spells `i`.
pub proof fn lemma_assignment_decodes(i: u128, n: usize)
    requires
        n < 128,
        i < two_pow(n),
    ensures
        counter_of(assignment_seq(i, n)) == i,
    decreases n,
{
    let v = assignment_seq(i, n);
    let nn = n as u128;
    if n == 0 {
        assert(i < (1u128 << 0u128) ==> i == 0) by (bit_vector);
    } else {
        let h = i >> 1u128;
        assert((i < (1u128 << nn) && 1 <= nn < 128) ==> (i >> 1u128) < (1u128 << ((nn - 1)
            as u128))) by (bit_vector);
        assert(h < two_pow((n - 1) as usize));
        let tail = v.subrange(1, v.len() as int);
        let w = assignment_seq(h, (n - 1) as usize);
        assert forall|j: int| 0 <= j < tail.len() implies tail[j].value == w[j].value by {
            let jj = j as u128;
            assert(tail[j] == v[j + 1]);
            assert(jj < 127 ==> ((i >> (jj + 1)) & 1 == ((i >> 1u128) >> jj) & 1)) by (bit_vector);
            assert(bit_at(i, (j + 1) as u128) == bit_at(h, jj));
        }
        lemma_counter_of_values(tail, w);
        lemma_assignment_decodes(h, (n - 1) as usize);
        assert((i >> 0u128) & 1 == i & 1) by (bit_vector);
        assert(i & 1 == 0 || i & 1 == 1) by (bit_vector);
        assert(i == 2 * (i >> 1u128) + (i & 1)) by (bit_vector);
        assert(v[0].value == bit_at(i, 0));
        assert(counter_of(v) == (if v[0].value {
            1nat
        } else {
            0nat
        }) + 2 * counter_of(tail));
    }
}

/// The enumeration is injective: two counter values below the bound that
/// give the same assignment are the same value.
pub proof fn lemma_assignment_injective(i1: u128, i2: u128, n: usize)
    requires
        n < 128,
        i1 < two_pow(n),
        i2 < two_pow(n),
        assignment_seq(i1, n) == assignment_seq(i2, n),
    ensures
        i1 == i2,
{
    lemma_assignment_decodes(i1, n);
    lemma_assignment_decodes(i2, n);
}

/// The listed assignments stand in strictly increasing binary-counter
/// order: an earlier entry decodes to a smaller number than a later one.
pub proof fn lemma_sat_assignments_ordered(
    clauses: Seq<Clause>,
    n: usize,
    k: u128,
    j1: int,
    j2: int,
)
    requires
        n < 128,
        k <= two_pow(n),
        0 <= j1 < j2 < sat_assignments(clauses, n, k).len(),
    ensures
        counter_of(sat_assignments(clauses, n, k)[j1]) < counter_of(
            sat_assignments(clauses, n, k)[j2],
        ),
{
    let si = sat_indices(clauses, n, k);
    lemma_sat_indices_increasing(clauses, n, k, j1, j2);
    lemma_sat_indices_bounded(clauses, n, k, j1);
    lemma_sat_indices_bounded(clauses, n, k, j2);
    lemma_assignment_decodes(si[j1], n);
    lemma_assignment_decodes(si[j2], n);
}

/// The listed assignments are exactly the satisfying ones: an assignment
/// appears iff it is assignment number `i` for some satisfying `i`
/// below the enumeration bound.
pub proof fn lemma_sat_assignments_complete(
    clauses: Seq<Clause>,
    n: usize,
    k: u128,
    v: Seq<Variable>,
)
    ensures
        sat_assignments(clauses, n, k).contains(v) <==> exists|i: u128|
            i < k && v == assignment_seq(i, n) && sat_at(clauses, n, i),
{
    let sa = sat_assignments(clauses, n, k);
    let si = sat_indices(clauses, n, k);
    if sa.contains(v) {
        let j = choose|j: int| 0 <= j < sa.len() && sa[j] == v;
        let i = si[j];
        lemma_sat_indices_bounded(clauses, n, k, j);
        assert(si.contains(i));
        lemma_sat_indices_complete(clauses, n, k, i);
        assert(i < k && v == assignment_seq(i, n) && sat_at(clauses, n, i));
    }
    if exists|i: u128| i < k && v == assignment_seq(i, n) && sat_at(clauses, n, i) {
        let i = choose|i: u128| i < k && v == assignment_seq(i, n) && sat_at(clauses, n, i);
        lemma_sat_indices_complete(clauses, n, k, i);
        assert(si.contains(i));
        let j = choose|j: int| 0 <= j < si.len() && si[j] == i;
        assert(sa[j] == assignment_seq(i, n));
        assert(sa.contains(v));
    }
}

/// The concrete assignment vector for counter value `i` over `n`
/// variables, binding variable `j` at position `j`.
fn valuation_for(i: u128, n: usize) -> (v: Vec<Variable>)
    requires
        n < 128,
    ensures
        v@ == assignment_seq(i, n),
{
    let mut v: Vec<Variable> = Vec::new();
    for j in 0..n
        invariant
            n < 128,
            v@ == assignment_seq(i, j),
    {
        let value = (i >> (j as u128)) & 1 != 0;
        v.push(Variable { index: j, value });
        assert(v@ =~= assignment_seq(i, (j + 1) as usize));
    }
    v
}

impl SAT {
    /// A formula over the given clause sequence.
    pub fn new(clauses: Vec<Clause>) -> (r: Self)
        ensures
            r.clauses == clauses,
    {
        SAT { clauses }
    }

    /// A random formula of `clauses` independently drawn clauses over
    /// `variables` variables, or `InvalidConfiguration` when fewer than
    /// three variables are declared. Clauses may repeat across the
    /// formula; only the three indices within one clause are distinct.
    pub fn random(clauses: usize, variables: usize, rng: &mut rand::rngs::StdRng) -> (r: Result<
        SAT,
        SatError,
    >)
        ensures
            r is Ok <==> variables >= 3,
            r is Err ==> r == Err::<SAT, SatError>(SatError::InvalidConfiguration),
            r is Ok ==> r->Ok_0.clauses@.len() == clauses,
            r is Ok ==> formula_in_range(r->Ok_0.clauses@, variables as int),
            r is Ok ==> forall|k: int|
                0 <= k < clauses ==> clause_distinct(#[trigger] r->Ok_0.clauses@[k]),
    {
        if variables < 3 {
            return Err(SatError::InvalidConfiguration);
        }
        let mut drawn: Vec<Clause> = Vec::new();
        for k in 0..clauses
            invariant
                variables >= 3,
                drawn@.len() == k,
                formula_in_range(drawn@, variables as int),
                forall|j: int| 0 <= j < k ==> clause_distinct(#[trigger] drawn@[j]),
        {
            match Clause::random(variables, rng) {
                Ok(c) => drawn.push(c),
                Err(e) => {
                    return Err(e);
                },
            }
        }
        Ok(SAT { clauses: drawn })
    }

    /// The conjunction of the clauses' values under `valuations`.
    pub fn evaluate(sat: &SAT, valuations: &[Variable]) -> (r: bool)
        requires
            formula_in_range(sat.clauses@, valuations@.len() as int),
        ensures
            r == formula_eval(sat.clauses@, valuations@),
    {
        let mut valid = true;
        let clause_count = sat.clauses.len();
        for k in 0..clause_count
            invariant
                clause_count == sat.clauses@.len(),
                formula_in_range(sat.clauses@, valuations@.len() as int),
                valid == formula_eval(sat.clauses@.take(k as int), valuations@),
        {
            let holds = sat.clauses[k].evaluate(valuations);
            valid = valid && holds;
            assert(sat.clauses@.take(k + 1 as int).drop_last() == sat.clauses@.take(k as int));
            assert(sat.clauses@.take(k + 1 as int).last() == sat.clauses@[k as int]);
        }
        assert(sat.clauses@.take(clause_count as int) == sat.clauses@);
        valid
    }

    /// The rendering of the formula: each clause parenthesized, joined
    /// by ` && `.
    pub fn to_string(&self) -> (r: String)
        ensures
            r@ == formula_str(self.clauses@),
    {
        let mut s = String::new();
        let count = self.clauses.len();
        for k in 0..count
            invariant
                count == self.clauses@.len(),
                s@ == formula_str(self.clauses@.take(k as int)),
        {
            proof {
                reveal_strlit(" && ");
                reveal_strlit("(");
                reveal_strlit(")");
            }
            if k != 0 {
                s.append(" && ");
            }
            s.append("(");
            let rendered = self.clauses[k].to_string();
            s.append(rendered.as_str());
            s.append(")");
            proof {
                let taken = self.clauses@.take(k + 1 as int);
                assert(taken.drop_last() =~= self.clauses@.take(k as int));
                assert(taken.last() == self.clauses@[k as int]);
                assert(s@ =~= formula_str(taken));
            }
        }
        assert(self.clauses@.take(count as int) == self.clauses@);
        s
    }

    /// The distinct display strings of the literals occurring in the
    /// formula, in order of first occurrence; opposite polarities on one
    /// variable share a display string and are listed once.
    pub fn collect_literals(&self) -> (r: Vec<String>)
        requires
            formula_in_range(self.clauses@, usize::MAX as int),
        ensures
            str_views(r@) == collect_lits(self.clauses@),
    {
        let mut lits: Vec<String> = Vec::new();
        let count = self.clauses.len();
        for k in 0..count
            invariant
                count == self.clauses@.len(),
                formula_in_range(self.clauses@, usize::MAX as int),
                str_views(lits@) == collect_lits(self.clauses@.take(k as int)),
        {
            let c = self.clauses[k];
            assert(clause_in_range(c, usize::MAX as int));
            let ghost acc0 = str_views(lits@);
            let s0 = c.literals[0].to_string();
            if !contains_string(&lits, &s0) {
                proof {
                    lemma_str_views_push(lits@, s0);
                }
                lits.push(s0);
            }
            assert(str_views(lits@) == insert_unique(acc0, lit_display(c.literals[0])));
            let ghost acc1 = str_views(lits@);
            let s1 = c.literals[1].to_string();
            if !contains_string(&lits, &s1) {
                proof {
                    lemma_str_views_push(lits@, s1);
                }
                lits.push(s1);
            }
            assert(str_views(lits@) == insert_unique(acc1, lit_display(c.literals[1])));
            let ghost acc2 = str_views(lits@);
            let s2 = c.literals[2].to_string();
            if !contains_string(&lits, &s2) {
                proof {
                    lemma_str_views_push(lits@, s2);
                }
                lits.push(s2);
            }
            assert(str_views(lits@) == insert_unique(acc2, lit_display(c.literals[2])));
            proof {
                let taken = self.clauses@.take(k + 1 as int);
                assert(taken.drop_last() =~= self.clauses@.take(k as int));
                assert(taken.last() == self.clauses@[k as int]);
                assert(str_views(lits@) == collect_lits(taken));
            }
        }
        assert(self.clauses@.take(count as int) == self.clauses@);
        lits
    }

    /// Whether some assignment among the `2^n` candidates satisfies the
    /// formula.
    pub fn has_valid_valuations(sat: &SAT, n: usize) -> (r: bool)
        requires
            formula_in_range(sat.clauses@, n as int),
            n < 128,
        ensures
            r <==> exists|i: u128| i < two_pow(n) && sat_at(sat.clauses@, n, i),
    {
        match SAT::find_one_valid_valuation(sat, n) {
            Some(_) => true,
            None => false,
        }
    }

    /// The first satisfying assignment in binary-counter order, or `None`
    /// when no assignment satisfies the formula.
    pub fn find_one_valid_valuation(sat: &SAT, n: usize) -> (r: Option<Vec<Variable>>)
        requires
            formula_in_range(sat.clauses@, n as int),
            n < 128,
        ensures
            match r {
                Some(v) => exists|i: u128|
                    #![auto]
                    i < two_pow(n) && v@ == assignment_seq(i, n) && sat_at(sat.clauses@, n, i)
                        && (forall|i2: u128| i2 < i ==> !sat_at(sat.clauses@, n, i2)),
                None => forall|i: u128| i < two_pow(n) ==> !sat_at(sat.clauses@, n, i),
            },
    {
        let limit: u128 = 1u128 << (n as u128);
        let mut i: u128 = 0;
        while i < limit
            invariant
                n < 128,
                limit == two_pow(n),
                i <= limit,
                formula_in_range(sat.clauses@, n as int),
                forall|i2: u128| i2 < i ==> !sat_at(sat.clauses@, n, i2),
            decreases limit - i,
        {
            let current_valuation = valuation_for(i, n);
            if SAT::evaluate(sat, current_valuation.as_slice()) {
                return Some(current_valuation);
            }
            i = i + 1;
        }
        None
    }

    /// Every satisfying assignment, in binary-counter order; possibly
    /// empty.
    pub fn find_all_valid_valuations(sat: &SAT, n: usize) -> (r: Vec<Vec<Variable>>)
        requires
            formula_in_range(sat.clauses@, n as int),
            n < 128,
        ensures
            views_of(r@) == sat_assignments(sat.clauses@, n, two_pow(n)),
    {
        let limit: u128 = 1u128 << (n as u128);
        let mut valid_valuations: Vec<Vec<Variable>> = Vec::new();
        let mut i: u128 = 0;
        while i < limit
            invariant
                n < 128,
                limit == two_pow(n),
                i <= limit,
                formula_in_range(sat.clauses@, n as int),
                views_of(valid_valuations@) == sat_assignments(sat.clauses@, n, i),
            decreases limit - i,
        {
            let current_valuation = valuation_for(i, n);
            let ghost prior = valid_valuations@;
            let ghost k1 = (i + 1) as u128;
            let ghost cls = sat.clauses@;
            proof {
                assert((k1 - 1) as u128 == i);
                assert(sat_indices(cls, n, k1) == (if sat_at(cls, n, i) {
                    sat_indices(cls, n, i).push(i)
                } else {
                    sat_indices(cls, n, i)
                }));
            }
            if SAT::evaluate(sat, current_valuation.as_slice()) {
                let ghost pushed = current_valuation@;
                valid_valuations.push(current_valuation);
                proof {
                    assert(sat_at(cls, n, i));
                    let vv = valid_valuations@;
                    let si = sat_indices(cls, n, i);
                    let sk = sat_indices(cls, n, k1);
                    assert(sk == si.push(i));
                    assert(views_of(prior).len() == prior.len());
                    assert(sat_assignments(cls, n, i).len() == si.len());
                    assert(prior.len() == si.len());
                    assert forall|j: int|
                        0 <= j < vv.len() implies views_of(vv)[j] == sat_assignments(
                        cls,
                        n,
                        k1,
                    )[j] by {
                        if j < prior.len() {
                            assert(vv[j] == prior[j]);
                            assert(views_of(prior)[j] == sat_assignments(cls, n, i)[j]);
                            assert(si.push(i)[j] == si[j]);
                            assert(sk[j] == si[j]);
                        } else {
                            assert(vv[j]@ == pushed);
                            assert(si.push(i)[si.len() as int] == i);
                            assert(sk[j] == i);
                        }
                    }
                    assert(views_of(valid_valuations@) =~= sat_assignments(cls, n, k1));
                }
            } else {
                proof {
                    assert(!sat_at(cls, n, i));
                    assert(views_of(valid_valuations@) =~= sat_assignments(cls, n, k1));
                }
            }
            i = i + 1;
        }
        valid_valuations
    }
}

} // verus!
