use pmi3sat::SatError;
use pmi3sat::cnf::{Clause, Negated, Variable};
use pmi3sat::sat::SAT;
use rand::SeedableRng;

fn assignment(values: &[bool]) -> Vec<Variable> {
    let mut v = Vec::new();
    for (index, value) in values.iter().enumerate() {
        v.push(Variable { index, value: *value });
    }
    v
}

/// The assignment with counter value `i` over `n` variables.
fn counter_assignment(i: u128, n: usize) -> Vec<Variable> {
    let mut v = Vec::new();
    for j in 0..n {
        v.push(Variable { index: j, value: (i >> j) & 1 != 0 });
    }
    v
}

#[test]
fn empty_formula_is_true_everywhere() {
    let sat = SAT::new(vec![]);
    assert!(SAT::evaluate(&sat, &assignment(&[])));
    assert!(SAT::evaluate(&sat, &assignment(&[true, false])));
    assert!(SAT::has_valid_valuations(&sat, 2));
    assert_eq!(SAT::find_all_valid_valuations(&sat, 2).len(), 4);
}

#[test]
fn formula_evaluates_as_a_conjunction() {
    let c0 = Clause::new([0, 1, 2], [Negated::NO, Negated::NO, Negated::NO]);
    let c1 = Clause::new([0, 1, 2], [Negated::YES, Negated::NO, Negated::NO]);
    let sat = SAT::new(vec![c0, c1]);
    for i in 0..8u128 {
        let v = counter_assignment(i, 3);
        let expected = c0.evaluate(&v) && c1.evaluate(&v);
        assert_eq!(SAT::evaluate(&sat, &v), expected);
    }
}

#[test]
fn find_all_on_the_example_clause() {
    // (x0 || x1 || !x2) over three variables: every assignment except
    // x0=false, x1=false, x2=true (counter value 4) satisfies it.
    let c = Clause::new([0, 1, 2], [Negated::NO, Negated::NO, Negated::YES]);
    let sat = SAT::new(vec![c]);
    let all = SAT::find_all_valid_valuations(&sat, 3);
    assert_eq!(all.len(), 7);
    let expected_counters: [u128; 7] = [0, 1, 2, 3, 5, 6, 7];
    for (found, counter) in all.iter().zip(expected_counters.iter()) {
        assert_eq!(found, &counter_assignment(*counter, 3));
    }
    assert!(SAT::has_valid_valuations(&sat, 3));
}

#[test]
fn find_one_returns_the_first_in_counter_order() {
    // (x0 || x1 || !x2) is satisfied by the all-false assignment already.
    let c = Clause::new([0, 1, 2], [Negated::NO, Negated::NO, Negated::YES]);
    let sat = SAT::new(vec![c]);
    let one = SAT::find_one_valid_valuation(&sat, 3).unwrap();
    assert_eq!(one, counter_assignment(0, 3));
    // (x0 && x1 && x2) as three one-variable-forcing clauses: only the
    // all-true assignment (counter value 7) remains.
    let forcing = vec![
        Clause::new([0, 1, 2], [Negated::NO, Negated::NO, Negated::NO]),
        Clause::new([1, 2, 0], [Negated::NO, Negated::NO, Negated::NO]),
    ];
    let sat2 = SAT::new(forcing);
    let one2 = SAT::find_one_valid_valuation(&sat2, 3).unwrap();
    assert_eq!(one2, counter_assignment(1, 3));
}

#[test]
fn unsatisfiable_formula_finds_nothing() {
    // (x0 || x0 || x0) && (!x0 || !x0 || !x0) over one variable.
    let pos = Clause::new([0, 0, 0], [Negated::NO, Negated::NO, Negated::NO]);
    let neg = Clause::new([0, 0, 0], [Negated::YES, Negated::YES, Negated::YES]);
    let sat = SAT::new(vec![pos, neg]);
    assert!(!SAT::has_valid_valuations(&sat, 1));
    assert!(SAT::find_one_valid_valuation(&sat, 1).is_none());
    assert!(SAT::find_all_valid_valuations(&sat, 1).is_empty());
}

#[test]
fn duplicate_variable_clause_constrains_to_false() {
    // (!x0 || !x0 || !x0) alone: only x0=false survives.
    let c = Clause::new([0, 0, 0], [Negated::YES, Negated::YES, Negated::YES]);
    let sat = SAT::new(vec![c]);
    let all = SAT::find_all_valid_valuations(&sat, 1);
    assert_eq!(all, vec![counter_assignment(0, 1)]);
}

#[test]
fn random_formula_respects_the_request() {
    let mut rng = rand::rngs::StdRng::seed_from_u64(99);
    let sat = SAT::random(5, 4, &mut rng).unwrap();
    assert_eq!(sat.clauses.len(), 5);
    for c in &sat.clauses {
        let i0 = c.literals[0].index;
        let i1 = c.literals[1].index;
        let i2 = c.literals[2].index;
        assert!(i0 < 4 && i1 < 4 && i2 < 4);
        assert!(i0 != i1 && i0 != i2 && i1 != i2);
    }
}

#[test]
fn random_formula_rejects_a_zero_variable_count() {
    let mut rng = rand::rngs::StdRng::seed_from_u64(5);
    assert!(matches!(SAT::random(1, 0, &mut rng), Err(SatError::InvalidConfiguration)));
}

#[test]
fn find_all_agrees_with_direct_evaluation() {
    let mut rng = rand::rngs::StdRng::seed_from_u64(2024);
    for _ in 0..5 {
        let sat = SAT::random(4, 5, &mut rng).unwrap();
        let mut expected = Vec::new();
        for i in 0..(1u128 << 5) {
            let v = counter_assignment(i, 5);
            if SAT::evaluate(&sat, &v) {
                expected.push(v);
            }
        }
        assert_eq!(SAT::find_all_valid_valuations(&sat, 5), expected);
        assert_eq!(
            SAT::find_one_valid_valuation(&sat, 5),
            expected.first().cloned()
        );
        assert_eq!(SAT::has_valid_valuations(&sat, 5), !expected.is_empty());
    }
}

#[test]
fn formula_renders_parenthesized_clauses() {
    let c0 = Clause::new([0, 1, 2], [Negated::NO, Negated::NO, Negated::YES]);
    let c1 = Clause::new([2, 0, 1], [Negated::YES, Negated::NO, Negated::NO]);
    assert_eq!(SAT::new(vec![]).to_string(), "");
    assert_eq!(SAT::new(vec![c0]).to_string(), "(x0 || x1 || !x2)");
    assert_eq!(
        SAT::new(vec![c0, c1]).to_string(),
        "(x0 || x1 || !x2) && (!x2 || x0 || x1)"
    );
}

#[test]
fn collect_literals_deduplicates_in_first_occurrence_order() {
    let c0 = Clause::new([0, 1, 2], [Negated::NO, Negated::YES, Negated::NO]);
    let c1 = Clause::new([2, 3, 0], [Negated::YES, Negated::NO, Negated::NO]);
    let sat = SAT::new(vec![c0, c1]);
    // Display strings are one-based and carry no polarity, so opposite
    // polarities of one variable collapse to a single entry.
    assert_eq!(sat.collect_literals(), vec!["x1", "x2", "x3", "x4"]);
}
