use pmi3sat::SatError;
use pmi3sat::cnf::{Clause, Literal, Negated, Variable};
use rand::SeedableRng;

fn assignment(values: &[bool]) -> Vec<Variable> {
    let mut v = Vec::new();
    for (index, value) in values.iter().enumerate() {
        v.push(Variable { index, value: *value });
    }
    v
}

#[test]
fn literal_equality_ignores_polarity() {
    let a = Literal { index: 2, negated: Negated::YES };
    let b = Literal { index: 2, negated: Negated::NO };
    let c = Literal { index: 3, negated: Negated::YES };
    assert!(a == b);
    assert!(a != c);
}

#[test]
fn negated_value_reads_the_binding() {
    let plain = Literal { index: 1, negated: Negated::NO };
    let negated = Literal { index: 1, negated: Negated::YES };
    let v = assignment(&[false, true]);
    assert_eq!(plain.negated_value(&v), Ok(true));
    assert_eq!(negated.negated_value(&v), Ok(false));
}

#[test]
fn negated_value_rejects_a_short_assignment() {
    let lit = Literal { index: 5, negated: Negated::NO };
    let v = assignment(&[true, false, true]);
    assert_eq!(lit.negated_value(&v), Err(SatError::IndexOutOfRange));
}

#[test]
fn clause_evaluates_as_a_disjunction() {
    // (x0 || x1 || !x2)
    let c = Clause::new([0, 1, 2], [Negated::NO, Negated::NO, Negated::YES]);
    assert!(c.evaluate(&assignment(&[true, false, true])));
    assert!(c.evaluate(&assignment(&[false, true, true])));
    assert!(c.evaluate(&assignment(&[false, false, false])));
    assert!(!c.evaluate(&assignment(&[false, false, true])));
}

#[test]
fn duplicate_variable_clause_constructed_directly() {
    // (!x0 || !x0 || !x0): true exactly when x0 is false.
    let c = Clause::new([0, 0, 0], [Negated::YES, Negated::YES, Negated::YES]);
    assert!(c.evaluate(&assignment(&[false])));
    assert!(!c.evaluate(&assignment(&[true])));
}

#[test]
fn random_clause_needs_three_variables() {
    let mut rng = rand::rngs::StdRng::seed_from_u64(7);
    assert!(matches!(Clause::random(0, &mut rng), Err(SatError::InvalidConfiguration)));
    assert!(matches!(Clause::random(1, &mut rng), Err(SatError::InvalidConfiguration)));
    assert!(matches!(Clause::random(2, &mut rng), Err(SatError::InvalidConfiguration)));
    assert!(Clause::random(3, &mut rng).is_ok());
}

#[test]
fn random_clause_indices_distinct_and_in_range() {
    let mut rng = rand::rngs::StdRng::seed_from_u64(11);
    for variables in [3usize, 4, 7, 20] {
        for _ in 0..50 {
            let c = Clause::random(variables, &mut rng).unwrap();
            let i0 = c.literals[0].index;
            let i1 = c.literals[1].index;
            let i2 = c.literals[2].index;
            assert!(i0 < variables && i1 < variables && i2 < variables);
            assert!(i0 != i1 && i0 != i2 && i1 != i2);
        }
    }
}

#[test]
fn clause_renders_with_zero_based_indices() {
    let c = Clause::new([0, 1, 2], [Negated::NO, Negated::NO, Negated::YES]);
    assert_eq!(c.to_string(), "x0 || x1 || !x2");
    let all_neg = Clause::new([10, 3, 7], [Negated::YES, Negated::YES, Negated::YES]);
    assert_eq!(all_neg.to_string(), "!x10 || !x3 || !x7");
}

#[test]
fn literal_renders_with_one_based_index() {
    let l = Literal { index: 0, negated: Negated::NO };
    assert_eq!(l.to_string(), "x1");
    let negated = Literal { index: 41, negated: Negated::YES };
    // The display form carries no polarity sign.
    assert_eq!(negated.to_string(), "x42");
}

#[test]
fn valuation_renders_one_binding_per_line() {
    let v = assignment(&[true, false]);
    assert_eq!(pmi3sat::cnf::valuation_to_string(&v), "(x1, true)\n(x2, false)\n");
    assert_eq!(pmi3sat::cnf::valuation_to_string(&Vec::new()), "");
}

#[test]
fn variable_renders_index_and_value() {
    let v = Variable { index: 0, value: true };
    assert_eq!(v.to_string(), "(x1, true)");
    let w = Variable { index: 12, value: false };
    assert_eq!(w.to_string(), "(x13, false)");
}
