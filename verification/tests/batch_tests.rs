use anaden::batch::{evaluate_counts, ConfusionMatrix};

fn templates(v: &[(&str, &str)]) -> Vec<(String, String)> {
    v.iter().map(|(n, s)| (n.to_string(), s.to_string())).collect()
}

fn labels(v: &[&str]) -> Vec<String> {
    v.iter().map(|s| s.to_string()).collect()
}

fn at(cm: &ConfusionMatrix, truth: &str, predicted: &str) -> usize {
    cm.matrix[cm.index_of(truth).unwrap()][cm.index_of(predicted).unwrap()]
}

#[test]
fn single_template_predicts_own_state_and_unknown_for_others() {
    // The black template matches the screen with a black square only.
    let cm = evaluate_counts(
        &templates(&[("black", "title")]),
        &labels(&["title", "field"]),
        &vec![vec![true], vec![false]],
        &vec![Some(0), Some(0)],
    );
    assert_eq!(cm.total, 2);
    assert_eq!(at(&cm, "title", "title"), 1, "title test -> predicted title");
    assert_eq!(at(&cm, "field", "unknown"), 1, "field test -> predicted unknown");
    assert_eq!(cm.labels, labels(&["field", "title", "unknown"]));
}

#[test]
fn sub_threshold_predicted_unknown() {
    let cm = evaluate_counts(&templates(&[("black", "title")]), &labels(&["field"]), &vec![vec![false]], &vec![Some(0)]);
    assert_eq!(at(&cm, "field", "unknown"), 1);
    assert_eq!(cm.correct(), Some(0));
}

#[test]
fn per_template_sensitivity_specificity() {
    let cm = evaluate_counts(
        &templates(&[("black", "title")]),
        &labels(&["title", "title", "field"]),
        &vec![vec![true], vec![true], vec![false]],
        &vec![Some(0), Some(0), Some(0)],
    );
    assert_eq!(cm.tallies.len(), 1);
    let t = &cm.tallies[0];
    assert_eq!((t.true_positives, t.positives), (2, 2));
    assert_eq!((t.false_positives, t.negatives), (0, 1));
    assert_eq!(cm.correct(), Some(2));
}

#[test]
fn no_templates_predict_unknown_everywhere() {
    let cm = evaluate_counts(&templates(&[]), &labels(&["a", "b"]), &vec![vec![], vec![]], &vec![None, None]);
    assert_eq!(cm.labels, labels(&["a", "b", "unknown"]));
    assert_eq!(at(&cm, "a", "unknown"), 1);
    assert_eq!(at(&cm, "b", "unknown"), 1);
    let total: usize = cm.matrix.iter().map(|r| r.iter().sum::<usize>()).sum();
    assert_eq!(total, cm.total);
}

#[test]
fn labels_are_sorted_and_unique() {
    let cm = evaluate_counts(
        &templates(&[("t1", "zeta"), ("t2", "alpha"), ("t3", "zeta")]),
        &labels(&["mid", "alpha", "unknown"]),
        &vec![vec![false, false, false]; 3],
        &vec![Some(0), Some(1), Some(2)],
    );
    assert_eq!(cm.labels, labels(&["alpha", "mid", "unknown", "zeta"]));
    assert_eq!(cm.index_of("nothing"), None);
}

#[test]
fn false_positive_is_counted_for_other_state() {
    let cm = evaluate_counts(
        &templates(&[("t", "title"), ("f", "field")]),
        &labels(&["field"]),
        &vec![vec![true, true]],
        &vec![Some(0)],
    );
    assert_eq!(at(&cm, "field", "title"), 1);
    assert_eq!((cm.tallies[0].false_positives, cm.tallies[0].negatives), (1, 1));
    assert_eq!((cm.tallies[1].true_positives, cm.tallies[1].positives), (1, 1));
}
