//! Batch evaluation of templates: the confusion matrix of true against
//! predicted scene labels and, per template, how often it matched images of
//! its own state and of other states.
//!
//! Scoring images against templates is floating-point work done outside:
//! it hands in, per test image, which templates matched (score at least the
//! threshold) and which template scored best.
use vstd::prelude::*;
use vstd::string::*;

use crate::routine::{insert_pos, lex_lt, lex_lt_chars};
use crate::text::{chars_of, owned, seq_eq, views};

verus! {

/// The label of images no template recognised.
pub const UNKNOWN_LABEL: &'static str = "unknown";

/// `s` with `x` inserted at its sorted place, unless it is already there.
pub open spec fn insert_label(s: Seq<Seq<char>>, x: Seq<char>) -> Seq<Seq<char>> {
    if s.contains(x) {
        s
    } else {
        s.insert(insert_pos(s, x, 0), x)
    }
}

/// `s` with every label of `xs` inserted in turn.
pub open spec fn add_labels(s: Seq<Seq<char>>, xs: Seq<Seq<char>>) -> Seq<Seq<char>>
    decreases xs.len(),
{
    if xs.len() == 0 {
        s
    } else {
        insert_label(add_labels(s, xs.drop_last()), xs.last())
    }
}

/// The labels of an evaluation: the template states, the true labels of the
/// test images and `unknown`, each once, in sorted order.
pub open spec fn label_list(states: Seq<Seq<char>>, truths: Seq<Seq<char>>) -> Seq<Seq<char>> {
    insert_label(add_labels(add_labels(Seq::empty(), states), truths), UNKNOWN_LABEL@)
}

/// The index of the first `x` in `labels` from `from` on (the last index
/// when it is missing).
pub open spec fn label_index(labels: Seq<Seq<char>>, x: Seq<char>, from: int) -> int
    decreases labels.len() - from,
{
    if from < 0 || from >= labels.len() {
        labels.len() - 1
    } else if labels[from] == x {
        from
    } else {
        label_index(labels, x, from + 1)
    }
}

/// The predicted label of a test image: the state of the best template when
/// that template matched, `unknown` otherwise.
pub open spec fn predicted_spec(states: Seq<Seq<char>>, best: Option<usize>, matched: Seq<bool>) -> Seq<char> {
    match best {
        Some(i) => if 0 <= i < states.len() && matched[i as int] {
            states[i as int]
        } else {
            UNKNOWN_LABEL@
        },
        None => UNKNOWN_LABEL@,
    }
}

/// How many of the first `k` pairs `(rows[t], cols[t])` equal `(a, b)`.
pub open spec fn cell_count(rows: Seq<int>, cols: Seq<int>, a: int, b: int, k: int) -> nat
    decreases k,
{
    if k <= 0 {
        0
    } else {
        cell_count(rows, cols, a, b, k - 1) + if rows[k - 1] == a && cols[k - 1] == b {
            1nat
        } else {
            0nat
        }
    }
}

/// How many of the first `k` test images have (or, with `own` false, do
/// not have) true label `state` and, when `need_match`, matched template `j`.
pub open spec fn tally(
    truths: Seq<Seq<char>>,
    matches: Seq<Seq<bool>>,
    state: Seq<char>,
    j: int,
    own: bool,
    need_match: bool,
    k: int,
) -> nat
    decreases k,
{
    if k <= 0 {
        0
    } else {
        tally(truths, matches, state, j, own, need_match, k - 1) + if (truths[k - 1] == state) == own && (
        !need_match || matches[k - 1][j]) {
            1nat
        } else {
            0nat
        }
    }
}

/// The counts of one template.
#[derive(Debug, Clone, PartialEq, Eq)]
pub struct MatchTally {
    /// Template name.
    pub name: String,
    /// Template state.
    pub state: String,
    /// Images of its state it matched.
    pub true_positives: usize,
    /// Images of its state.
    pub positives: usize,
    /// Images of other states it matched.
    pub false_positives: usize,
    /// Images of other states.
    pub negatives: usize,
}

/// The counts of an evaluation.
#[derive(Debug, Clone, PartialEq, Eq)]
pub struct ConfusionMatrix {
    /// Labels, sorted, `unknown` among them.
    pub labels: Vec<String>,
    /// `matrix[true][predicted]`: images per pair of label indexes.
    pub matrix: Vec<Vec<usize>>,
    /// Per template counts, in template order.
    pub tallies: Vec<MatchTally>,
    /// Number of test images.
    pub total: usize,
}

impl ConfusionMatrix {
    /// The index of `label`, if it is a label.
    pub fn index_of(&self, label: &str) -> (r: Option<usize>)
        ensures
            match r {
                Some(i) => i < self.labels@.len() && self.labels@[i as int]@ == label@ && forall|k: int|
                    0 <= k < i ==> self.labels@[k]@ != label@,
                None => forall|k: int| 0 <= k < self.labels@.len() ==> self.labels@[k]@ != label@,
            },
    {
        let x = chars_of(label);
        let mut i: usize = 0;
        while i < self.labels.len()
            invariant
                i <= self.labels@.len(),
                x@ == label@,
                forall|k: int| 0 <= k < i ==> self.labels@[k]@ != label@,
            decreases self.labels@.len() - i,
        {
            let c = chars_of(self.labels[i].as_str());
            if seq_eq(&c, &x) {
                return Some(i);
            }
            i = i + 1;
        }
        None
    }

    /// The number of images whose predicted label is their true label: the
    /// diagonal of the matrix over the labels (a missing cell counts 0);
    /// `None` when that sum does not fit in `usize`.
    pub fn correct(&self) -> (r: Option<usize>)
        ensures
            match r {
                Some(v) => v == diag_sum(self.matrix@.map_values(|row: Vec<usize>| row@), self.labels@.len() as int),
                None => diag_sum(self.matrix@.map_values(|row: Vec<usize>| row@), self.labels@.len() as int)
                    > usize::MAX,
            },
    {
        let ghost m = self.matrix@.map_values(|row: Vec<usize>| row@);
        let mut sum: usize = 0;
        let mut i: usize = 0;
        while i < self.labels.len()
            invariant
                i <= self.labels@.len(),
                m == self.matrix@.map_values(|row: Vec<usize>| row@),
                sum == diag_sum(m, i as int),
            decreases self.labels@.len() - i,
        {
            if i < self.matrix.len() && i < self.matrix[i].len() {
                assert(m[i as int][i as int] == self.matrix@[i as int]@[i as int]);
                match sum.checked_add(self.matrix[i][i]) {
                    Some(v) => {
                        sum = v;
                    },
                    None => {
                        proof {
                            lemma_diag_sum_mono(m, i + 1, self.labels@.len() as int);
                        }
                        return None;
                    },
                }
            }
            i = i + 1;
        }
        Some(sum)
    }
}

/// The sum of the first `k` diagonal cells (a missing cell counts 0).
pub open spec fn diag_sum(m: Seq<Seq<usize>>, k: int) -> int
    decreases k,
{
    if k <= 0 {
        0
    } else {
        diag_sum(m, k - 1) + if k - 1 < m.len() && k - 1 < m[k - 1].len() {
            m[k - 1][k - 1] as int
        } else {
            0
        }
    }
}

proof fn lemma_diag_sum_mono(m: Seq<Seq<usize>>, a: int, b: int)
    requires
        0 <= a <= b,
    ensures
        diag_sum(m, a) <= diag_sum(m, b),
    decreases b - a,
{
    if a < b {
        lemma_diag_sum_mono(m, a, b - 1);
    }
}

fn insert_label_exec(out: &mut Vec<String>, keys: &mut Vec<Vec<char>>, x: &str)
    requires
        old(keys)@.len() == old(out)@.len(),
        forall|k: int| 0 <= k < old(out)@.len() ==> old(keys)@[k]@ == old(out)@[k]@,
    ensures
        final(keys)@.len() == final(out)@.len(),
        forall|k: int| 0 <= k < final(out)@.len() ==> final(keys)@[k]@ == final(out)@[k]@,
        views(final(out)@) == insert_label(views(old(out)@), x@),
{
    let xs = chars_of(x);
    let ghost s = views(out@);
    let mut i: usize = 0;
    while i < out.len()
        invariant
            i <= out@.len(),
            keys@.len() == out@.len(),
            forall|k: int| 0 <= k < out@.len() ==> keys@[k]@ == out@[k]@,
            s == views(out@),
            xs@ == x@,
            forall|k: int| 0 <= k < i ==> s[k] != x@,
        decreases out@.len() - i,
    {
        if seq_eq(&keys[i], &xs) {
            assert(s[i as int] == x@);
            assert(s.contains(x@));
            return ;
        }
        i = i + 1;
    }
    assert(!s.contains(x@));
    let mut j: usize = 0;
    while j < out.len() && !lex_lt_chars(&xs, &keys[j])
        invariant
            j <= out@.len(),
            keys@.len() == out@.len(),
            forall|k: int| 0 <= k < out@.len() ==> keys@[k]@ == out@[k]@,
            s == views(out@),
            xs@ == x@,
            insert_pos(s, x@, j as int) == insert_pos(s, x@, 0),
        decreases out@.len() - j,
    {
        j = j + 1;
    }
    let ghost before_keys = keys@;
    out.insert(j, owned(x));
    keys.insert(j, xs);
    assert(views(out@) =~= s.insert(j as int, x@));
    assert forall|k: int| 0 <= k < out@.len() implies keys@[k]@ == out@[k]@ by {
        if k < j {
        } else if k > j {
            assert(keys@[k] == before_keys[k - 1]);
        }
    }
}

fn label_position(keys: &Vec<Vec<char>>, x: &Vec<char>) -> (r: usize)
    requires
        keys@.len() >= 1,
    ensures
        r as int == label_index(keys@.map_values(|k: Vec<char>| k@), x@, 0),
{
    let ghost ls = keys@.map_values(|k: Vec<char>| k@);
    let mut i: usize = 0;
    while i < keys.len()
        invariant
            i <= keys@.len(),
            keys@.len() >= 1,
            ls == keys@.map_values(|k: Vec<char>| k@),
            label_index(ls, x@, i as int) == label_index(ls, x@, 0),
        decreases keys@.len() - i,
    {
        if seq_eq(&keys[i], x) {
            return i;
        }
        i = i + 1;
    }
    keys.len() - 1
}

/// Counts an evaluation. Per test image `t`: `truths[t]` is its true label,
/// `matches[t][j]` whether template `j` matched it, `best[t]` the template
/// that scored best (none without templates). Templates are given as
/// `(name, state)`.
pub fn evaluate_counts(
    templates: &Vec<(String, String)>,
    truths: &Vec<String>,
    matches: &Vec<Vec<bool>>,
    best: &Vec<Option<usize>>,
) -> (r: ConfusionMatrix)
    requires
        matches@.len() == truths@.len(),
        best@.len() == truths@.len(),
        forall|t: int| 0 <= t < matches@.len() ==> #[trigger] matches@[t]@.len() == templates@.len(),
    ensures
        views(r.labels@) == label_list(states_of(templates@), views(truths@)),
        r.total == truths@.len(),
        r.matrix@.len() == r.labels@.len(),
        forall|a: int|
            0 <= a < r.matrix@.len() ==> #[trigger] r.matrix@[a]@.len() == r.labels@.len(),
        forall|a: int, b: int|
            0 <= a < r.labels@.len() && 0 <= b < r.labels@.len() ==> #[trigger] r.matrix@[a]@[b] == cell_count(
                true_indexes(views(r.labels@), views(truths@)),
                predicted_indexes(views(r.labels@), states_of(templates@), best@, rows_of(matches@)),
                a,
                b,
                truths@.len() as int,
            ),
        r.tallies@.len() == templates@.len(),
        forall|j: int|
            0 <= j < templates@.len() ==> #[trigger] tally_matches(
                r.tallies@[j],
                templates@[j],
                views(truths@),
                rows_of(matches@),
                j,
            ),
{
    let mut labels: Vec<String> = Vec::new();
    let mut keys: Vec<Vec<char>> = Vec::new();
    let ghost states = states_of(templates@);
    let ghost tv = views(truths@);
    let mut i: usize = 0;
    assert(views(labels@) =~= add_labels(Seq::empty(), states.take(0)));
    while i < templates.len()
        invariant
            i <= templates@.len(),
            states == states_of(templates@),
            keys@.len() == labels@.len(),
            forall|k: int| 0 <= k < labels@.len() ==> keys@[k]@ == labels@[k]@,
            views(labels@) == add_labels(Seq::empty(), states.take(i as int)),
        decreases templates@.len() - i,
    {
        insert_label_exec(&mut labels, &mut keys, templates[i].1.as_str());
        assert(states.take(i + 1).drop_last() =~= states.take(i as int));
        i = i + 1;
    }
    assert(states.take(templates@.len() as int) =~= states);
    let ghost after_states = views(labels@);
    let mut t: usize = 0;
    assert(tv.take(0) =~= Seq::<Seq<char>>::empty());
    while t < truths.len()
        invariant
            t <= truths@.len(),
            tv == views(truths@),
            keys@.len() == labels@.len(),
            forall|k: int| 0 <= k < labels@.len() ==> keys@[k]@ == labels@[k]@,
            views(labels@) == add_labels(after_states, tv.take(t as int)),
        decreases truths@.len() - t,
    {
        insert_label_exec(&mut labels, &mut keys, truths[t].as_str());
        assert(tv.take(t + 1).drop_last() =~= tv.take(t as int));
        t = t + 1;
    }
    assert(tv.take(truths@.len() as int) =~= tv);
    insert_label_exec(&mut labels, &mut keys, UNKNOWN_LABEL);
    let ghost lv = views(labels@);
    assert(lv == label_list(states, tv));
    proof {
        if !add_labels(add_labels(Seq::empty(), states), tv).contains(UNKNOWN_LABEL@) {
            lemma_insert_pos_in(add_labels(add_labels(Seq::empty(), states), tv), UNKNOWN_LABEL@);
        }
    }
    assert(lv.len() >= 1);
    assert(keys@.map_values(|k: Vec<char>| k@) =~= lv);
    let n = labels.len();
    assert(keys@.len() == n);
    // Label indexes of every test image, true and predicted.
    let mut rows: Vec<usize> = Vec::new();
    let mut cols: Vec<usize> = Vec::new();
    let mut u: usize = 0;
    while u < truths.len()
        invariant
            u <= truths@.len(),
            n == labels@.len(),
            n >= 1,
            tv == views(truths@),
            lv == views(labels@),
            keys@.map_values(|k: Vec<char>| k@) == lv,
            keys@.len() == n,
            matches@.len() == truths@.len(),
            best@.len() == truths@.len(),
            forall|q: int| 0 <= q < matches@.len() ==> #[trigger] matches@[q]@.len() == templates@.len(),
            states == states_of(templates@),
            rows@.len() == u,
            cols@.len() == u,
            forall|q: int| 0 <= q < u ==> #[trigger] rows@[q] as int == label_index(lv, tv[q], 0),
            forall|q: int|
                0 <= q < u ==> #[trigger] cols@[q] as int == label_index(
                    lv,
                    predicted_spec(states, best@[q], matches@[q]@),
                    0,
                ),
            forall|q: int| 0 <= q < u ==> rows@[q] < n && cols@[q] < n,
        decreases truths@.len() - u,
    {
        let tk = chars_of(truths[u].as_str());
        let ti = label_position(&keys, &tk);
        proof {
            lemma_label_index_bounds(lv, tv[u as int], 0);
        }
        let pred: Vec<char> = match best[u] {
            Some(b) => if b < templates.len() && matches[u][b] {
                chars_of(templates[b].1.as_str())
            } else {
                chars_of(UNKNOWN_LABEL)
            },
            None => chars_of(UNKNOWN_LABEL),
        };
        assert(pred@ == predicted_spec(states, best@[u as int], matches@[u as int]@));
        let pi = label_position(&keys, &pred);
        proof {
            lemma_label_index_bounds(lv, pred@, 0);
        }
        rows.push(ti);
        cols.push(pi);
        u = u + 1;
    }
    let ghost rs = true_indexes(lv, tv);
    let ghost cs = predicted_indexes(lv, states, best@, rows_of(matches@));
    assert forall|q: int| 0 <= q < truths@.len() implies rows@[q] as int == rs[q] && cols@[q] as int == cs[q] by {
        assert(rows_of(matches@)[q] == matches@[q]@);
    }
    // The matrix, one cell at a time.
    let mut matrix: Vec<Vec<usize>> = Vec::new();
    let mut a: usize = 0;
    while a < n
        invariant
            a <= n,
            n == labels@.len(),
            matrix@.len() == a,
            rows@.len() == truths@.len(),
            cols@.len() == truths@.len(),
            forall|q: int| 0 <= q < truths@.len() ==> rows@[q] as int == rs[q] && cols@[q] as int == cs[q],
            forall|x: int| 0 <= x < a ==> #[trigger] matrix@[x]@.len() == n,
            forall|x: int, y: int|
                0 <= x < a && 0 <= y < n ==> #[trigger] matrix@[x]@[y] == cell_count(
                    rs,
                    cs,
                    x,
                    y,
                    truths@.len() as int,
                ),
        decreases n - a,
    {
        let mut row: Vec<usize> = Vec::new();
        let mut b: usize = 0;
        while b < n
            invariant
                a < n,
                b <= n,
                row@.len() == b,
                rows@.len() == truths@.len(),
                cols@.len() == truths@.len(),
                forall|q: int| 0 <= q < truths@.len() ==> rows@[q] as int == rs[q] && cols@[q] as int == cs[q],
                forall|y: int| 0 <= y < b ==> #[trigger] row@[y] == cell_count(rs, cs, a as int, y, truths@.len() as int),
            decreases n - b,
        {
            let mut c: usize = 0;
            let mut k: usize = 0;
            while k < rows.len()
                invariant
                    k <= rows@.len(),
                    rows@.len() == truths@.len(),
                    cols@.len() == truths@.len(),
                    forall|q: int| 0 <= q < truths@.len() ==> rows@[q] as int == rs[q] && cols@[q] as int == cs[q],
                    c == cell_count(rs, cs, a as int, b as int, k as int),
                    c <= k,
                decreases rows@.len() - k,
            {
                if rows[k] == a && cols[k] == b {
                    c = c + 1;
                }
                k = k + 1;
            }
            row.push(c);
            b = b + 1;
        }
        matrix.push(row);
        a = a + 1;
    }
    // The counts of every template.
    let mut tallies: Vec<MatchTally> = Vec::new();
    let mut j: usize = 0;
    while j < templates.len()
        invariant
            j <= templates@.len(),
            tallies@.len() == j,
            tv == views(truths@),
            matches@.len() == truths@.len(),
            forall|q: int| 0 <= q < matches@.len() ==> #[trigger] matches@[q]@.len() == templates@.len(),
            forall|x: int|
                0 <= x < j ==> #[trigger] tally_matches(tallies@[x], templates@[x], tv, rows_of(matches@), x),
        decreases templates@.len() - j,
    {
        let state = chars_of(templates[j].1.as_str());
        let ghost mv = rows_of(matches@);
        let mut tp: usize = 0;
        let mut pos: usize = 0;
        let mut fp: usize = 0;
        let mut neg: usize = 0;
        let mut k: usize = 0;
        while k < truths.len()
            invariant
                k <= truths@.len(),
                j < templates@.len(),
                tv == views(truths@),
                state@ == templates@[j as int].1@,
                mv == rows_of(matches@),
                matches@.len() == truths@.len(),
                forall|q: int| 0 <= q < matches@.len() ==> #[trigger] matches@[q]@.len() == templates@.len(),
                tp == tally(tv, mv, state@, j as int, true, true, k as int),
                pos == tally(tv, mv, state@, j as int, true, false, k as int),
                fp == tally(tv, mv, state@, j as int, false, true, k as int),
                neg == tally(tv, mv, state@, j as int, false, false, k as int),
                tp <= k && pos <= k && fp <= k && neg <= k,
            decreases truths@.len() - k,
        {
            let truth = chars_of(truths[k].as_str());
            let hit = matches[k][j];
            assert(mv[k as int] == matches@[k as int]@);
            if seq_eq(&truth, &state) {
                pos = pos + 1;
                if hit {
                    tp = tp + 1;
                }
            } else {
                neg = neg + 1;
                if hit {
                    fp = fp + 1;
                }
            }
            k = k + 1;
        }
        tallies.push(
            MatchTally {
                name: templates[j].0.clone(),
                state: templates[j].1.clone(),
                true_positives: tp,
                positives: pos,
                false_positives: fp,
                negatives: neg,
            },
        );
        j = j + 1;
    }
    ConfusionMatrix { labels, matrix, tallies, total: truths.len() }
}

/// The states of the templates.
pub open spec fn states_of(templates: Seq<(String, String)>) -> Seq<Seq<char>> {
    templates.map_values(|t: (String, String)| t.1@)
}

/// The match rows as plain values.
pub open spec fn rows_of(matches: Seq<Vec<bool>>) -> Seq<Seq<bool>> {
    matches.map_values(|r: Vec<bool>| r@)
}

/// The label index of every true label.
pub open spec fn true_indexes(labels: Seq<Seq<char>>, truths: Seq<Seq<char>>) -> Seq<int> {
    truths.map_values(|x: Seq<char>| label_index(labels, x, 0))
}

/// The label index of every predicted label.
pub open spec fn predicted_indexes(
    labels: Seq<Seq<char>>,
    states: Seq<Seq<char>>,
    best: Seq<Option<usize>>,
    matches: Seq<Seq<bool>>,
) -> Seq<int> {
    Seq::new(best.len(), |t: int| label_index(labels, predicted_spec(states, best[t], matches[t]), 0))
}

/// The counts of template `j` (`(name, state)`) over the test images.
pub open spec fn tally_matches(
    c: MatchTally,
    template: (String, String),
    truths: Seq<Seq<char>>,
    matches: Seq<Seq<bool>>,
    j: int,
) -> bool {
    let n = truths.len() as int;
    &&& c.name@ == template.0@
    &&& c.state@ == template.1@
    &&& c.true_positives == tally(truths, matches, template.1@, j, true, true, n)
    &&& c.positives == tally(truths, matches, template.1@, j, true, false, n)
    &&& c.false_positives == tally(truths, matches, template.1@, j, false, true, n)
    &&& c.negatives == tally(truths, matches, template.1@, j, false, false, n)
}

proof fn lemma_label_index_bounds(labels: Seq<Seq<char>>, x: Seq<char>, from: int)
    requires
        labels.len() >= 1,
        0 <= from,
    ensures
        0 <= label_index(labels, x, from) < labels.len(),
    decreases labels.len() - from,
{
    if from < labels.len() && labels[from] != x {
        lemma_label_index_bounds(labels, x, from + 1);
    }
}

proof fn lemma_insert_pos_in(s: Seq<Seq<char>>, x: Seq<char>)
    ensures
        0 <= insert_pos(s, x, 0) <= s.len(),
{
    lemma_insert_pos_range(s, x, 0);
}

proof fn lemma_insert_pos_range(s: Seq<Seq<char>>, x: Seq<char>, from: int)
    requires
        0 <= from <= s.len(),
    ensures
        from <= insert_pos(s, x, from) <= s.len(),
    decreases s.len() - from,
{
    if from < s.len() && !lex_lt(x, s[from]) {
        lemma_insert_pos_range(s, x, from + 1);
    }
}

proof fn lemma_insert_label(s: Seq<Seq<char>>, x: Seq<char>, y: Seq<char>)
    ensures
        insert_label(s, x).contains(y) <==> (s.contains(y) || y == x),
        s.no_duplicates() ==> insert_label(s, x).no_duplicates(),
{
    if !s.contains(x) {
        lemma_insert_pos_in(s, x);
        let p = insert_pos(s, x, 0);
        let t = s.insert(p, x);
        assert(t[p] == x);
        if s.contains(y) {
            let k = choose|k: int| 0 <= k < s.len() && s[k] == y;
            if k < p {
                assert(t[k] == y);
            } else {
                assert(t[k + 1] == y);
            }
        }
        if t.contains(y) && y != x {
            let k = choose|k: int| 0 <= k < t.len() && t[k] == y;
            if k < p {
                assert(s[k] == y);
            } else {
                assert(k != p);
                assert(s[k - 1] == y);
            }
        }
        if s.no_duplicates() {
            assert forall|a: int, b: int| 0 <= a < t.len() && 0 <= b < t.len() && a != b implies t[a] != t[b] by {
                if a == p {
                    assert(s.contains(t[b])) by {
                        if b < p {
                            assert(s[b] == t[b]);
                        } else {
                            assert(s[b - 1] == t[b]);
                        }
                    }
                } else if b == p {
                    assert(s.contains(t[a])) by {
                        if a < p {
                            assert(s[a] == t[a]);
                        } else {
                            assert(s[a - 1] == t[a]);
                        }
                    }
                } else {
                    let a2 = if a < p { a } else { a - 1 };
                    let b2 = if b < p { b } else { b - 1 };
                    assert(t[a] == s[a2]);
                    assert(t[b] == s[b2]);
                }
            }
        }
    }
}

proof fn lemma_add_labels(s: Seq<Seq<char>>, xs: Seq<Seq<char>>, y: Seq<char>)
    ensures
        add_labels(s, xs).contains(y) <==> (s.contains(y) || xs.contains(y)),
        s.no_duplicates() ==> add_labels(s, xs).no_duplicates(),
    decreases xs.len(),
{
    if xs.len() > 0 {
        lemma_add_labels(s, xs.drop_last(), y);
        lemma_insert_label(add_labels(s, xs.drop_last()), xs.last(), y);
        if xs.contains(y) && y != xs.last() {
            let k = choose|k: int| 0 <= k < xs.len() && xs[k] == y;
            assert(xs.drop_last()[k] == y);
        }
        if xs.drop_last().contains(y) {
            let k = choose|k: int| 0 <= k < xs.len() - 1 && xs.drop_last()[k] == y;
            assert(xs[k] == y);
        }
        if y == xs.last() {
            assert(xs[xs.len() - 1] == y);
        }
    }
}

/// The labels of an evaluation are exactly the template states, the true
/// labels and `unknown`, each once.
pub proof fn law_labels_complete(states: Seq<Seq<char>>, truths: Seq<Seq<char>>, y: Seq<char>)
    ensures
        label_list(states, truths).contains(y) <==> (states.contains(y) || truths.contains(y) || y
            == UNKNOWN_LABEL@),
        label_list(states, truths).no_duplicates(),
{
    let empty = Seq::<Seq<char>>::empty();
    lemma_add_labels(empty, states, y);
    lemma_add_labels(add_labels(empty, states), truths, y);
    lemma_insert_label(add_labels(add_labels(empty, states), truths), UNKNOWN_LABEL@, y);
    assert(empty.no_duplicates());
}

/// Per template, every test image is either of its state or not, and it
/// can only have matched images among each: positives and negatives add up
/// to the number of images, true positives never exceed positives, false
/// positives never exceed negatives.
pub proof fn law_tally_partition(
    truths: Seq<Seq<char>>,
    matches: Seq<Seq<bool>>,
    state: Seq<char>,
    j: int,
    k: int,
)
    requires
        0 <= k,
    ensures
        tally(truths, matches, state, j, true, false, k) + tally(truths, matches, state, j, false, false, k) == k,
        tally(truths, matches, state, j, true, true, k) <= tally(truths, matches, state, j, true, false, k),
        tally(truths, matches, state, j, false, true, k) <= tally(truths, matches, state, j, false, false, k),
    decreases k,
{
    if k > 0 {
        law_tally_partition(truths, matches, state, j, k - 1);
    }
}

proof fn lemma_lex_irreflexive(a: Seq<char>)
    ensures
        !lex_lt(a, a),
    decreases a.len(),
{
    if a.len() > 0 {
        lemma_lex_irreflexive(a.drop_first());
    }
}

proof fn lemma_lex_total(a: Seq<char>, b: Seq<char>)
    requires
        a != b,
    ensures
        lex_lt(a, b) || lex_lt(b, a),
        !(lex_lt(a, b) && lex_lt(b, a)),
    decreases a.len(),
{
    if a.len() > 0 && b.len() > 0 && a[0] == b[0] {
        if a.drop_first() == b.drop_first() {
            assert(a =~= seq![a[0]] + a.drop_first());
            assert(b =~= seq![b[0]] + b.drop_first());
        }
        lemma_lex_total(a.drop_first(), b.drop_first());
    } else if a.len() == 0 && b.len() == 0 {
        assert(a =~= b);
    } else if a.len() > 0 && b.len() > 0 {
        let x = a[0];
        let y = b[0];
        vstd::utf8::char_u32_cast(x, x as u32);
        vstd::utf8::char_u32_cast(y, y as u32);
    }
}

proof fn lemma_lex_transitive(a: Seq<char>, b: Seq<char>, c: Seq<char>)
    requires
        lex_lt(a, b),
        lex_lt(b, c),
    ensures
        lex_lt(a, c),
    decreases a.len(),
{
    if a.len() > 0 && b.len() > 0 && c.len() > 0 && a[0] == b[0] && b[0] == c[0] {
        lemma_lex_transitive(a.drop_first(), b.drop_first(), c.drop_first());
    }
}

/// Whether `s` is strictly increasing.
pub open spec fn strictly_sorted(s: Seq<Seq<char>>) -> bool {
    forall|a: int, b: int| 0 <= a < b < s.len() ==> lex_lt(#[trigger] s[a], #[trigger] s[b])
}

proof fn lemma_insert_pos_split(s: Seq<Seq<char>>, x: Seq<char>, from: int)
    requires
        0 <= from <= s.len(),
        forall|k: int| 0 <= k < from ==> !lex_lt(x, #[trigger] s[k]),
    ensures
        forall|k: int| 0 <= k < insert_pos(s, x, from) ==> !lex_lt(x, #[trigger] s[k]),
        insert_pos(s, x, from) < s.len() ==> lex_lt(x, s[insert_pos(s, x, from)]),
    decreases s.len() - from,
{
    if from < s.len() && !lex_lt(x, s[from]) {
        lemma_insert_pos_split(s, x, from + 1);
    }
}

proof fn lemma_insert_label_sorted(s: Seq<Seq<char>>, x: Seq<char>)
    requires
        strictly_sorted(s),
    ensures
        strictly_sorted(insert_label(s, x)),
{
    if !s.contains(x) {
        lemma_insert_pos_in(s, x);
        lemma_insert_pos_split(s, x, 0);
        let p = insert_pos(s, x, 0);
        let t = s.insert(p, x);
        assert forall|k: int| 0 <= k < p implies lex_lt(#[trigger] s[k], x) by {
            assert(s[k] != x);
            lemma_lex_total(s[k], x);
        }
        assert forall|k: int| p <= k < s.len() implies lex_lt(x, #[trigger] s[k]) by {
            if k > p {
                lemma_lex_transitive(x, s[p], s[k]);
            }
        }
        assert forall|a: int, b: int| 0 <= a < b < t.len() implies lex_lt(#[trigger] t[a], #[trigger] t[b]) by {
            if a == p {
                assert(t[b] == s[b - 1]);
            } else if b == p {
                assert(t[a] == s[a]);
            } else {
                let a2 = if a < p { a } else { a - 1 };
                let b2 = if b < p { b } else { b - 1 };
                assert(t[a] == s[a2]);
                assert(t[b] == s[b2]);
            }
        }
    }
}

proof fn lemma_add_labels_sorted(s: Seq<Seq<char>>, xs: Seq<Seq<char>>)
    requires
        strictly_sorted(s),
    ensures
        strictly_sorted(add_labels(s, xs)),
    decreases xs.len(),
{
    if xs.len() > 0 {
        lemma_add_labels_sorted(s, xs.drop_last());
        lemma_insert_label_sorted(add_labels(s, xs.drop_last()), xs.last());
    }
}

/// The labels of an evaluation are in strictly increasing order (code
/// point order, which is the byte order of their UTF-8 text).
pub proof fn law_labels_sorted(states: Seq<Seq<char>>, truths: Seq<Seq<char>>)
    ensures
        strictly_sorted(label_list(states, truths)),
{
    let empty = Seq::<Seq<char>>::empty();
    lemma_add_labels_sorted(empty, states);
    lemma_add_labels_sorted(add_labels(empty, states), truths);
    lemma_insert_label_sorted(add_labels(add_labels(empty, states), truths), UNKNOWN_LABEL@);
}

/// The cells `(a, 0..nb)` of the first `k` pairs, added up.
pub open spec fn row_sum(rows: Seq<int>, cols: Seq<int>, a: int, nb: int, k: int) -> int
    decreases nb,
{
    if nb <= 0 {
        0
    } else {
        row_sum(rows, cols, a, nb - 1, k) + cell_count(rows, cols, a, nb - 1, k)
    }
}

/// The cells `(0..na, 0..nb)` of the first `k` pairs, added up.
pub open spec fn grid_sum(rows: Seq<int>, cols: Seq<int>, na: int, nb: int, k: int) -> int
    decreases na,
{
    if na <= 0 {
        0
    } else {
        grid_sum(rows, cols, na - 1, nb, k) + row_sum(rows, cols, na - 1, nb, k)
    }
}

proof fn lemma_row_step(rows: Seq<int>, cols: Seq<int>, a: int, nb: int, k: int)
    requires
        k > 0,
        nb >= 0,
    ensures
        row_sum(rows, cols, a, nb, k) == row_sum(rows, cols, a, nb, k - 1) + if rows[k - 1] == a && 0
            <= cols[k - 1] < nb {
            1int
        } else {
            0int
        },
    decreases nb,
{
    if nb > 0 {
        lemma_row_step(rows, cols, a, nb - 1, k);
    }
}

proof fn lemma_grid_step(rows: Seq<int>, cols: Seq<int>, na: int, nb: int, k: int)
    requires
        k > 0,
        na >= 0,
        nb >= 0,
    ensures
        grid_sum(rows, cols, na, nb, k) == grid_sum(rows, cols, na, nb, k - 1) + if 0 <= rows[k - 1] < na
            && 0 <= cols[k - 1] < nb {
            1int
        } else {
            0int
        },
    decreases na,
{
    if na > 0 {
        lemma_grid_step(rows, cols, na - 1, nb, k);
        lemma_row_step(rows, cols, na - 1, nb, k);
    }
}

proof fn lemma_grid_total(rows: Seq<int>, cols: Seq<int>, n: int, k: int)
    requires
        0 <= k <= rows.len(),
        k <= cols.len(),
        n >= 0,
        forall|q: int| 0 <= q < k ==> 0 <= #[trigger] rows[q] < n && 0 <= cols[q] < n,
    ensures
        grid_sum(rows, cols, n, n, k) == k,
    decreases k,
{
    if k > 0 {
        lemma_grid_total(rows, cols, n, k - 1);
        lemma_grid_step(rows, cols, n, n, k);
    } else {
        lemma_grid_zero(rows, cols, n, n);
    }
}

proof fn lemma_grid_zero(rows: Seq<int>, cols: Seq<int>, na: int, nb: int)
    ensures
        grid_sum(rows, cols, na, nb, 0) == 0,
    decreases na,
{
    if na > 0 {
        lemma_grid_zero(rows, cols, na - 1, nb);
        lemma_row_zero(rows, cols, na - 1, nb);
    }
}

proof fn lemma_row_zero(rows: Seq<int>, cols: Seq<int>, a: int, nb: int)
    ensures
        row_sum(rows, cols, a, nb, 0) == 0,
    decreases nb,
{
    if nb > 0 {
        lemma_row_zero(rows, cols, a, nb - 1);
    }
}

/// Every test image lands in exactly one cell of the matrix: over all pairs
/// of labels, the cells add up to the number of images.
pub proof fn law_matrix_counts_every_image(
    labels: Seq<Seq<char>>,
    states: Seq<Seq<char>>,
    truths: Seq<Seq<char>>,
    best: Seq<Option<usize>>,
    matches: Seq<Seq<bool>>,
)
    requires
        labels.len() >= 1,
        best.len() == truths.len(),
    ensures
        grid_sum(
            true_indexes(labels, truths),
            predicted_indexes(labels, states, best, matches),
            labels.len() as int,
            labels.len() as int,
            truths.len() as int,
        ) == truths.len(),
{
    let rows = true_indexes(labels, truths);
    let cols = predicted_indexes(labels, states, best, matches);
    assert forall|q: int| 0 <= q < truths.len() implies 0 <= #[trigger] rows[q] < labels.len() && 0 <= cols[q]
        < labels.len() by {
        lemma_label_index_bounds(labels, truths[q], 0);
        lemma_label_index_bounds(labels, predicted_spec(states, best[q], matches[q]), 0);
    }
    lemma_grid_total(rows, cols, labels.len() as int, truths.len() as int);
}

} // verus!
