//! The strategy catalog: selectable pipelines and their options, and the
//! user's selection.
use vstd::prelude::*;
use vstd::string::*;

use crate::routine::{insert_pos, lex_lt};
use crate::text::{chars_of, owned, seq_eq, views};

verus! {

/// An on/off option of a strategy.
#[derive(Debug, Clone, PartialEq, Eq)]
pub struct StrategyOptionDef {
    /// Option id (settings key).
    pub id: String,
    /// Display label.
    pub label: String,
    /// Default value.
    pub default: bool,
}

/// A selectable strategy: a pipeline that exists in the repository.
#[derive(Debug, Clone, PartialEq, Eq)]
pub struct StrategyDef {
    /// Strategy id (= directory name under `templates/pipelines/`).
    pub id: String,
    /// Display label.
    pub label: String,
    /// Options.
    pub options: Vec<StrategyOptionDef>,
    /// Pipeline directory handed to `anaden run`.
    pub pipeline_dir: String,
    /// Start task name.
    pub start_task: String,
    /// Matching algorithm (`sse` or `ccoeff`).
    pub algorithm: String,
    /// `--target` override.
    pub target: Option<String>,
}

/// The `anaden run` arguments of a strategy.
pub open spec fn run_args_spec(d: StrategyDef) -> Seq<Seq<char>> {
    let head = seq!["run"@, "--algorithm"@, d.algorithm@];
    let with_target = match d.target {
        Some(t) => head + seq!["--target"@, t@],
        None => head,
    };
    with_target + seq![d.pipeline_dir@, d.start_task@]
}

impl StrategyDef {
    /// The `anaden run` arguments: `run --algorithm <algorithm>`, then
    /// `--target <target>` when a target is set, then the pipeline directory
    /// and the start task.
    pub fn to_run_args(&self) -> (out: Vec<String>)
        ensures
            views(out@) == run_args_spec(*self),
    {
        let mut args: Vec<String> = Vec::new();
        args.push(String::from_str("run"));
        args.push(String::from_str("--algorithm"));
        args.push(self.algorithm.clone());
        if let Some(target) = &self.target {
            args.push(String::from_str("--target"));
            args.push(target.clone());
        }
        args.push(self.pipeline_dir.clone());
        args.push(self.start_task.clone());
        assert(views(args@) =~= run_args_spec(*self));
        args
    }
}

/// `d` has exactly these catalog fields and no options.
pub open spec fn def_is(
    d: StrategyDef,
    id: Seq<char>,
    label: Seq<char>,
    pipeline_dir: Seq<char>,
    start_task: Seq<char>,
    algorithm: Seq<char>,
    target: Option<Seq<char>>,
) -> bool {
    &&& d.id@ == id
    &&& d.label@ == label
    &&& d.options@.len() == 0
    &&& d.pipeline_dir@ == pipeline_dir
    &&& d.start_task@ == start_task
    &&& d.algorithm@ == algorithm
    &&& match d.target {
        Some(t) => target == Some(t@),
        None => target is None,
    }
}

fn pipeline_def(
    id: &str,
    label: &str,
    pipeline_dir: &str,
    start_task: &str,
    algorithm: &str,
    target: Option<&str>,
) -> (d: StrategyDef)
    ensures
        def_is(
            d,
            id@,
            label@,
            pipeline_dir@,
            start_task@,
            algorithm@,
            match target {
                Some(t) => Some(t@),
                None => None,
            },
        ),
{
    StrategyDef {
        id: owned(id),
        label: owned(label),
        options: Vec::new(),
        pipeline_dir: owned(pipeline_dir),
        start_task: owned(start_task),
        algorithm: owned(algorithm),
        target: match target {
            Some(t) => Some(owned(t)),
            None => None,
        },
    }
}

/// The catalog of strategies.
#[derive(Debug, Clone, PartialEq, Eq)]
pub struct StrategyCatalog {
    strategies: Vec<StrategyDef>,
}

/// The built-in catalog: the six pipelines that exist under `templates/pipelines/`.
pub open spec fn builtin_spec(s: Seq<StrategyDef>) -> bool {
    &&& s.len() == 6
    &&& def_is(
        s[0],
        "field_loop"@,
        "フィールド周回（Android 20:9）"@,
        "templates/pipelines/field_loop"@,
        "TapBottomStable"@,
        "ccoeff"@,
        None,
    )
    &&& def_is(
        s[1],
        "field_loop_pc"@,
        "フィールド周回（PC 16:9）"@,
        "templates/pipelines/field_loop_pc"@,
        "TapBottomStablePc"@,
        "ccoeff"@,
        Some("windows"@),
    )
    &&& def_is(
        s[2],
        "nav_to_field"@,
        "フィールドへ遷移（Android 20:9）"@,
        "templates/pipelines/nav_to_field"@,
        "DismissDailyPopup"@,
        "ccoeff"@,
        None,
    )
    &&& def_is(
        s[3],
        "nav_to_field_pc"@,
        "フィールドへ遷移（PC 16:9 コールドスタート）"@,
        "templates/pipelines/nav_to_field_pc"@,
        "TapToStartPc"@,
        "ccoeff"@,
        Some("windows"@),
    )
    &&& def_is(
        s[4],
        "worldmap_loop"@,
        "ワールドマップ周回（古代タブ）"@,
        "templates/pipelines/worldmap_loop"@,
        "TapAncientTab"@,
        "ccoeff"@,
        None,
    )
    &&& def_is(
        s[5],
        "_title_load"@,
        "タイトル→ロード（実験用）"@,
        "templates/pipelines/_title_load"@,
        "LoadGame"@,
        "ccoeff"@,
        None,
    )
}

/// The index of the first strategy with this id.
pub open spec fn is_first_id(s: Seq<StrategyDef>, id: Seq<char>, i: int) -> bool {
    0 <= i < s.len() && s[i].id@ == id && forall|j: int| 0 <= j < i ==> s[j].id@ != id
}

impl StrategyCatalog {
    /// The strategies of this catalog.
    pub closed spec fn defs(self) -> Seq<StrategyDef> {
        self.strategies@
    }

    /// The built-in catalog (see [`builtin_spec`]).
    pub fn builtin() -> (c: StrategyCatalog)
        ensures
            builtin_spec(c.defs()),
    {
        let mut v: Vec<StrategyDef> = Vec::new();
        v.push(
            pipeline_def(
                "field_loop",
                "フィールド周回（Android 20:9）",
                "templates/pipelines/field_loop",
                "TapBottomStable",
                "ccoeff",
                None,
            ),
        );
        v.push(
            pipeline_def(
                "field_loop_pc",
                "フィールド周回（PC 16:9）",
                "templates/pipelines/field_loop_pc",
                "TapBottomStablePc",
                "ccoeff",
                Some("windows"),
            ),
        );
        v.push(
            pipeline_def(
                "nav_to_field",
                "フィールドへ遷移（Android 20:9）",
                "templates/pipelines/nav_to_field",
                "DismissDailyPopup",
                "ccoeff",
                None,
            ),
        );
        v.push(
            pipeline_def(
                "nav_to_field_pc",
                "フィールドへ遷移（PC 16:9 コールドスタート）",
                "templates/pipelines/nav_to_field_pc",
                "TapToStartPc",
                "ccoeff",
                Some("windows"),
            ),
        );
        v.push(
            pipeline_def(
                "worldmap_loop",
                "ワールドマップ周回（古代タブ）",
                "templates/pipelines/worldmap_loop",
                "TapAncientTab",
                "ccoeff",
                None,
            ),
        );
        v.push(
            pipeline_def(
                "_title_load",
                "タイトル→ロード（実験用）",
                "templates/pipelines/_title_load",
                "LoadGame",
                "ccoeff",
                None,
            ),
        );
        StrategyCatalog { strategies: v }
    }

    /// The strategy definitions.
    pub fn strategies(&self) -> (r: &[StrategyDef])
        ensures
            r@ == self.defs(),
    {
        self.strategies.as_slice()
    }

    /// The first strategy with this id.
    pub fn find(&self, id: &str) -> (r: Option<&StrategyDef>)
        ensures
            match r {
                Some(d) => exists|i: int| is_first_id(self.defs(), id@, i) && *d == self.defs()[i],
                None => forall|i: int| 0 <= i < self.defs().len() ==> self.defs()[i].id@ != id@,
            },
    {
        let key = chars_of(id);
        let mut i: usize = 0;
        while i < self.strategies.len()
            invariant
                i <= self.strategies.len(),
                key@ == id@,
                forall|j: int| 0 <= j < i ==> self.strategies@[j].id@ != id@,
            decreases self.strategies.len() - i,
        {
            let k = chars_of(self.strategies[i].id.as_str());
            if seq_eq(&k, &key) {
                assert(is_first_id(self.defs(), id@, i as int));
                return Some(&self.strategies[i]);
            }
            i = i + 1;
        }
        None
    }

    /// The selection with no strategy chosen and every option at its default.
    pub fn default_selection(&self) -> (s: StrategySelection)
        ensures
            s.strategy is None,
            option_entries(s.options@) == fold_options(Seq::empty(), default_pairs(self.defs())),
    {
        StrategySelection::from_defaults(self)
    }
}

// ---------------------------------------------------------------------------
// Selections
// ---------------------------------------------------------------------------

/// The user's selection: a strategy id and option values keyed
/// `<strategy_id>.<option_id>`, kept ordered by key with each key once.
#[derive(Debug, Clone, PartialEq, Eq)]
pub struct StrategySelection {
    /// The chosen strategy id.
    pub strategy: Option<String>,
    /// Option values, ordered by key.
    pub options: Vec<(String, bool)>,
}

impl Default for StrategySelection {
    fn default() -> (s: Self)
        ensures
            s.strategy is None,
            s.options@.len() == 0,
    {
        StrategySelection { strategy: None, options: Vec::new() }
    }
}

/// The views of option entries.
pub open spec fn option_entries(v: Seq<(String, bool)>) -> Seq<(Seq<char>, bool)> {
    v.map_values(|e: (String, bool)| (e.0@, e.1))
}

/// The key of an option: `<strategy_id>.<option_id>`.
pub open spec fn option_key(strategy_id: Seq<char>, option_id: Seq<char>) -> Seq<char> {
    strategy_id + "."@ + option_id
}

/// `i` is the first entry with this key.
pub open spec fn is_first_key(e: Seq<(Seq<char>, bool)>, key: Seq<char>, i: int) -> bool {
    0 <= i < e.len() && e[i].0 == key && forall|j: int| 0 <= j < i ==> e[j].0 != key
}

/// The value stored for `key`, if any.
pub open spec fn lookup(e: Seq<(Seq<char>, bool)>, key: Seq<char>) -> Option<bool> {
    if exists|i: int| is_first_key(e, key, i) {
        Some(e[choose|i: int| is_first_key(e, key, i)].1)
    } else {
        None
    }
}

/// The keys of entries.
pub open spec fn keys_of(e: Seq<(Seq<char>, bool)>) -> Seq<Seq<char>> {
    e.map_values(|x: (Seq<char>, bool)| x.0)
}

/// Entries after setting `key` to `value`: the existing entry is overwritten,
/// or a new one goes before the first key that sorts after `key`.
pub open spec fn set_spec(e: Seq<(Seq<char>, bool)>, key: Seq<char>, value: bool) -> Seq<(Seq<char>, bool)> {
    if exists|i: int| is_first_key(e, key, i) {
        e.update(choose|i: int| is_first_key(e, key, i), (key, value))
    } else {
        e.insert(insert_pos(keys_of(e), key, 0), (key, value))
    }
}

/// Applies `set_spec` for every pair, in order.
pub open spec fn fold_options(e: Seq<(Seq<char>, bool)>, pairs: Seq<(Seq<char>, bool)>) -> Seq<
    (Seq<char>, bool),
>
    decreases pairs.len(),
{
    if pairs.len() == 0 {
        e
    } else {
        set_spec(fold_options(e, pairs.drop_last()), pairs.last().0, pairs.last().1)
    }
}

/// The `(key, default)` pairs of the options of the given strategies, in order.
pub open spec fn default_pairs(s: Seq<StrategyDef>) -> Seq<(Seq<char>, bool)>
    decreases s.len(),
{
    if s.len() == 0 {
        Seq::empty()
    } else {
        default_pairs(s.drop_last()) + s.last().options@.map_values(
            |o: StrategyOptionDef| (option_key(s.last().id@, o.id@), o.default),
        )
    }
}

fn key_of(strategy_id: &str, option_id: &str) -> (k: String)
    ensures
        k@ == option_key(strategy_id@, option_id@),
{
    let mut k = owned(strategy_id);
    k.append(".");
    k.append(option_id);
    k
}

proof fn lemma_insert_pos_le(s: Seq<Seq<char>>, x: Seq<char>, from: int)
    requires
        0 <= from <= s.len(),
    ensures
        from <= insert_pos(s, x, from) <= s.len(),
    decreases s.len() - from,
{
    if from < s.len() && !lex_lt(x, s[from]) {
        lemma_insert_pos_le(s, x, from + 1);
    }
}

fn set_entry(options: &mut Vec<(String, bool)>, key: String, value: bool)
    ensures
        option_entries(final(options)@) == set_spec(option_entries(old(options)@), key@, value),
{
    let ghost e = option_entries(options@);
    let k = chars_of(key.as_str());
    let mut i: usize = 0;
    while i < options.len()
        invariant
            i <= options.len(),
            e == option_entries(options@),
            e == option_entries(old(options)@),
            k@ == key@,
            forall|j: int| 0 <= j < i ==> e[j].0 != key@,
        decreases options.len() - i,
    {
        let c = chars_of(options[i].0.as_str());
        if seq_eq(&c, &k) {
            assert(is_first_key(e, key@, i as int));
            assert forall|m: int| is_first_key(e, key@, m) implies m == i by {
                if m > i {
                    assert(e[i as int].0 == key@);
                }
            }
            let ghost key_view = key@;
            options.set(i, (key, value));
            assert(option_entries(options@) =~= e.update(i as int, (key_view, value)));
            return ;
        }
        i = i + 1;
    }
    assert(!exists|m: int| is_first_key(e, key@, m));
    let ghost ks = keys_of(e);
    let mut j: usize = 0;
    while j < options.len() && !crate::routine::lex_lt_chars(&k, &chars_of(options[j].0.as_str()))
        invariant
            j <= options.len(),
            e == option_entries(options@),
            ks == keys_of(e),
            ks.len() == options@.len(),
            forall|m: int| 0 <= m < ks.len() ==> ks[m] == options@[m].0@,
            k@ == key@,
            insert_pos(ks, key@, j as int) == insert_pos(ks, key@, 0),
        decreases options.len() - j,
    {
        j = j + 1;
    }
    proof {
        lemma_insert_pos_le(ks, key@, 0);
    }
    let ghost key_view = key@;
    options.insert(j, (key, value));
    assert(option_entries(options@) =~= e.insert(j as int, (key_view, value)));
}

fn lookup_entry(options: &Vec<(String, bool)>, key: &str) -> (r: Option<bool>)
    ensures
        r == lookup(option_entries(options@), key@),
{
    let ghost e = option_entries(options@);
    let k = chars_of(key);
    let mut i: usize = 0;
    while i < options.len()
        invariant
            i <= options.len(),
            e == option_entries(options@),
            k@ == key@,
            forall|j: int| 0 <= j < i ==> e[j].0 != key@,
        decreases options.len() - i,
    {
        let c = chars_of(options[i].0.as_str());
        if seq_eq(&c, &k) {
            assert(is_first_key(e, key@, i as int));
            assert forall|m: int| is_first_key(e, key@, m) implies m == i by {
                if m > i {
                    assert(e[i as int].0 == key@);
                }
            }
            return Some(options[i].1);
        }
        i = i + 1;
    }
    assert(!exists|m: int| is_first_key(e, key@, m));
    None
}

/// Why a selection is invalid.
#[derive(Debug, Clone, PartialEq, Eq)]
pub enum SelectionError {
    /// The selected strategy is not in the catalog.
    UnknownStrategy { id: String },
}

impl StrategySelection {
    /// The selection built from the catalog's defaults: no strategy, every
    /// option at its default (later duplicates of a key win).
    pub fn from_defaults(catalog: &StrategyCatalog) -> (s: StrategySelection)
        ensures
            s.strategy is None,
            option_entries(s.options@) == fold_options(Seq::empty(), default_pairs(catalog.defs())),
    {
        let mut options: Vec<(String, bool)> = Vec::new();
        let ghost strats = catalog.defs();
        let mut i: usize = 0;
        assert(option_entries(options@) =~= Seq::empty());
        while i < catalog.strategies.len()
            invariant
                i <= catalog.strategies.len(),
                strats == catalog.defs(),
                option_entries(options@) == fold_options(Seq::empty(), default_pairs(strats.take(i as int))),
            decreases catalog.strategies.len() - i,
        {
            let s = &catalog.strategies[i];
            let ghost before = default_pairs(strats.take(i as int));
            let ghost added = s.options@.map_values(
                |o: StrategyOptionDef| (option_key(s.id@, o.id@), o.default),
            );
            assert(strats.take(i + 1).drop_last() =~= strats.take(i as int));
            assert(default_pairs(strats.take(i + 1)) == before + added);
            let mut j: usize = 0;
            while j < s.options.len()
                invariant
                    j <= s.options.len(),
                    added == s.options@.map_values(
                        |o: StrategyOptionDef| (option_key(s.id@, o.id@), o.default),
                    ),
                    option_entries(options@) == fold_options(Seq::empty(), before + added.take(j as int)),
                decreases s.options.len() - j,
            {
                let o = &s.options[j];
                let key = key_of(s.id.as_str(), o.id.as_str());
                set_entry(&mut options, key, o.default);
                assert((before + added.take(j + 1)).drop_last() =~= before + added.take(j as int));
                assert((before + added.take(j + 1)).last() == added[j as int]);
                j = j + 1;
            }
            assert(added.take(s.options.len() as int) =~= added);
            i = i + 1;
        }
        assert(strats.take(strats.len() as int) =~= strats);
        StrategySelection { strategy: None, options }
    }

    /// The value of option `option_id` of strategy `strategy_id`, if stored.
    pub fn option(&self, strategy_id: &str, option_id: &str) -> (r: Option<bool>)
        ensures
            r == lookup(option_entries(self.options@), option_key(strategy_id@, option_id@)),
    {
        let key = key_of(strategy_id, option_id);
        lookup_entry(&self.options, key.as_str())
    }

    /// Sets option `option_id` of strategy `strategy_id`.
    pub fn set_option(&mut self, strategy_id: &str, option_id: &str, value: bool)
        ensures
            final(self).strategy == old(self).strategy,
            option_entries(final(self).options@) == set_spec(
                option_entries(old(self).options@),
                option_key(strategy_id@, option_id@),
                value,
            ),
    {
        let key = key_of(strategy_id, option_id);
        set_entry(&mut self.options, key, value);
    }

    /// Checks the selection against a catalog: a chosen strategy must exist.
    pub fn validate(&self, catalog: &StrategyCatalog) -> (r: Result<(), SelectionError>)
        ensures
            match self.strategy {
                Some(id) => match r {
                    Ok(()) => exists|i: int|
                        0 <= i < catalog.defs().len() && catalog.defs()[i].id@ == id@,
                    Err(SelectionError::UnknownStrategy { id: e }) => e@ == id@ && forall|i: int|
                        0 <= i < catalog.defs().len() ==> catalog.defs()[i].id@ != id@,
                },
                None => r is Ok,
            },
    {
        if let Some(id) = &self.strategy {
            if catalog.find(id.as_str()).is_none() {
                return Err(SelectionError::UnknownStrategy { id: id.clone() });
            }
        }
        Ok(())
    }
}

/// After setting a key, reading it gives the value just set.
pub proof fn law_set_then_get(e: Seq<(Seq<char>, bool)>, key: Seq<char>, value: bool)
    ensures
        lookup(set_spec(e, key, value), key) == Some(value),
{
    let r = set_spec(e, key, value);
    if exists|i: int| is_first_key(e, key, i) {
        let i = choose|i: int| is_first_key(e, key, i);
        assert(is_first_key(r, key, i));
        assert forall|m: int| is_first_key(r, key, m) implies m == i by {
            if m > i {
                assert(r[i].0 == key);
            }
        }
    } else {
        let p = insert_pos(keys_of(e), key, 0);
        lemma_insert_pos_le(keys_of(e), key, 0);
        assert forall|j: int| 0 <= j < p implies r[j].0 != key by {
            assert(r[j] == e[j]);
            if e[j].0 == key {
                assert(exists|i: int| is_first_key(e, key, i)) by {
                    lemma_first_key_exists(e, key, j);
                }
            }
        }
        assert(is_first_key(r, key, p));
        assert forall|m: int| is_first_key(r, key, m) implies m == p by {
            if m > p {
                assert(r[p].0 == key);
            }
        }
    }
}

/// Setting one key leaves the value of every other key unchanged.
pub proof fn law_set_keeps_other_keys(e: Seq<(Seq<char>, bool)>, key: Seq<char>, other: Seq<char>, value: bool)
    requires
        other != key,
    ensures
        lookup(set_spec(e, key, value), other) == lookup(e, other),
{
    let r = set_spec(e, key, value);
    if exists|i: int| is_first_key(e, key, i) {
        let i = choose|i: int| is_first_key(e, key, i);
        assert forall|m: int| is_first_key(r, other, m) <==> is_first_key(e, other, m) by {
            if 0 <= m < e.len() {
                assert forall|j: int| 0 <= j < m implies (r[j].0 != other <==> e[j].0 != other) by {
                    if j == i {
                    }
                }
            }
        }
    } else {
        let p = insert_pos(keys_of(e), key, 0);
        lemma_insert_pos_le(keys_of(e), key, 0);
        assert forall|m: int| is_first_key(e, other, m) implies is_first_key(r, other, if m < p {
            m
        } else {
            m + 1
        }) by {
            let mm = if m < p {
                m
            } else {
                m + 1
            };
            assert forall|j: int| 0 <= j < mm implies r[j].0 != other by {
                if j < p {
                    assert(r[j] == e[j]);
                } else if j > p {
                    assert(r[j] == e[j - 1]);
                }
            }
        }
        assert forall|m: int| is_first_key(r, other, m) implies is_first_key(e, other, if m < p {
            m
        } else {
            m - 1
        }) by {
            assert(m != p);
            let mm = if m < p {
                m
            } else {
                m - 1
            };
            assert forall|j: int| 0 <= j < mm implies e[j].0 != other by {
                if j < p {
                    assert(r[j] == e[j]);
                } else {
                    assert(r[j + 1] == e[j]);
                }
            }
        }
        if exists|m: int| is_first_key(e, other, m) {
            let m = choose|m: int| is_first_key(e, other, m);
            let mm = if m < p {
                m
            } else {
                m + 1
            };
            assert(is_first_key(r, other, mm));
            assert forall|q: int| is_first_key(r, other, q) implies q == mm by {
                if q < mm {
                    assert(r[q].0 != other);
                } else if q > mm {
                    assert(r[mm].0 == other);
                }
            }
        }
        if exists|m: int| is_first_key(r, other, m) {
            let m = choose|m: int| is_first_key(r, other, m);
            let mm = if m < p {
                m
            } else {
                m - 1
            };
            assert(is_first_key(e, other, mm));
        }
    }
}

proof fn lemma_first_key_exists(e: Seq<(Seq<char>, bool)>, key: Seq<char>, k: int)
    requires
        0 <= k < e.len(),
        e[k].0 == key,
    ensures
        exists|i: int| is_first_key(e, key, i),
    decreases k,
{
    if forall|j: int| 0 <= j < k ==> e[j].0 != key {
        assert(is_first_key(e, key, k));
    } else {
        let j = choose|j: int| 0 <= j < k && e[j].0 == key;
        lemma_first_key_exists(e, key, j);
    }
}

} // verus!
