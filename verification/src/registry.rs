//! Mini-game strategies registered by name.
//!
//! Registering under a name already taken replaces that strategy. Lookups
//! ask the strategies in turn, through a closure that puts the question to
//! one strategy, and return the first that says yes.
use vstd::prelude::*;
use crate::text::{chars_of, seq_eq};

verus! {

/// The registered strategies.
pub struct StrategyRegistry<S> {
    strategies: Vec<(String, S)>,
}

/// The names of registered entries, in order.
pub open spec fn entry_names<S>(v: Seq<(String, S)>) -> Seq<Seq<char>> {
    v.map_values(|e: (String, S)| e.0@)
}

/// No name is registered twice.
pub open spec fn names_distinct(names: Seq<Seq<char>>) -> bool {
    forall|i: int, j: int| 0 <= i < j < names.len() ==> names[i] != names[j]
}

impl<S> StrategyRegistry<S> {
    /// The registered names, in registration order.
    pub closed spec fn names(&self) -> Seq<Seq<char>> {
        entry_names(self.strategies@)
    }

    /// The registered strategies, in the order of [`StrategyRegistry::names`].
    pub closed spec fn entries(&self) -> Seq<S> {
        self.strategies@.map_values(|e: (String, S)| e.1)
    }

    /// Each name is registered once.
    pub closed spec fn wf(&self) -> bool {
        names_distinct(self.names())
    }

    /// An empty registry.
    pub fn new() -> (r: StrategyRegistry<S>)
        ensures
            r.wf(),
            r.names() == Seq::<Seq<char>>::empty(),
            r.entries() == Seq::<S>::empty(),
    {
        let r = StrategyRegistry { strategies: Vec::new() };
        assert(r.names() =~= Seq::<Seq<char>>::empty());
        assert(r.entries() =~= Seq::<S>::empty());
        r
    }

    /// Registers `strategy` under `name`; a strategy already registered
    /// under that name is replaced, in its place.
    pub fn register(&mut self, name: &str, strategy: S)
        requires
            old(self).wf(),
        ensures
            final(self).wf(),
            old(self).names().contains(name@) ==> {
                let i = old(self).names().index_of(name@);
                &&& final(self).names() == old(self).names()
                &&& final(self).entries() == old(self).entries().update(i, strategy)
            },
            !old(self).names().contains(name@) ==> {
                &&& final(self).names() == old(self).names().push(name@)
                &&& final(self).entries() == old(self).entries().push(strategy)
            },
    {
        let key = chars_of(name);
        let ghost names0 = self.names();
        let ghost entries0 = self.entries();
        let mut i: usize = 0;
        while i < self.strategies.len()
            invariant
                i <= self.strategies.len(),
                self.names() == names0,
                self.entries() == entries0,
                names0 == old(self).names(),
                entries0 == old(self).entries(),
                names_distinct(names0),
                names0.len() == self.strategies.len(),
                key@ == name@,
                forall|j: int| 0 <= j < i ==> names0[j] != name@,
            decreases self.strategies.len() - i,
        {
            let k = chars_of(self.strategies[i].0.as_str());
            if seq_eq(&k, &key) {
                proof {
                    assert(names0[i as int] == name@);
                    assert(names0.contains(name@));
                    names0.index_of_first_ensures(name@);
                    assert(names0.index_of(name@) == i as int) by {
                        let f = names0.index_of(name@);
                        if f != i as int {
                            assert(names0[f] == name@);
                        }
                    }
                }
                let old_name = self.strategies[i].0.clone();
                self.strategies.set(i, (old_name, strategy));
                assert(self.names() =~= names0);
                assert(self.entries() =~= entries0.update(i as int, strategy));
                return ;
            }
            i = i + 1;
        }
        assert(!names0.contains(name@));
        self.strategies.push((String::from_str(name), strategy));
        assert(self.names() =~= names0.push(name@));
        assert(self.entries() =~= entries0.push(strategy));
    }

    /// How many strategies are registered.
    pub fn len(&self) -> (n: usize)
        ensures
            n == self.names().len(),
    {
        self.strategies.len()
    }

    /// Whether no strategy is registered.
    pub fn is_empty(&self) -> (b: bool)
        ensures
            b == (self.names().len() == 0),
    {
        self.strategies.len() == 0
    }

    fn find_first<F: Fn(&S) -> bool>(&self, claims: &F) -> (r: Option<&S>)
        requires
            forall|s: &S| call_requires(*claims, (s,)),
        ensures
            match r {
                Some(s) => exists|i: int| 0 <= i < self.entries().len() && self.entries()[i] == *s && call_ensures(*claims, (&self.entries()[i],), true),
                None => forall|i: int| 0 <= i < self.entries().len() ==> call_ensures(*claims, (&self.entries()[i],), false),
            },
    {
        let mut i: usize = 0;
        while i < self.strategies.len()
            invariant
                i <= self.strategies.len(),
                forall|s: &S| call_requires(*claims, (s,)),
                self.entries().len() == self.strategies.len(),
                forall|j: int| 0 <= j < i ==> call_ensures(*claims, (&self.entries()[j],), false),
            decreases self.strategies.len() - i,
        {
            let s = &self.strategies[i].1;
            assert(*s == self.entries()[i as int]);
            if (*claims)(s) {
                return Some(s);
            }
            i = i + 1;
        }
        None
    }

    /// A strategy that handles the current scene: `decides` asks one
    /// strategy whether it has actions for the scene. `None` when none has.
    pub fn find_for_state<F: Fn(&S) -> bool>(&self, decides: &F) -> (r: Option<&S>)
        requires
            forall|s: &S| call_requires(*decides, (s,)),
        ensures
            match r {
                Some(s) => exists|i: int| 0 <= i < self.entries().len() && self.entries()[i] == *s && call_ensures(*decides, (&self.entries()[i],), true),
                None => forall|i: int| 0 <= i < self.entries().len() ==> call_ensures(*decides, (&self.entries()[i],), false),
            },
    {
        self.find_first(decides)
    }

    /// A strategy for a kind of mini-game: `plays` asks one strategy whether
    /// its game is of that kind. `None` when none is.
    pub fn find_for_minigame<F: Fn(&S) -> bool>(&self, plays: &F) -> (r: Option<&S>)
        requires
            forall|s: &S| call_requires(*plays, (s,)),
        ensures
            match r {
                Some(s) => exists|i: int| 0 <= i < self.entries().len() && self.entries()[i] == *s && call_ensures(*plays, (&self.entries()[i],), true),
                None => forall|i: int| 0 <= i < self.entries().len() ==> call_ensures(*plays, (&self.entries()[i],), false),
            },
    {
        self.find_first(plays)
    }
}

impl<S> Default for StrategyRegistry<S> {
    fn default() -> (r: StrategyRegistry<S>)
        ensures
            r.wf(),
            r.names() == Seq::<Seq<char>>::empty(),
            r.entries() == Seq::<S>::empty(),
    {
        StrategyRegistry::new()
    }
}

} // verus!
