use vstd::prelude::*;
use crate::text::str_eq;
use crate::algorithms::{
    all_builtins, builtin_index, builtin_key, builtins, lemma_builtin_keys_distinct,
    lemma_every_builtin_listed, BuiltinEffect,
};

verus! {

/// The map a list of `(key, value)` entries describes, later entries
/// overriding earlier ones with the same key.
pub open spec fn entries_map<E>(entries: Seq<(Seq<char>, E)>) -> Map<Seq<char>, E>
    decreases entries.len(),
{
    if entries.len() == 0 {
        Map::empty()
    } else {
        entries_map(entries.drop_last()).insert(entries.last().0, entries.last().1)
    }
}

/// No two entries share a key.
pub open spec fn keys_distinct<E>(entries: Seq<(Seq<char>, E)>) -> bool {
    forall|i: int, j: int|
        0 <= i < entries.len() && 0 <= j < entries.len() && i != j ==> #[trigger] entries[i].0
            != #[trigger] entries[j].0
}

proof fn lemma_entries_map_lookup<E>(entries: Seq<(Seq<char>, E)>, i: int)
    requires
        keys_distinct(entries),
        0 <= i < entries.len(),
    ensures
        entries_map(entries).contains_key(entries[i].0),
        entries_map(entries)[entries[i].0] == entries[i].1,
    decreases entries.len(),
{
    if i < entries.len() - 1 {
        let prefix = entries.drop_last();
        assert(keys_distinct(prefix)) by {
            assert forall|a: int, b: int|
                0 <= a < prefix.len() && 0 <= b < prefix.len() && a != b implies #[trigger] prefix[a].0
                    != #[trigger] prefix[b].0 by {
                assert(prefix[a] == entries[a] && prefix[b] == entries[b]);
            }
        }
        assert(prefix[i] == entries[i]);
        lemma_entries_map_lookup(prefix, i);
        assert(entries[i].0 != entries[entries.len() - 1].0);
    }
}

proof fn lemma_entries_map_absent<E>(entries: Seq<(Seq<char>, E)>, k: Seq<char>)
    requires
        forall|i: int| 0 <= i < entries.len() ==> (#[trigger] entries[i]).0 != k,
    ensures
        !entries_map(entries).contains_key(k),
    decreases entries.len(),
{
    if entries.len() > 0 {
        let prefix = entries.drop_last();
        assert forall|i: int| 0 <= i < prefix.len() implies (#[trigger] prefix[i]).0 != k by {
            assert(prefix[i] == entries[i]);
        }
        lemma_entries_map_absent(prefix, k);
        assert(entries[entries.len() - 1].0 != k);
    }
}

proof fn lemma_entries_map_update<E>(entries: Seq<(Seq<char>, E)>, i: int, e: E)
    requires
        keys_distinct(entries),
        0 <= i < entries.len(),
    ensures
        entries_map(entries.update(i, (entries[i].0, e))) == entries_map(entries).insert(
            entries[i].0,
            e,
        ),
    decreases entries.len(),
{
    let updated = entries.update(i, (entries[i].0, e));
    let k = entries[i].0;
    if i == entries.len() - 1 {
        assert(updated.drop_last() == entries.drop_last());
        let prefix = entries.drop_last();
        assert forall|j: int| 0 <= j < prefix.len() implies (#[trigger] prefix[j]).0 != k by {
            assert(prefix[j] == entries[j]);
        }
        lemma_entries_map_absent(prefix, k);
        assert(entries_map(entries) == entries_map(prefix).insert(k, entries[i].1));
        assert(entries_map(updated) =~= entries_map(entries).insert(k, e));
    } else {
        let prefix = entries.drop_last();
        assert(keys_distinct(prefix)) by {
            assert forall|a: int, b: int|
                0 <= a < prefix.len() && 0 <= b < prefix.len() && a != b implies #[trigger] prefix[a].0
                    != #[trigger] prefix[b].0 by {
                assert(prefix[a] == entries[a] && prefix[b] == entries[b]);
            }
        }
        assert(prefix[i] == entries[i]);
        lemma_entries_map_update(prefix, i, e);
        assert(updated.drop_last() == prefix.update(i, (k, e)));
        assert(updated.last() == entries.last());
        assert(entries.last().0 != k);
        assert(entries_map(updated) =~= entries_map(entries).insert(k, e));
    }
}

/// Entries with their keys taken by their character sequence.
pub open spec fn key_view<E>(entries: Seq<(String, E)>) -> Seq<(Seq<char>, E)> {
    entries.map_values(|p: (String, E)| (p.0@, p.1))
}

/// Effects by key: looked up both when building the "add effect" list and
/// when running a stack. Effects are stored ready to use (not as
/// constructors), because a loaded plugin is expensive to rebuild.
pub struct Registry<E> {
    entries: Vec<(String, E)>,
}

impl<E> Registry<E> {
    /// The registered entries as `(key, effect)` pairs, in registration order.
    pub closed spec fn entries(&self) -> Seq<(Seq<char>, E)> {
        key_view(self.entries@)
    }

    /// The registry as a map from key to effect.
    pub closed spec fn view(&self) -> Map<Seq<char>, E> {
        entries_map(self.entries())
    }

    #[verifier::type_invariant]
    spec fn distinct(&self) -> bool {
        keys_distinct(self.entries())
    }

    /// An empty registry.
    pub fn new() -> (r: Self)
        ensures
            r@ == Map::<Seq<char>, E>::empty(),
    {
        let r = Registry { entries: Vec::new() };
        assert(r.entries() =~= Seq::<(Seq<char>, E)>::empty());
        r
    }

    /// Registers `effect` under `key`, replacing any effect registered under
    /// the same key before.
    pub fn register(&mut self, key: &str, effect: E)
        ensures
            final(self)@ == old(self)@.insert(key@, effect),
    {
        proof {
            use_type_invariant(&*self);
        }
        let ghost before = self.entries();
        let mut entries: Vec<(String, E)> = Vec::new();
        std::mem::swap(&mut entries, &mut self.entries);
        assert(before == key_view(entries@));
        let k = key.to_owned();
        let ghost kv = k@;
        let n = entries.len();
        let mut i: usize = 0;
        while i < n
            invariant
                n == entries@.len(),
                i <= n,
                before == key_view(entries@),
                keys_distinct(before),
                before == old(self).entries(),
                kv == key@,
                k@ == key@,
                forall|j: int| 0 <= j < i ==> (#[trigger] entries@[j]).0@ != key@,
            decreases n - i,
        {
            if str_eq(entries[i].0.as_str(), key) {
                proof {
                    assert(before[i as int] == (entries@[i as int].0@, entries@[i as int].1));
                    lemma_entries_map_update(before, i as int, effect);
                }
                let ghost old_entries = entries@;
                entries.set(i, (k, effect));
                proof {
                    assert(entries@ == old_entries.update(i as int, (k, effect)));
                    assert(kv == key@);
                    assert forall|j: int| 0 <= j < before.len() implies #[trigger] key_view(entries@)[j]
                        == before.update(i as int, (key@, effect))[j] by {
                        if j != i {
                            assert(entries@[j] == old_entries[j]);
                        }
                    }
                    assert(key_view(entries@) =~= before.update(
                        i as int,
                        (key@, effect),
                    ));
                    assert(keys_distinct(before.update(i as int, (key@, effect)))) by {
                        let u = before.update(i as int, (key@, effect));
                        assert forall|a: int, b: int|
                            0 <= a < u.len() && 0 <= b < u.len() && a != b implies #[trigger] u[a].0
                                != #[trigger] u[b].0 by {
                            assert(u[a].0 == before[a].0 && u[b].0 == before[b].0);
                        }
                    }
                }
                assert(before[i as int].0 == key@);
                assert(before.update(i as int, (key@, effect)) == before.update(
                    i as int,
                    (before[i as int].0, effect),
                ));
                self.entries = entries;
                assert(self.entries() == before.update(i as int, (key@, effect)));
                return;
            }
            i = i + 1;
        }
        proof {
            assert forall|j: int| 0 <= j < before.len() implies (#[trigger] before[j]).0 != key@ by {
                assert(before[j].0 == entries@[j].0@);
            }
            lemma_entries_map_absent(before, key@);
        }
        entries.push((k, effect));
        let ghost after = key_view(entries@);
        proof {
            assert(after =~= before.push((key@, effect)));
            assert(after.drop_last() =~= before);
            assert(keys_distinct(after)) by {
                assert forall|a: int, b: int|
                    0 <= a < after.len() && 0 <= b < after.len() && a != b implies #[trigger] after[a].0
                        != #[trigger] after[b].0 by {
                    if a < before.len() && b < before.len() {
                        assert(after[a] == before[a] && after[b] == before[b]);
                    } else if a < before.len() {
                        assert(after[a] == before[a]);
                    } else {
                        assert(after[b] == before[b]);
                    }
                }
            }
        }
        self.entries = entries;
    }

    /// The effect registered under `key`, if any.
    pub fn get(&self, key: &str) -> (r: Option<&E>)
        ensures
            r matches Some(e) ==> self@.contains_key(key@) && *e == self@[key@],
            r is None ==> !self@.contains_key(key@),
    {
        proof {
            use_type_invariant(self);
        }
        let n = self.entries.len();
        let mut i: usize = 0;
        while i < n
            invariant
                n == self.entries@.len(),
                i <= n,
                keys_distinct(self.entries()),
                forall|j: int| 0 <= j < i ==> (#[trigger] self.entries@[j]).0@ != key@,
            decreases n - i,
        {
            if str_eq(self.entries[i].0.as_str(), key) {
                proof {
                    assert(self.entries()[i as int] == (self.entries@[i as int].0@, self.entries@[i as int].1));
                    lemma_entries_map_lookup(self.entries(), i as int);
                }
                return Some(&self.entries[i].1);
            }
            i = i + 1;
        }
        proof {
            assert forall|j: int|
                0 <= j < self.entries().len() implies (#[trigger] self.entries()[j]).0 != key@ by {
                assert(self.entries()[j].0 == self.entries@[j].0@);
            }
            lemma_entries_map_absent(self.entries(), key@);
        }
        None
    }

    /// The keys of every registered effect, each once.
    pub fn keys(&self) -> (r: Vec<String>)
        ensures
            r@.len() == self@.dom().len(),
            forall|i: int| 0 <= i < r@.len() ==> self@.contains_key(#[trigger] r@[i]@),
            forall|k: Seq<char>| self@.contains_key(k) ==> exists|i: int| 0 <= i < r@.len() && #[trigger] r@[i]@ == k,
            forall|i: int, j: int| 0 <= i < r@.len() && 0 <= j < r@.len() && i != j ==> #[trigger] r@[i]@ != #[trigger] r@[j]@,
    {
        proof {
            use_type_invariant(self);
        }
        let n = self.entries.len();
        let mut r: Vec<String> = Vec::new();
        let mut i: usize = 0;
        while i < n
            invariant
                n == self.entries@.len(),
                i <= n,
                r@.len() == i,
                forall|j: int| 0 <= j < i ==> #[trigger] r@[j]@ == self.entries()[j].0,
            decreases n - i,
        {
            r.push(self.entries[i].0.clone());
            i = i + 1;
        }
        proof {
            lemma_keys_of_entries(self.entries());
            assert forall|k: Seq<char>| self@.contains_key(k) implies exists|i: int|
                0 <= i < r@.len() && #[trigger] r@[i]@ == k by {
                let i = choose|i: int| 0 <= i < self.entries().len() && #[trigger] self.entries()[i].0 == k;
                assert(r@[i]@ == k);
            }
        }
        r
    }
}

/// `registry` holds exactly the built-in effects' keys, fifteen of them,
/// each mapped to a value that `made` relates to the effect with that key.
pub open spec fn holds_builtins<E>(
    registry: Map<Seq<char>, E>,
    made: spec_fn(BuiltinEffect, E) -> bool,
) -> bool {
    &&& registry.dom().finite()
    &&& registry.dom().len() == all_builtins().len()
    &&& forall|b: BuiltinEffect| #[trigger] registry.contains_key(builtin_key(b))
    &&& forall|b: BuiltinEffect| made(b, #[trigger] registry[builtin_key(b)])
    &&& forall|k: Seq<char>|
        registry.contains_key(k) ==> exists|b: BuiltinEffect| #[trigger] builtin_key(b) == k
}

impl<E> Registry<E> {
    /// A registry holding every built-in effect under its key, each built
    /// by `make`.
    pub fn with_builtins<F: Fn(BuiltinEffect) -> E>(make: F) -> (r: Self)
        requires
            forall|b: BuiltinEffect| make.requires((b,)),
        ensures
            r@.dom().finite(),
            r@.dom().len() == all_builtins().len(),
            forall|b: BuiltinEffect| #[trigger] r@.contains_key(builtin_key(b)),
            forall|b: BuiltinEffect| make.ensures((b,), #[trigger] r@[builtin_key(b)]),
            forall|k: Seq<char>|
                r@.contains_key(k) ==> exists|b: BuiltinEffect| #[trigger] builtin_key(b) == k,
            holds_builtins(r@, |b: BuiltinEffect, e: E| make.ensures((b,), e)),
    {
        proof {
            lemma_builtin_keys_distinct();
            lemma_every_builtin_listed();
        }
        let list = builtins();
        let mut r: Registry<E> = Registry::new();
        let mut i: usize = 0;
        while i < list.len()
            invariant
                list@ == all_builtins(),
                i <= list@.len(),
                forall|b: BuiltinEffect| make.requires((b,)),
                all_builtins().len() == 15,
                forall|a: int, b: int|
                    0 <= a < all_builtins().len() && 0 <= b < all_builtins().len() && a != b
                        ==> builtin_key(#[trigger] all_builtins()[a]) != builtin_key(
                        #[trigger] all_builtins()[b],
                    ),
                r@.dom().finite(),
                r@.dom().len() == i,
                forall|j: int| 0 <= j < i ==> #[trigger] r@.contains_key(builtin_key(all_builtins()[j])),
                forall|j: int|
                    0 <= j < i ==> make.ensures(
                        (all_builtins()[j],),
                        #[trigger] r@[builtin_key(all_builtins()[j])],
                    ),
                forall|k: Seq<char>|
                    r@.contains_key(k) ==> exists|j: int|
                        0 <= j < i && #[trigger] builtin_key(all_builtins()[j]) == k,
            decreases list@.len() - i,
        {
            let b = list[i];
            let e = make(b);
            let ghost before = r@;
            proof {
                if before.contains_key(builtin_key(b)) {
                    let j = choose|j: int| 0 <= j < i && #[trigger] builtin_key(all_builtins()[j]) == builtin_key(b);
                    assert(all_builtins()[i as int] == b);
                }
            }
            r.register(b.key(), e);
            proof {
                assert(r@.dom() == before.dom().insert(builtin_key(b)));
                assert forall|j: int| 0 <= j < i + 1 implies #[trigger] r@.contains_key(
                    builtin_key(all_builtins()[j]),
                ) by {
                    if j < i {
                        assert(before.contains_key(builtin_key(all_builtins()[j])));
                    }
                }
                assert forall|j: int| 0 <= j < i + 1 implies make.ensures(
                    (all_builtins()[j],),
                    #[trigger] r@[builtin_key(all_builtins()[j])],
                ) by {
                    if j < i {
                        assert(builtin_key(all_builtins()[j]) != builtin_key(all_builtins()[i as int]));
                        assert(r@[builtin_key(all_builtins()[j])] == before[builtin_key(all_builtins()[j])]);
                    }
                }
                assert forall|k: Seq<char>| r@.contains_key(k) implies exists|j: int|
                    0 <= j < i + 1 && #[trigger] builtin_key(all_builtins()[j]) == k by {
                    if k == builtin_key(b) {
                        assert(builtin_key(all_builtins()[i as int]) == k);
                    } else {
                        assert(before.contains_key(k));
                    }
                }
            }
            i = i + 1;
        }
        proof {
            assert forall|b: BuiltinEffect| #[trigger] r@.contains_key(builtin_key(b)) by {
                assert(all_builtins()[builtin_index(b)] == b);
            }
            assert forall|b: BuiltinEffect| make.ensures((b,), #[trigger] r@[builtin_key(b)]) by {
                assert(all_builtins()[builtin_index(b)] == b);
            }
            assert forall|k: Seq<char>| r@.contains_key(k) implies exists|b: BuiltinEffect|
                #[trigger] builtin_key(b) == k by {
                let j = choose|j: int| 0 <= j < 15 && #[trigger] builtin_key(all_builtins()[j]) == k;
                assert(builtin_key(all_builtins()[j]) == k);
            }
        }
        r
    }
}

proof fn lemma_keys_of_entries<E>(entries: Seq<(Seq<char>, E)>)
    requires
        keys_distinct(entries),
    ensures
        entries_map(entries).dom().len() == entries.len(),
        forall|k: Seq<char>|
            entries_map(entries).contains_key(k) <==> exists|i: int|
                0 <= i < entries.len() && #[trigger] entries[i].0 == k,
        entries_map(entries).dom().finite(),
    decreases entries.len(),
{
    if entries.len() > 0 {
        let prefix = entries.drop_last();
        assert(keys_distinct(prefix)) by {
            assert forall|a: int, b: int|
                0 <= a < prefix.len() && 0 <= b < prefix.len() && a != b implies #[trigger] prefix[a].0
                    != #[trigger] prefix[b].0 by {
                assert(prefix[a] == entries[a] && prefix[b] == entries[b]);
            }
        }
        lemma_keys_of_entries(prefix);
        let last = entries.last().0;
        assert forall|i: int| 0 <= i < prefix.len() implies (#[trigger] prefix[i]).0 != last by {
            assert(prefix[i] == entries[i]);
        }
        assert(!entries_map(prefix).contains_key(last));
        assert forall|k: Seq<char>|
            entries_map(entries).contains_key(k) <==> exists|i: int|
                0 <= i < entries.len() && #[trigger] entries[i].0 == k by {
            if entries_map(entries).contains_key(k) {
                if k == last {
                    assert(entries[entries.len() - 1].0 == k);
                } else {
                    let i = choose|i: int| 0 <= i < prefix.len() && #[trigger] prefix[i].0 == k;
                    assert(entries[i].0 == k);
                }
            }
            if exists|i: int| 0 <= i < entries.len() && #[trigger] entries[i].0 == k {
                let i = choose|i: int| 0 <= i < entries.len() && #[trigger] entries[i].0 == k;
                if i < prefix.len() {
                    assert(prefix[i].0 == k);
                }
            }
        }
    } else {
        assert(entries_map(entries).dom() =~= Set::empty());
    }
}

} // verus!

verus! {

/// Looking a key up right after registering it finds the effect just
/// registered, and every other key keeps what it had.
pub proof fn lemma_register_then_get<E>(
    before: Map<Seq<char>, E>,
    key: Seq<char>,
    effect: E,
    other: Seq<char>,
)
    requires
        other != key,
    ensures
        before.insert(key, effect).contains_key(key),
        before.insert(key, effect)[key] == effect,
        before.insert(key, effect).contains_key(other) == before.contains_key(other),
        before.contains_key(other) ==> before.insert(key, effect)[other] == before[other],
{
}

/// A built-in registry whose effects are built as themselves (the
/// identity constructor) stores every effect under its own key: looking up
/// any key it holds gives the built-in effect with that key.
pub proof fn lemma_builtin_entries_have_their_keys(
    registry: Map<Seq<char>, BuiltinEffect>,
    made: spec_fn(BuiltinEffect, BuiltinEffect) -> bool,
)
    requires
        holds_builtins(registry, made),
        forall|b: BuiltinEffect, e: BuiltinEffect| #[trigger] made(b, e) ==> e == b,
    ensures
        forall|k: Seq<char>| #[trigger] registry.contains_key(k) ==> builtin_key(registry[k]) == k,
        forall|b: BuiltinEffect| #[trigger] registry[builtin_key(b)] == b,
{
    assert forall|b: BuiltinEffect| #[trigger] registry[builtin_key(b)] == b by {
        assert(made(b, registry[builtin_key(b)]));
    }
    assert forall|k: Seq<char>| #[trigger] registry.contains_key(k) implies builtin_key(registry[k]) == k by {
        let b = choose|b: BuiltinEffect| #[trigger] builtin_key(b) == k;
        assert(registry[builtin_key(b)] == b);
    }
}

} // verus!
