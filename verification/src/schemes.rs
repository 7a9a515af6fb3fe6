//! The registry of custom protocol handlers: which browser serves which scheme.

use vstd::prelude::*;

use crate::config::texts;

verus! {

/// One handler, registered for a scheme of a browser.
#[derive(Debug)]
pub struct SchemeEntry<H> {
    pub browser_id: i32,
    pub scheme: String,
    pub handler: H,
}

impl<H> SchemeEntry<H> {
    /// What the entry is found by.
    pub open spec fn key(self) -> (i32, Seq<char>) {
        (self.browser_id, self.scheme@)
    }
}

/// The custom protocol handlers of all browsers.
#[derive(Debug)]
pub struct SchemeRegistry<H> {
    entries: Vec<SchemeEntry<H>>,
}

impl<H> View for SchemeRegistry<H> {
    type V = Map<(i32, Seq<char>), H>;

    closed spec fn view(&self) -> Map<(i32, Seq<char>), H> {
        entries_map(self.entries@)
    }
}

/// The place of the entry with the given key.
spec fn place<H>(entries: Seq<SchemeEntry<H>>, key: (i32, Seq<char>)) -> int {
    choose|i: int| 0 <= i < entries.len() && (#[trigger] entries[i]).key() == key
}

/// The map that a list of entries stands for.
spec fn entries_map<H>(entries: Seq<SchemeEntry<H>>) -> Map<(i32, Seq<char>), H> {
    Map::new(
        |key: (i32, Seq<char>)|
            exists|i: int| 0 <= i < entries.len() && (#[trigger] entries[i]).key() == key,
        |key: (i32, Seq<char>)| entries[place(entries, key)].handler,
    )
}

/// No two entries have the same key.
spec fn distinct<H>(entries: Seq<SchemeEntry<H>>) -> bool {
    forall|i: int, j: int|
        0 <= i < j < entries.len() ==> (#[trigger] entries[i]).key() != (#[trigger] entries[j]).key()
}

proof fn entry_is_mapped<H>(entries: Seq<SchemeEntry<H>>, i: int)
    requires
        distinct(entries),
        0 <= i < entries.len(),
    ensures
        entries_map(entries).contains_key(entries[i].key()),
        entries_map(entries)[entries[i].key()] == entries[i].handler,
{
    let key = entries[i].key();
    assert(entries[i].key() == key);
    let p = place(entries, key);
    assert(0 <= p < entries.len() && entries[p].key() == key);
    if p < i {
        assert(entries[p].key() != entries[i].key());
    } else if i < p {
        assert(entries[i].key() != entries[p].key());
    }
}

/// The keys of the given schemes of a browser.
pub open spec fn scheme_keys(browser_id: i32, schemes: Seq<Seq<char>>) -> Set<(i32, Seq<char>)> {
    Set::new(|key: (i32, Seq<char>)| key.0 == browser_id && schemes.contains(key.1))
}

/// The registry once the handlers of a browser, each with its scheme, were
/// registered one after the other.
pub open spec fn registered<H>(
    registry: Map<(i32, Seq<char>), H>,
    browser_id: i32,
    handlers: Seq<(String, H)>,
) -> Map<(i32, Seq<char>), H>
    decreases handlers.len(),
{
    if handlers.len() == 0 {
        registry
    } else {
        registered(registry, browser_id, handlers.drop_last()).insert(
            (browser_id, handlers.last().0@),
            handlers.last().1,
        )
    }
}

/// The schemes of a list of handlers.
pub open spec fn schemes_of<H>(handlers: Seq<(String, H)>) -> Seq<Seq<char>> {
    handlers.map_values(|pair: (String, H)| pair.0@)
}

/// Whatever is known after the handlers of a browser were registered was known
/// before, or is one of the browser's schemes.
pub proof fn registration_adds_only_its_schemes<H>(
    registry: Map<(i32, Seq<char>), H>,
    browser_id: i32,
    handlers: Seq<(String, H)>,
    key: (i32, Seq<char>),
)
    requires
        registered(registry, browser_id, handlers).contains_key(key),
    ensures
        registry.contains_key(key) || (key.0 == browser_id && schemes_of(handlers).contains(key.1)),
    decreases handlers.len(),
{
    if handlers.len() > 0 {
        let last = handlers.len() - 1;
        assert(schemes_of(handlers)[last] == handlers.last().0@);
        let fewer = handlers.drop_last();
        if registered(registry, browser_id, fewer).contains_key(key) {
            registration_adds_only_its_schemes(registry, browser_id, fewer, key);
            if schemes_of(fewer).contains(key.1) {
                let i = choose|i: int| 0 <= i < fewer.len() && schemes_of(fewer)[i] == key.1;
                assert(schemes_of(handlers)[i] == key.1);
            }
        }
    }
}

/// Registering the handlers of a browser makes exactly its schemes known, gives
/// each scheme its handler, and leaves what else is registered alone.
pub proof fn registration_is_read_back<H>(
    registry: Map<(i32, Seq<char>), H>,
    browser_id: i32,
    handlers: Seq<(String, H)>,
)
    requires
        schemes_of(handlers).no_duplicates(),
    ensures
        registered(registry, browser_id, handlers).dom() == registry.dom().union(
            scheme_keys(browser_id, schemes_of(handlers)),
        ),
        forall|i: int|
            0 <= i < handlers.len() ==> registered(registry, browser_id, handlers)[(
                browser_id,
                (#[trigger] handlers[i]).0@,
            )] == handlers[i].1,
        forall|key: (i32, Seq<char>)|
            registry.contains_key(key) && !scheme_keys(browser_id, schemes_of(handlers)).contains(key)
                ==> #[trigger] registered(registry, browser_id, handlers)[key] == registry[key],
    decreases handlers.len(),
{
    let keys = scheme_keys(browser_id, schemes_of(handlers));
    let all = registered(registry, browser_id, handlers);
    if handlers.len() == 0 {
        assert(all.dom() =~= registry.dom().union(keys));
    } else {
        let fewer = handlers.drop_last();
        let some = registered(registry, browser_id, fewer);
        let last = (browser_id, handlers.last().0@);
        assert(schemes_of(fewer) =~= schemes_of(handlers).drop_last());
        registration_is_read_back(registry, browser_id, fewer);
        assert forall|key: (i32, Seq<char>)|
            keys.contains(key) == (scheme_keys(browser_id, schemes_of(fewer)).contains(key) || key
                == last) by {
            if schemes_of(fewer).contains(key.1) {
                let j = choose|j: int| 0 <= j < fewer.len() && schemes_of(fewer)[j] == key.1;
                assert(schemes_of(handlers)[j] == key.1);
            }
            if schemes_of(handlers).contains(key.1) {
                let j = choose|j: int| 0 <= j < handlers.len() && schemes_of(handlers)[j] == key.1;
                if j < fewer.len() {
                    assert(schemes_of(fewer)[j] == key.1);
                }
            }
            assert(schemes_of(handlers)[handlers.len() - 1] == handlers.last().0@);
        }
        assert(all.dom() =~= registry.dom().union(keys));
        assert forall|i: int| 0 <= i < handlers.len() implies all[(
            browser_id,
            (#[trigger] handlers[i]).0@,
        )] == handlers[i].1 by {
            if i < fewer.len() {
                assert(fewer[i] == handlers[i]);
                assert(schemes_of(handlers)[i] != schemes_of(handlers)[handlers.len() - 1]);
            }
        }
    }
}

/// Dropping the schemes of a browser undoes their registration, where none of them
/// was registered for that browser before.
pub proof fn unregistering_undoes<H>(
    registry: Map<(i32, Seq<char>), H>,
    browser_id: i32,
    handlers: Seq<(String, H)>,
)
    requires
        registry.dom().disjoint(scheme_keys(browser_id, schemes_of(handlers))),
    ensures
        registered(registry, browser_id, handlers).remove_keys(
            scheme_keys(browser_id, schemes_of(handlers)),
        ) == registry,
    decreases handlers.len(),
{
    let keys = scheme_keys(browser_id, schemes_of(handlers));
    if handlers.len() > 0 {
        let fewer = handlers.drop_last();
        let fewer_keys = scheme_keys(browser_id, schemes_of(fewer));
        let last = (browser_id, handlers.last().0@);
        assert(schemes_of(fewer) =~= schemes_of(handlers).drop_last());
        assert forall|key: (i32, Seq<char>)| fewer_keys.contains(key) implies keys.contains(key) by {
            let j = choose|j: int| 0 <= j < fewer.len() && schemes_of(fewer)[j] == key.1;
            assert(schemes_of(handlers)[j] == key.1);
        }
        assert(schemes_of(handlers)[handlers.len() - 1] == handlers.last().0@);
        assert(keys.contains(last));
        unregistering_undoes(registry, browser_id, fewer);
        assert forall|key: (i32, Seq<char>)| keys.contains(key) implies fewer_keys.contains(key)
            || key == last by {
            let j = choose|j: int| 0 <= j < handlers.len() && schemes_of(handlers)[j] == key.1;
            if j < fewer.len() {
                assert(schemes_of(fewer)[j] == key.1);
            }
        }
        let some = registered(registry, browser_id, fewer);
        assert forall|key: (i32, Seq<char>)|
            registry.contains_key(key) implies some.contains_key(key) && some[key]
            == registry[key] by {
            assert(some.remove_keys(fewer_keys).contains_key(key));
            assert(some.remove_keys(fewer_keys)[key] == some[key]);
        }
        assert forall|key: (i32, Seq<char>)|
            some.contains_key(key) && !keys.contains(key) implies registry.contains_key(key) by {
            assert(some.remove_keys(fewer_keys).contains_key(key));
        }
    }
    assert(registered(registry, browser_id, handlers).remove_keys(keys) =~= registry);
}

impl<H> SchemeRegistry<H> {
    /// No handler is registered twice.
    #[verifier::type_invariant]
    spec fn wf(self) -> bool {
        distinct(self.entries@)
    }

    /// A registry without handlers.
    pub fn new() -> (r: SchemeRegistry<H>)
        ensures
            r@ == Map::<(i32, Seq<char>), H>::empty(),
    {
        let r = SchemeRegistry { entries: Vec::new() };
        assert(r@ =~= Map::<(i32, Seq<char>), H>::empty());
        r
    }

    /// Where the entry with the given key is, if there is one.
    fn find(&self, browser_id: i32, scheme: &String) -> (r: Option<usize>)
        ensures
            match r {
                Some(i) => i < self.entries@.len() && self.entries@[i as int].key() == (
                    browser_id,
                    scheme@,
                ),
                None => forall|i: int|
                    0 <= i < self.entries@.len() ==> (#[trigger] self.entries@[i]).key() != (
                        browser_id,
                        scheme@,
                    ),
            },
    {
        for i in 0..self.entries.len()
            invariant
                forall|j: int|
                    0 <= j < i ==> (#[trigger] self.entries@[j]).key() != (browser_id, scheme@),
        {
            if self.entries[i].browser_id == browser_id && self.entries[i].scheme == *scheme {
                return Some(i);
            }
        }
        None
    }

    /// The handler of a scheme of a browser, if there is one.
    pub fn get(&self, browser_id: i32, scheme: &String) -> (r: Option<&H>)
        ensures
            match r {
                Some(handler) => self@.contains_key((browser_id, scheme@)) && *handler == self@[(
                    browser_id,
                    scheme@,
                )],
                None => !self@.contains_key((browser_id, scheme@)),
            },
    {
        proof {
            use_type_invariant(self);
        }
        match self.find(browser_id, scheme) {
            Some(i) => {
                proof {
                    entry_is_mapped(self.entries@, i as int);
                }
                Some(&self.entries[i].handler)
            },
            None => None,
        }
    }

    /// Registers a handler. It takes the place of the one that was there.
    pub fn insert(&mut self, browser_id: i32, scheme: String, handler: H)
        ensures
            final(self)@ == old(self)@.insert((browser_id, scheme@), handler),
    {
        let ghost key = (browser_id, scheme@);
        let ghost before = self.entries@;
        proof {
            use_type_invariant(&*self);
        }
        let found = self.find(browser_id, &scheme);
        let mut entries: Vec<SchemeEntry<H>> = Vec::new();
        std::mem::swap(&mut entries, &mut self.entries);
        match found {
            Some(i) => {
                entries.set(i, SchemeEntry { browser_id, scheme, handler });
                let ghost after = entries@;
                proof {
                    assert(forall|j: int|
                        0 <= j < after.len() ==> (#[trigger] after[j]).key() == before[j].key());
                    assert(distinct(after)) by {
                        assert forall|a: int, b: int| 0 <= a < b < after.len() implies (
                        #[trigger] after[a]).key() != (#[trigger] after[b]).key() by {
                            assert(before[a].key() != before[b].key());
                        }
                    }
                    assert forall|k: (i32, Seq<char>)|
                        entries_map(after).contains_key(k) == entries_map(before).insert(
                            key,
                            handler,
                        ).contains_key(k) by {
                        if entries_map(after).contains_key(k) {
                            let j = place(after, k);
                            assert(before[j].key() == k);
                        }
                        if entries_map(before).contains_key(k) {
                            let j = place(before, k);
                            assert(after[j].key() == k);
                        }
                        assert(after[i as int].key() == key);
                    }
                    assert forall|k: (i32, Seq<char>)|
                        entries_map(after).contains_key(k) implies entries_map(after)[k]
                        == entries_map(before).insert(key, handler)[k] by {
                        let j = place(after, k);
                        assert(after[j].key() == k);
                        entry_is_mapped(after, j);
                        if k != key {
                            assert(before[j].key() == k);
                            entry_is_mapped(before, j);
                            assert(j != i);
                        } else {
                            entry_is_mapped(after, i as int);
                        }
                    }
                    assert(entries_map(after) =~= entries_map(before).insert(key, handler));
                }
            },
            None => {
                entries.push(SchemeEntry { browser_id, scheme, handler });
                let ghost after = entries@;
                let ghost last = before.len() as int;
                proof {
                    assert(forall|j: int| 0 <= j < last ==> #[trigger] after[j] == before[j]);
                    assert(after[last].key() == key);
                    assert(distinct(after)) by {
                        assert forall|a: int, b: int| 0 <= a < b < after.len() implies (
                        #[trigger] after[a]).key() != (#[trigger] after[b]).key() by {
                            assert(after[a] == before[a]);
                            if b < last {
                                assert(after[b] == before[b]);
                            }
                        }
                    }
                    assert forall|k: (i32, Seq<char>)|
                        entries_map(after).contains_key(k) == entries_map(before).insert(
                            key,
                            handler,
                        ).contains_key(k) by {
                        if entries_map(after).contains_key(k) {
                            let j = place(after, k);
                            assert(after[j].key() == k);
                            if j < last {
                                assert(before[j].key() == k);
                            }
                        }
                        if entries_map(before).contains_key(k) {
                            let j = place(before, k);
                            assert(after[j].key() == k);
                        }
                    }
                    assert forall|k: (i32, Seq<char>)|
                        entries_map(after).contains_key(k) implies entries_map(after)[k]
                        == entries_map(before).insert(key, handler)[k] by {
                        let j = place(after, k);
                        assert(after[j].key() == k);
                        entry_is_mapped(after, j);
                        if j < last {
                            assert(before[j].key() == k);
                            entry_is_mapped(before, j);
                        }
                    }
                    assert(entries_map(after) =~= entries_map(before).insert(key, handler));
                }
            },
        }
        self.entries = entries;
    }

    /// Registers the handlers of a browser, each with its scheme.
    pub fn register(&mut self, browser_id: i32, handlers: Vec<(String, H)>)
        ensures
            final(self)@ == registered(old(self)@, browser_id, handlers@),
    {
        let ghost before = self@;
        for pair in it: handlers
            invariant
                it.seq() == handlers@,
                self@ == registered(before, browser_id, handlers@.take(it.index())),
        {
            proof {
                assert(handlers@.take(it.index() + 1).drop_last() =~= handlers@.take(it.index()));
            }
            self.insert(browser_id, pair.0, pair.1);
        }
        assert(handlers@.take(handlers@.len() as int) =~= handlers@);
    }

    /// Drops a handler, if there is one.
    pub fn remove(&mut self, browser_id: i32, scheme: &String)
        ensures
            final(self)@ == old(self)@.remove((browser_id, scheme@)),
    {
        let ghost key = (browser_id, scheme@);
        let ghost before = self.entries@;
        proof {
            use_type_invariant(&*self);
        }
        let found = self.find(browser_id, scheme);
        let mut entries: Vec<SchemeEntry<H>> = Vec::new();
        std::mem::swap(&mut entries, &mut self.entries);
        match found {
            Some(i) => {
                let _ = entries.remove(i);
                let ghost after = entries@;
                let ghost at = i as int;
                proof {
                    assert(forall|j: int| 0 <= j < at ==> #[trigger] after[j] == before[j]);
                    assert(forall|j: int|
                        at <= j < after.len() ==> #[trigger] after[j] == before[j + 1]);
                    assert(distinct(after)) by {
                        assert forall|a: int, b: int| 0 <= a < b < after.len() implies (
                        #[trigger] after[a]).key() != (#[trigger] after[b]).key() by {
                            let x = if a < at { a } else { a + 1 };
                            let y = if b < at { b } else { b + 1 };
                            assert(before[x].key() != before[y].key());
                        }
                    }
                    assert forall|k: (i32, Seq<char>)|
                        entries_map(after).contains_key(k) == entries_map(before).remove(
                            key,
                        ).contains_key(k) by {
                        if entries_map(after).contains_key(k) {
                            let j = place(after, k);
                            assert(after[j].key() == k);
                            let x = if j < at { j } else { j + 1 };
                            assert(before[x].key() == k);
                            if x < at {
                                assert(before[x].key() != before[at].key());
                            } else {
                                assert(before[at].key() != before[x].key());
                            }
                        }
                        if entries_map(before).contains_key(k) && k != key {
                            let j = place(before, k);
                            assert(before[j].key() == k);
                            let x = if j < at { j } else { j - 1 };
                            assert(after[x].key() == k);
                        }
                    }
                    assert forall|k: (i32, Seq<char>)|
                        entries_map(after).contains_key(k) implies entries_map(after)[k]
                        == entries_map(before).remove(key)[k] by {
                        let j = place(after, k);
                        assert(after[j].key() == k);
                        entry_is_mapped(after, j);
                        let x = if j < at { j } else { j + 1 };
                        assert(before[x].key() == k);
                        entry_is_mapped(before, x);
                    }
                    assert(entries_map(after) =~= entries_map(before).remove(key));
                }
            },
            None => {
                assert(!entries_map(before).contains_key(key));
                assert(entries_map(before) =~= entries_map(before).remove(key));
            },
        }
        self.entries = entries;
    }

    /// Drops the handlers of the given schemes of a browser.
    pub fn remove_all(&mut self, browser_id: i32, schemes: &Vec<String>)
        ensures
            final(self)@ == old(self)@.remove_keys(scheme_keys(browser_id, texts(schemes@))),
    {
        let ghost before = self@;
        assert(before =~= before.remove_keys(scheme_keys(browser_id, texts(schemes@.take(0)))));
        for i in 0..schemes.len()
            invariant
                self@ == before.remove_keys(scheme_keys(browser_id, texts(schemes@.take(i as int)))),
        {
            self.remove(browser_id, &schemes[i]);
            proof {
                let done = texts(schemes@.take(i as int));
                let next = texts(schemes@.take(i + 1));
                assert(next =~= done.push(schemes@[i as int]@));
                assert forall|k: (i32, Seq<char>)|
                    scheme_keys(browser_id, next).contains(k) == (scheme_keys(
                        browser_id,
                        done,
                    ).contains(k) || k == (browser_id, schemes@[i as int]@)) by {
                    if done.contains(k.1) {
                        let j = choose|j: int| 0 <= j < done.len() && done[j] == k.1;
                        assert(next[j] == k.1);
                    }
                    if next.contains(k.1) {
                        let j = choose|j: int| 0 <= j < next.len() && next[j] == k.1;
                        if j < done.len() {
                            assert(done[j] == k.1);
                        }
                    }
                    assert(next[i as int] == schemes@[i as int]@);
                }
                assert(self@ =~= before.remove_keys(scheme_keys(browser_id, next)));
            }
        }
        assert(schemes@.take(schemes@.len() as int) =~= schemes@);
    }
}

/// The keys of some schemes of a browser are the pairs of the browser and one of the
/// schemes.
pub proof fn keys_pair_browser_and_scheme<H>(
    browser_id: i32,
    schemes: Seq<Seq<char>>,
    handlers: Seq<(String, H)>,
    key: (i32, Seq<char>),
)
    ensures
        scheme_keys(browser_id, schemes).contains(key) <==> key.0 == browser_id && (exists|i: int|
            0 <= i < schemes.len() && schemes[i] == key.1),
        schemes_of(handlers).len() == handlers.len(),
        forall|i: int| 0 <= i < handlers.len() ==> #[trigger] schemes_of(handlers)[i] == handlers[i].0@,
{
}

/// Where a scheme is registered more than once for a browser, it is served by the
/// handler that came last.
pub proof fn latest_registration_wins<H>(
    registry: Map<(i32, Seq<char>), H>,
    browser_id: i32,
    handlers: Seq<(String, H)>,
    i: int,
)
    requires
        0 <= i < handlers.len(),
        forall|j: int| i < j < handlers.len() ==> (#[trigger] handlers[j]).0@ != handlers[i].0@,
    ensures
        registered(registry, browser_id, handlers).contains_key((browser_id, handlers[i].0@)),
        registered(registry, browser_id, handlers)[(browser_id, handlers[i].0@)] == handlers[i].1,
    decreases handlers.len(),
{
    if i < handlers.len() - 1 {
        let fewer = handlers.drop_last();
        assert(handlers[handlers.len() - 1].0@ != handlers[i].0@);
        assert forall|j: int| i < j < fewer.len() implies (#[trigger] fewer[j]).0@ != fewer[i].0@ by {
            assert(fewer[j] == handlers[j]);
        }
        latest_registration_wins(registry, browser_id, fewer, i);
    }
}

/// Registering the handlers of a browser leaves alone what is served for other
/// browsers and under other schemes.
pub proof fn registration_leaves_others_alone<H>(
    registry: Map<(i32, Seq<char>), H>,
    browser_id: i32,
    handlers: Seq<(String, H)>,
    key: (i32, Seq<char>),
)
    requires
        key.0 != browser_id || (forall|i: int|
            0 <= i < handlers.len() ==> (#[trigger] handlers[i]).0@ != key.1),
    ensures
        registered(registry, browser_id, handlers).contains_key(key) == registry.contains_key(key),
        registry.contains_key(key) ==> registered(registry, browser_id, handlers)[key] == registry[key],
    decreases handlers.len(),
{
    if handlers.len() > 0 {
        let fewer = handlers.drop_last();
        assert(handlers[handlers.len() - 1] == handlers.last());
        if key.0 == browser_id {
            assert forall|i: int| 0 <= i < fewer.len() implies (#[trigger] fewer[i]).0@ != key.1 by {
                assert(fewer[i] == handlers[i]);
            }
        }
        registration_leaves_others_alone(registry, browser_id, fewer, key);
    }
}

} // verus!
