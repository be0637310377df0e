//! The output table of a started pipeline: each flow's output channel under
//! the flow's name.
//!
//! A name occurs at most once; registering a channel under a name that is
//! already present replaces the earlier channel, as a map would.
use crate::flow_core::channel::Channel;
use vstd::prelude::*;

verus! {

/// No name occurs twice among the entries.
pub open spec fn names_distinct<V>(s: Seq<(Seq<char>, V)>) -> bool {
    forall|i: int, j: int| 0 <= i < j < s.len() ==> s[i].0 != s[j].0
}

/// The map that a list of named entries stands for.
pub open spec fn table<V>(s: Seq<(Seq<char>, V)>) -> Map<Seq<char>, V>
    decreases s.len(),
{
    if s.len() == 0 {
        Map::empty()
    } else {
        table(s.drop_last()).insert(s.last().0, s.last().1)
    }
}

/// A name is in the table exactly when some entry carries it; with distinct
/// names, each entry's value is the table's value for its name, and the
/// table has one key per entry.
pub proof fn lemma_table<V>(s: Seq<(Seq<char>, V)>)
    requires
        names_distinct(s),
    ensures
        forall|k: Seq<char>|
            #![trigger table(s).contains_key(k)]
            table(s).contains_key(k) <==> exists|i: int| 0 <= i < s.len() && s[i].0 == k,
        forall|i: int| 0 <= i < s.len() ==> table(s)[#[trigger] s[i].0] == s[i].1,
        table(s).dom().finite(),
        table(s).len() == s.len(),
    decreases s.len(),
{
    if s.len() > 0 {
        let p = s.drop_last();
        assert(names_distinct(p));
        lemma_table(p);
        let last = s.last();
        assert forall|i: int| 0 <= i < s.len() implies table(s).contains_key(#[trigger] s[i].0) by {
            if i < s.len() - 1 {
                assert(p[i] == s[i]);
            }
        }
        assert forall|k: Seq<char>| table(s).contains_key(k) implies exists|i: int|
            0 <= i < s.len() && s[i].0 == k by {
            if k == last.0 {
                assert(s[s.len() - 1].0 == k);
            } else {
                let i = choose|i: int| 0 <= i < p.len() && p[i].0 == k;
                assert(s[i].0 == k);
            }
        }
        assert forall|i: int| 0 <= i < s.len() implies table(s)[#[trigger] s[i].0] == s[i].1 by {
            if i < s.len() - 1 {
                assert(p[i] == s[i]);
                assert(s[i].0 != last.0);
            }
        }
        assert(!table(p).contains_key(last.0)) by {
            if table(p).contains_key(last.0) {
                let i = choose|i: int| 0 <= i < p.len() && p[i].0 == last.0;
                assert(s[i].0 == s[s.len() - 1].0);
            }
        }
    }
}

/// Appending an entry under a fresh name adds that key to the table.
pub proof fn lemma_table_push<V>(s: Seq<(Seq<char>, V)>, k: Seq<char>, v: V)
    requires
        names_distinct(s),
        !table(s).contains_key(k),
    ensures
        names_distinct(s.push((k, v))),
        table(s.push((k, v))) == table(s).insert(k, v),
{
    lemma_table(s);
    let t = s.push((k, v));
    assert(t.drop_last() =~= s);
    assert forall|i: int, j: int| 0 <= i < j < t.len() implies t[i].0 != t[j].0 by {
        if j == t.len() - 1 {
            assert(s[i].0 == t[i].0);
        }
    }
}

/// Removing the entry at `i` removes its name from the table.
pub proof fn lemma_table_remove<V>(s: Seq<(Seq<char>, V)>, i: int)
    requires
        names_distinct(s),
        0 <= i < s.len(),
    ensures
        names_distinct(s.remove(i)),
        table(s.remove(i)) == table(s).remove(s[i].0),
{
    let t = s.remove(i);
    assert forall|a: int, b: int| 0 <= a < b < t.len() implies t[a].0 != t[b].0 by {
        let a0 = if a < i { a } else { a + 1 };
        let b0 = if b < i { b } else { b + 1 };
        assert(t[a] == s[a0]);
        assert(t[b] == s[b0]);
    }
    lemma_table(s);
    lemma_table(t);
    let k = s[i].0;
    assert forall|key: Seq<char>| table(t).contains_key(key) <==> table(s).remove(k).contains_key(
        key,
    ) by {
        if table(t).contains_key(key) {
            let j = choose|j: int| 0 <= j < t.len() && t[j].0 == key;
            let j0 = if j < i { j } else { j + 1 };
            assert(t[j] == s[j0]);
            assert(table(s).contains_key(key));
        }
        if table(s).remove(k).contains_key(key) {
            let j = choose|j: int| 0 <= j < s.len() && s[j].0 == key;
            assert(j != i);
            let j1 = if j < i { j } else { j - 1 };
            assert(t[j1] == s[j]);
            assert(t[j1].0 == key);
        }
    }
    assert forall|key: Seq<char>| table(t).contains_key(key) implies table(t)[key] == table(
        s,
    ).remove(k)[key] by {
        let j = choose|j: int| 0 <= j < t.len() && t[j].0 == key;
        let j0 = if j < i { j } else { j + 1 };
        assert(t[j] == s[j0]);
    }
    assert(table(t) =~= table(s).remove(k));
}

/// The output channels of a started pipeline, keyed by flow name.
#[verifier::reject_recursive_types(T)]
pub struct OutputChannels<T: Clone> {
    entries: Vec<(String, Channel<T>)>,
}

impl<T: Clone> OutputChannels<T> {
    /// The entries, names taken by their text.
    pub closed spec fn entries_spec(&self) -> Seq<(Seq<char>, Channel<T>)> {
        self.entries@.map_values(|e: (String, Channel<T>)| (e.0@, e.1))
    }

    #[verifier::type_invariant]
    closed spec fn wf(&self) -> bool {
        names_distinct(self.entries_spec())
    }

    /// An empty table.
    pub fn new() -> (r: Self)
        ensures
            r@ == Map::<Seq<char>, Channel<T>>::empty(),
    {
        let r = OutputChannels { entries: Vec::new() };
        assert(r.entries_spec() =~= Seq::empty());
        r
    }

    /// Where `name` sits among the entries, if it does.
    fn position(&self, name: &String) -> (r: Option<usize>)
        ensures
            match r {
                Some(i) => i < self.entries_spec().len() && self.entries_spec()[i as int].0
                    == name@,
                None => forall|i: int|
                    0 <= i < self.entries_spec().len() ==> self.entries_spec()[i].0 != name@,
            },
    {
        let mut i: usize = 0;
        while i < self.entries.len()
            invariant
                i <= self.entries.len(),
                forall|j: int| 0 <= j < i ==> self.entries_spec()[j].0 != name@,
            decreases self.entries.len() - i,
        {
            if self.entries[i].0 == *name {
                return Some(i);
            }
            i = i + 1;
        }
        None
    }

    /// How many names the table holds.
    pub fn len(&self) -> (n: usize)
        ensures
            n == self@.len(),
    {
        proof {
            use_type_invariant(self);
            lemma_table(self.entries_spec());
        }
        self.entries.len()
    }

    pub fn is_empty(&self) -> (b: bool)
        ensures
            b == (self@.len() == 0),
    {
        self.len() == 0
    }

    pub fn contains_key(&self, name: &str) -> (b: bool)
        ensures
            b == self@.contains_key(name@),
    {
        proof {
            use_type_invariant(self);
            lemma_table(self.entries_spec());
        }
        let key = name.to_owned();
        self.position(&key).is_some()
    }

    /// The channel registered under `name`, if any.
    pub fn get(&self, name: &str) -> (r: Option<&Channel<T>>)
        ensures
            match r {
                Some(c) => self@.contains_key(name@) && *c == self@[name@],
                None => !self@.contains_key(name@),
            },
    {
        proof {
            use_type_invariant(self);
            lemma_table(self.entries_spec());
        }
        let key = name.to_owned();
        match self.position(&key) {
            Some(i) => Some(&self.entries[i].1),
            None => None,
        }
    }

    /// Registers `channel` under `name`, returning the channel it replaces.
    pub fn insert(&mut self, name: String, channel: Channel<T>) -> (r: Option<Channel<T>>)
        ensures
            final(self)@ == old(self)@.insert(name@, channel),
            r == (if old(self)@.contains_key(name@) {
                Some(old(self)@[name@])
            } else {
                None
            }),
    {
        let replaced = self.remove_named(&name);
        proof {
            use_type_invariant(&*self);
            lemma_table(self.entries_spec());
        }
        let mut entries = Vec::new();
        std::mem::swap(&mut entries, &mut self.entries);
        let ghost before = entries@;
        let key = name;
        proof {
            lemma_table_push(before.map_values(|e: (String, Channel<T>)| (e.0@, e.1)), key@, channel);
        }
        entries.push((key, channel));
        assert(entries@.map_values(|e: (String, Channel<T>)| (e.0@, e.1)) =~= before.map_values(
            |e: (String, Channel<T>)| (e.0@, e.1),
        ).push((key@, channel)));
        self.entries = entries;
        replaced
    }

    /// Takes the channel registered under `name` out of the table.
    pub fn remove(&mut self, name: &str) -> (r: Option<Channel<T>>)
        ensures
            final(self)@ == old(self)@.remove(name@),
            r == (if old(self)@.contains_key(name@) {
                Some(old(self)@[name@])
            } else {
                None
            }),
    {
        let key = name.to_owned();
        self.remove_named(&key)
    }

    fn remove_named(&mut self, name: &String) -> (r: Option<Channel<T>>)
        ensures
            final(self)@ == old(self)@.remove(name@),
            r == (if old(self)@.contains_key(name@) {
                Some(old(self)@[name@])
            } else {
                None
            }),
    {
        proof {
            use_type_invariant(&*self);
            lemma_table(self.entries_spec());
        }
        match self.position(name) {
            None => {
                assert(self@ =~= old(self)@.remove(name@));
                None
            },
            Some(i) => {
                let ghost s = self.entries_spec();
                let mut entries = Vec::new();
                std::mem::swap(&mut entries, &mut self.entries);
                let ghost before = entries@;
                let (_, channel) = entries.remove(i);
                assert(entries@.map_values(|e: (String, Channel<T>)| (e.0@, e.1)) =~= s.remove(
                    i as int,
                ));
                proof {
                    lemma_table_remove(s, i as int);
                }
                self.entries = entries;
                Some(channel)
            },
        }
    }
}

/// In the table of a list of named entries, a name maps to the value of the
/// last entry that carries it.
pub proof fn law_last_entry_wins<V>(s: Seq<(Seq<char>, V)>, i: int)
    requires
        0 <= i < s.len(),
        forall|j: int| i < j < s.len() ==> s[j].0 != s[i].0,
    ensures
        table(s).contains_key(s[i].0),
        table(s)[s[i].0] == s[i].1,
    decreases s.len(),
{
    if i < s.len() - 1 {
        let p = s.drop_last();
        assert(p[i] == s[i]);
        assert(s[s.len() - 1].0 != s[i].0);
        law_last_entry_wins(p, i);
    }
}

/// The table of a list of named entries holds exactly the names that occur
/// in the list.
pub proof fn law_only_listed_names<V>(s: Seq<(Seq<char>, V)>, k: Seq<char>)
    ensures
        table(s).contains_key(k) <==> exists|j: int| 0 <= j < s.len() && s[j].0 == k,
    decreases s.len(),
{
    if s.len() > 0 {
        let p = s.drop_last();
        law_only_listed_names(p, k);
        if exists|j: int| 0 <= j < p.len() && p[j].0 == k {
            let j = choose|j: int| 0 <= j < p.len() && p[j].0 == k;
            assert(s[j].0 == k);
        }
        if exists|j: int| 0 <= j < s.len() && s[j].0 == k {
            let j = choose|j: int| 0 <= j < s.len() && s[j].0 == k;
            if j < s.len() - 1 {
                assert(p[j].0 == k);
            }
        }
    }
}

/// The entries of `named`, names taken by their text.
pub open spec fn named_view<T: Clone>(named: Seq<(String, Channel<T>)>) -> Seq<(Seq<char>, Channel<T>)> {
    named.map_values(|e: (String, Channel<T>)| (e.0@, e.1))
}

/// Builds the table of a pipeline's outputs from each flow's name and output
/// channel, in the order the flows were started: every name maps to the
/// channel of the last flow that carries it.
pub fn collect_outputs<T: Clone>(named: Vec<(String, Channel<T>)>) -> (r: OutputChannels<T>)
    ensures
        r@ == table(named_view(named@)),
{
    let ghost all = named_view(named@);
    let mut r = OutputChannels::new();
    let mut rest = named;
    let ghost mut done: Seq<(Seq<char>, Channel<T>)> = Seq::empty();
    assert(all =~= done + named_view(rest@));
    while rest.len() > 0
        invariant
            all == done + named_view(rest@),
            r@ == table(done),
        decreases rest.len(),
    {
        let ghost old_rest = rest@;
        let (name, channel) = rest.remove(0);
        let ghost entry = (name@, channel);
        r.insert(name, channel);
        proof {
            assert(done.push(entry).drop_last() =~= done);
            assert(named_view(old_rest) =~= seq![entry] + named_view(rest@));
            assert(done.push(entry) + named_view(rest@) =~= done + named_view(old_rest));
            done = done.push(entry);
        }
    }
    assert(done =~= all);
    r
}

impl<T: Clone> View for OutputChannels<T> {
    type V = Map<Seq<char>, Channel<T>>;

    open spec fn view(&self) -> Map<Seq<char>, Channel<T>> {
        table(self.entries_spec())
    }
}

/// Looking a name up in the table that registering a channel under it gave
/// (`after`, as `OutputChannels::insert` states it) yields that channel, and
/// every other name keeps its channel.
pub proof fn law_lookup_after_insert<T: Clone>(
    before: OutputChannels<T>,
    after: OutputChannels<T>,
    name: Seq<char>,
    c: Channel<T>,
    other: Seq<char>,
)
    requires
        after@ == before@.insert(name, c),
        other != name,
    ensures
        after@.contains_key(name),
        after@[name] == c,
        after@.contains_key(other) == before@.contains_key(other),
        before@.contains_key(other) ==> after@[other] == before@[other],
{
}

/// Registering two channels in turn under one name leaves the table as
/// registering only the second would: only the last channel registered
/// under a name is kept.
pub proof fn law_insert_replaces<T: Clone>(
    start: OutputChannels<T>,
    middle: OutputChannels<T>,
    end: OutputChannels<T>,
    name: Seq<char>,
    first: Channel<T>,
    second: Channel<T>,
)
    requires
        middle@ == start@.insert(name, first),
        end@ == middle@.insert(name, second),
    ensures
        end@ == start@.insert(name, second),
{
    assert(end@ =~= start@.insert(name, second));
}

/// Taking out a name that was just registered (and absent before) gives
/// back the table as it was.
pub proof fn law_remove_undoes_insert<T: Clone>(
    start: OutputChannels<T>,
    middle: OutputChannels<T>,
    end: OutputChannels<T>,
    name: Seq<char>,
    c: Channel<T>,
)
    requires
        !start@.contains_key(name),
        middle@ == start@.insert(name, c),
        end@ == middle@.remove(name),
    ensures
        end@ == start@,
{
    assert(end@ =~= start@);
}

} // verus!
