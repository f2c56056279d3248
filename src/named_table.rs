use vstd::prelude::*;

verus! {

/// No name occurs twice in the sequence.
pub open spec fn unique_names<T>(s: Seq<(Seq<char>, T)>) -> bool {
    forall|i: int, j: int| 0 <= i < s.len() && 0 <= j < s.len() && i != j ==> s[i].0 != s[j].0
}

pub open spec fn has_name<T>(s: Seq<(Seq<char>, T)>, k: Seq<char>) -> bool {
    exists|i: int| 0 <= i < s.len() && s[i].0 == k
}

/// The named values of a sequence as a map.
pub open spec fn seq_map<T>(s: Seq<(Seq<char>, T)>) -> Map<Seq<char>, T> {
    Map::new(
        |k: Seq<char>| has_name(s, k),
        |k: Seq<char>| s[choose|i: int| 0 <= i < s.len() && s[i].0 == k].1,
    )
}

/// Adds named values in order, each only where its name is still free; an
/// entry without a value (one that could not be read) is skipped.
pub open spec fn first_wins<T>(m: Map<Seq<char>, T>, s: Seq<(Seq<char>, Option<T>)>) -> Map<Seq<char>, T>
    decreases s.len(),
{
    if s.len() == 0 {
        m
    } else {
        let prev = first_wins(m, s.drop_last());
        let e = s.last();
        if prev.contains_key(e.0) || e.1 is None {
            prev
        } else {
            prev.insert(e.0, e.1.unwrap())
        }
    }
}

/// Every entry carries a value.
pub open spec fn all_present<T>(s: Seq<(Seq<char>, Option<T>)>) -> bool {
    forall|i: int| 0 <= i < s.len() ==> s[i].1 is Some
}

pub open spec fn unwrap_values<T>(s: Seq<(Seq<char>, Option<T>)>) -> Seq<(Seq<char>, T)> {
    s.map_values(|e: (Seq<char>, Option<T>)| (e.0, e.1.unwrap()))
}

pub proof fn lemma_seq_map_at<T>(s: Seq<(Seq<char>, T)>, i: int)
    requires
        unique_names(s),
        0 <= i < s.len(),
    ensures
        seq_map(s).contains_key(s[i].0),
        seq_map(s)[s[i].0] == s[i].1,
{
    assert(has_name(s, s[i].0));
    let j = choose|j: int| 0 <= j < s.len() && s[j].0 == s[i].0;
    assert(j == i);
}

pub proof fn lemma_seq_map_push<T>(s: Seq<(Seq<char>, T)>, x: (Seq<char>, T))
    requires
        unique_names(s),
        !has_name(s, x.0),
    ensures
        unique_names(s.push(x)),
        seq_map(s.push(x)) == seq_map(s).insert(x.0, x.1),
{
    let s2 = s.push(x);
    assert(unique_names(s2));
    assert forall|k: Seq<char>| #[trigger] seq_map(s2).contains_key(k) <==> seq_map(s).insert(x.0, x.1).contains_key(k) by {
        if has_name(s, k) {
            let j = choose|j: int| 0 <= j < s.len() && s[j].0 == k;
            assert(s2[j].0 == k);
        }
        if has_name(s2, k) && k != x.0 {
            let j = choose|j: int| 0 <= j < s2.len() && s2[j].0 == k;
            assert(s[j].0 == k);
        }
        if k == x.0 {
            assert(s2[s.len() as int].0 == k);
        }
    }
    assert forall|k: Seq<char>| #[trigger] seq_map(s2).contains_key(k) implies seq_map(s2)[k] == seq_map(s).insert(x.0, x.1)[k] by {
        let j = choose|j: int| 0 <= j < s2.len() && s2[j].0 == k;
        lemma_seq_map_at(s2, j);
        if k != x.0 {
            lemma_seq_map_at(s, j);
        }
    }
    assert(seq_map(s2) =~= seq_map(s).insert(x.0, x.1));
}

pub proof fn lemma_seq_map_empty<T>()
    ensures
        seq_map(Seq::<(Seq<char>, T)>::empty()) == Map::<Seq<char>, T>::empty(),
{
    assert(seq_map(Seq::<(Seq<char>, T)>::empty()) =~= Map::<Seq<char>, T>::empty());
}

/// Adding entries with distinct names that are all free in `m`, each with a
/// value, gives `m` together with those entries.
pub proof fn lemma_first_wins_fresh<T>(m: Map<Seq<char>, T>, s: Seq<(Seq<char>, Option<T>)>)
    requires
        all_present(s),
        unique_names(s),
        forall|i: int| 0 <= i < s.len() ==> !m.contains_key(#[trigger] s[i].0),
    ensures
        unique_names(unwrap_values(s)),
        first_wins(m, s) == m.union_prefer_right(seq_map(unwrap_values(s))),
    decreases s.len(),
{
    let u = unwrap_values(s);
    assert(unique_names(u));
    if s.len() == 0 {
        lemma_seq_map_empty::<T>();
        assert(m.union_prefer_right(Map::empty()) =~= m);
        assert(u =~= Seq::empty());
    } else {
        let p = s.drop_last();
        lemma_first_wins_fresh(m, p);
        let up = unwrap_values(p);
        assert(u =~= up.push((s.last().0, s.last().1.unwrap())));
        assert(!has_name(up, s.last().0)) by {
            if has_name(up, s.last().0) {
                let j = choose|j: int| 0 <= j < up.len() && up[j].0 == s.last().0;
                assert(s[j].0 == s[s.len() - 1].0);
            }
        }
        lemma_seq_map_push(up, (s.last().0, s.last().1.unwrap()));
        let prev = first_wins(m, p);
        assert(!prev.contains_key(s.last().0)) by {
            assert(!m.contains_key(s[s.len() - 1].0));
        }
        assert(first_wins(m, s) =~= m.union_prefer_right(seq_map(u)));
    }
}

/// Values looked up by name: a list of named entries in which no name
/// occurs twice.
#[derive(Debug)]
pub struct NamedTable<V> {
    entries: Vec<(String, V)>,
}

impl<V: View> NamedTable<V> {
    /// The entries, each as its name and the view of its value.
    pub closed spec fn entries_view(&self) -> Seq<(Seq<char>, V::V)> {
        self.entries@.map_values(|e: (String, V)| (e.0@, e.1@))
    }

    pub open spec fn wf(&self) -> bool {
        unique_names(self.entries_view())
    }

    /// The table as a map from name to value.
    pub open spec fn view(&self) -> Map<Seq<char>, V::V> {
        seq_map(self.entries_view())
    }

    pub fn new() -> (r: NamedTable<V>)
        ensures
            r.wf(),
            r.view() == Map::<Seq<char>, V::V>::empty(),
            r.entries_view().len() == 0,
    {
        let r = NamedTable { entries: Vec::new() };
        assert(r.entries_view() =~= Seq::empty());
        proof {
            lemma_seq_map_empty::<V::V>();
        }
        r
    }

    pub fn len(&self) -> (r: usize)
        ensures
            r == self.entries_view().len(),
    {
        self.entries.len()
    }

    /// The name and value of the entry at index `i`.
    pub fn entry(&self, i: usize) -> (r: (&String, &V))
        requires
            i < self.entries_view().len(),
        ensures
            r.0@ == self.entries_view()[i as int].0,
            r.1@ == self.entries_view()[i as int].1,
    {
        let e = &self.entries[i];
        (&e.0, &e.1)
    }

    fn index_of(&self, name: &String) -> (r: Option<usize>)
        requires
            self.wf(),
        ensures
            match r {
                Some(i) => i < self.entries_view().len() && self.entries_view()[i as int].0 == name@,
                None => !has_name(self.entries_view(), name@),
            },
    {
        let mut i: usize = 0;
        while i < self.entries.len()
            invariant
                i <= self.entries.len(),
                forall|j: int| 0 <= j < i ==> self.entries_view()[j].0 != name@,
            decreases self.entries.len() - i,
        {
            if self.entries[i].0 == *name {
                return Some(i);
            }
            i = i + 1;
        }
        None
    }

    /// Whether a value is stored under the name.
    pub fn contains(&self, name: &String) -> (r: bool)
        requires
            self.wf(),
        ensures
            r == self.view().contains_key(name@),
    {
        self.index_of(name).is_some()
    }

    /// The value stored under the name.
    pub fn get(&self, name: &String) -> (r: Option<&V>)
        requires
            self.wf(),
        ensures
            r is Some == self.view().contains_key(name@),
            r is Some ==> r.unwrap()@ == self.view()[name@],
    {
        match self.index_of(name) {
            Some(i) => {
                proof {
                    lemma_seq_map_at(self.entries_view(), i as int);
                }
                Some(&self.entries[i].1)
            },
            None => None,
        }
    }

    /// Stores the value under the name, replacing any earlier one.
    pub fn insert(&mut self, name: String, value: V)
        requires
            old(self).wf(),
        ensures
            final(self).wf(),
            final(self).view() == old(self).view().insert(name@, value@),
    {
        let ghost s = self.entries_view();
        match self.index_of(&name) {
            Some(i) => {
                let ghost k = name@;
                let ghost v = value@;
                self.entries.set(i, (name, value));
                let ghost s2 = self.entries_view();
                assert(s2 =~= s.update(i as int, (k, v)));
                proof {
                    assert(unique_names(s2));
                    assert forall|n: Seq<char>| #[trigger] seq_map(s2).contains_key(n) <==> seq_map(s).insert(k, v).contains_key(n) by {
                        if has_name(s, n) {
                            let j = choose|j: int| 0 <= j < s.len() && s[j].0 == n;
                            assert(s2[j].0 == n);
                        }
                        if has_name(s2, n) {
                            let j = choose|j: int| 0 <= j < s2.len() && s2[j].0 == n;
                            assert(s[j].0 == n);
                        }
                    }
                    assert forall|n: Seq<char>| #[trigger] seq_map(s2).contains_key(n) implies seq_map(s2)[n] == seq_map(s).insert(k, v)[n] by {
                        let j = choose|j: int| 0 <= j < s2.len() && s2[j].0 == n;
                        lemma_seq_map_at(s2, j);
                        if n != k {
                            lemma_seq_map_at(s, j);
                        }
                    }
                    assert(seq_map(s2) =~= seq_map(s).insert(k, v));
                }
            },
            None => {
                let ghost x = (name@, value@);
                self.entries.push((name, value));
                assert(self.entries_view() =~= s.push(x));
                proof {
                    lemma_seq_map_push(s, x);
                }
            },
        }
    }
}

} // verus!
