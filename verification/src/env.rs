use vstd::prelude::*;

verus! {

/// The environment overlay of an execution context: a mapping of variable
/// names to values with unique keys, applied on top of whatever environment
/// the executor starts from.
#[derive(Debug)]
pub struct EnvMap {
    entries: Vec<(String, String)>,
}

/// Whether no two entries carry the same variable name.
spec fn keys_unique(s: Seq<(String, String)>) -> bool {
    forall|i: int, j: int| 0 <= i < j < s.len() ==> s[i].0@ != s[j].0@
}

/// The mapping that a sequence of entries stands for, later entries winning.
spec fn entries_map(s: Seq<(String, String)>) -> Map<Seq<char>, Seq<char>>
    decreases s.len(),
{
    if s.len() == 0 {
        Map::empty()
    } else {
        entries_map(s.drop_last()).insert(s.last().0@, s.last().1@)
    }
}

/// Whether some entry carries the name `k`.
spec fn has_key(s: Seq<(String, String)>, k: Seq<char>) -> bool {
    exists|i: int| 0 <= i < s.len() && s[i].0@ == k
}

proof fn lemma_entries_map_dom(s: Seq<(String, String)>)
    ensures
        entries_map(s).dom().finite(),
        forall|k: Seq<char>| #[trigger] entries_map(s).contains_key(k) <==> has_key(s, k),
    decreases s.len(),
{
    if s.len() == 0 {
    } else {
        let dl = s.drop_last();
        lemma_entries_map_dom(dl);
        assert forall|k: Seq<char>| #[trigger]
            entries_map(s).contains_key(k) <==> has_key(s, k) by {
            if entries_map(s).contains_key(k) {
                if k == s.last().0@ {
                    assert(s[s.len() - 1].0@ == k);
                } else {
                    let i = choose|i: int| 0 <= i < dl.len() && dl[i].0@ == k;
                    assert(s[i].0@ == k);
                }
            }
            if has_key(s, k) {
                let i = choose|i: int| 0 <= i < s.len() && s[i].0@ == k;
                if i < s.len() - 1 {
                    assert(dl[i].0@ == k);
                    assert(has_key(dl, k));
                }
            }
        }
    }
}

proof fn lemma_entries_map_get(s: Seq<(String, String)>, i: int)
    requires
        keys_unique(s),
        0 <= i < s.len(),
    ensures
        entries_map(s).contains_key(s[i].0@),
        entries_map(s)[s[i].0@] == s[i].1@,
    decreases s.len(),
{
    let dl = s.drop_last();
    if i == s.len() - 1 {
    } else {
        lemma_entries_map_get(dl, i);
        assert(s[i].0@ != s.last().0@);
    }
}

proof fn lemma_entries_map_len(s: Seq<(String, String)>)
    requires
        keys_unique(s),
    ensures
        entries_map(s).dom().finite(),
        entries_map(s).dom().len() == s.len(),
    decreases s.len(),
{
    lemma_entries_map_dom(s);
    if s.len() == 0 {
    } else {
        let dl = s.drop_last();
        lemma_entries_map_len(dl);
        lemma_entries_map_dom(dl);
        if entries_map(dl).contains_key(s.last().0@) {
            let i = choose|i: int| 0 <= i < dl.len() && dl[i].0@ == s.last().0@;
            assert(s[i].0@ == s[s.len() - 1].0@);
            assert(false);
        }
        assert(entries_map(s).dom() =~= entries_map(dl).dom().insert(s.last().0@));
    }
}

proof fn lemma_entries_map_update(s: Seq<(String, String)>, i: int, e: (String, String))
    requires
        keys_unique(s),
        0 <= i < s.len(),
        e.0@ == s[i].0@,
    ensures
        entries_map(s.update(i, e)) =~= entries_map(s).insert(e.0@, e.1@),
    decreases s.len(),
{
    let u = s.update(i, e);
    let dl = s.drop_last();
    if i == s.len() - 1 {
        assert(u.drop_last() =~= dl);
        assert(u.last() == e);
    } else {
        assert(u.drop_last() =~= dl.update(i, e));
        lemma_entries_map_update(dl, i, e);
        assert(u.last() == s.last());
        assert(s[i].0@ != s.last().0@);
        assert(entries_map(dl).insert(e.0@, e.1@).insert(s.last().0@, s.last().1@)
            =~= entries_map(dl).insert(s.last().0@, s.last().1@).insert(e.0@, e.1@));
    }
}

proof fn lemma_entries_map_congruent(a: Seq<(String, String)>, b: Seq<(String, String)>)
    requires
        a.len() == b.len(),
        forall|i: int| 0 <= i < a.len() ==> #[trigger] a[i].0@ == b[i].0@ && a[i].1@ == b[i].1@,
    ensures
        entries_map(a) == entries_map(b),
    decreases a.len(),
{
    if a.len() == 0 {
        assert(entries_map(a) =~= entries_map(b));
    } else {
        lemma_entries_map_congruent(a.drop_last(), b.drop_last());
        assert(a[a.len() - 1].0@ == b[b.len() - 1].0@);
        assert(a[a.len() - 1].1@ == b[b.len() - 1].1@);
        assert(entries_map(a) =~= entries_map(b));
    }
}

impl View for EnvMap {
    type V = Map<Seq<char>, Seq<char>>;

    closed spec fn view(&self) -> Map<Seq<char>, Seq<char>> {
        entries_map(self.entries@)
    }
}

impl EnvMap {
    #[verifier::type_invariant]
    spec fn wf(self) -> bool {
        keys_unique(self.entries@)
    }

    /// Builds an empty overlay.
    pub fn new() -> (m: EnvMap)
        ensures
            m@ == Map::<Seq<char>, Seq<char>>::empty(),
    {
        EnvMap { entries: Vec::new() }
    }

    /// The number of variables in the overlay.
    pub fn len(&self) -> (n: usize)
        ensures
            n == self@.dom().len(),
    {
        proof {
            use_type_invariant(&*self);
            lemma_entries_map_len(self.entries@);
        }
        self.entries.len()
    }

    /// Looks a variable up by name.
    pub fn get(&self, key: &String) -> (r: Option<&String>)
        ensures
            match r {
                Some(v) => self@.contains_key(key@) && v@ == self@[key@],
                None => !self@.contains_key(key@),
            },
    {
        proof {
            use_type_invariant(&*self);
        }
        let n = self.entries.len();
        let mut j: usize = 0;
        while j < n
            invariant
                n == self.entries@.len(),
                j <= n,
                forall|jj: int| 0 <= jj < j ==> self.entries@[jj].0@ != key@,
            decreases n - j,
        {
            if self.entries[j].0 == *key {
                proof {
                    use_type_invariant(&*self);
                    lemma_entries_map_get(self.entries@, j as int);
                }
                return Some(&self.entries[j].1);
            }
            j += 1;
        }
        proof {
            lemma_entries_map_dom(self.entries@);
        }
        None
    }

    /// Whether a variable of that name is in the overlay.
    pub fn contains_key(&self, key: &String) -> (b: bool)
        ensures
            b == self@.contains_key(key@),
    {
        self.get(key).is_some()
    }

    /// Adds a variable to the overlay; an existing variable of the same name
    /// is replaced, never duplicated.
    pub fn insert(&mut self, key: String, value: String)
        ensures
            final(self)@ == old(self)@.insert(key@, value@),
    {
        proof {
            use_type_invariant(&*self);
        }
        let n = self.entries.len();
        let mut j: usize = 0;
        while j < n
            invariant
                n == self.entries@.len(),
                j <= n,
                keys_unique(self.entries@),
                self.entries@ == old(self).entries@,
                forall|jj: int| 0 <= jj < j ==> self.entries@[jj].0@ != key@,
            decreases n - j,
        {
            if self.entries[j].0 == key {
                proof {
                    lemma_entries_map_update(self.entries@, j as int, (key, value));
                    assert(keys_unique(self.entries@.update(j as int, (key, value))));
                }
                let mut es: Vec<(String, String)> = Vec::new();
                core::mem::swap(&mut self.entries, &mut es);
                es[j] = (key, value);
                core::mem::swap(&mut self.entries, &mut es);
                return ;
            }
            j += 1;
        }
        let mut es: Vec<(String, String)> = Vec::new();
        core::mem::swap(&mut self.entries, &mut es);
        es.push((key, value));
        proof {
            assert(keys_unique(es@));
            assert(es@.drop_last() =~= old(self).entries@);
        }
        core::mem::swap(&mut self.entries, &mut es);
    }

    /// The variables of the overlay as name-value pairs, each name once.
    pub fn entries(&self) -> (r: &Vec<(String, String)>)
        ensures
            r@.len() == self@.dom().len(),
            forall|i: int|
                0 <= i < r@.len() ==> self@.contains_key(#[trigger] r@[i].0@) && self@[r@[i].0@]
                    == r@[i].1@,
            forall|i: int, j: int| 0 <= i < j < r@.len() ==> r@[i].0@ != r@[j].0@,
    {
        proof {
            use_type_invariant(&*self);
            lemma_entries_map_len(self.entries@);
            assert forall|i: int| 0 <= i < self.entries@.len() implies self@.contains_key(
                #[trigger] self.entries@[i].0@,
            ) && self@[self.entries@[i].0@] == self.entries@[i].1@ by {
                lemma_entries_map_get(self.entries@, i);
            }
        }
        &self.entries
    }

    /// Removes every variable from the overlay.
    pub fn clear(&mut self)
        ensures
            final(self)@ == Map::<Seq<char>, Seq<char>>::empty(),
    {
        *self = EnvMap::new();
    }
}

impl Clone for EnvMap {
    /// The copy stands for the same mapping.
    fn clone(&self) -> (r: Self)
        ensures
            r@ == self@,
    {
        proof {
            use_type_invariant(&*self);
        }
        let n = self.entries.len();
        let mut out: Vec<(String, String)> = Vec::new();
        let mut j: usize = 0;
        while j < n
            invariant
                n == self.entries@.len(),
                j <= n,
                out@.len() == j,
                forall|jj: int| 0 <= jj < j ==> #[trigger] out@[jj].0@ == self.entries@[jj].0@
                    && out@[jj].1@ == self.entries@[jj].1@,
            decreases n - j,
        {
            out.push((self.entries[j].0.clone(), self.entries[j].1.clone()));
            j += 1;
        }
        proof {
            lemma_entries_map_congruent(out@, self.entries@);
            assert(keys_unique(out@));
        }
        EnvMap { entries: out }
    }
}

} // verus!
