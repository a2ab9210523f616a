use vstd::prelude::*;

verus! {

/// Whether a top-level entry is a single regular file or a directory tree.
#[derive(Clone, Copy, Debug, PartialEq, Eq, Structural)]
pub enum Kind {
    File,
    Dir,
}

/// One top-level entry of a directory: its name and its kind.
#[derive(Debug)]
pub struct Entry {
    pub name: String,
    pub kind: Kind,
}

/// The map from entry names to kinds that a sequence of entries describes.
pub open spec fn entries_map(s: Seq<Entry>) -> Map<Seq<char>, Kind>
    decreases s.len(),
{
    if s.len() == 0 {
        Map::empty()
    } else {
        entries_map(s.drop_last()).insert(s.last().name@, s.last().kind)
    }
}

/// No two entries share a name.
pub open spec fn unique_names(s: Seq<Entry>) -> bool {
    forall|i: int, j: int| 0 <= i < j < s.len() ==> s[i].name@ != s[j].name@
}

/// The names of the entries, in order.
pub open spec fn entry_names(s: Seq<Entry>) -> Seq<Seq<char>> {
    s.map_values(|e: Entry| e.name@)
}

pub proof fn lemma_entries_map_dom(s: Seq<Entry>, k: Seq<char>)
    ensures
        entries_map(s).contains_key(k) <==> exists|i: int| 0 <= i < s.len() && s[i].name@ == k,
    decreases s.len(),
{
    if s.len() > 0 {
        lemma_entries_map_dom(s.drop_last(), k);
        if exists|i: int| 0 <= i < s.drop_last().len() && s.drop_last()[i].name@ == k {
            let i = choose|i: int| 0 <= i < s.drop_last().len() && s.drop_last()[i].name@ == k;
            assert(s[i].name@ == k);
        }
        if exists|i: int| 0 <= i < s.len() && s[i].name@ == k {
            let i = choose|i: int| 0 <= i < s.len() && s[i].name@ == k;
            if i < s.len() - 1 {
                assert(s.drop_last()[i].name@ == k);
            }
        }
    }
}

pub proof fn lemma_entries_map_value(s: Seq<Entry>, i: int)
    requires
        unique_names(s),
        0 <= i < s.len(),
    ensures
        entries_map(s).contains_key(s[i].name@),
        entries_map(s)[s[i].name@] == s[i].kind,
    decreases s.len(),
{
    if i < s.len() - 1 {
        assert(s.drop_last()[i] == s[i]);
        lemma_entries_map_value(s.drop_last(), i);
        assert(s[i].name@ != s.last().name@);
    }
}

pub proof fn lemma_entries_map_push(s: Seq<Entry>, e: Entry)
    ensures
        entries_map(s.push(e)) == entries_map(s).insert(e.name@, e.kind),
{
    assert(s.push(e).drop_last() =~= s);
}

pub proof fn lemma_entries_map_remove(s: Seq<Entry>, i: int)
    requires
        unique_names(s),
        0 <= i < s.len(),
    ensures
        entries_map(s.remove(i)) == entries_map(s).remove(s[i].name@),
        unique_names(s.remove(i)),
    decreases s.len(),
{
    let last = s.last();
    let rest = s.drop_last();
    if i == s.len() - 1 {
        assert(s.remove(i) =~= rest);
        lemma_entries_map_dom(rest, last.name@);
        assert(!entries_map(rest).contains_key(last.name@));
        assert(entries_map(s).remove(last.name@) =~= entries_map(rest));
    } else {
        assert(rest[i] == s[i]);
        lemma_entries_map_remove(rest, i);
        assert(s.remove(i) =~= rest.remove(i).push(last));
        lemma_entries_map_push(rest.remove(i), last);
        assert(s[i].name@ != last.name@);
        assert(entries_map(s.remove(i)) =~= entries_map(s).remove(s[i].name@));
        assert forall|a: int, b: int| 0 <= a < b < s.remove(i).len() implies s.remove(i)[a].name@
            != s.remove(i)[b].name@ by {
            let ia = if a < i { a } else { a + 1 };
            let ib = if b < i { b } else { b + 1 };
            assert(s.remove(i)[a] == s[ia]);
            assert(s.remove(i)[b] == s[ib]);
        }
    }
}

pub proof fn lemma_entry_names(s: Seq<Entry>)
    requires
        unique_names(s),
    ensures
        entry_names(s).no_duplicates(),
        entry_names(s).len() == s.len(),
        forall|k: Seq<char>| entry_names(s).contains(k) <==> entries_map(s).contains_key(k),
{
    assert forall|k: Seq<char>| entry_names(s).contains(k) <==> entries_map(s).contains_key(k) by {
        lemma_entries_map_dom(s, k);
        if entry_names(s).contains(k) {
            let i = choose|i: int| 0 <= i < entry_names(s).len() && entry_names(s)[i] == k;
            assert(s[i].name@ == k);
        }
        if entries_map(s).contains_key(k) {
            let i = choose|i: int| 0 <= i < s.len() && s[i].name@ == k;
            assert(entry_names(s)[i] == k);
        }
    }
}

/// The top-level entries of one directory: the templates directory of the
/// store, or the working directory that a template is cloned into.
pub struct Listing {
    entries: Vec<Entry>,
}

impl View for Listing {
    type V = Map<Seq<char>, Kind>;

    closed spec fn view(&self) -> Map<Seq<char>, Kind> {
        entries_map(self.entries@)
    }
}

impl Listing {
    /// Entry names are unique, as in a directory.
    pub closed spec fn wf(&self) -> bool {
        unique_names(self.entries@)
    }

    /// The entry names in the order in which they were recorded.
    pub closed spec fn names(&self) -> Seq<Seq<char>> {
        entry_names(self.entries@)
    }

    /// The names of a well-formed listing are its keys, each once.
    pub proof fn lemma_names(&self)
        requires
            self.wf(),
        ensures
            self.names().no_duplicates(),
            forall|k: Seq<char>| self.names().contains(k) <==> self@.contains_key(k),
    {
        lemma_entry_names(self.entries@);
    }

    /// An empty directory.
    pub fn new() -> (r: Listing)
        ensures
            r.wf(),
            r@ == Map::<Seq<char>, Kind>::empty(),
            r.names() == Seq::<Seq<char>>::empty(),
    {
        let r = Listing { entries: Vec::new() };
        proof {
            assert(r.names() =~= Seq::<Seq<char>>::empty());
        }
        r
    }

    /// The position of the entry called `name`, if there is one.
    fn find(&self, name: &String) -> (r: Option<usize>)
        requires
            self.wf(),
        ensures
            r is None <==> !self@.contains_key(name@),
            r matches Some(i) ==> i < self.entries@.len() && self.entries@[i as int].name@ == name@,
    {
        let mut i: usize = 0;
        while i < self.entries.len()
            invariant
                i <= self.entries@.len(),
                forall|j: int| 0 <= j < i ==> self.entries@[j].name@ != name@,
            decreases self.entries@.len() - i,
        {
            if self.entries[i].name == *name {
                proof {
                    lemma_entries_map_dom(self.entries@, name@);
                }
                return Some(i);
            }
            i = i + 1;
        }
        proof {
            lemma_entries_map_dom(self.entries@, name@);
        }
        None
    }

    /// The kind of the entry called `name`, if there is one.
    pub fn kind_of(&self, name: &String) -> (r: Option<Kind>)
        requires
            self.wf(),
        ensures
            r is None <==> !self@.contains_key(name@),
            r matches Some(k) ==> k == self@[name@],
    {
        match self.find(name) {
            None => None,
            Some(i) => {
                proof {
                    lemma_entries_map_value(self.entries@, i as int);
                }
                Some(self.entries[i].kind)
            },
        }
    }

    /// Whether an entry called `name` exists.
    pub fn contains(&self, name: &String) -> (r: bool)
        requires
            self.wf(),
        ensures
            r == self@.contains_key(name@),
    {
        self.find(name).is_some()
    }

    /// Records a new entry; a name that is already taken is refused and
    /// leaves the listing as it was.
    pub fn insert(&mut self, name: String, kind: Kind) -> (r: bool)
        requires
            old(self).wf(),
        ensures
            final(self).wf(),
            r == !old(self)@.contains_key(name@),
            r ==> final(self)@ == old(self)@.insert(name@, kind),
            r ==> final(self).names() == old(self).names().push(name@),
            !r ==> *final(self) == *old(self),
    {
        if self.contains(&name) {
            return false;
        }
        let ghost before = self.entries@;
        let ghost e = Entry { name, kind };
        proof {
            lemma_entries_map_dom(before, name@);
            lemma_entries_map_push(before, e);
        }
        self.entries.push(Entry { name, kind });
        proof {
            assert(self.entries@ =~= before.push(e));
            assert(entry_names(self.entries@) =~= entry_names(before).push(name@));
        }
        true
    }

    /// Deletes the entry called `name` and returns its kind; `None` where
    /// there is no such entry, which leaves the listing as it was.
    pub fn remove(&mut self, name: &String) -> (r: Option<Kind>)
        requires
            old(self).wf(),
        ensures
            final(self).wf(),
            final(self)@ == old(self)@.remove(name@),
            r is None <==> !old(self)@.contains_key(name@),
            r matches Some(k) ==> k == old(self)@[name@],
            r is None ==> *final(self) == *old(self),
            r is Some ==> exists|i: int|
                0 <= i < old(self).names().len() && old(self).names()[i] == name@
                    && final(self).names() == old(self).names().remove(i),
    {
        match self.find(name) {
            None => {
                proof {
                    assert(self@.remove(name@) =~= self@);
                }
                None
            },
            Some(i) => {
                proof {
                    lemma_entries_map_value(self.entries@, i as int);
                    lemma_entries_map_remove(self.entries@, i as int);
                }
                let ghost before = self.entries@;
                let e = self.entries.remove(i);
                proof {
                    assert(entry_names(self.entries@) =~= entry_names(before).remove(i as int));
                    assert(entry_names(before)[i as int] == name@);
                    assert(self.names() == old(self).names().remove(i as int));
                }
                Some(e.kind)
            },
        }
    }

    /// The entry names, in the order in which they were recorded.
    pub fn names_vec(&self) -> (r: Vec<String>)
        requires
            self.wf(),
        ensures
            r@.map_values(|s: String| s@) == self.names(),
    {
        let mut r: Vec<String> = Vec::new();
        let mut i: usize = 0;
        while i < self.entries.len()
            invariant
                i <= self.entries@.len(),
                r@.map_values(|s: String| s@) == entry_names(self.entries@.take(i as int)),
            decreases self.entries@.len() - i,
        {
            let ghost before = r@;
            let n = self.entries[i].name.clone();
            r.push(n);
            proof {
                assert(self.entries@.take(i + 1) =~= self.entries@.take(i as int).push(
                    self.entries@[i as int],
                ));
                assert(r@ =~= before.push(n));
                assert(r@.map_values(|s: String| s@) =~= before.map_values(|s: String| s@).push(
                    n@,
                ));
                assert(entry_names(self.entries@.take(i + 1)) =~= entry_names(
                    self.entries@.take(i as int),
                ).push(n@));
            }
            i = i + 1;
        }
        proof {
            assert(self.entries@.take(i as int) =~= self.entries@);
        }
        r
    }
}

} // verus!
