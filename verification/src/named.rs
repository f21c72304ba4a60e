use indexmap::IndexSet;
use vstd::prelude::*;

verus! {

/// The insertion-ordered hash set of `indexmap`.
#[verifier::external_type_specification]
#[verifier::external_body]
#[verifier::reject_recursive_types(T)]
#[verifier::reject_recursive_types(S)]
pub struct ExIndexSet<T, S>(IndexSet<T, S>);

/// The items of an index set of strings, as texts, in the set's order.
pub uninterp spec fn index_set_items(s: IndexSet<String>) -> Seq<Seq<char>>;

/// `IndexSet::new`: the set that it makes holds no item.
#[verifier::external_body]
fn index_set_new() -> (s: IndexSet<String>)
    ensures
        index_set_items(s) == Seq::<Seq<char>>::empty(),
{
    IndexSet::new()
}

/// `IndexSet::get_index_of`: the position of an item equal to `name`, or
/// `None` where the set holds no such item.
#[verifier::external_body]
fn index_set_position(s: &IndexSet<String>, name: &str) -> (r: Option<usize>)
    ensures
        match r {
            Some(i) => i < index_set_items(*s).len() && index_set_items(*s)[i as int] == name@,
            None => forall|j: int|
                0 <= j < index_set_items(*s).len() ==> index_set_items(*s)[j] != name@,
        },
{
    s.get_index_of(name)
}

/// `IndexSet::get_index`: the item at position `i`, or `None` where `i` is
/// not below the number of items.
#[verifier::external_body]
fn index_set_item_at(s: &IndexSet<String>, i: usize) -> (r: Option<&String>)
    ensures
        match r {
            Some(item) => i < index_set_items(*s).len() && item@ == index_set_items(*s)[i as int],
            None => i >= index_set_items(*s).len(),
        },
{
    s.get_index(i)
}

/// `IndexSet::insert`: an item that the set does not hold yet goes to the
/// end and the call returns `true`; where the set holds an equal item it
/// stays as it is and the call returns `false`.
#[verifier::external_body]
fn index_set_insert(s: &mut IndexSet<String>, name: String) -> (fresh: bool)
    ensures
        fresh == !index_set_items(*old(s)).contains(name@),
        fresh ==> index_set_items(*final(s)) == index_set_items(*old(s)).push(name@),
        !fresh ==> index_set_items(*final(s)) == index_set_items(*old(s)),
{
    s.insert(name)
}

/// No name occurs twice among the entries.
pub open spec fn distinct_names<T>(s: Seq<(Seq<char>, T)>) -> bool {
    forall|i: int, j: int| 0 <= i < j < s.len() ==> s[i].0 != s[j].0
}

/// Whether some entry bears `name`.
pub open spec fn has_name<T>(s: Seq<(Seq<char>, T)>, name: Seq<char>) -> bool {
    exists|i: int| 0 <= i < s.len() && #[trigger] s[i].0 == name
}

/// The position of an entry that bears `name`.
pub open spec fn position_of<T>(s: Seq<(Seq<char>, T)>, name: Seq<char>) -> int {
    choose|i: int| 0 <= i < s.len() && #[trigger] s[i].0 == name
}

/// The item under `name`, if an entry bears that name.
pub open spec fn lookup<T>(s: Seq<(Seq<char>, T)>, name: Seq<char>) -> Option<T> {
    if has_name(s, name) {
        Some(s[position_of(s, name)].1)
    } else {
        None
    }
}

/// Among entries with distinct names, the entry at `i` is the one that its
/// name finds.
pub proof fn lemma_lookup_at<T>(s: Seq<(Seq<char>, T)>, i: int)
    requires
        distinct_names(s),
        0 <= i < s.len(),
    ensures
        has_name(s, s[i].0),
        position_of(s, s[i].0) == i,
        lookup(s, s[i].0) == Some(s[i].1),
{
    let p = position_of(s, s[i].0);
    if p < i {
        assert(s[p].0 != s[i].0);
    } else if i < p {
        assert(s[i].0 != s[p].0);
    }
}

/// Named items in the order in which their names first came. An index set
/// finds a name's position; the item stands at that position in a vector.
#[derive(Debug)]
pub struct Named<T> {
    names: IndexSet<String>,
    items: Vec<T>,
}

impl<T> View for Named<T> {
    type V = Seq<(Seq<char>, T)>;

    closed spec fn view(&self) -> Seq<(Seq<char>, T)> {
        Seq::new(self.items@.len(), |i: int| (index_set_items(self.names)[i], self.items@[i]))
    }
}

impl<T> Named<T> {
    #[verifier::type_invariant]
    spec fn names_match_items(&self) -> bool {
        &&& index_set_items(self.names).len() == self.items@.len()
        &&& index_set_items(self.names).no_duplicates()
    }

    /// The collection without entries.
    pub fn new() -> (r: Self)
        ensures
            r@ == Seq::<(Seq<char>, T)>::empty(),
    {
        Named { names: index_set_new(), items: Vec::new() }
    }

    /// The number of entries.
    pub fn len(&self) -> (r: usize)
        ensures
            r == self@.len(),
            distinct_names(self@),
    {
        proof {
            use_type_invariant(self);
        }
        self.items.len()
    }

    /// Whether there is no entry.
    pub fn is_empty(&self) -> (r: bool)
        ensures
            r == (self@.len() == 0),
    {
        self.items.len() == 0
    }

    /// The entry at position `i`, or `None` where `i` is not below the
    /// number of entries.
    pub fn entry(&self, i: usize) -> (r: Option<(&String, &T)>)
        ensures
            distinct_names(self@),
            match r {
                Some((name, item)) => i < self@.len() && name@ == self@[i as int].0 && *item
                    == self@[i as int].1,
                None => i >= self@.len(),
            },
    {
        proof {
            use_type_invariant(self);
        }
        if i < self.items.len() {
            match index_set_item_at(&self.names, i) {
                Some(name) => Some((name, &self.items[i])),
                None => None,
            }
        } else {
            None
        }
    }

    /// The item under `name`, if an entry bears that name.
    pub fn get(&self, name: &str) -> (r: Option<&T>)
        ensures
            distinct_names(self@),
            match r {
                Some(item) => lookup(self@, name@) == Some(*item),
                None => lookup(self@, name@) == None::<T>,
            },
    {
        proof {
            use_type_invariant(self);
        }
        match index_set_position(&self.names, name) {
            Some(i) => {
                proof {
                    lemma_lookup_at(self@, i as int);
                }
                Some(&self.items[i])
            },
            None => None,
        }
    }

    /// Puts `item` under `name`: in the place of the item that the name bore
    /// before, or at the end where the name is new.
    pub fn insert(&mut self, name: String, item: T)
        ensures
            distinct_names(old(self)@),
            has_name(old(self)@, name@) ==> final(self)@ == old(self)@.update(
                position_of(old(self)@, name@),
                (name@, item),
            ),
            !has_name(old(self)@, name@) ==> final(self)@ == old(self)@.push((name@, item)),
    {
        proof {
            use_type_invariant(&*self);
        }
        let ghost before = self@;
        let mut taken = Named::new();
        core::mem::swap(self, &mut taken);
        let Named { names, items } = taken;
        let mut names = names;
        let mut items = items;
        match index_set_position(&names, name.as_str()) {
            Some(i) => {
                proof {
                    lemma_lookup_at(before, i as int);
                }
                items.set(i, item);
            },
            None => {
                index_set_insert(&mut names, name);
                items.push(item);
            },
        }
        let mut rebuilt = Named { names, items };
        proof {
            if has_name(before, name@) {
                assert(rebuilt@ =~= before.update(position_of(before, name@), (name@, item)));
            } else {
                assert(rebuilt@ =~= before.push((name@, item)));
            }
        }
        core::mem::swap(self, &mut rebuilt);
    }
}

impl<T: Clone> Clone for Named<T> {
    /// A collection with the same names in the same order, each with a
    /// clone of its item.
    fn clone(&self) -> (r: Self)
        ensures
            r@.len() == self@.len(),
            forall|j: int|
                0 <= j < self@.len() ==> (#[trigger] r@[j]).0 == self@[j].0 && cloned(
                    self@[j].1,
                    r@[j].1,
                ),
    {
        let mut r: Named<T> = Named::new();
        let n: usize = self.len();
        let mut i: usize = 0;
        while i < n
            invariant
                n == self@.len(),
                i <= n,
                distinct_names(self@),
                r@.len() == i,
                forall|j: int|
                    0 <= j < i ==> (#[trigger] r@[j]).0 == self@[j].0 && cloned(
                        self@[j].1,
                        r@[j].1,
                    ),
            decreases n - i,
        {
            match self.entry(i) {
                Some((name, item)) => {
                    let ghost before = r@;
                    assert(!has_name(before, name@)) by {
                        if has_name(before, name@) {
                            let p = position_of(before, name@);
                            assert(before[p].0 == self@[p].0);
                        }
                    }
                    r.insert(name.clone(), item.clone());
                },
                None => {},
            }
            i += 1;
        }
        r
    }
}

} // verus!
