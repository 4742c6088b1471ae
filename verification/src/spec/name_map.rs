//! A map from names to values that keeps the order of insertion.
use vstd::prelude::*;
use vstd::std_specs::cmp::PartialEqSpec;
use vstd::std_specs::cmp::PartialEqSpecImpl;
use vstd::string::StringSliceAdditionalSpecFns;
use vstd::utf8::encode_utf8_decode_utf8;

verus! {

/// The characters of each of a list of strings.
pub open spec fn name_views(names: Seq<String>) -> Seq<Seq<char>> {
    names.map_values(|s: String| s@)
}

/// The finite map that a list of distinct names and the list of their
/// values stand for.
pub open spec fn lists_to_map<V>(names: Seq<Seq<char>>, values: Seq<V>) -> Map<Seq<char>, V> {
    Map::new(|name: Seq<char>| names.contains(name), |name: Seq<char>| values[names.index_of(name)])
}

/// In a list of distinct names, the name at `i` maps to the value at `i`.
pub proof fn lemma_map_at<V>(names: Seq<Seq<char>>, values: Seq<V>, i: int)
    requires
        names.no_duplicates(),
        0 <= i < names.len(),
    ensures
        lists_to_map(names, values).contains_key(names[i]),
        lists_to_map(names, values)[names[i]] == values[i],
{
    assert(names.contains(names[i]));
    let j = names.index_of(names[i]);
    assert(0 <= j < names.len() && names[j] == names[i]);
}

/// Whether two string slices hold the same characters. They do when
/// their UTF-8 encodings agree byte for byte.
pub fn str_eq(a: &str, b: &str) -> (r: bool)
    ensures
        r == (a@ == b@),
{
    let left = a.as_bytes();
    let right = b.as_bytes();
    if left.len() != right.len() {
        return false;
    }
    let mut i: usize = 0;
    while i < left.len()
        invariant
            left@ == a.spec_bytes(),
            right@ == b.spec_bytes(),
            left@.len() == right@.len(),
            i <= left@.len(),
            forall|k: int| 0 <= k < i ==> left@[k] == right@[k],
        decreases left@.len() - i,
    {
        if left[i] != right[i] {
            return false;
        }
        i += 1;
    }
    proof {
        assert(left@ =~= right@);
        encode_utf8_decode_utf8(a@);
        encode_utf8_decode_utf8(b@);
    }
    true
}

/// A map keyed by name. Each name occurs once; entries keep the order in
/// which their names were first inserted.
#[derive(Debug)]
pub struct NameMap<V> {
    names: Vec<String>,
    values: Vec<V>,
}

impl<V> View for NameMap<V> {
    type V = Map<Seq<char>, V>;

    open spec fn view(&self) -> Map<Seq<char>, V> {
        lists_to_map(self.names(), self.values())
    }
}

impl<V> NameMap<V> {
    /// The names in order of insertion, each as its sequence of characters.
    pub closed spec fn names(&self) -> Seq<Seq<char>> {
        name_views(self.names@)
    }

    /// The values, each at the position of its name.
    pub closed spec fn values(&self) -> Seq<V> {
        self.values@
    }

    /// Every value of this type holds as many names as values, and each
    /// name at most once.
    #[verifier::type_invariant]
    pub open spec fn wf(&self) -> bool {
        &&& self.names().len() == self.values().len()
        &&& self.names().no_duplicates()
    }

    /// An empty map.
    pub fn new() -> (r: Self)
        ensures
            r.names() == Seq::<Seq<char>>::empty(),
            r.values() == Seq::<V>::empty(),
            r@ == Map::<Seq<char>, V>::empty(),
    {
        let r = NameMap { names: Vec::new(), values: Vec::new() };
        assert(r.names() =~= Seq::<Seq<char>>::empty());
        assert(r@ =~= Map::<Seq<char>, V>::empty());
        r
    }

    /// The number of entries.
    pub fn len(&self) -> (n: usize)
        ensures
            n == self.names().len(),
            n == self.values().len(),
    {
        proof {
            use_type_invariant(self);
        }
        self.names.len()
    }

    /// Whether the map has no entry.
    pub fn is_empty(&self) -> (r: bool)
        ensures
            r == (self.names().len() == 0),
            r == (self@ == Map::<Seq<char>, V>::empty()),
    {
        proof {
            if self.names().len() == 0 {
                assert(self@ =~= Map::<Seq<char>, V>::empty());
            } else {
                assert(self.names().contains(self.names()[0]));
                assert(self@.contains_key(self.names()[0]));
            }
        }
        self.names.len() == 0
    }

    /// Takes the map apart into its entries, in order of insertion.
    pub fn into_entries(self) -> (r: Vec<(String, V)>)
        ensures
            self.wf(),
            r@.len() == self.names().len(),
            forall|i: int|
                0 <= i < r@.len() ==> (#[trigger] r@[i]).0@ == self.names()[i] && r@[i].1
                    == self.values()[i],
    {
        proof {
            use_type_invariant(&self);
        }
        let ghost names_before = self.names();
        let ghost values_before = self.values();
        let NameMap { names, mut values } = self;
        let mut reversed: Vec<V> = Vec::new();
        while values.len() > 0
            invariant
                values@.len() + reversed@.len() == values_before.len(),
                values@ == values_before.subrange(0, values@.len() as int),
                forall|k: int|
                    0 <= k < reversed@.len() ==> reversed@[k] == values_before[values_before.len()
                        - 1 - k],
            decreases values@.len(),
        {
            match values.pop() {
                Some(v) => {
                    reversed.push(v);
                },
                None => {},
            }
        }
        let mut entries: Vec<(String, V)> = Vec::new();
        for name in it: names.into_iter()
            invariant
                it.seq().len() == values_before.len(),
                name_views(it.seq()) == names_before,
                entries@.len() == it.index(),
                reversed@.len() + entries@.len() == values_before.len(),
                forall|k: int|
                    0 <= k < reversed@.len() ==> reversed@[k] == values_before[values_before.len()
                        - 1 - k],
                forall|k: int|
                    0 <= k < entries@.len() ==> (#[trigger] entries@[k]).0@ == names_before[k]
                        && entries@[k].1 == values_before[k],
        {
            match reversed.pop() {
                Some(v) => {
                    entries.push((name, v));
                },
                None => {},
            }
        }
        entries
    }

    /// The position of `name` among the entries, if it is there.
    fn find(&self, name: &str) -> (r: Option<usize>)
        ensures
            match r {
                Some(i) => i < self.names().len() && self.names()[i as int] == name@,
                None => !self.names().contains(name@),
            },
    {
        let mut i: usize = 0;
        while i < self.names.len()
            invariant
                i <= self.names@.len(),
                forall|j: int| 0 <= j < i ==> self.names()[j] != name@,
            decreases self.names@.len() - i,
        {
            if str_eq(self.names[i].as_str(), name) {
                return Some(i);
            }
            i += 1;
        }
        None
    }

    /// Whether `name` has an entry.
    pub fn contains_key(&self, name: &str) -> (r: bool)
        ensures
            r == self@.contains_key(name@),
    {
        self.find(name).is_some()
    }

    /// The value under `name`, if there is one.
    pub fn get(&self, name: &str) -> (r: Option<&V>)
        ensures
            match r {
                Some(v) => self@.contains_key(name@) && *v == self@[name@],
                None => !self@.contains_key(name@),
            },
    {
        proof {
            use_type_invariant(self);
        }
        match self.find(name) {
            Some(i) => {
                proof {
                    lemma_map_at(self.names(), self.values(), i as int);
                }
                Some(&self.values[i])
            },
            None => None,
        }
    }

    /// The value under `name`, for writing, if there is one.
    pub fn get_mut(&mut self, name: &str) -> (r: Option<&mut V>)
        ensures
            match r {
                Some(v) => old(self)@.contains_key(name@) && *v == old(self)@[name@]
                    && final(self)@ == old(self)@.insert(name@, *final(v))
                    && final(self).names() == old(self).names(),
                None => !old(self)@.contains_key(name@) && *final(self) == *old(self),
            },
    {
        proof {
            use_type_invariant(&*self);
        }
        match self.find(name) {
            Some(i) => {
                proof {
                    lemma_map_at(self.names(), self.values(), i as int);
                }
                Some(&mut self.values[i])
            },
            None => None,
        }
    }

    /// Puts `value` under `name`. A name that is already there keeps its
    /// place and gives its former value back; a new name goes to the end.
    pub fn insert(&mut self, name: String, value: V) -> (r: Option<V>)
        ensures
            final(self)@ == old(self)@.insert(name@, value),
            r == if old(self)@.contains_key(name@) {
                Some(old(self)@[name@])
            } else {
                None::<V>
            },
            final(self).names() == if old(self)@.contains_key(name@) {
                old(self).names()
            } else {
                old(self).names().push(name@)
            },
    {
        proof {
            use_type_invariant(&*self);
        }
        match self.find(name.as_str()) {
            Some(i) => {
                proof {
                    lemma_map_at(self.names(), self.values(), i as int);
                }
                let mut slot = value;
                core::mem::swap(&mut self.values[i], &mut slot);
                proof {
                    lemma_map_update(old(self).names(), old(self).values(), i as int, value);
                    assert(self.values() =~= old(self).values().update(i as int, value));
                }
                Some(slot)
            },
            None => {
                let mut taken = NameMap::new();
                core::mem::swap(self, &mut taken);
                proof {
                    lemma_map_push(taken.names(), taken.values(), name@, value);
                }
                let NameMap { mut names, mut values } = taken;
                names.push(name);
                values.push(value);
                assert(name_views(names@) =~= old(self).names().push(name@));
                *self = NameMap { names, values };
                None
            },
        }
    }
}

/// Writing a value at the place of a name changes the map at that name only.
pub proof fn lemma_map_update<V>(names: Seq<Seq<char>>, values: Seq<V>, i: int, value: V)
    requires
        names.no_duplicates(),
        names.len() == values.len(),
        0 <= i < names.len(),
    ensures
        lists_to_map(names, values.update(i, value)) == lists_to_map(names, values).insert(
            names[i],
            value,
        ),
{
    let a = lists_to_map(names, values.update(i, value));
    let b = lists_to_map(names, values).insert(names[i], value);
    assert(names.contains(names[i]));
    assert forall|name: Seq<char>| a.contains_key(name) implies a[name] == b[name] by {
        let j = names.index_of(name);
        assert(0 <= j < names.len() && names[j] == name);
    }
    assert(a =~= b);
}

/// Appending a new name with its value adds that one entry to the map.
pub proof fn lemma_map_push<V>(names: Seq<Seq<char>>, values: Seq<V>, name: Seq<char>, value: V)
    requires
        names.no_duplicates(),
        names.len() == values.len(),
        !names.contains(name),
    ensures
        names.push(name).no_duplicates(),
        lists_to_map(names.push(name), values.push(value)) == lists_to_map(names, values).insert(
            name,
            value,
        ),
{
    let names2 = names.push(name);
    let values2 = values.push(value);
    assert forall|i: int, j: int|
        0 <= i < names2.len() && 0 <= j < names2.len() && i != j implies names2[i] != names2[j] by {
        if i < names.len() {
            assert(names.contains(names[i]));
        }
        if j < names.len() {
            assert(names.contains(names[j]));
        }
    }
    let a = lists_to_map(names2, values2);
    let b = lists_to_map(names, values).insert(name, value);
    assert(names2[names.len() as int] == name);
    assert forall|k: Seq<char>| a.contains_key(k) <==> b.contains_key(k) by {
        if names.contains(k) {
            let j = names.index_of(k);
            assert(names2[j] == k);
        }
        if names2.contains(k) && k != name {
            let j = names2.index_of(k);
            assert(names[j] == k);
        }
    }
    assert forall|k: Seq<char>| a.contains_key(k) implies a[k] == b[k] by {
        let j = names2.index_of(k);
        assert(0 <= j < names2.len() && names2[j] == k);
        if k != name {
            assert(names[j] == k);
            let j2 = names.index_of(k);
            assert(names[j2] == k);
        }
    }
    assert(a =~= b);
}

impl<V> Default for NameMap<V> {
    /// An empty map.
    fn default() -> (r: Self)
        ensures
            r.names() == Seq::<Seq<char>>::empty(),
            r@ == Map::<Seq<char>, V>::empty(),
    {
        NameMap::new()
    }
}

impl<V: Clone> Clone for NameMap<V> {
    /// A map with the same names in the same order, each value a clone.
    fn clone(&self) -> (r: Self)
        ensures
            r.names() == self.names(),
            r.values().len() == self.values().len(),
            forall|i: int|
                0 <= i < self.values().len() ==> cloned(self.values()[i], #[trigger] r.values()[i]),
    {
        proof {
            use_type_invariant(self);
        }
        let mut names: Vec<String> = Vec::new();
        let mut values: Vec<V> = Vec::new();
        let n = self.names.len();
        let mut i: usize = 0;
        while i < n
            invariant
                n == self.names@.len(),
                n == self.values@.len(),
                i <= n,
                names@.len() == i,
                values@.len() == i,
                forall|k: int| 0 <= k < i ==> (#[trigger] names@[k])@ == self.names@[k]@,
                forall|k: int| 0 <= k < i ==> cloned(self.values@[k], #[trigger] values@[k]),
            decreases n - i,
        {
            names.push(self.names[i].clone());
            values.push(self.values[i].clone());
            i += 1;
        }
        assert(name_views(names@) =~= self.names());
        NameMap { names, values }
    }
}

impl<V: PartialEq> PartialEqSpecImpl for NameMap<V> {
    open spec fn obeys_eq_spec() -> bool {
        <V as PartialEqSpec>::obeys_eq_spec()
    }

    /// Two maps are equal when they hold equally many names and every
    /// name of the first has an equal value in the second. The order of
    /// the entries does not count.
    open spec fn eq_spec(&self, other: &Self) -> bool {
        &&& self.names().len() == other.names().len()
        &&& forall|i: int|
            0 <= i < self.names().len() ==> other@.contains_key(#[trigger] self.names()[i])
                && self.values()[i].eq_spec(&other@[self.names()[i]])
    }
}

impl<V: PartialEq> PartialEq for NameMap<V> {
    fn eq(&self, other: &Self) -> (r: bool) {
        proof {
            use_type_invariant(self);
            use_type_invariant(other);
        }
        if self.names.len() != other.names.len() {
            return false;
        }
        let n = self.names.len();
        let mut i: usize = 0;
        while i < n
            invariant
                n == self.names@.len(),
                n == self.values@.len(),
                other.wf(),
                i <= n,
                <V as PartialEqSpec>::obeys_eq_spec() ==> forall|k: int|
                    0 <= k < i ==> other@.contains_key(#[trigger] self.names()[k])
                        && self.values()[k].eq_spec(&other@[self.names()[k]]),
            decreases n - i,
        {
            match other.find(self.names[i].as_str()) {
                Some(j) => {
                    proof {
                        lemma_map_at(other.names(), other.values(), j as int);
                    }
                    if !(self.values[i] == other.values[j]) {
                        assert(other@[self.names()[i as int]] == other.values()[j as int]);
                        return false;
                    }
                },
                None => {
                    assert(!other@.contains_key(self.names()[i as int]));
                    return false;
                },
            }
            i += 1;
        }
        true
    }
}

} // verus!
