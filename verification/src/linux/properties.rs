//! Maps from property names to values, as they are sent over the message bus.
use vstd::prelude::*;

use crate::double::Double;

verus! {

/// A value in the metadata of a track.
#[derive(Clone, Debug)]
pub enum MetadataValue {
    ObjectPath(String),
    Int64(i64),
    Text(String),
    TextList(Vec<String>),
}

/// What a `MetadataValue` holds.
#[verifier::ext_equal]
pub enum MetadataValueView {
    ObjectPath(Seq<char>),
    Int64(int),
    Text(Seq<char>),
    TextList(Seq<Seq<char>>),
}

impl View for MetadataValue {
    type V = MetadataValueView;

    open spec fn view(&self) -> MetadataValueView {
        match self {
            MetadataValue::ObjectPath(path) => MetadataValueView::ObjectPath(path@),
            MetadataValue::Int64(number) => MetadataValueView::Int64(*number as int),
            MetadataValue::Text(text) => MetadataValueView::Text(text@),
            MetadataValue::TextList(list) => MetadataValueView::TextList(
                list@.map_values(|text: String| text@),
            ),
        }
    }
}

/// A value of a player property.
#[derive(Clone, Debug)]
pub enum PropertyValue {
    Bool(bool),
    Double(Double),
    Text(String),
    Metadata(PropertyMap<MetadataValue>),
}

/// What a `PropertyValue` holds.
#[verifier::ext_equal]
pub enum PropertyValueView {
    Bool(bool),
    Double(Double),
    Text(Seq<char>),
    Metadata(Map<Seq<char>, MetadataValueView>),
}

impl View for PropertyValue {
    type V = PropertyValueView;

    open spec fn view(&self) -> PropertyValueView {
        match self {
            PropertyValue::Bool(value) => PropertyValueView::Bool(*value),
            PropertyValue::Double(number) => PropertyValueView::Double(*number),
            PropertyValue::Text(text) => PropertyValueView::Text(text@),
            PropertyValue::Metadata(metadata) => PropertyValueView::Metadata(metadata@),
        }
    }
}

/// A map from names to values. No name occurs twice.
#[derive(Clone, Debug)]
pub struct PropertyMap<T> {
    pub names: Vec<String>,
    pub values: Vec<T>,
}

impl<T> PropertyMap<T> {
    /// The names, in their order.
    pub open spec fn name_seq(self) -> Seq<Seq<char>> {
        self.names@.map_values(|name: String| name@)
    }

    /// Each name has one value.
    pub open spec fn wf(self) -> bool {
        &&& self.names.len() == self.values.len()
        &&& self.name_seq().no_duplicates()
    }
}

impl<T: View> View for PropertyMap<T> {
    type V = Map<Seq<char>, T::V>;

    open spec fn view(&self) -> Map<Seq<char>, T::V> {
        Map::new(
            |name: Seq<char>| self.name_seq().contains(name),
            |name: Seq<char>| self.values@[self.name_seq().index_of(name)]@,
        )
    }
}

/// The value that the map holds for the name at an index.
proof fn lemma_at<T: View>(map: PropertyMap<T>, i: int)
    requires
        map.wf(),
        0 <= i < map.names.len(),
    ensures
        map@.contains_key(map.names@[i]@),
        map@[map.names@[i]@] == map.values@[i]@,
{
    let names = map.name_seq();
    assert(names[i] == map.names@[i]@);
    assert(names.contains(names[i]));
    let j = names.index_of(names[i]);
    assert(0 <= j < names.len() && names[j] == names[i]);
}

impl<T: View> PropertyMap<T> {
    pub fn new() -> (r: Self)
        ensures
            r.wf(),
            r@ == Map::<Seq<char>, T::V>::empty(),
    {
        let r = PropertyMap { names: Vec::new(), values: Vec::new() };
        assert(r@ =~= Map::<Seq<char>, T::V>::empty());
        r
    }

    /// The index of a name, or the number of names where there is no such name.
    fn position(&self, name: &String) -> (r: usize)
        requires
            self.wf(),
        ensures
            r <= self.names.len(),
            r < self.names.len() ==> self.names@[r as int]@ == name@,
            r < self.names.len() <==> self@.contains_key(name@),
    {
        let mut i: usize = 0;
        while i < self.names.len() && self.names[i] != *name
            invariant
                i <= self.names.len(),
                forall|j: int| 0 <= j < i ==> (#[trigger] self.names@[j])@ != name@,
            decreases self.names.len() - i,
        {
            i = i + 1;
        }
        proof {
            let names = self.name_seq();
            if i < self.names.len() {
                lemma_at(*self, i as int);
            } else if names.contains(name@) {
                let j = choose|j: int| 0 <= j < names.len() && names[j] == name@;
                assert(self.names@[j]@ == name@);
            }
        }
        i
    }

    /// Makes `value` the value of `name`.
    pub fn insert(&mut self, name: String, value: T)
        requires
            old(self).wf(),
        ensures
            final(self).wf(),
            final(self)@ == old(self)@.insert(name@, value@),
    {
        let i = self.position(&name);
        let ghost before = *self;
        let ghost names = self.name_seq();
        if i < self.names.len() {
            self.values.set(i, value);
            proof {
                assert(self.name_seq() =~= names);
                assert forall|n: Seq<char>| #[trigger] names.contains(n) implies self@[n]
                    == before@.insert(name@, value@)[n] by {
                    let j = names.index_of(n);
                    lemma_at(*self, j);
                    lemma_at(before, j);
                    assert(names[i as int] == name@);
                }
                assert(names.contains(names[i as int]));
            }
        } else {
            self.names.push(name);
            self.values.push(value);
            proof {
                assert(self.name_seq() =~= names.push(name@));
                assert(names.contains(name@) == before@.contains_key(name@));
                assert(self.wf()) by {
                    let after = self.name_seq();
                    assert forall|a: int, b: int|
                        0 <= a < after.len() && 0 <= b < after.len() && a != b implies after[a]
                        != after[b] by {
                        if a == names.len() {
                            assert(names.contains(names[b]));
                        } else if b == names.len() {
                            assert(names.contains(names[a]));
                        }
                    }
                }
                assert forall|n: Seq<char>| self.name_seq().contains(n) <==> #[trigger] names.contains(
                n) || n == name@ by {
                    let after = self.name_seq();
                    if names.contains(n) {
                        let j = names.index_of(n);
                        assert(after[j] == n);
                    }
                    assert(after[names.len() as int] == name@);
                    if after.contains(n) && n != name@ {
                        let j = after.index_of(n);
                        assert(names[j] == n);
                    }
                }
                assert forall|n: Seq<char>| #[trigger] self@.contains_key(n) implies self@[n]
                    == before@.insert(name@, value@)[n] by {
                    let j = self.name_seq().index_of(n);
                    lemma_at(*self, j);
                    if j < names.len() {
                        lemma_at(before, j);
                        assert(names[j] == n);
                    }
                }
            }
        }
        assert(self@ =~= before@.insert(name@, value@));
    }

    pub fn contains_key(&self, name: &String) -> (r: bool)
        requires
            self.wf(),
        ensures
            r == self@.contains_key(name@),
    {
        self.position(name) < self.names.len()
    }

    /// The value of a name.
    pub fn get(&self, name: &String) -> (r: Option<&T>)
        requires
            self.wf(),
        ensures
            r is Some <==> self@.contains_key(name@),
            r matches Some(value) ==> value@ == self@[name@],
    {
        let i = self.position(name);
        if i < self.names.len() {
            proof {
                lemma_at(*self, i as int);
            }
            Some(&self.values[i])
        } else {
            None
        }
    }
}

} // verus!
