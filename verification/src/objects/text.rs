use vstd::prelude::*;

use crate::coordinate::Coordinate;
use crate::map_object::{Centroid, Rational};
use crate::objects::point::point_centroid;

verus! {

/// The key-value map described by a property list; a later entry for
/// the same key overrides an earlier one.
pub open spec fn props_map(entries: Seq<(String, String)>) -> Map<Seq<char>, Seq<char>>
    decreases entries.len(),
{
    if entries.len() == 0 {
        Map::empty()
    } else {
        props_map(entries.drop_last()).insert(entries.last().0@, entries.last().1@)
    }
}

/// No two entries of the property list share a key.
pub open spec fn keys_unique(entries: Seq<(String, String)>) -> bool {
    forall|i: int, j: int|
        0 <= i < j < entries.len() ==> #[trigger] entries[i].0@ != #[trigger] entries[j].0@
}

/// The mathematical content of a text label: its anchor position,
/// its payload, and its property map.
pub struct TextV {
    pub position: Coordinate,
    pub content: Seq<char>,
    pub properties: Map<Seq<char>, Seq<char>>,
}

/// A text label: an anchor coordinate, a string payload, and
/// free-form string properties (insertion order irrelevant).
#[derive(Debug)]
pub struct Text {
    position: Coordinate,
    content: String,
    properties: Vec<(String, String)>,
}

impl View for Text {
    type V = TextV;

    closed spec fn view(&self) -> TextV {
        TextV {
            position: self.position,
            content: self.content@,
            properties: props_map(self.properties@),
        }
    }
}

/// An entry of the list is in the map, with its value.
proof fn lemma_props_found(entries: Seq<(String, String)>, i: int)
    requires
        keys_unique(entries),
        0 <= i < entries.len(),
    ensures
        props_map(entries).contains_key(entries[i].0@),
        props_map(entries)[entries[i].0@] == entries[i].1@,
    decreases entries.len(),
{
    if i < entries.len() - 1 {
        lemma_props_found(entries.drop_last(), i);
    }
}

/// A key under which no entry stands is not in the map.
proof fn lemma_props_absent(entries: Seq<(String, String)>, k: Seq<char>)
    requires
        forall|i: int| 0 <= i < entries.len() ==> #[trigger] entries[i].0@ != k,
    ensures
        !props_map(entries).contains_key(k),
    decreases entries.len(),
{
    if entries.len() > 0 {
        lemma_props_absent(entries.drop_last(), k);
    }
}

/// Overwriting the entry that holds a key updates the map at that key.
proof fn lemma_props_update(entries: Seq<(String, String)>, i: int, e: (String, String))
    requires
        keys_unique(entries),
        0 <= i < entries.len(),
        e.0@ == entries[i].0@,
    ensures
        props_map(entries.update(i, e)) == props_map(entries).insert(e.0@, e.1@),
    decreases entries.len(),
{
    let u = entries.update(i, e);
    if i == entries.len() - 1 {
        assert(u.drop_last() =~= entries.drop_last());
        assert(u.last() == e);
        assert(props_map(u) =~= props_map(entries).insert(e.0@, e.1@));
    } else {
        assert(u.drop_last() =~= entries.drop_last().update(i, e));
        lemma_props_update(entries.drop_last(), i, e);
        assert(entries.last().0@ != e.0@);
        assert(props_map(u) =~= props_map(entries).insert(e.0@, e.1@));
    }
}

/// Appending an entry with a fresh key inserts it into the map.
proof fn lemma_props_push(entries: Seq<(String, String)>, e: (String, String))
    ensures
        props_map(entries.push(e)) == props_map(entries).insert(e.0@, e.1@),
{
    assert(entries.push(e).drop_last() =~= entries);
    assert(entries.push(e).last() == e);
}

impl Text {
    #[verifier::type_invariant]
    spec fn inv(self) -> bool {
        keys_unique(self.properties@)
    }

    /// Builds a text label at the given anchor; never fails.
    pub fn new(x: i32, y: i32, content: &str) -> (t: Self)
        ensures
            t@.position == (Coordinate { x, y }),
            t@.content == content@,
            t@.properties == Map::<Seq<char>, Seq<char>>::empty(),
    {
        Self {
            position: Coordinate::new(x, y),
            content: content.to_owned(),
            properties: Vec::new(),
        }
    }

    /// The anchor position.
    pub fn position(&self) -> (r: &Coordinate)
        ensures
            *r == self@.position,
    {
        &self.position
    }

    /// The string payload.
    pub fn content(&self) -> (r: &str)
        ensures
            r@ == self@.content,
    {
        self.content.as_str()
    }

    /// Sets a property, overriding an earlier value under the same key.
    pub fn set_property(&mut self, key: &str, value: &str)
        ensures
            final(self)@.position == old(self)@.position,
            final(self)@.content == old(self)@.content,
            final(self)@.properties == old(self)@.properties.insert(key@, value@),
    {
        proof {
            use_type_invariant(&*self);
        }
        let k: String = key.to_owned();
        let v: String = value.to_owned();
        let n = self.properties.len();
        let mut props: Vec<(String, String)> = Vec::new();
        core::mem::swap(&mut self.properties, &mut props);
        let ghost entries = props@;
        let mut i: usize = 0;
        while i < n
            invariant
                n == entries.len(),
                props@ == entries,
                entries == old(self).properties@,
                i <= n,
                k@ == key@,
                v@ == value@,
                keys_unique(entries),
                self.position == old(self).position,
                self.content == old(self).content,
                forall|j: int| 0 <= j < i ==> #[trigger] entries[j].0@ != key@,
            decreases n - i,
        {
            if props[i].0 == k {
                props.set(i, (k, v));
                proof {
                    assert(props@[i as int].0@ == entries[i as int].0@);
                    lemma_props_update(entries, i as int, props@[i as int]);
                    assert(keys_unique(props@)) by {
                        assert forall|a: int, b: int|
                            0 <= a < b < props@.len() implies #[trigger] props@[a].0@
                            != #[trigger] props@[b].0@ by {
                            assert(props@[a].0@ == entries[a].0@);
                            assert(props@[b].0@ == entries[b].0@);
                        }
                    }
                }
                core::mem::swap(&mut self.properties, &mut props);
                return ;
            }
            i = i + 1;
        }
        props.push((k, v));
        proof {
            lemma_props_push(entries, props@.last());
            assert(props@.last().0@ == key@);
            assert(keys_unique(props@)) by {
                assert forall|a: int, b: int|
                    0 <= a < b < props@.len() implies #[trigger] props@[a].0@ != #[trigger] props@[
                    b].0@ by {
                    if b < entries.len() {
                        assert(props@[a].0@ == entries[a].0@);
                        assert(props@[b].0@ == entries[b].0@);
                    } else {
                        assert(props@[a].0@ == entries[a].0@);
                        assert(props@[b].0@ == key@);
                    }
                }
            }
        }
        core::mem::swap(&mut self.properties, &mut props);
    }

    /// Looks a property up by key.
    pub fn get_property(&self, key: &str) -> (r: Option<&String>)
        ensures
            r is Some <==> self@.properties.contains_key(key@),
            r is Some ==> r->Some_0@ == self@.properties[key@],
    {
        proof {
            use_type_invariant(&*self);
        }
        let k: String = key.to_owned();
        let n = self.properties.len();
        let mut i: usize = 0;
        while i < n
            invariant
                n == self.properties@.len(),
                i <= n,
                k@ == key@,
                keys_unique(self.properties@),
                forall|j: int| 0 <= j < i ==> #[trigger] self.properties@[j].0@ != key@,
            decreases n - i,
        {
            let p = &self.properties[i];
            if p.0 == k {
                proof {
                    lemma_props_found(self.properties@, i as int);
                }
                return Some(&self.properties[i].1);
            }
            i = i + 1;
        }
        proof {
            lemma_props_absent(self.properties@, key@);
        }
        None
    }

    /// Sets a property on an owned label and hands the label back.
    pub fn with_property(self, key: &str, value: &str) -> (r: Self)
        ensures
            r@.position == self@.position,
            r@.content == self@.content,
            r@.properties == self@.properties.insert(key@, value@),
    {
        let mut s = self;
        s.set_property(key, value);
        s
    }

    /// A text label has no area.
    pub fn area(&self) -> (r: Rational)
        ensures
            r.num == 0,
            r.den == 2,
    {
        Rational { num: 0, den: 2 }
    }

    /// A text label has no length.
    pub fn length(&self) -> (r: u64)
        ensures
            r == 0,
    {
        0
    }

    /// The centroid of a text label is its anchor position.
    pub fn centroid(&self) -> (c: Centroid)
        ensures
            c@ == point_centroid(self@.position),
    {
        Centroid { x_num: self.position.x as i128, y_num: self.position.y as i128, den: 1 }
    }

    /// The property entries, one per key.
    pub fn properties(&self) -> (r: &Vec<(String, String)>)
        ensures
            props_map(r@) == self@.properties,
            keys_unique(r@),
    {
        proof {
            use_type_invariant(&*self);
        }
        &self.properties
    }

    /// An independent deep copy.
    pub fn duplicate(&self) -> (r: Self)
        ensures
            r@ == self@,
    {
        proof {
            use_type_invariant(&*self);
        }
        let n = self.properties.len();
        let mut props: Vec<(String, String)> = Vec::new();
        let mut i: usize = 0;
        while i < n
            invariant
                n == self.properties@.len(),
                i <= n,
                props@.len() == i,
                forall|j: int| 0 <= j < i ==> #[trigger] props@[j] == self.properties@[j],
            decreases n - i,
        {
            let p = &self.properties[i];
            let e = (p.0.clone(), p.1.clone());
            proof {
                assert(e =~= self.properties@[i as int]);
            }
            props.push(e);
            i = i + 1;
        }
        proof {
            assert(props@ =~= self.properties@);
        }
        Self { position: self.position, content: self.content.clone(), properties: props }
    }
}

} // verus!
