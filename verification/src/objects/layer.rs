use vstd::prelude::*;

use crate::map_object::{
    geom_area2, geom_centroid, geom_length, Centroid, GeomV, MapObject, Rational, MAX_ELEMS,
};

verus! {

/// The sum of twice-areas of the geometries, from index `i`.
pub open spec fn geoms_area2_from(gs: Seq<GeomV>, i: int) -> int
    decreases gs.len() - i,
{
    if i < 0 || i >= gs.len() {
        0
    } else {
        geom_area2(gs[i]) + geoms_area2_from(gs, i + 1)
    }
}

/// The sum of twice-areas of the geometries.
pub open spec fn geoms_area2(gs: Seq<GeomV>) -> int {
    geoms_area2_from(gs, 0)
}

/// The sum of lengths of the geometries, from index `i`.
pub open spec fn geoms_length_from(gs: Seq<GeomV>, i: int) -> int
    decreases gs.len() - i,
{
    if i < 0 || i >= gs.len() {
        0
    } else {
        geom_length(gs[i]) + geoms_length_from(gs, i + 1)
    }
}

/// The sum of lengths of the geometries.
pub open spec fn geoms_length(gs: Seq<GeomV>) -> int {
    geoms_length_from(gs, 0)
}

/// The mathematical content of a layer: its name, its visibility
/// flag, and its geometries in insertion (display) order.
pub struct LayerV {
    pub name: Seq<char>,
    pub visible: bool,
    pub geoms: Seq<GeomV>,
}

/// An ordered, named container of geometries with a visibility flag.
/// Geometries are owned exclusively by the layer and carry no
/// back-reference to it: a layer's name and visibility are queried
/// from the layer itself, never from a stored copy that could go
/// stale.
#[derive(Debug)]
pub struct Layer {
    name: String,
    geometries: Vec<MapObject>,
    is_visible: bool,
}

impl View for Layer {
    type V = LayerV;

    closed spec fn view(&self) -> LayerV {
        LayerV {
            name: self.name@,
            visible: self.is_visible,
            geoms: self.geometries@.map_values(|g: MapObject| g@),
        }
    }
}

impl Layer {
    #[verifier::type_invariant]
    spec fn inv(self) -> bool {
        self.geometries@.len() <= MAX_ELEMS
    }

    /// Creates an empty, visible layer with the given name.
    pub fn new(name: &str) -> (r: Self)
        ensures
            r@.name == name@,
            r@.visible == true,
            r@.geoms == Seq::<GeomV>::empty(),
    {
        let r = Self { name: name.to_owned(), geometries: Vec::new(), is_visible: true };
        proof {
            assert(r@.geoms =~= Seq::<GeomV>::empty());
        }
        r
    }

    /// The number of geometries the layer holds.
    pub fn geometry_count(&self) -> (n: usize)
        ensures
            n == self@.geoms.len(),
    {
        self.geometries.len()
    }

    /// The layer's name.
    pub fn name(&self) -> (r: &str)
        ensures
            r@ == self@.name,
    {
        self.name.as_str()
    }

    /// Whether the layer is visible.
    pub fn is_visible(&self) -> (r: bool)
        ensures
            r == self@.visible,
    {
        self.is_visible
    }

    /// Appends a geometry; insertion order is display order.
    pub fn add_geometry(&mut self, geometry: MapObject)
        requires
            old(self)@.geoms.len() < MAX_ELEMS,
        ensures
            final(self)@.name == old(self)@.name,
            final(self)@.visible == old(self)@.visible,
            final(self)@.geoms == old(self)@.geoms.push(geometry@),
    {
        proof {
            use_type_invariant(&*self);
        }
        let ghost gv = geometry@;
        let mut gs: Vec<MapObject> = Vec::new();
        core::mem::swap(&mut self.geometries, &mut gs);
        gs.push(geometry);
        proof {
            assert(gs@.map_values(|g: MapObject| g@) =~= old(self)@.geoms.push(gv));
        }
        core::mem::swap(&mut self.geometries, &mut gs);
    }

    /// Removes and returns the geometry at `index` if it is in
    /// bounds; later geometries shift down by one. Out of bounds,
    /// returns nothing and leaves the layer unchanged.
    pub fn remove_geometry(&mut self, index: usize) -> (r: Option<MapObject>)
        ensures
            final(self)@.name == old(self)@.name,
            final(self)@.visible == old(self)@.visible,
            index < old(self)@.geoms.len() ==> r is Some
                && r->Some_0@ == old(self)@.geoms[index as int]
                && final(self)@.geoms == old(self)@.geoms.remove(index as int),
            index >= old(self)@.geoms.len() ==> r is None
                && final(self)@.geoms == old(self)@.geoms,
    {
        proof {
            use_type_invariant(&*self);
        }
        if index < self.geometries.len() {
            let mut gs: Vec<MapObject> = Vec::new();
            core::mem::swap(&mut self.geometries, &mut gs);
            let g = gs.remove(index);
            proof {
                assert(gs@.map_values(|g: MapObject| g@) =~= old(self)@.geoms.remove(
                    index as int,
                ));
            }
            core::mem::swap(&mut self.geometries, &mut gs);
            Some(g)
        } else {
            None
        }
    }

    /// Looks a geometry up by index; out of bounds, returns nothing.
    pub fn get_geometry(&self, index: usize) -> (r: Option<&MapObject>)
        ensures
            index < self@.geoms.len() ==> r is Some && r->Some_0@ == self@.geoms[index as int],
            index >= self@.geoms.len() ==> r is None,
    {
        if index < self.geometries.len() {
            Some(&self.geometries[index])
        } else {
            None
        }
    }

    /// The sum of the geometries' areas, exactly: twice the total
    /// area over two.
    pub fn total_area(&self) -> (r: Rational)
        ensures
            r.num as int == geoms_area2(self@.geoms),
            r.den == 2,
    {
        proof {
            use_type_invariant(&*self);
        }
        let ghost gs = self@.geoms;
        let n = self.geometries.len();
        let mut acc: i128 = 0;
        let mut i: usize = 0;
        while i < n
            invariant
                n == self.geometries@.len(),
                gs == self.geometries@.map_values(|g: MapObject| g@),
                gs.len() == n,
                n <= MAX_ELEMS,
                i <= n,
                acc as int + geoms_area2_from(gs, i as int) == geoms_area2(gs),
                0 <= acc as int <= (i as int) * 0x800000000000000000000,
            decreases n - i,
        {
            let a = self.geometries[i].area();
            acc = acc + a.num;
            i = i + 1;
        }
        Rational { num: acc, den: 2 }
    }

    /// The sum of the geometries' lengths.
    pub fn total_length(&self) -> (r: u128)
        ensures
            r as int == geoms_length(self@.geoms),
    {
        proof {
            use_type_invariant(&*self);
        }
        let ghost gs = self@.geoms;
        let n = self.geometries.len();
        let mut acc: u128 = 0;
        let mut i: usize = 0;
        while i < n
            invariant
                n == self.geometries@.len(),
                gs == self.geometries@.map_values(|g: MapObject| g@),
                gs.len() == n,
                n <= MAX_ELEMS,
                i <= n,
                acc as int + geoms_length_from(gs, i as int) == geoms_length(gs),
                0 <= acc as int <= (i as int) * 0x20000000000000,
            decreases n - i,
        {
            let d = self.geometries[i].length();
            acc = acc + d as u128;
            i = i + 1;
        }
        acc
    }

    /// The centroids of the geometries, in insertion order.
    pub fn centroids(&self) -> (r: Vec<Centroid>)
        ensures
            r@.len() == self@.geoms.len(),
            forall|i: int|
                0 <= i < r@.len() ==> #[trigger] r@[i]@ == geom_centroid(self@.geoms[i]),
    {
        let ghost gs = self@.geoms;
        let n = self.geometries.len();
        let mut out: Vec<Centroid> = Vec::new();
        let mut i: usize = 0;
        while i < n
            invariant
                n == self.geometries@.len(),
                gs == self.geometries@.map_values(|g: MapObject| g@),
                gs.len() == n,
                i <= n,
                out@.len() == i,
                forall|j: int| 0 <= j < i ==> #[trigger] out@[j]@ == geom_centroid(gs[j]),
            decreases n - i,
        {
            let c = self.geometries[i].centroid();
            out.push(c);
            i = i + 1;
        }
        out
    }

    /// Flips the visibility flag; the geometries are untouched.
    pub fn change_visibility(&mut self)
        ensures
            final(self)@.name == old(self)@.name,
            final(self)@.geoms == old(self)@.geoms,
            final(self)@.visible == !old(self)@.visible,
    {
        proof {
            use_type_invariant(&*self);
        }
        self.is_visible = !self.is_visible;
    }

    /// An independent deep copy: every contained geometry is itself
    /// deeply copied, so mutating the copy never affects the original.
    pub fn duplicate(&self) -> (r: Self)
        ensures
            r@ == self@,
    {
        proof {
            use_type_invariant(&*self);
        }
        let n = self.geometries.len();
        let mut gs: Vec<MapObject> = Vec::new();
        let mut i: usize = 0;
        while i < n
            invariant
                n == self.geometries@.len(),
                i <= n,
                gs@.len() == i,
                forall|j: int| 0 <= j < i ==> #[trigger] gs@[j]@ == self.geometries@[j]@,
            decreases n - i,
        {
            let g = self.geometries[i].duplicate();
            gs.push(g);
            i = i + 1;
        }
        proof {
            assert(gs@.map_values(|g: MapObject| g@) =~= self.geometries@.map_values(
                |g: MapObject| g@,
            ));
        }
        Self { name: self.name.clone(), geometries: gs, is_visible: self.is_visible }
    }
}

} // verus!
