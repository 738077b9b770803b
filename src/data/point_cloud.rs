//! In-memory point clouds with optional per-point colors, sizes and named
//! scalar fields.
use vstd::prelude::*;
use vstd::relations::injective_on;
use vstd::set_lib::{lemma_int_range, lemma_map_size, set_int_range};

use crate::data::dataset::Dataset;
use crate::fixed::{HALF, ONE, max_int};
use crate::math::bounds::{Bounds3D, Vec3, bounds_of, box_contains, from_points_is_tightest};

verus! {

/// An RGBA color, one fixed-point channel value in `[0, ONE]` each.
#[derive(Clone, Copy, Debug, PartialEq, Eq, Structural)]
pub struct Color {
    pub r: i64,
    pub g: i64,
    pub b: i64,
    pub a: i64,
}

/// Opaque white.
pub open spec fn white() -> Color {
    Color { r: ONE, g: ONE, b: ONE, a: ONE }
}

/// Height of `y` normalized against `[min_y, max_y]`: rounded down into
/// `[0, ONE]`, or one half when the range is empty.
pub open spec fn height_t(y: int, min_y: int, max_y: int) -> int {
    if max_y - min_y > 0 {
        (y - min_y) * ONE / (max_y - min_y)
    } else {
        HALF as int
    }
}

/// The three-band gradient: red at `0`, green at one half, blue at `ONE`.
pub open spec fn gradient(t: int) -> Color {
    let dist = if t >= HALF {
        t - HALF
    } else {
        HALF - t
    };
    Color {
        r: max_int(ONE - t, 0) as i64,
        g: max_int(ONE - 2 * dist, 0) as i64,
        b: max_int(t, 0) as i64,
        a: ONE,
    }
}

/// Color of a point at height `y` in a cloud whose heights span
/// `[min_y, max_y]`.
pub open spec fn height_color(y: int, min_y: int, max_y: int) -> Color {
    gradient(height_t(y, min_y, max_y))
}

/// The colors given to points at the heights of `positions`, against the
/// vertical extent of the box `b`.
pub open spec fn height_colors(positions: Seq<Vec3>, b: Bounds3D) -> Seq<Color> {
    Seq::new(
        positions.len(),
        |i: int| height_color(positions[i].y as int, b.min.y as int, b.max.y as int),
    )
}

/// The mathematical content of a point cloud.
pub ghost struct PointCloudView {
    pub positions: Seq<Vec3>,
    pub colors: Option<Seq<Color>>,
    pub sizes: Option<Seq<i64>>,
    pub metadata: Map<Seq<char>, Seq<i64>>,
    pub cached_bounds: Option<Bounds3D>,
    pub name: Seq<char>,
}

/// Every attached array has one entry per point, and a cached box is the
/// box of the positions.
pub open spec fn view_wf(v: PointCloudView) -> bool {
    &&& v.colors is Some ==> v.colors->0.len() == v.positions.len()
    &&& v.sizes is Some ==> v.sizes->0.len() == v.positions.len()
    &&& forall|k: Seq<char>| #[trigger]
        v.metadata.contains_key(k) ==> v.metadata[k].len() == v.positions.len()
    &&& v.cached_bounds is Some ==> v.cached_bounds->0 == bounds_of(v.positions)
}

/// One named scalar field, a value per point.
#[derive(Debug)]
struct MetadataField {
    key: String,
    values: Vec<i64>,
}

/// No two fields share a key.
spec fn keys_unique(fields: Seq<MetadataField>) -> bool {
    forall|a: int, b: int|
        0 <= a < fields.len() && 0 <= b < fields.len() && #[trigger] fields[a].key@
            == #[trigger] fields[b].key@ ==> a == b
}

/// Some field has the key `k`.
spec fn has_key(fields: Seq<MetadataField>, k: Seq<char>) -> bool {
    exists|i: int| 0 <= i < fields.len() && #[trigger] fields[i].key@ == k
}

/// The fields as a map from key to values.
spec fn fields_map(fields: Seq<MetadataField>) -> Map<Seq<char>, Seq<i64>> {
    Map::new(
        |k: Seq<char>| has_key(fields, k),
        |k: Seq<char>|
            fields[choose|i: int| 0 <= i < fields.len() && #[trigger] fields[i].key@ == k].values@,
    )
}

/// With unique keys, the map holds each field's values under its key.
proof fn fields_map_at(fields: Seq<MetadataField>, i: int)
    requires
        keys_unique(fields),
        0 <= i < fields.len(),
    ensures
        fields_map(fields).contains_key(fields[i].key@),
        fields_map(fields)[fields[i].key@] == fields[i].values@,
{
    let k = fields[i].key@;
    assert(has_key(fields, k));
    let j = choose|j: int| 0 <= j < fields.len() && #[trigger] fields[j].key@ == k;
    assert(fields[j].key@ == fields[i].key@);
}

/// Replacing the field at `i` by one with the same key updates that entry
/// of the map.
proof fn fields_map_replace(fields: Seq<MetadataField>, i: int, f: MetadataField)
    requires
        keys_unique(fields),
        0 <= i < fields.len(),
        fields[i].key@ == f.key@,
    ensures
        keys_unique(fields.update(i, f)),
        fields_map(fields.update(i, f)) == fields_map(fields).insert(f.key@, f.values@),
{
    let nf = fields.update(i, f);
    assert(keys_unique(nf)) by {
        assert forall|a: int, b: int|
            0 <= a < nf.len() && 0 <= b < nf.len() && #[trigger] nf[a].key@ == #[trigger] nf[b].key@
            implies a == b by {
            assert(fields[a].key@ == nf[a].key@);
            assert(fields[b].key@ == nf[b].key@);
        }
    }
    let m = fields_map(fields).insert(f.key@, f.values@);
    assert forall|k: Seq<char>| #[trigger] fields_map(nf).contains_key(k) <==> m.contains_key(k) by {
        if has_key(nf, k) {
            let j = choose|j: int| 0 <= j < nf.len() && #[trigger] nf[j].key@ == k;
            if j != i {
                assert(fields[j].key@ == k);
            }
        }
        if has_key(fields, k) {
            let j = choose|j: int| 0 <= j < fields.len() && #[trigger] fields[j].key@ == k;
            if j != i {
                assert(nf[j].key@ == k);
            } else {
                assert(nf[i].key@ == k);
            }
        }
        if k == f.key@ {
            assert(nf[i].key@ == k);
        }
    }
    assert forall|k: Seq<char>| #[trigger] fields_map(nf).contains_key(k) implies fields_map(nf)[k]
        == m[k] by {
        let j = choose|j: int| 0 <= j < nf.len() && #[trigger] nf[j].key@ == k;
        fields_map_at(nf, j);
        if j != i {
            assert(fields[j].key@ == k);
            fields_map_at(fields, j);
        }
    }
    assert(fields_map(nf) =~= m);
}

/// Appending a field with a new key adds that entry to the map.
proof fn fields_map_push(fields: Seq<MetadataField>, f: MetadataField)
    requires
        keys_unique(fields),
        !has_key(fields, f.key@),
    ensures
        keys_unique(fields.push(f)),
        fields_map(fields.push(f)) == fields_map(fields).insert(f.key@, f.values@),
{
    let nf = fields.push(f);
    let n = fields.len() as int;
    assert(keys_unique(nf)) by {
        assert forall|a: int, b: int|
            0 <= a < nf.len() && 0 <= b < nf.len() && #[trigger] nf[a].key@ == #[trigger] nf[b].key@
            implies a == b by {
            if a < n && b < n {
                assert(fields[a].key@ == nf[a].key@);
                assert(fields[b].key@ == nf[b].key@);
            } else if a < n {
                assert(fields[a].key@ == f.key@);
            } else if b < n {
                assert(fields[b].key@ == f.key@);
            }
        }
    }
    let m = fields_map(fields).insert(f.key@, f.values@);
    assert forall|k: Seq<char>| #[trigger] fields_map(nf).contains_key(k) <==> m.contains_key(k) by {
        if has_key(nf, k) {
            let j = choose|j: int| 0 <= j < nf.len() && #[trigger] nf[j].key@ == k;
            if j < n {
                assert(fields[j].key@ == k);
            }
        }
        if has_key(fields, k) {
            let j = choose|j: int| 0 <= j < fields.len() && #[trigger] fields[j].key@ == k;
            assert(nf[j].key@ == k);
        }
        if k == f.key@ {
            assert(nf[n].key@ == k);
        }
    }
    assert forall|k: Seq<char>| #[trigger] fields_map(nf).contains_key(k) implies fields_map(nf)[k]
        == m[k] by {
        let j = choose|j: int| 0 <= j < nf.len() && #[trigger] nf[j].key@ == k;
        fields_map_at(nf, j);
        if j < n {
            assert(fields[j].key@ == k);
            fields_map_at(fields, j);
        }
    }
    assert(fields_map(nf) =~= m);
}

/// 3D point cloud with optional per-point colors, sizes and scalar fields.
#[derive(Debug)]
pub struct PointCloud {
    positions: Vec<Vec3>,
    colors: Option<Vec<Color>>,
    sizes: Option<Vec<i64>>,
    metadata: Vec<MetadataField>,
    bounds: Option<Bounds3D>,
    name: String,
}

impl View for PointCloud {
    type V = PointCloudView;

    closed spec fn view(&self) -> PointCloudView {
        PointCloudView {
            positions: self.positions@,
            colors: match self.colors {
                Some(c) => Some(c@),
                None => None,
            },
            sizes: match self.sizes {
                Some(s) => Some(s@),
                None => None,
            },
            metadata: fields_map(self.metadata@),
            cached_bounds: self.bounds,
            name: self.name@,
        }
    }
}

impl PointCloud {
    #[verifier::type_invariant]
    closed spec fn inv(&self) -> bool {
        &&& view_wf(self@)
        &&& keys_unique(self.metadata@)
        &&& forall|i: int|
            0 <= i < self.metadata@.len() ==> #[trigger] self.metadata@[i].values@.len()
                == self.positions@.len()
    }

    /// Create a point cloud from positions, with nothing attached and the
    /// name "Point Cloud".
    pub fn new(positions: Vec<Vec3>) -> (r: PointCloud)
        ensures
            r@ == (PointCloudView {
                positions: positions@,
                colors: None,
                sizes: None,
                metadata: Map::empty(),
                cached_bounds: None,
                name: "Point Cloud"@,
            }),
    {
        let r = PointCloud {
            positions,
            colors: None,
            sizes: None,
            metadata: Vec::new(),
            bounds: None,
            name: String::from_str("Point Cloud"),
        };
        assert(fields_map(r.metadata@) =~= Map::empty());
        r
    }

    /// Attach one color per point.
    pub fn with_colors(self, colors: Vec<Color>) -> (r: PointCloud)
        requires
            colors@.len() == self@.positions.len(),
        ensures
            r@ == (PointCloudView { colors: Some(colors@), ..self@ }),
    {
        proof {
            use_type_invariant(&self);
        }
        let mut s = self;
        s.colors = Some(colors);
        s
    }

    /// Attach one size per point.
    pub fn with_sizes(self, sizes: Vec<i64>) -> (r: PointCloud)
        requires
            sizes@.len() == self@.positions.len(),
        ensures
            r@ == (PointCloudView { sizes: Some(sizes@), ..self@ }),
    {
        proof {
            use_type_invariant(&self);
        }
        let mut s = self;
        s.sizes = Some(sizes);
        s
    }

    /// Attach a named scalar field, one value per point; a field of the same
    /// name is replaced.
    pub fn with_metadata(self, key: String, values: Vec<i64>) -> (r: PointCloud)
        requires
            values@.len() == self@.positions.len(),
        ensures
            r@ == (PointCloudView {
                metadata: self@.metadata.insert(key@, values@),
                ..self@
            }),
    {
        proof {
            use_type_invariant(&self);
        }
        let PointCloud { positions, colors, sizes, mut metadata, bounds, name } = self;
        let found = Self::find_field(&metadata, &key);
        let field = MetadataField { key, values };
        let ghost old_fields = metadata@;
        match found {
            Some(i) => {
                proof {
                    fields_map_replace(old_fields, i as int, field);
                }
                metadata.set(i, field);
            },
            None => {
                proof {
                    fields_map_push(old_fields, field);
                }
                metadata.push(field);
            },
        }
        proof {
            assert forall|i: int| 0 <= i < metadata@.len() implies #[trigger] metadata@[i].values@.len()
                == positions@.len() by {
                if i < old_fields.len() && metadata@[i] != field {
                    assert(metadata@[i] == old_fields[i]);
                }
            }
            let m = fields_map(metadata@);
            assert forall|k: Seq<char>| #[trigger] m.contains_key(k) implies m[k].len()
                == positions@.len() by {
                let j = choose|j: int| 0 <= j < metadata@.len() && #[trigger] metadata@[j].key@ == k;
                fields_map_at(metadata@, j);
            }
        }
        PointCloud { positions, colors, sizes, metadata, bounds, name }
    }

    fn find_field(fields: &Vec<MetadataField>, key: &String) -> (r: Option<usize>)
        ensures
            match r {
                Some(i) => i < fields@.len() && fields@[i as int].key@ == key@,
                None => !has_key(fields@, key@),
            },
    {
        let mut i: usize = 0;
        while i < fields.len()
            invariant
                i <= fields@.len(),
                forall|j: int| 0 <= j < i ==> #[trigger] fields@[j].key@ != key@,
            decreases fields@.len() - i,
        {
            if fields[i].key == *key {
                return Some(i);
            }
            i = i + 1;
        }
        None
    }

    /// Replace the display name.
    pub fn with_name(self, name: &str) -> (r: PointCloud)
        ensures
            r@ == (PointCloudView { name: name@, ..self@ }),
    {
        proof {
            use_type_invariant(&self);
        }
        let mut s = self;
        s.name = name.to_owned();
        s
    }

    /// The point positions.
    pub fn positions(&self) -> (r: &[Vec3])
        ensures
            r@ == self@.positions,
    {
        self.positions.as_slice()
    }

    /// The point colors, if attached.
    pub fn colors(&self) -> (r: Option<&[Color]>)
        ensures
            match r {
                Some(c) => self@.colors == Some(c@),
                None => self@.colors is None,
            },
    {
        match &self.colors {
            Some(c) => Some(c.as_slice()),
            None => None,
        }
    }

    /// The color of point `i`: its attached color, or opaque white when no
    /// colors are attached.
    pub fn point_color(&self, i: usize) -> (r: Color)
        requires
            i < self@.positions.len(),
        ensures
            r == (match self@.colors {
                Some(c) => c[i as int],
                None => white(),
            }),
    {
        proof {
            use_type_invariant(self);
        }
        match &self.colors {
            Some(c) => c[i],
            None => Color { r: ONE, g: ONE, b: ONE, a: ONE },
        }
    }

    /// The point sizes, if attached.
    pub fn sizes(&self) -> (r: Option<&[i64]>)
        ensures
            match r {
                Some(s) => self@.sizes == Some(s@),
                None => self@.sizes is None,
            },
    {
        match &self.sizes {
            Some(s) => Some(s.as_slice()),
            None => None,
        }
    }

    /// The scalar field named `key`, if attached.
    pub fn metadata(&self, key: &str) -> (r: Option<&[i64]>)
        ensures
            match r {
                Some(v) => self@.metadata.contains_key(key@) && self@.metadata[key@] == v@,
                None => !self@.metadata.contains_key(key@),
            },
    {
        proof {
            use_type_invariant(self);
        }
        let k = key.to_owned();
        match Self::find_field(&self.metadata, &k) {
            Some(i) => {
                proof {
                    fields_map_at(self.metadata@, i as int);
                }
                Some(self.metadata[i].values.as_slice())
            },
            None => None,
        }
    }

    /// The names of all scalar fields, in no particular order.
    pub fn metadata_keys(&self) -> (r: Vec<&String>)
        ensures
            r@.len() == self@.metadata.dom().len(),
            forall|k: Seq<char>|
                self@.metadata.contains_key(k) <==> exists|i: int|
                    0 <= i < r@.len() && (#[trigger] r@[i])@ == k,
    {
        proof {
            use_type_invariant(self);
        }
        let mut r: Vec<&String> = Vec::new();
        let mut i: usize = 0;
        while i < self.metadata.len()
            invariant
                i <= self.metadata@.len(),
                r@.len() == i,
                forall|j: int| 0 <= j < i ==> (#[trigger] r@[j])@ == self.metadata@[j].key@,
            decreases self.metadata@.len() - i,
        {
            r.push(&self.metadata[i].key);
            i = i + 1;
        }
        proof {
            let fs = self.metadata@;
            let m = fields_map(fs);
            assert forall|k: Seq<char>| m.contains_key(k) <==> exists|i: int|
                0 <= i < r@.len() && (#[trigger] r@[i])@ == k by {
                if m.contains_key(k) {
                    let j = choose|j: int| 0 <= j < fs.len() && #[trigger] fs[j].key@ == k;
                    assert(r@[j]@ == k);
                }
                if exists|i: int| 0 <= i < r@.len() && (#[trigger] r@[i])@ == k {
                    let j = choose|j: int| 0 <= j < r@.len() && (#[trigger] r@[j])@ == k;
                    assert(fs[j].key@ == k);
                }
            }
            let keys = Set::new(|j: int| 0 <= j < fs.len());
            assert(m.dom() =~= keys.map(|j: int| fs[j].key@)) by {
                assert forall|k: Seq<char>| m.dom().contains(k) implies keys.map(|j: int| fs[j].key@).contains(k) by {
                    let j = choose|j: int| 0 <= j < fs.len() && #[trigger] fs[j].key@ == k;
                    assert(keys.contains(j));
                }
            }
            lemma_injective_index_set_len(fs);
        }
        r
    }

    /// Give every point opaque white, unless colors are already attached.
    pub fn generate_default_colors(&mut self)
        ensures
            final(self)@ == (PointCloudView {
                colors: if old(self)@.colors is None {
                    Some(Seq::new(old(self)@.positions.len(), |i: int| white()))
                } else {
                    old(self)@.colors
                },
                ..old(self)@
            }),
    {
        proof {
            use_type_invariant(&*self);
        }
        if self.colors.is_none() {
            let n = self.positions.len();
            let mut colors: Vec<Color> = Vec::new();
            let mut i: usize = 0;
            while i < n
                invariant
                    i <= n,
                    colors@ =~= Seq::new(i as nat, |j: int| white()),
                decreases n - i,
            {
                colors.push(Color { r: ONE, g: ONE, b: ONE, a: ONE });
                i = i + 1;
            }
            self.colors = Some(colors);
        }
    }

    /// Color every point by its height: the second coordinate normalized
    /// against the cloud's vertical extent, through the red-green-blue
    /// gradient. Caches the bounding box.
    pub fn generate_height_colors(&mut self)
        ensures
            final(self)@ == (PointCloudView {
                colors: Some(
                    height_colors(old(self)@.positions, bounds_of(old(self)@.positions)),
                ),
                cached_bounds: Some(bounds_of(old(self)@.positions)),
                ..old(self)@
            }),
    {
        let bounds = self.compute_bounds();
        proof {
            use_type_invariant(&*self);
            if self.positions@.len() > 0 {
                from_points_is_tightest(self.positions@);
            }
        }
        let min_y = bounds.min.y;
        let max_y = bounds.max.y;
        let range: i128 = max_y as i128 - min_y as i128;
        let n = self.positions.len();
        let mut colors: Vec<Color> = Vec::new();
        let mut i: usize = 0;
        while i < n
            invariant
                i <= n == self.positions@.len(),
                bounds == bounds_of(self.positions@),
                n > 0 ==> forall|j: int|
                    0 <= j < n ==> #[trigger] box_contains(bounds, self.positions@[j]),
                range == max_y - min_y,
                min_y == bounds.min.y,
                max_y == bounds.max.y,
                colors@ =~= Seq::new(
                    i as nat,
                    |j: int| height_color(self.positions@[j].y as int, min_y as int, max_y as int),
                ),
            decreases n - i,
        {
            let y = self.positions[i].y;
            assert(box_contains(bounds, self.positions@[i as int]));
            let t: i64 = if range > 0 {
                let off: i128 = y as i128 - min_y as i128;
                assert(0 <= (off as int) * (ONE as int) / (range as int) <= ONE) by (nonlinear_arith)
                    requires
                        0 <= off <= range,
                        range > 0,
                ;
                assert(off * (ONE as i128) <= 0x1_0000_0000_0000_0000 * 0x10_0000) by (nonlinear_arith)
                    requires
                        0 <= off <= 0x1_0000_0000_0000_0000,
                ;
                ((off * (ONE as i128)) / range) as i64
            } else {
                HALF
            };
            let dist: i64 = if t >= HALF {
                t - HALF
            } else {
                HALF - t
            };
            let c = Color { r: ONE - t, g: ONE - 2 * dist, b: t, a: ONE };
            assert(c == height_color(y as int, min_y as int, max_y as int));
            colors.push(c);
            i = i + 1;
        }
        self.colors = Some(colors);
    }

    /// The box of the positions, computed once and then kept.
    fn compute_bounds(&mut self) -> (r: Bounds3D)
        ensures
            r == bounds_of(old(self)@.positions),
            final(self)@ == (PointCloudView { cached_bounds: Some(r), ..old(self)@ }),
    {
        proof {
            use_type_invariant(&*self);
        }
        match self.bounds {
            Some(b) => b,
            None => {
                let b = Bounds3D::from_points(self.positions.as_slice());
                self.bounds = Some(b);
                b
            },
        }
    }
}

/// Distinct indices of a list with unique keys give as many keys as there
/// are fields.
proof fn lemma_injective_index_set_len(fs: Seq<MetadataField>)
    requires
        keys_unique(fs),
    ensures
        Set::new(|j: int| 0 <= j < fs.len()).map(|j: int| fs[j].key@).len() == fs.len(),
{
    let keys = Set::new(|j: int| 0 <= j < fs.len());
    assert(keys =~= set_int_range(0, fs.len() as int));
    lemma_int_range(0, fs.len() as int);
    let f = |j: int| fs[j].key@;
    assert(injective_on(f, keys));
    lemma_map_size(keys, keys.map(f), f);
}

fn clone_field(f: &MetadataField) -> (r: MetadataField)
    ensures
        r.key@ == f.key@,
        r.values@ == f.values@,
{
    let values = f.values.clone();
    assert(values@ =~= f.values@);
    MetadataField { key: f.key.clone(), values }
}

impl Clone for PointCloud {
    fn clone(&self) -> (r: PointCloud)
        ensures
            r@ == self@,
    {
        proof {
            use_type_invariant(self);
        }
        let mut metadata: Vec<MetadataField> = Vec::new();
        let mut i: usize = 0;
        while i < self.metadata.len()
            invariant
                i <= self.metadata@.len(),
                metadata@.len() == i,
                forall|j: int|
                    0 <= j < i ==> (#[trigger] metadata@[j]).key@ == self.metadata@[j].key@
                        && metadata@[j].values@ == self.metadata@[j].values@,
            decreases self.metadata@.len() - i,
        {
            metadata.push(clone_field(&self.metadata[i]));
            i = i + 1;
        }
        let colors = match &self.colors {
            Some(c) => Some(c.clone()),
            None => None,
        };
        let sizes = match &self.sizes {
            Some(s) => Some(s.clone()),
            None => None,
        };
        let r = PointCloud {
            positions: self.positions.clone(),
            colors,
            sizes,
            metadata,
            bounds: self.bounds,
            name: self.name.clone(),
        };
        assert(r.positions@ =~= self.positions@);
        assert(fields_map(r.metadata@) =~= fields_map(self.metadata@)) by {
            assert forall|k: Seq<char>| has_key(r.metadata@, k) == has_key(self.metadata@, k) by {
                if has_key(r.metadata@, k) {
                    let j = choose|j: int| 0 <= j < r.metadata@.len() && #[trigger] r.metadata@[j].key@ == k;
                    assert(self.metadata@[j].key@ == k);
                }
                if has_key(self.metadata@, k) {
                    let j = choose|j: int| 0 <= j < self.metadata@.len() && #[trigger] self.metadata@[j].key@ == k;
                    assert(r.metadata@[j].key@ == k);
                }
            }
        }
        r
    }
}

impl Dataset for PointCloud {
    open spec fn spec_len(&self) -> nat {
        self@.positions.len()
    }

    open spec fn spec_bounds(&self) -> Bounds3D {
        bounds_of(self@.positions)
    }

    open spec fn spec_name(&self) -> Seq<char> {
        self@.name
    }

    /// The cached box if there is one, else the box of the positions
    /// computed afresh (and not cached).
    fn bounds(&self) -> (r: Bounds3D) {
        proof {
            use_type_invariant(self);
        }
        match self.bounds {
            Some(b) => b,
            None => Bounds3D::from_points(self.positions.as_slice()),
        }
    }

    fn len(&self) -> (r: usize) {
        self.positions.len()
    }

    fn name(&self) -> (r: &str) {
        self.name.as_str()
    }
}

} // verus!
