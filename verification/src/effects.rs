//! Named custom effect layers.
//!
//! Effect layers compose additively on top of the camera's follow state. This
//! module keeps the registry of named layers: inserting or replacing a layer
//! by name, looking one up, removing one, and counting the enabled layers.
//! The numeric fields of a layer are carried as IEEE-754 single-precision bit
//! patterns (`f32::to_bits`); the arithmetic that blends them is done by the
//! caller.
use vstd::prelude::*;
use vstd::std_specs::cmp::PartialEqSpecImpl;

verus! {

/// Bit pattern of the single-precision value `1.0`, the default layer weight.
pub const UNIT_WEIGHT_BITS: u32 = 0x3f80_0000u32;

/// Whether a single-precision bit pattern encodes a NaN.
pub open spec fn f32_bits_is_nan(b: u32) -> bool {
    b & 0x7fff_ffffu32 > 0x7f80_0000u32
}

/// Equality of two single-precision values given by their bit patterns, as
/// floating-point `==` decides it: a NaN equals nothing, not even itself, and
/// `0.0` equals `-0.0`.
pub open spec fn f32_bits_eq(a: u32, b: u32) -> bool {
    &&& !f32_bits_is_nan(a)
    &&& !f32_bits_is_nan(b)
    &&& (a == b || (a & 0x7fff_ffffu32 == 0 && b & 0x7fff_ffffu32 == 0))
}

/// Floating-point equality over bit patterns is symmetric, never holds for a
/// NaN, holds between a non-NaN value and itself, and makes the two zeros
/// equal; infinities are not NaN.
pub proof fn lemma_f32_bits_eq_laws(a: u32, b: u32)
    ensures
        f32_bits_eq(a, b) == f32_bits_eq(b, a),
        f32_bits_is_nan(a) ==> !f32_bits_eq(a, b),
        !f32_bits_is_nan(a) ==> f32_bits_eq(a, a),
        f32_bits_eq(0u32, 0x8000_0000u32),
        !f32_bits_is_nan(0x7f80_0000u32) && !f32_bits_is_nan(0xff80_0000u32),
        f32_bits_is_nan(0x7fc0_0000u32),
        f32_bits_eq(a, b) && a != b ==> a & 0x7fff_ffffu32 == 0 && b & 0x7fff_ffffu32 == 0,
{
    assert(0x8000_0000u32 & 0x7fff_ffffu32 == 0) by (bit_vector);
    assert(0u32 & 0x7fff_ffffu32 == 0) by (bit_vector);
    assert(0x7f80_0000u32 & 0x7fff_ffffu32 == 0x7f80_0000u32) by (bit_vector);
    assert(0xff80_0000u32 & 0x7fff_ffffu32 == 0x7f80_0000u32) by (bit_vector);
    assert(0x7fc0_0000u32 & 0x7fff_ffffu32 == 0x7fc0_0000u32) by (bit_vector);
}

/// Compares two single-precision values given by their bit patterns as
/// floating-point `==` does.
pub fn f32_bits_equal(a: u32, b: u32) -> (r: bool)
    ensures
        r == f32_bits_eq(a, b),
{
    let a_mag = a & 0x7fff_ffffu32;
    let b_mag = b & 0x7fff_ffffu32;
    if a_mag > 0x7f80_0000u32 || b_mag > 0x7f80_0000u32 {
        false
    } else {
        a == b || (a_mag == 0 && b_mag == 0)
    }
}

/// Bit patterns of the three components of a world-space vector.
#[derive(Clone, Copy, Debug)]
pub struct Vec3Bits {
    pub x: u32,
    pub y: u32,
    pub z: u32,
}

/// Component-wise floating-point equality of two vectors given by bit patterns.
pub open spec fn vec3_bits_eq(a: Vec3Bits, b: Vec3Bits) -> bool {
    f32_bits_eq(a.x, b.x) && f32_bits_eq(a.y, b.y) && f32_bits_eq(a.z, b.z)
}

impl PartialEq for Vec3Bits {
    fn eq(&self, other: &Self) -> (r: bool) {
        f32_bits_equal(self.x, other.x) && f32_bits_equal(self.y, other.y) && f32_bits_equal(
            self.z,
            other.z,
        )
    }
}

impl PartialEqSpecImpl for Vec3Bits {
    open spec fn obeys_eq_spec() -> bool {
        true
    }

    /// Component-wise floating-point equality.
    open spec fn eq_spec(&self, other: &Self) -> bool {
        vec3_bits_eq(*self, *other)
    }
}

/// A single additive effect layer.
#[derive(Clone, Copy, Debug)]
pub struct TopDownCameraEffectLayer {
    /// World-space offset applied to the follow anchor (bit patterns of x, y and z).
    pub anchor_offset: Vec3Bits,
    /// Additive change to the zoom level (bit pattern).
    pub zoom_delta: u32,
    /// Additive change to the yaw angle in radians (bit pattern).
    pub yaw_delta: u32,
    /// Additive change to the field of view (bit pattern).
    pub fov_delta: u32,
    /// Blending weight (bit pattern).
    pub weight: u32,
    /// When false the layer is skipped during composition.
    pub enabled: bool,
}

impl PartialEq for TopDownCameraEffectLayer {
    fn eq(&self, other: &Self) -> (r: bool) {
        self.anchor_offset.eq(&other.anchor_offset) && f32_bits_equal(
            self.zoom_delta,
            other.zoom_delta,
        ) && f32_bits_equal(self.yaw_delta, other.yaw_delta) && f32_bits_equal(
            self.fov_delta,
            other.fov_delta,
        ) && f32_bits_equal(self.weight, other.weight) && self.enabled == other.enabled
    }
}

impl PartialEqSpecImpl for TopDownCameraEffectLayer {
    open spec fn obeys_eq_spec() -> bool {
        true
    }

    /// Field-wise equality, the numeric fields compared as floating-point
    /// values.
    open spec fn eq_spec(&self, other: &Self) -> bool {
        &&& vec3_bits_eq(self.anchor_offset, other.anchor_offset)
        &&& f32_bits_eq(self.zoom_delta, other.zoom_delta)
        &&& f32_bits_eq(self.yaw_delta, other.yaw_delta)
        &&& f32_bits_eq(self.fov_delta, other.fov_delta)
        &&& f32_bits_eq(self.weight, other.weight)
        &&& self.enabled == other.enabled
    }
}

impl TopDownCameraEffectLayer {
    /// The neutral layer: no offset, no deltas, unit weight, enabled.
    pub open spec fn neutral() -> Self {
        TopDownCameraEffectLayer {
            anchor_offset: Vec3Bits { x: 0, y: 0, z: 0 },
            zoom_delta: 0,
            yaw_delta: 0,
            fov_delta: 0,
            weight: UNIT_WEIGHT_BITS,
            enabled: true,
        }
    }

    /// Creates an enabled layer with an explicit weight.
    pub fn weighted(anchor_offset: Vec3Bits, zoom_delta: u32, yaw_delta: u32, fov_delta: u32, weight: u32) -> (r: Self)
        ensures
            r == (TopDownCameraEffectLayer { anchor_offset, zoom_delta, yaw_delta, fov_delta, weight, enabled: true }),
    {
        TopDownCameraEffectLayer { anchor_offset, zoom_delta, yaw_delta, fov_delta, weight, enabled: true }
    }

    /// Creates a layer with only an anchor offset (unit weight).
    pub fn anchor(offset: Vec3Bits) -> (r: Self)
        ensures
            r == (TopDownCameraEffectLayer { anchor_offset: offset, ..Self::neutral() }),
    {
        TopDownCameraEffectLayer { anchor_offset: offset, ..Self::default() }
    }

    /// Creates a layer with only a zoom delta (unit weight).
    pub fn zoom(delta: u32) -> (r: Self)
        ensures
            r == (TopDownCameraEffectLayer { zoom_delta: delta, ..Self::neutral() }),
    {
        TopDownCameraEffectLayer { zoom_delta: delta, ..Self::default() }
    }

    /// Creates a layer with only a yaw delta (unit weight).
    pub fn yaw(delta: u32) -> (r: Self)
        ensures
            r == (TopDownCameraEffectLayer { yaw_delta: delta, ..Self::neutral() }),
    {
        TopDownCameraEffectLayer { yaw_delta: delta, ..Self::default() }
    }
}

impl Default for TopDownCameraEffectLayer {
    fn default() -> (r: Self)
        ensures
            r == Self::neutral(),
    {
        TopDownCameraEffectLayer {
            anchor_offset: Vec3Bits { x: 0, y: 0, z: 0 },
            zoom_delta: 0,
            yaw_delta: 0,
            fov_delta: 0,
            weight: UNIT_WEIGHT_BITS,
            enabled: true,
        }
    }
}

/// A named effect layer.
#[derive(Clone, Debug)]
pub struct NamedEffectLayer {
    pub name: String,
    pub layer: TopDownCameraEffectLayer,
}

/// Named effect layers that compose additively with the camera's follow
/// state.
#[derive(Clone, Debug)]
pub struct TopDownCameraCustomEffects {
    pub layers: Vec<NamedEffectLayer>,
}

/// Position of the first layer of `layers` named `name`, if any.
pub open spec fn first_named(layers: Seq<NamedEffectLayer>, name: Seq<char>) -> Option<int>
    decreases layers.len(),
{
    if layers.len() == 0 {
        None
    } else if layers[0].name@ == name {
        Some(0)
    } else {
        match first_named(layers.drop_first(), name) {
            Some(i) => Some(i + 1),
            None => None,
        }
    }
}

/// Number of enabled layers in `layers`.
pub open spec fn enabled_count(layers: Seq<NamedEffectLayer>) -> nat
    decreases layers.len(),
{
    if layers.len() == 0 {
        0
    } else {
        enabled_count(layers.drop_last()) + if layers.last().layer.enabled {
            1nat
        } else {
            0nat
        }
    }
}

/// No two layers share a name.
pub open spec fn names_unique(layers: Seq<NamedEffectLayer>) -> bool {
    forall|i: int, j: int|
        0 <= i < layers.len() && 0 <= j < layers.len() && i != j ==> #[trigger] layers[i].name@
            != #[trigger] layers[j].name@
}

/// `layers` after `name` is set to `layer`: the first layer of that name is
/// replaced, or the layer is appended when there is none.
pub open spec fn set_layers(layers: Seq<NamedEffectLayer>, name: Seq<char>, layer: TopDownCameraEffectLayer) -> Seq<(Seq<char>, TopDownCameraEffectLayer)> {
    let base = named_view(layers);
    match first_named(layers, name) {
        Some(i) => base.update(i, (name, layer)),
        None => base.push((name, layer)),
    }
}

/// The layers as (name, layer) pairs.
pub open spec fn named_view(layers: Seq<NamedEffectLayer>) -> Seq<(Seq<char>, TopDownCameraEffectLayer)> {
    layers.map_values(|l: NamedEffectLayer| (l.name@, l.layer))
}

/// `layers` after the layer at position `i` is removed by moving the last
/// layer into its place.
pub open spec fn swap_removed(layers: Seq<NamedEffectLayer>, i: int) -> Seq<NamedEffectLayer> {
    layers.update(i, layers.last()).drop_last()
}

proof fn lemma_first_named(layers: Seq<NamedEffectLayer>, name: Seq<char>)
    ensures
        match first_named(layers, name) {
            Some(i) => 0 <= i < layers.len() && layers[i].name@ == name && forall|j: int|
                0 <= j < i ==> #[trigger] layers[j].name@ != name,
            None => forall|j: int| 0 <= j < layers.len() ==> #[trigger] layers[j].name@ != name,
        },
    decreases layers.len(),
{
    if layers.len() > 0 {
        lemma_first_named(layers.drop_first(), name);
        assert forall|j: int| 1 <= j < layers.len() implies #[trigger] layers[j].name@ == layers.drop_first()[j - 1].name@ by {}
    }
}

proof fn lemma_first_named_is(layers: Seq<NamedEffectLayer>, name: Seq<char>, i: int)
    requires
        0 <= i < layers.len(),
        layers[i].name@ == name,
        forall|j: int| 0 <= j < i ==> #[trigger] layers[j].name@ != name,
    ensures
        first_named(layers, name) == Some(i),
{
    lemma_first_named(layers, name);
}

proof fn lemma_first_named_none(layers: Seq<NamedEffectLayer>, name: Seq<char>)
    requires
        forall|j: int| 0 <= j < layers.len() ==> #[trigger] layers[j].name@ != name,
    ensures
        first_named(layers, name) is None,
{
    lemma_first_named(layers, name);
}

/// Reading a layer back after setting it gives the layer that was set:
/// after `set(name, layer)`, the first layer named `name` is `layer`.
pub proof fn lemma_set_then_get(
    before: Seq<NamedEffectLayer>,
    after: Seq<NamedEffectLayer>,
    name: Seq<char>,
    layer: TopDownCameraEffectLayer,
)
    requires
        named_view(after) == set_layers(before, name, layer),
    ensures
        first_named(after, name) matches Some(i) && 0 <= i < after.len() && after[i].name@ == name
            && after[i].layer == layer,
{
    lemma_first_named(before, name);
    lemma_named_view(before);
    lemma_named_view(after);
    match first_named(before, name) {
        Some(i) => {
            assert(named_view(after)[i] == (name, layer));
            assert forall|j: int| 0 <= j < i implies #[trigger] after[j].name@ != name by {
                assert(named_view(after)[j] == named_view(before)[j]);
            }
            lemma_first_named_is(after, name, i);
        },
        None => {
            let n = before.len() as int;
            assert(named_view(after)[n] == (name, layer));
            assert forall|j: int| 0 <= j < n implies #[trigger] after[j].name@ != name by {
                assert(named_view(after)[j] == named_view(before)[j]);
            }
            lemma_first_named_is(after, name, n);
        },
    }
}

/// Setting a layer never introduces a duplicate name.
pub proof fn lemma_set_keeps_names_unique(
    before: Seq<NamedEffectLayer>,
    after: Seq<NamedEffectLayer>,
    name: Seq<char>,
    layer: TopDownCameraEffectLayer,
)
    requires
        names_unique(before),
        named_view(after) == set_layers(before, name, layer),
    ensures
        names_unique(after),
{
    lemma_first_named(before, name);
    lemma_named_view(before);
    lemma_named_view(after);
    assert forall|i: int, j: int|
        0 <= i < after.len() && 0 <= j < after.len() && i != j implies #[trigger] after[i].name@
        != #[trigger] after[j].name@ by {
        assert(named_view(after)[i].0 == after[i].name@);
        assert(named_view(after)[j].0 == after[j].name@);
        if i < before.len() && j < before.len() {
            assert(before[i].name@ != before[j].name@);
            assert(named_view(before)[i].0 == before[i].name@);
            assert(named_view(before)[j].0 == before[j].name@);
        }
    }
}

/// Setting a layer under one name leaves the lookup of every other name
/// unchanged.
pub proof fn lemma_set_leaves_other_names(
    before: Seq<NamedEffectLayer>,
    after: Seq<NamedEffectLayer>,
    name: Seq<char>,
    layer: TopDownCameraEffectLayer,
    other: Seq<char>,
)
    requires
        named_view(after) == set_layers(before, name, layer),
        other != name,
    ensures
        first_named(after, other) == first_named(before, other),
        first_named(before, other) matches Some(k) ==> after[k].layer == before[k].layer,
{
    lemma_first_named(before, name);
    lemma_first_named(before, other);
    lemma_named_view(before);
    lemma_named_view(after);
    assert forall|j: int| 0 <= j < before.len() implies #[trigger] after[j].name@ == before[j].name@
        && (before[j].name@ != name ==> after[j].layer == before[j].layer) by {
        assert(named_view(after)[j].0 == after[j].name@);
        assert(named_view(after)[j].1 == after[j].layer);
        assert(named_view(before)[j].0 == before[j].name@);
        assert(named_view(before)[j].1 == before[j].layer);
    }
    match first_named(before, other) {
        Some(k) => {
            lemma_first_named_is(after, other, k);
        },
        None => {
            if first_named(before, name) is None {
                let n = before.len() as int;
                assert(named_view(after)[n].0 == after[n].name@);
            }
            lemma_first_named_none(after, other);
        },
    }
}

/// Replacing an existing name keeps the number of layers.
pub proof fn lemma_set_existing_keeps_len(
    before: Seq<NamedEffectLayer>,
    after: Seq<NamedEffectLayer>,
    name: Seq<char>,
    layer: TopDownCameraEffectLayer,
)
    requires
        named_view(after) == set_layers(before, name, layer),
        first_named(before, name) is Some,
    ensures
        after.len() == before.len(),
{
    lemma_first_named(before, name);
    lemma_named_view(before);
    lemma_named_view(after);
}

/// Once a layer is removed from a registry whose names are unique, no layer
/// of that name is left and the remaining names stay unique.
pub proof fn lemma_remove_then_get(before: Seq<NamedEffectLayer>, name: Seq<char>, i: int)
    requires
        names_unique(before),
        first_named(before, name) == Some(i),
    ensures
        first_named(swap_removed(before, i), name) is None,
        names_unique(swap_removed(before, i)),
{
    lemma_first_named(before, name);
    let after = swap_removed(before, i);
    let n = before.len() - 1;
    assert forall|j: int| 0 <= j < after.len() implies #[trigger] after[j].name@ != name by {
        if j == i {
            assert(after[j] == before[n]);
        } else {
            assert(after[j] == before[j]);
        }
    }
    lemma_first_named_none(after, name);
    assert forall|a: int, b: int|
        0 <= a < after.len() && 0 <= b < after.len() && a != b implies #[trigger] after[a].name@
        != #[trigger] after[b].name@ by {
        let sa = if a == i { n } else { a };
        let sb = if b == i { n } else { b };
        assert(after[a] == before[sa]);
        assert(after[b] == before[sb]);
    }
}

/// Removing the layer at position `i` removes exactly that layer: the
/// registry is one layer shorter, every other layer is still there, and no
/// layer appears that was not there before.
pub proof fn lemma_remove_keeps_other_layers(before: Seq<NamedEffectLayer>, i: int)
    requires
        0 <= i < before.len(),
    ensures
        swap_removed(before, i).len() == before.len() - 1,
        forall|j: int|
            0 <= j < before.len() && j != i ==> exists|k: int|
                0 <= k < swap_removed(before, i).len() && #[trigger] swap_removed(before, i)[k]
                    == #[trigger] before[j],
        forall|k: int|
            0 <= k < swap_removed(before, i).len() ==> exists|j: int|
                0 <= j < before.len() && j != i && #[trigger] before[j]
                    == #[trigger] swap_removed(before, i)[k],
{
    let after = swap_removed(before, i);
    let n = before.len() - 1;
    assert forall|j: int| 0 <= j < before.len() && j != i implies exists|k: int|
        0 <= k < after.len() && #[trigger] after[k] == #[trigger] before[j] by {
        let k = if j == n { i } else { j };
        assert(after[k] == before[j]);
    }
    assert forall|k: int| 0 <= k < after.len() implies exists|j: int|
        0 <= j < before.len() && j != i && #[trigger] before[j] == #[trigger] after[k] by {
        let j = if k == i { n } else { k };
        assert(before[j] == after[k]);
    }
}

/// In a registry whose names are unique, removing one name leaves the lookup
/// of every other name as it was: a layer of that name is found after the
/// removal exactly when one was found before, and it is the same layer.
pub proof fn lemma_remove_leaves_other_names(
    before: Seq<NamedEffectLayer>,
    name: Seq<char>,
    i: int,
    other: Seq<char>,
)
    requires
        names_unique(before),
        first_named(before, name) == Some(i),
        other != name,
    ensures
        first_named(swap_removed(before, i), other) is Some <==> first_named(before, other) is Some,
        first_named(swap_removed(before, i), other) matches Some(k) ==> first_named(before, other) matches Some(j)
            && swap_removed(before, i)[k] == before[j],
{
    lemma_first_named(before, name);
    lemma_first_named(before, other);
    let after = swap_removed(before, i);
    let n = before.len() - 1;
    match first_named(before, other) {
        Some(j) => {
            assert(j != i);
            let k = if j == n { i } else { j };
            assert(after[k] == before[j]);
            assert forall|m: int| 0 <= m < after.len() && m != k implies #[trigger] after[m].name@ != other by {
                let src = if m == i { n } else { m };
                assert(after[m] == before[src]);
                assert(src != j);
                assert(before[src].name@ != before[j].name@);
            }
            lemma_first_named_is(after, other, k);
        },
        None => {
            assert forall|m: int| 0 <= m < after.len() implies #[trigger] after[m].name@ != other by {
                let src = if m == i { n } else { m };
                assert(after[m] == before[src]);
            }
            lemma_first_named_none(after, other);
        },
    }
}

/// The enabled count grows by one for each enabled layer appended, and not
/// at all for a disabled one.
pub proof fn lemma_enabled_count_push(layers: Seq<NamedEffectLayer>, l: NamedEffectLayer)
    ensures
        enabled_count(layers.push(l)) == enabled_count(layers) + if l.layer.enabled {
            1int
        } else {
            0int
        },
{
    assert(layers.push(l).drop_last() =~= layers);
}

/// The enabled count is the number of enabled layers: it is zero when no
/// layer is enabled, the number of layers when every layer is, and never
/// more than the number of layers.
pub proof fn lemma_enabled_count_bounds(layers: Seq<NamedEffectLayer>)
    ensures
        enabled_count(layers) <= layers.len(),
        (forall|j: int| 0 <= j < layers.len() ==> !(#[trigger] layers[j]).layer.enabled) ==> enabled_count(layers) == 0,
        (forall|j: int| 0 <= j < layers.len() ==> (#[trigger] layers[j]).layer.enabled) ==> enabled_count(layers) == layers.len(),
    decreases layers.len(),
{
    if layers.len() > 0 {
        let init = layers.drop_last();
        lemma_enabled_count_bounds(init);
        assert(init.push(layers.last()) =~= layers);
        lemma_enabled_count_push(init, layers.last());
        assert forall|j: int| 0 <= j < init.len() implies #[trigger] init[j] == layers[j] by {}
    }
}

/// The enabled count of two registries laid end to end is the sum of their
/// enabled counts.
pub proof fn lemma_enabled_count_concat(a: Seq<NamedEffectLayer>, b: Seq<NamedEffectLayer>)
    ensures
        enabled_count(a + b) == enabled_count(a) + enabled_count(b),
    decreases b.len(),
{
    if b.len() == 0 {
        assert(a + b =~= a);
    } else {
        let init = b.drop_last();
        lemma_enabled_count_concat(a, init);
        assert((a + init).push(b.last()) =~= a + b);
        assert(init.push(b.last()) =~= b);
        lemma_enabled_count_push(a + init, b.last());
        lemma_enabled_count_push(init, b.last());
    }
}

proof fn lemma_named_view(layers: Seq<NamedEffectLayer>)
    ensures
        named_view(layers).len() == layers.len(),
        forall|j: int| 0 <= j < layers.len() ==> #[trigger] named_view(layers)[j] == (layers[j].name@, layers[j].layer),
{
}

impl TopDownCameraCustomEffects {
    /// Position of the first layer named `name`, if any.
    fn position(&self, name: &str) -> (r: Option<usize>)
        ensures
            match r {
                Some(i) => first_named(self.layers@, name@) == Some(i as int),
                None => first_named(self.layers@, name@) is None,
            },
    {
        let key = name.to_owned();
        let n = self.layers.len();
        let mut i: usize = 0;
        while i < n
            invariant
                n == self.layers@.len(),
                i <= n,
                key@ == name@,
                forall|j: int| 0 <= j < i ==> #[trigger] self.layers@[j].name@ != name@,
            decreases n - i,
        {
            if self.layers[i].name == key {
                proof {
                    lemma_first_named_is(self.layers@, name@, i as int);
                }
                return Some(i);
            }
            i = i + 1;
        }
        proof {
            lemma_first_named_none(self.layers@, name@);
        }
        None
    }

    /// Inserts a layer under `name`, replacing the layer of that name if one
    /// exists.
    pub fn set(&mut self, name: &str, layer: TopDownCameraEffectLayer)
        ensures
            named_view(final(self).layers@) == set_layers(old(self).layers@, name@, layer),
    {
        proof {
            lemma_first_named(self.layers@, name@);
        }
        match self.position(name) {
            Some(i) => {
                self.layers[i].layer = layer;
                proof {
                    assert(named_view(self.layers@) =~= set_layers(old(self).layers@, name@, layer));
                }
            },
            None => {
                self.layers.push(NamedEffectLayer { name: name.to_owned(), layer });
                proof {
                    assert(named_view(self.layers@) =~= set_layers(old(self).layers@, name@, layer));
                }
            },
        }
    }

    /// Removes the first layer named `name`, returning it if it existed. The
    /// last layer takes the removed layer's place.
    pub fn remove(&mut self, name: &str) -> (r: Option<TopDownCameraEffectLayer>)
        ensures
            match first_named(old(self).layers@, name@) {
                Some(i) => {
                    &&& r == Some(old(self).layers@[i].layer)
                    &&& final(self).layers@ == swap_removed(old(self).layers@, i)
                },
                None => r is None && final(self).layers@ == old(self).layers@,
            },
    {
        proof {
            lemma_first_named(self.layers@, name@);
        }
        match self.position(name) {
            Some(i) => {
                let removed = self.layers.swap_remove(i);
                Some(removed.layer)
            },
            None => None,
        }
    }

    /// The first layer named `name`, if any.
    pub fn get(&self, name: &str) -> (r: Option<&TopDownCameraEffectLayer>)
        ensures
            match first_named(self.layers@, name@) {
                Some(i) => r == Some(&self.layers@[i].layer),
                None => r is None,
            },
    {
        proof {
            lemma_first_named(self.layers@, name@);
        }
        match self.position(name) {
            Some(i) => Some(&self.layers[i].layer),
            None => None,
        }
    }

    /// The first layer named `name`, if any, for in-place editing.
    pub fn get_mut(&mut self, name: &str) -> (r: Option<&mut TopDownCameraEffectLayer>)
        ensures
            match first_named(old(self).layers@, name@) {
                Some(i) => r matches Some(l) && {
                    &&& *l == old(self).layers@[i].layer
                    &&& final(self).layers@ == old(self).layers@.update(
                        i,
                        NamedEffectLayer { name: old(self).layers@[i].name, layer: *final(l) },
                    )
                },
                None => r is None && final(self).layers@ == old(self).layers@,
            },
    {
        proof {
            lemma_first_named(self.layers@, name@);
        }
        match self.position(name) {
            Some(i) => Some(&mut self.layers[i].layer),
            None => None,
        }
    }

    /// Number of enabled layers.
    pub fn active_count(&self) -> (r: usize)
        ensures
            r == enabled_count(self.layers@),
            r <= self.layers@.len(),
    {
        let n = self.layers.len();
        let mut count: usize = 0;
        let mut i: usize = 0;
        while i < n
            invariant
                n == self.layers@.len(),
                i <= n,
                count == enabled_count(self.layers@.subrange(0, i as int)),
                count <= i,
            decreases n - i,
        {
            proof {
                assert(self.layers@.subrange(0, i + 1).drop_last() =~= self.layers@.subrange(0, i as int));
            }
            if self.layers[i].layer.enabled {
                count = count + 1;
            }
            i = i + 1;
        }
        proof {
            assert(self.layers@.subrange(0, n as int) =~= self.layers@);
        }
        count
    }

    /// All layers, in order.
    pub fn iter(&self) -> (r: &[NamedEffectLayer])
        ensures
            r@ == self.layers@,
    {
        self.layers.as_slice()
    }
}

impl Default for TopDownCameraCustomEffects {
    fn default() -> (r: Self)
        ensures
            r.layers@.len() == 0,
    {
        TopDownCameraCustomEffects { layers: Vec::new() }
    }
}

} // verus!
