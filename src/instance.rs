//! The instance grid: a fixed `n` x `n` set of per-object transforms that
//! spin at a constant angular rate.
//!
//! Positions are kept as offsets from the grid centre in half spacings, so
//! that a grid with an even row length stays symmetric about the origin.
//! Angles are in millionths of a degree.

use vstd::prelude::*;
use crate::error::SetupError;

verus! {

/// A full turn, in millionths of a degree.
pub const FULL_TURN: u64 = 360_000_000;

/// The initial tilt of every instance away from the origin: 45 degrees.
pub const INITIAL_TILT: u64 = 45_000_000;

/// The longest row; it keeps the instance count within one draw call.
pub const MAX_PER_ROW: u32 = 65_535;

/// The axis an instance rotates about.
#[derive(Clone, Copy, Debug, PartialEq, Eq, Structural)]
pub enum RotationAxis {
    /// The unit vector from the origin towards the instance.
    Radial,
    /// The fixed z axis, used where the position is the zero vector and has
    /// no direction to normalise.
    DefaultZ,
}

/// One object's transform.
#[derive(Clone, Copy, Debug, PartialEq, Eq, Structural)]
pub struct Instance {
    /// Offset from the grid centre along x, in half spacings.
    pub offset_x: i64,
    /// Offset from the grid centre along z, in half spacings.
    pub offset_z: i64,
    pub axis: RotationAxis,
    /// Rotation about `axis`, in `[0, FULL_TURN)`.
    pub angle: u64,
}

/// The offset of grid line `i` of `n`, in half spacings: `2i - (n - 1)`.
pub open spec fn grid_offset(i: int, n: int) -> int {
    2 * i - (n - 1)
}

/// The position `(spacing * ox / 2, 0, spacing * oz / 2)` is the zero vector.
pub open spec fn at_origin(spacing: u32, ox: int, oz: int) -> bool {
    spacing * ox == 0 && spacing * oz == 0
}

/// Instance `k` of an `n` x `n` grid, rows along z and columns along x.
pub open spec fn grid_instance(n: nat, spacing: u32, k: int) -> Instance {
    let ox = grid_offset(k % (n as int), n as int);
    let oz = grid_offset(k / (n as int), n as int);
    if at_origin(spacing, ox, oz) {
        Instance { offset_x: ox as i64, offset_z: oz as i64, axis: RotationAxis::DefaultZ, angle: 0 }
    } else {
        Instance {
            offset_x: ox as i64,
            offset_z: oz as i64,
            axis: RotationAxis::Radial,
            angle: INITIAL_TILT,
        }
    }
}

/// The whole grid, in row-major order.
pub open spec fn grid(n: nat, spacing: u32) -> Seq<Instance> {
    Seq::new(n * n, |k: int| grid_instance(n, spacing, k))
}

/// The angle turned in `dt` microseconds at `rate` thousandths of a degree
/// per second, reduced to one turn.
pub open spec fn spin_step(rate: u32, dt: u64) -> u64 {
    ((rate * dt / 1000) % (FULL_TURN as int)) as u64
}

/// `i` turned further by `step`.
pub open spec fn spin(i: Instance, step: u64) -> Instance {
    Instance { angle: ((i.angle + step) % (FULL_TURN as int)) as u64, ..i }
}

/// Every instance turned further by `step`.
pub open spec fn spin_all(s: Seq<Instance>, step: u64) -> Seq<Instance> {
    Seq::new(s.len(), |k: int| spin(s[k], step))
}

/// The instances after one update for each elapsed time in `dts`, in order.
pub open spec fn spin_many(s: Seq<Instance>, rate: u32, dts: Seq<u64>) -> Seq<Instance>
    decreases dts.len(),
{
    if dts.len() == 0 {
        s
    } else {
        spin_all(spin_many(s, rate, dts.drop_last()), spin_step(rate, dts.last()))
    }
}

/// Both offsets lie within one row length of the centre.
pub open spec fn offsets_bounded(i: Instance) -> bool {
    &&& -(MAX_PER_ROW as int) <= i.offset_x <= MAX_PER_ROW
    &&& -(MAX_PER_ROW as int) <= i.offset_z <= MAX_PER_ROW
}

/// A fixed grid of instances, the spacing between neighbours and the
/// angular rate at which every instance spins.
pub struct InstanceSet {
    per_row: u32,
    /// Distance between neighbours, in millionths of a scene unit.
    spacing: u32,
    /// Angular rate, in thousandths of a degree per second.
    rate: u32,
    instances: Vec<Instance>,
}

impl View for InstanceSet {
    type V = Seq<Instance>;

    closed spec fn view(&self) -> Seq<Instance> {
        self.instances@
    }
}

impl InstanceSet {
    pub closed spec fn spec_per_row(&self) -> nat {
        self.per_row as nat
    }

    pub closed spec fn spec_spacing(&self) -> u32 {
        self.spacing
    }

    pub closed spec fn spec_rate(&self) -> u32 {
        self.rate
    }

    pub closed spec fn wf(&self) -> bool {
        &&& 1 <= self.per_row <= MAX_PER_ROW
        &&& self.instances@.len() == self.per_row * self.per_row
        &&& forall|k: int|
            0 <= k < self.instances@.len() ==> #[trigger] self.instances@[k].angle < FULL_TURN
        &&& forall|k: int| 0 <= k < self.instances@.len() ==> offsets_bounded(#[trigger] self.instances@[k])
    }

    /// Lays out an `per_row` x `per_row` grid, `spacing` apart, centred on
    /// the origin, spinning at `rate`.
    pub fn new(per_row: u32, spacing: u32, rate: u32) -> (r: Result<InstanceSet, SetupError>)
        ensures
            r == Err::<InstanceSet, SetupError>(SetupError::EmptyInstanceGrid) <==> per_row == 0,
            r == Err::<InstanceSet, SetupError>(SetupError::InstanceGridTooLarge) <==> per_row
                > MAX_PER_ROW,
            r is Ok <==> 1 <= per_row <= MAX_PER_ROW,
            r matches Ok(s) ==> {
                &&& s.wf()
                &&& s@ == grid(per_row as nat, spacing)
                &&& s.spec_per_row() == per_row
                &&& s.spec_spacing() == spacing
                &&& s.spec_rate() == rate
            },
    {
        if per_row == 0 {
            return Err(SetupError::EmptyInstanceGrid);
        }
        if per_row > MAX_PER_ROW {
            return Err(SetupError::InstanceGridTooLarge);
        }
        assert(per_row * per_row <= 65535 * 65535) by (nonlinear_arith)
            requires
                per_row <= 65535,
        ;
        let total: u32 = per_row * per_row;
        let mut out: Vec<Instance> = Vec::new();
        let mut k: u32 = 0;
        while k < total
            invariant
                1 <= per_row <= MAX_PER_ROW,
                total == per_row * per_row,
                k <= total,
                out@.len() == k,
                forall|j: int| 0 <= j < k ==> out@[j] == grid_instance(per_row as nat, spacing, j),
            decreases total - k,
        {
            out.push(grid_instance_at(per_row, spacing, k));
            k = k + 1;
        }
        assert(out@ =~= grid(per_row as nat, spacing));
        let s = InstanceSet { per_row, spacing, rate, instances: out };
        assert forall|k: int| 0 <= k < s.instances@.len() implies (#[trigger] s.instances@[k]).angle
            < FULL_TURN && offsets_bounded(s.instances@[k]) by {
            assert(s.instances@[k] == grid_instance(per_row as nat, spacing, k));
            lemma_grid_offsets(per_row as int, k);
        }
        Ok(s)
    }

    /// Turns every instance by the angle swept in `dt` microseconds.
    pub fn update(&mut self, dt: u64)
        requires
            old(self).wf(),
        ensures
            final(self).wf(),
            final(self)@ == spin_all(old(self)@, spin_step(old(self).spec_rate(), dt)),
            final(self).spec_per_row() == old(self).spec_per_row(),
            final(self).spec_spacing() == old(self).spec_spacing(),
            final(self).spec_rate() == old(self).spec_rate(),
    {
        assert((self.rate as u128) * (dt as u128) <= 0xffff_ffff * 0xffff_ffff_ffff_ffff)
            by (nonlinear_arith)
            requires
                self.rate <= 0xffff_ffffu32,
                dt <= 0xffff_ffff_ffff_ffffu64,
        ;
        let step: u64 = ((self.rate as u128 * dt as u128 / 1000) % (FULL_TURN as u128)) as u64;
        assert(step == spin_step(self.rate, dt));
        let ghost before = self.instances@;
        let mut k: usize = 0;
        while k < self.instances.len()
            invariant
                self.per_row == old(self).per_row,
                self.spacing == old(self).spacing,
                self.rate == old(self).rate,
                before == old(self).instances@,
                self.instances@.len() == before.len(),
                k <= before.len(),
                step < FULL_TURN,
                forall|j: int| 0 <= j < before.len() ==> #[trigger] before[j].angle < FULL_TURN,
                forall|j: int| 0 <= j < before.len() ==> offsets_bounded(#[trigger] before[j]),
                forall|j: int| 0 <= j < k ==> self.instances@[j] == spin(before[j], step),
                forall|j: int| k <= j < before.len() ==> self.instances@[j] == before[j],
            decreases before.len() - k,
        {
            let cur = self.instances[k];
            assert(cur == before[k as int]);
            let turned = Instance { angle: (cur.angle + step) % FULL_TURN, ..cur };
            self.instances.set(k, turned);
            k = k + 1;
        }
        assert(self.instances@ =~= spin_all(before, step));
        assert forall|j: int| 0 <= j < self.instances@.len() implies (#[trigger] self.instances@[
            j]).angle < FULL_TURN && offsets_bounded(self.instances@[j]) by {
            assert(self.instances@[j] == spin(before[j], step));
        }
    }

    /// The instances, in row-major order.
    pub fn instances(&self) -> (r: &Vec<Instance>)
        ensures
            r@ == self@,
    {
        &self.instances
    }

    /// How many instances there are: `per_row` squared.
    pub fn count(&self) -> (r: u32)
        requires
            self.wf(),
        ensures
            r == self@.len(),
            r == self.spec_per_row() * self.spec_per_row(),
    {
        assert(self.per_row * self.per_row <= 65535 * 65535) by (nonlinear_arith)
            requires
                self.per_row <= 65535,
        ;
        self.per_row * self.per_row
    }

    pub fn per_row(&self) -> (r: u32)
        ensures
            r == self.spec_per_row(),
    {
        self.per_row
    }

    pub fn spacing(&self) -> (r: u32)
        ensures
            r == self.spec_spacing(),
    {
        self.spacing
    }

    /// Twice the position of instance `k` along x and z, in millionths of a
    /// scene unit; twice, so that it stays an integer on every grid.
    pub fn doubled_position(&self, k: usize) -> (r: (i64, i64))
        requires
            self.wf(),
            k < self@.len(),
        ensures
            r.0 == self.spec_spacing() * self@[k as int].offset_x,
            r.1 == self.spec_spacing() * self@[k as int].offset_z,
    {
        let i = self.instances[k];
        proof {
            lemma_offset_bound(self.per_row, self.spacing, self.instances@[k as int]);
        }
        (self.spacing as i64 * i.offset_x, self.spacing as i64 * i.offset_z)
    }
}

/// Updates keep the number of instances, and each instance's offsets and axis.
pub proof fn lemma_spin_many_keeps_layout(s: Seq<Instance>, rate: u32, dts: Seq<u64>)
    ensures
        spin_many(s, rate, dts).len() == s.len(),
        forall|k: int|
            0 <= k < s.len() ==> {
                &&& (#[trigger] spin_many(s, rate, dts)[k]).offset_x == s[k].offset_x
                &&& spin_many(s, rate, dts)[k].offset_z == s[k].offset_z
                &&& spin_many(s, rate, dts)[k].axis == s[k].axis
            },
    decreases dts.len(),
{
    if dts.len() > 0 {
        lemma_spin_many_keeps_layout(s, rate, dts.drop_last());
    }
}

/// However many updates run, and whatever time each covers, a grid of `n`
/// per row holds exactly `n * n` instances.
pub proof fn lemma_instance_count_kept(n: nat, spacing: u32, rate: u32, dts: Seq<u64>)
    requires
        1 <= n <= MAX_PER_ROW,
    ensures
        spin_many(grid(n, spacing), rate, dts).len() == n * n,
{
    lemma_spin_many_keeps_layout(grid(n, spacing), rate, dts);
}

/// However many updates run, an instance rotates about the fixed z axis
/// exactly when its position is the zero vector: no rotation is ever built
/// by normalising a zero vector.
pub proof fn lemma_origin_uses_default_axis(
    n: nat,
    spacing: u32,
    rate: u32,
    dts: Seq<u64>,
    k: int,
)
    requires
        1 <= n <= MAX_PER_ROW,
        0 <= k < n * n,
    ensures
        ({
            let i = spin_many(grid(n, spacing), rate, dts)[k];
            (i.axis == RotationAxis::DefaultZ) == at_origin(
                spacing,
                i.offset_x as int,
                i.offset_z as int,
            )
        }),
{
    lemma_spin_many_keeps_layout(grid(n, spacing), rate, dts);
    lemma_grid_offsets(n as int, k);
    let g = grid(n, spacing);
    assert(g[k] == grid_instance(n, spacing, k));
    assert(spin_many(g, rate, dts)[k].offset_x == g[k].offset_x);
}

/// Instance `k` of the grid, computed.
fn grid_instance_at(per_row: u32, spacing: u32, k: u32) -> (r: Instance)
    requires
        1 <= per_row <= MAX_PER_ROW,
        k < per_row * per_row,
    ensures
        r == grid_instance(per_row as nat, spacing, k as int),
{
    let x: u32 = k % per_row;
    let z: u32 = k / per_row;
    assert(z < per_row) by (nonlinear_arith)
        requires
            k < per_row * per_row,
            z == k / per_row,
            per_row > 0,
    ;
    let ox: i64 = 2 * (x as i64) - (per_row as i64 - 1);
    let oz: i64 = 2 * (z as i64) - (per_row as i64 - 1);
    let origin = spacing == 0 || (ox == 0 && oz == 0);
    assert(origin == at_origin(spacing, ox as int, oz as int)) by (nonlinear_arith)
        requires
            origin == (spacing == 0 || (ox == 0 && oz == 0)),
    ;
    if origin {
        Instance { offset_x: ox, offset_z: oz, axis: RotationAxis::DefaultZ, angle: 0 }
    } else {
        Instance { offset_x: ox, offset_z: oz, axis: RotationAxis::Radial, angle: INITIAL_TILT }
    }
}

proof fn lemma_grid_offsets(n: int, k: int)
    requires
        1 <= n <= MAX_PER_ROW,
        0 <= k < n * n,
    ensures
        -(n - 1) <= grid_offset(k % n, n) <= n - 1,
        -(n - 1) <= grid_offset(k / n, n) <= n - 1,
{
    assert(0 <= k / n < n) by (nonlinear_arith)
        requires
            0 <= k < n * n,
            n > 0,
    ;
    assert(0 <= k % n < n);
}

proof fn lemma_offset_bound(per_row: u32, spacing: u32, i: Instance)
    requires
        -(MAX_PER_ROW as int) <= i.offset_x <= MAX_PER_ROW,
        -(MAX_PER_ROW as int) <= i.offset_z <= MAX_PER_ROW,
    ensures
        -0x1_0000_0000_0000 <= spacing * i.offset_x <= 0x1_0000_0000_0000,
        -0x1_0000_0000_0000 <= spacing * i.offset_z <= 0x1_0000_0000_0000,
{
    assert(-0x1_0000_0000_0000 <= spacing * i.offset_x <= 0x1_0000_0000_0000) by (nonlinear_arith)
        requires
            -(MAX_PER_ROW as int) <= i.offset_x <= MAX_PER_ROW,
            spacing <= u32::MAX,
    ;
    assert(-0x1_0000_0000_0000 <= spacing * i.offset_z <= 0x1_0000_0000_0000) by (nonlinear_arith)
        requires
            -(MAX_PER_ROW as int) <= i.offset_z <= MAX_PER_ROW,
            spacing <= u32::MAX,
    ;
}

} // verus!
