//! A fixed grid of voxels anchored at a position.
use crate::algebra::{v3add, Quat, Vec3};
use crate::fixed::{fint, mag, Fx, FX_ONE};
use crate::renderable::{RenderCommand, RenderPass, RenderPassData, Renderable};
use crate::transform::{transform_matrix, Transform};
use crate::voxel::{voxel_commands, Voxel};
use vstd::arithmetic::div_mod::{lemma_div_denominator, lemma_fundamental_div_mod};
use vstd::prelude::*;

verus! {

/// The edge length of the one chunk the world is built with.
pub const CHUNK_SIZE: usize = 1;

/// The voxel stored at index `i` of a chunk with edge `n` anchored at
/// `anchor`: the grid offset is recovered from the index by division and
/// remainder, the rotation is the zero quaternion (an identity rotation).
pub open spec fn grid_voxel(anchor: Vec3, n: int, i: int) -> Voxel {
    let x = i / (n * n);
    let y = (i / n) % n;
    let z = i % n;
    Voxel {
        transform: Transform {
            position: v3add(
                anchor,
                Vec3 { x: fint(x as i64), y: fint(y as i64), z: fint(z as i64) },
            ),
            rotation: Quat {
                s: Fx { raw: 0 },
                x: Fx { raw: 0 },
                y: Fx { raw: 0 },
                z: Fx { raw: 0 },
            },
        },
    }
}

/// The full voxel sequence of a chunk: exactly n^3 voxels, one per grid
/// cell, in x-major, then y, then z order.
pub open spec fn chunk_voxels(anchor: Vec3, n: int) -> Seq<Voxel> {
    Seq::new((n * n * n) as nat, |i: int| grid_voxel(anchor, n, i))
}

/// The commands a sequence of voxels enqueues, drawn front to back.
pub open spec fn voxels_commands(vs: Seq<Voxel>) -> Seq<RenderCommand>
    decreases vs.len(),
{
    if vs.len() == 0 {
        Seq::empty()
    } else {
        voxels_commands(vs.drop_last()) + voxel_commands(vs.last())
    }
}

/// What the shared transform buffer holds after a sequence of voxels drew:
/// the last voxel's transform, or the prior contents if none drew.
pub open spec fn last_transform(
    vs: Seq<Voxel>,
    init: crate::algebra::Mat4,
) -> crate::algebra::Mat4 {
    if vs.len() == 0 {
        init
    } else {
        transform_matrix(vs.last().transform)
    }
}

/// A chunk: a cubic grid of voxels anchored at a world position.
pub struct Chunk {
    pub voxels: Vec<Voxel>,
    pub position: Vec3,
}

impl Chunk {
    /// Build a chunk of `edge`^3 voxels at unit-spaced integer offsets from
    /// the anchor, each with an identity rotation.
    pub fn new(position: Vec3, edge: usize) -> (r: Chunk)
        requires
            edge <= 1024,
        ensures
            r.position == position,
            r.voxels@ =~= chunk_voxels(position, edge as int),
            r.voxels@.len() == edge * edge * edge,
    {
        proof {
            assert(edge * edge <= 1048576 && edge * edge * edge <= 1073741824) by (nonlinear_arith)
                requires
                    edge <= 1024,
            ;
        }
        let n2: usize = edge * edge;
        let total: usize = n2 * edge;
        let mut voxels: Vec<Voxel> = Vec::new();
        let mut i: usize = 0;
        while i < total
            invariant
                edge <= 1024,
                n2 == edge * edge,
                total == n2 * edge,
                i <= total,
                voxels@.len() == i,
                forall|j: int|
                    0 <= j < i ==> voxels@[j] == grid_voxel(position, edge as int, j),
            decreases total - i,
        {
            let x: usize = i / n2;
            let y: usize = (i / edge) % edge;
            let z: usize = i % edge;
            let v = Voxel::new(
                position.add(
                    Vec3::new(
                        Fx::from_int(x as i64),
                        Fx::from_int(y as i64),
                        Fx::from_int(z as i64),
                    ),
                ),
                Quat::zero(),
            );
            proof {
                assert(v == grid_voxel(position, edge as int, i as int));
            }
            voxels.push(v);
            i += 1;
        }
        Chunk { voxels, position }
    }
}

impl Renderable for Chunk {
    /// Resource setup before drawing: forwarded to every voxel; nothing
    /// allocates, so the chunk is unchanged and the call is idempotent.
    fn prepare(&mut self)
        ensures
            final(self).position == old(self).position,
            final(self).voxels@ =~= old(self).voxels@,
    {
        let mut idx: usize = 0;
        while idx < self.voxels.len()
            invariant
                self.position == old(self).position,
                self.voxels@ =~= old(self).voxels@,
            decreases self.voxels.len() - idx,
        {
            let mut v = self.voxels[idx];
            v.prepare();
            self.voxels.set(idx, v);
            proof {
                assert(self.voxels@ =~= old(self).voxels@);
            }
            idx += 1;
        }
    }

    /// Draw every voxel in order against the shared pass and buffers.
    fn render(&self, render_pass: &mut RenderPass, render_pass_data: &mut RenderPassData)
        ensures
            final(render_pass).commands@ =~= old(render_pass).commands@ + voxels_commands(
                self.voxels@,
            ),
            final(render_pass_data).transform_buffer == last_transform(
                self.voxels@,
                old(render_pass_data).transform_buffer,
            ),
            final(render_pass_data).projection_buffer == old(render_pass_data).projection_buffer,
    {
        let mut idx: usize = 0;
        while idx < self.voxels.len()
            invariant
                idx <= self.voxels@.len(),
                render_pass.commands@ =~= old(render_pass).commands@ + voxels_commands(
                    self.voxels@.take(idx as int),
                ),
                render_pass_data.transform_buffer == last_transform(
                    self.voxels@.take(idx as int),
                    old(render_pass_data).transform_buffer,
                ),
                render_pass_data.projection_buffer == old(render_pass_data).projection_buffer,
            decreases self.voxels@.len() - idx,
        {
            let v = self.voxels[idx];
            v.render(render_pass, render_pass_data);
            proof {
                let s = self.voxels@;
                assert(s.take(idx as int + 1).drop_last() =~= s.take(idx as int));
                assert(s.take(idx as int + 1).last() == s[idx as int]);
                assert(render_pass.commands@ =~= old(render_pass).commands@ + voxels_commands(
                    s.take(idx as int + 1),
                ));
            }
            idx += 1;
        }
        proof {
            assert(self.voxels@.take(self.voxels@.len() as int) =~= self.voxels@);
        }
    }
}

/// Every pair of distinct indices of a chunk's voxel sequence holds voxels
/// at distinct positions: the grid offsets are unique, and for an anchor
/// away from the representable edge no two offset positions collide.
pub proof fn lemma_chunk_positions_unique(anchor: Vec3, n: int)
    requires
        1 <= n <= 1024,
        mag(anchor.x.raw as int) <= 0x4000000000000000,
        mag(anchor.y.raw as int) <= 0x4000000000000000,
        mag(anchor.z.raw as int) <= 0x4000000000000000,
    ensures
        forall|i: int, j: int|
            0 <= i < n * n * n && 0 <= j < n * n * n && i != j
                ==> chunk_voxels(anchor, n)[i].transform.position != chunk_voxels(
                anchor,
                n,
            )[j].transform.position,
{
    assert forall|i: int, j: int|
        0 <= i < n * n * n && 0 <= j < n * n * n && i != j implies chunk_voxels(
        anchor,
        n,
    )[i].transform.position != chunk_voxels(anchor, n)[j].transform.position by {
        lemma_grid_voxel_distinct(anchor, n, i, j);
    }
}

/// Two distinct indices give voxels at distinct positions.
proof fn lemma_grid_voxel_distinct(anchor: Vec3, n: int, i: int, j: int)
    requires
        1 <= n <= 1024,
        mag(anchor.x.raw as int) <= 0x4000000000000000,
        mag(anchor.y.raw as int) <= 0x4000000000000000,
        mag(anchor.z.raw as int) <= 0x4000000000000000,
        0 <= i < n * n * n,
        0 <= j < n * n * n,
        i != j,
    ensures
        grid_voxel(anchor, n, i).transform.position != grid_voxel(anchor, n, j).transform.position,
{
    let xi = i / (n * n);
    let yi = (i / n) % n;
    let zi = i % n;
    let xj = j / (n * n);
    let yj = (j / n) % n;
    let zj = j % n;
    lemma_grid_coords(n, i);
    lemma_grid_coords(n, j);
    if xi == xj && yi == yj && zi == zj {
        assert(i == j);
    } else {
        // at least one coordinate differs; the corresponding component of
        // the position differs because no sum saturates
        lemma_offset_component_injective(anchor.x, xi, xj);
        lemma_offset_component_injective(anchor.y, yi, yj);
        lemma_offset_component_injective(anchor.z, zi, zj);
    }
}

/// The grid coordinates of an index lie in `[0, n)` and reconstruct it.
proof fn lemma_grid_coords(n: int, i: int)
    requires
        1 <= n,
        0 <= i < n * n * n,
    ensures
        0 <= i / (n * n) < n,
        0 <= (i / n) % n < n,
        0 <= i % n < n,
        i == (i / (n * n)) * (n * n) + ((i / n) % n) * n + i % n,
{
    let x = i / (n * n);
    let y = (i / n) % n;
    let z = i % n;
    assert(0 < n * n) by (nonlinear_arith)
        requires
            1 <= n,
    ;
    lemma_fundamental_div_mod(i, n);
    lemma_fundamental_div_mod(i / n, n);
    lemma_div_denominator(i, n, n);
    assert((i / n) / n == i / (n * n));
    assert(i == n * (n * x + y) + z);
    assert(i == x * (n * n) + y * n + z) by (nonlinear_arith)
        requires
            i == n * (n * x + y) + z,
    ;
    assert(x < n) by (nonlinear_arith)
        requires
            i == x * (n * n) + y * n + z,
            i < n * n * n,
            0 <= y < n,
            0 <= z < n,
            0 < n,
            0 <= x,
    ;
}

/// Adding two different in-range grid offsets to the same anchor component
/// gives two different scalars: no sum saturates.
proof fn lemma_offset_component_injective(a: Fx, u: int, v: int)
    requires
        mag(a.raw as int) <= 0x4000000000000000,
        0 <= u < 1024,
        0 <= v < 1024,
    ensures
        u != v ==> crate::fixed::fadd(a, fint(u as i64)) != crate::fixed::fadd(
            a,
            fint(v as i64),
        ),
{
    assert(fint(u as i64).raw == u * (FX_ONE as int));
    assert(fint(v as i64).raw == v * (FX_ONE as int));
}

} // verus!
