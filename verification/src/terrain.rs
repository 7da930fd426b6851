//! Layout of a terrain mesh: a rectangular grid of vertices, visited column
//! by column, and the triangles that connect neighbouring vertices.
//!
//! Heights and normals are sampled by the caller at the grid points listed
//! here; the order of the vertices and the index buffer are fixed by this
//! module, so that render and collision geometry agree vertex for vertex.

use vstd::prelude::*;
use vstd::arithmetic::div_mod::lemma_fundamental_div_mod_converse;
use crate::error::Error;
use crate::ratio::Ratio;

verus! {

/// Grid coordinates `(ix, iz)` of a vertex.
pub type Coord = (int, int);

/// Three grid vertices, in winding order.
pub type Facet = (Coord, Coord, Coord);

/// Three positions in the vertex sequence, in winding order.
pub type Corners = (int, int, int);

/// A vertex of the grid, by its column `ix` and its place `iz` in the column.
#[derive(Clone, Copy, Debug, PartialEq, Eq)]
pub struct GridPoint {
    pub ix: u32,
    pub iz: u32,
}

/// A step from a vertex to a neighbouring sample, in units of the sample
/// distance.
#[derive(Clone, Copy, Debug, PartialEq, Eq)]
pub struct Offset {
    pub dx: i32,
    pub dz: i32,
}

/// A grid of `nx` by `nz` vertices.
#[derive(Clone, Copy, Debug, PartialEq, Eq)]
pub struct Grid {
    pub nx: u32,
    pub nz: u32,
}

/// The corners of an index triple, as integers.
pub open spec fn corners(t: [u32; 3]) -> Corners {
    (t@[0] as int, t@[1] as int, t@[2] as int)
}

/// An index buffer as a sequence of corner triples.
pub open spec fn index_model(indices: Seq<[u32; 3]>) -> Seq<Corners> {
    indices.map_values(|t: [u32; 3]| corners(t))
}

/// The triangle that closes the cell behind `(ix, iz)` towards `iz + 1`.
pub open spec fn forward_facet(ix: int, iz: int) -> Facet {
    ((ix - 1, iz), (ix - 1, iz + 1), (ix, iz))
}

/// The triangle that closes the cell behind `(ix, iz)` towards `iz - 1`.
pub open spec fn backward_facet(ix: int, iz: int) -> Facet {
    ((ix, iz - 1), (ix - 1, iz), (ix, iz))
}

/// The vertical component of the cross product of the edges `a -> b` and
/// `a -> c` of a facet, in grid units: positive when the face looks up.
pub open spec fn orientation(f: Facet) -> int {
    let (a, b, c) = f;
    (b.1 - a.1) * (c.0 - a.0) - (b.0 - a.0) * (c.1 - a.1)
}

/// The vertical component of the cross product that a pair of neighbouring
/// samples contributes to a vertex normal.
pub open spec fn turn(first: Offset, second: Offset) -> int {
    second.dz * first.dx - second.dx * first.dz
}

/// The four pairs of neighbouring samples around a vertex, in order.
pub open spec fn stencil() -> Seq<(Offset, Offset)> {
    seq![
        (Offset { dx: 1, dz: 0 }, Offset { dx: 0, dz: 1 }),
        (Offset { dx: 0, dz: 1 }, Offset { dx: -1i32, dz: 0 }),
        (Offset { dx: -1i32, dz: 0 }, Offset { dx: 0, dz: -1i32 }),
        (Offset { dx: 0, dz: -1i32 }, Offset { dx: 1, dz: 0 }),
    ]
}

impl Grid {
    /// At least one vertex per axis, and every position fits an index.
    pub open spec fn wf(self) -> bool {
        &&& self.nx >= 1
        &&& self.nz >= 1
        &&& self.nx * self.nz <= u32::MAX
    }

    /// The position of vertex `c` in the vertex sequence.
    pub open spec fn index_of(self, c: Coord) -> int {
        c.0 * self.nz + c.1
    }

    /// Whether `c` is a vertex of the grid.
    pub open spec fn contains(self, c: Coord) -> bool {
        0 <= c.0 < self.nx && 0 <= c.1 < self.nz
    }

    /// The vertex at position `k` of the vertex sequence.
    pub open spec fn point_at(self, k: int) -> GridPoint {
        GridPoint { ix: (k / (self.nz as int)) as u32, iz: (k % (self.nz as int)) as u32 }
    }

    /// The vertex sequence: column by column, each column from `iz = 0` up.
    pub open spec fn points(self) -> Seq<GridPoint> {
        Seq::new((self.nx * self.nz) as nat, |k: int| self.point_at(k))
    }

    /// How far along an axis of `n` vertices the vertex at place `i` lies:
    /// the vertices are spread evenly from one edge to the other.
    pub open spec fn share(i: u32, n: u32) -> Ratio {
        Ratio { num: i as i64, den: if n > 1 { (n - 1) as i64 } else { 1 } }
    }

    /// The facets emitted on reaching vertex `(ix, iz)`.
    pub open spec fn facets_at(self, ix: int, iz: int) -> Seq<Facet> {
        let forward = if ix != 0 && iz < self.nz - 1 {
            seq![forward_facet(ix, iz)]
        } else {
            Seq::<Facet>::empty()
        };
        let backward = if iz != 0 && ix != 0 {
            seq![backward_facet(ix, iz)]
        } else {
            Seq::<Facet>::empty()
        };
        forward + backward
    }

    /// The facets emitted in column `ix` before reaching place `n`.
    pub open spec fn column_facets(self, ix: int, n: nat) -> Seq<Facet>
        decreases n,
    {
        if n == 0 {
            Seq::<Facet>::empty()
        } else {
            self.column_facets(ix, (n - 1) as nat) + self.facets_at(ix, n - 1)
        }
    }

    /// The facets emitted in the columns before column `m`.
    pub open spec fn facets_before(self, m: nat) -> Seq<Facet>
        decreases m,
    {
        if m == 0 {
            Seq::<Facet>::empty()
        } else {
            self.facets_before((m - 1) as nat) + self.column_facets(m - 1, self.nz as nat)
        }
    }

    /// Every facet of the mesh, in the order of emission.
    pub open spec fn facets(self) -> Seq<Facet> {
        self.facets_before(self.nx as nat)
    }

    /// The positions of the corners of `f` in the vertex sequence.
    pub open spec fn facet_corners(self, f: Facet) -> Corners {
        (self.index_of(f.0), self.index_of(f.1), self.index_of(f.2))
    }

    /// The index buffer of the mesh.
    pub open spec fn triangles(self) -> Seq<Corners> {
        self.facets().map_values(|f: Facet| self.facet_corners(f))
    }

    /// The grid with `cells_x` by `cells_z` cells: one more vertex per axis
    /// than there are cells.
    pub open spec fn of_cells(cells_x: u32, cells_z: u32) -> Grid
        recommends
            (cells_x + 1) * (cells_z + 1) <= u32::MAX,
    {
        Grid { nx: (cells_x + 1) as u32, nz: (cells_z + 1) as u32 }
    }

    /// The grid with `cells_x` by `cells_z` cells, or `InvalidConfig` when its
    /// vertices are too many to be indexed.
    pub fn new(cells_x: u32, cells_z: u32) -> (r: Result<Grid, Error>)
        ensures
            (cells_x + 1) * (cells_z + 1) <= u32::MAX ==> r == Ok::<Grid, Error>(
                Grid::of_cells(cells_x, cells_z),
            ) && r->Ok_0.nx == cells_x + 1 && r->Ok_0.nz == cells_z + 1,
            (cells_x + 1) * (cells_z + 1) > u32::MAX ==> r == Err::<Grid, Error>(
                Error::InvalidConfig,
            ),
            r is Ok ==> r->Ok_0.wf(),
    {
        let nx: u128 = cells_x as u128 + 1;
        let nz: u128 = cells_z as u128 + 1;
        assert(nx * nz <= 0x1_0000_0000 * 0x1_0000_0000) by (nonlinear_arith)
            requires
                nx <= 0x1_0000_0000,
                nz <= 0x1_0000_0000,
        ;
        if nx * nz <= u32::MAX as u128 {
            assert(nx <= u32::MAX && nz <= u32::MAX) by (nonlinear_arith)
                requires
                    nx * nz <= u32::MAX,
                    nx >= 1,
                    nz >= 1,
            ;
            Ok(Grid { nx: nx as u32, nz: nz as u32 })
        } else {
            Err(Error::InvalidConfig)
        }
    }

    /// The number of vertices.
    pub fn vertex_count(&self) -> (n: u32)
        requires
            self.wf(),
        ensures
            n == self.nx * self.nz,
            n == self.points().len(),
    {
        self.nx * self.nz
    }

    /// The position of vertex `(ix, iz)` in the vertex sequence.
    pub fn vertex_index(&self, ix: u32, iz: u32) -> (k: u32)
        requires
            self.wf(),
            ix < self.nx,
            iz < self.nz,
        ensures
            k == self.index_of((ix as int, iz as int)),
            k < self.nx * self.nz,
            self.points()[k as int] == (GridPoint { ix, iz }),
    {
        proof {
            self.lemma_index_in_range((ix as int, iz as int));
            self.lemma_point_at_index(ix as int, iz as int);
        }
        ix * self.nz + iz
    }

    /// Where a vertex lies within the rectangle of the mesh: its shares of
    /// the way from the least to the greatest `x`, and likewise `z`. The
    /// first vertex of an axis lies on one edge, the last on the other.
    pub fn fractions(&self, point: GridPoint) -> (at: (Ratio, Ratio))
        requires
            self.wf(),
            point.ix < self.nx,
            point.iz < self.nz,
        ensures
            at.0 == Self::share(point.ix, self.nx),
            at.1 == Self::share(point.iz, self.nz),
            at.0.wf() && 0 <= at.0.num <= at.0.den,
            at.1.wf() && 0 <= at.1.num <= at.1.den,
    {
        let span_x: u32 = if self.nx > 1 {
            self.nx - 1
        } else {
            1
        };
        let span_z: u32 = if self.nz > 1 {
            self.nz - 1
        } else {
            1
        };
        (Ratio::new(point.ix as i64, span_x as i64), Ratio::new(point.iz as i64, span_z as i64))
    }

    /// The vertices in order, and the index buffer that connects them.
    pub fn generate(&self) -> (out: (Vec<GridPoint>, Vec<[u32; 3]>))
        requires
            self.wf(),
        ensures
            out.0@ == self.points(),
            out.0@.len() == self.nx * self.nz,
            index_model(out.1@) == self.triangles(),
            out.1@.len() == 2 * (self.nx - 1) * (self.nz - 1),
    {
        let nx: u32 = self.nx;
        let nz: u32 = self.nz;
        let mut points: Vec<GridPoint> = Vec::new();
        let mut indices: Vec<[u32; 3]> = Vec::new();
        let ghost mut emitted: Seq<Facet> = Seq::empty();
        let mut x: u32 = 0;
        while x < nx
            invariant
                self.wf(),
                nx == self.nx,
                nz == self.nz,
                x <= nx,
                points@.len() == x * nz,
                forall|k: int| 0 <= k < points@.len() ==> points@[k] == self.point_at(k),
                emitted == self.facets_before(x as nat),
                indices@.len() == emitted.len(),
                forall|i: int|
                    0 <= i < emitted.len() ==> corners(#[trigger] indices@[i])
                        == self.facet_corners(emitted[i]),
            decreases nx - x,
        {
            let mut z: u32 = 0;
            proof {
                emitted = emitted + self.column_facets(x as int, 0);
            }
            while z < nz
                invariant
                    self.wf(),
                    nx == self.nx,
                    nz == self.nz,
                    x < nx,
                    z <= nz,
                    points@.len() == x * nz + z,
                    forall|k: int| 0 <= k < points@.len() ==> points@[k] == self.point_at(k),
                    emitted == self.facets_before(x as nat) + self.column_facets(
                        x as int,
                        z as nat,
                    ),
                    indices@.len() == emitted.len(),
                    forall|i: int|
                        0 <= i < emitted.len() ==> corners(#[trigger] indices@[i])
                            == self.facet_corners(emitted[i]),
                decreases nz - z,
            {
                proof {
                    self.lemma_index_in_range((x as int, z as int));
                    self.lemma_point_at_index(x as int, z as int);
                }
                let here: u32 = x * nz + z;
                points.push(GridPoint { ix: x, iz: z });
                if x != 0 && z < nz - 1 {
                    proof {
                        self.lemma_index_in_range((x - 1, z as int));
                        self.lemma_index_in_range((x - 1, z + 1));
                    }
                    indices.push([(x - 1) * nz + z, (x - 1) * nz + z + 1, here]);
                    proof {
                        emitted = emitted.push(forward_facet(x as int, z as int));
                    }
                }
                if z != 0 && x != 0 {
                    proof {
                        self.lemma_index_in_range((x as int, z - 1));
                        self.lemma_index_in_range((x - 1, z as int));
                    }
                    indices.push([here - 1, (x - 1) * nz + z, here]);
                    proof {
                        emitted = emitted.push(backward_facet(x as int, z as int));
                    }
                }
                proof {
                    assert(emitted =~= self.facets_before(x as nat) + self.column_facets(
                        x as int,
                        (z + 1) as nat,
                    ));
                }
                z = z + 1;
            }
            proof {
                assert(x * nz + nz == (x + 1) * nz) by (nonlinear_arith);
            }
            x = x + 1;
        }
        proof {
            assert(points@ =~= self.points());
            assert(index_model(indices@) =~= self.triangles());
            self.lemma_facet_count();
        }
        (points, indices)
    }

    /// A vertex of the grid has a position below the number of vertices.
    pub proof fn lemma_index_in_range(self, c: Coord)
        requires
            self.wf(),
            self.contains(c),
        ensures
            0 <= self.index_of(c) < self.nx * self.nz,
            self.index_of(c) <= u32::MAX,
            c.0 * self.nz <= self.index_of(c),
            0 <= c.0 * self.nz,
    {
        let nz = self.nz as int;
        let nx = self.nx as int;
        assert(c.0 * nz + nz <= nx * nz) by (nonlinear_arith)
            requires
                0 <= c.0 < nx,
                nz >= 1,
        ;
        assert(0 <= c.0 * nz) by (nonlinear_arith)
            requires
                0 <= c.0,
                nz >= 1,
        ;
    }

    /// The vertex sequence holds vertex `(ix, iz)` at the position
    /// `ix * nz + iz`.
    pub proof fn lemma_point_at_index(self, ix: int, iz: int)
        requires
            self.wf(),
            self.contains((ix, iz)),
        ensures
            self.point_at(self.index_of((ix, iz))) == (GridPoint { ix: ix as u32, iz: iz as u32 }),
            self.points()[self.index_of((ix, iz))] == (GridPoint { ix: ix as u32, iz: iz as u32 }),
    {
        self.lemma_index_in_range((ix, iz));
        let k = self.index_of((ix, iz));
        assert(k == ix * (self.nz as int) + iz);
        assert(k == (self.nz as int) * ix + iz) by (nonlinear_arith)
            requires
                k == ix * (self.nz as int) + iz,
        ;
        lemma_fundamental_div_mod_converse(k, self.nz as int, ix, iz);
    }
    /// Whether the corners of `f` are vertices of one cell of the grid, wound
    /// so that the face looks up.
    pub open spec fn sound_facet(self, f: Facet) -> bool {
        &&& self.contains(f.0)
        &&& self.contains(f.1)
        &&& self.contains(f.2)
        &&& f.2.0 - 1 <= f.0.0 <= f.2.0
        &&& f.2.0 - 1 <= f.1.0 <= f.2.0
        &&& f.2.1 - 1 <= f.0.1 <= f.2.1 + 1
        &&& f.2.1 - 1 <= f.1.1 <= f.2.1 + 1
        &&& f.0.1 - 1 <= f.1.1 <= f.0.1 + 1
        &&& orientation(f) == 1
    }

    proof fn lemma_column_facets(self, ix: int, n: nat)
        requires
            self.wf(),
            0 <= ix < self.nx,
            n <= self.nz,
        ensures
            forall|i: int|
                0 <= i < self.column_facets(ix, n).len() ==> self.sound_facet(
                    #[trigger] self.column_facets(ix, n)[i],
                ),
            ix == 0 ==> self.column_facets(ix, n).len() == 0,
            ix != 0 && n == 0 ==> self.column_facets(ix, n).len() == 0,
            ix != 0 && 0 < n < self.nz ==> self.column_facets(ix, n).len() == 2 * n - 1,
            ix != 0 && n == self.nz ==> self.column_facets(ix, n).len() == 2 * (self.nz - 1),
        decreases n,
    {
        if n > 0 {
            self.lemma_column_facets(ix, (n - 1) as nat);
            let iz = n - 1;
            lemma_facets_look_up(ix, iz);
        }
    }

    proof fn lemma_facets_before(self, m: nat)
        requires
            self.wf(),
            m <= self.nx,
        ensures
            forall|i: int|
                0 <= i < self.facets_before(m).len() ==> self.sound_facet(
                    #[trigger] self.facets_before(m)[i],
                ),
            m == 0 ==> self.facets_before(m).len() == 0,
            m > 0 ==> self.facets_before(m).len() == 2 * (m - 1) * (self.nz - 1),
        decreases m,
    {
        if m > 0 {
            self.lemma_facets_before((m - 1) as nat);
            self.lemma_column_facets(m - 1, self.nz as nat);
            let nz = self.nz as int;
            if m > 1 {
                assert(2 * (m - 2) * (nz - 1) + 2 * (nz - 1) == 2 * (m - 1) * (nz - 1))
                    by (nonlinear_arith);
            } else {
                assert(2 * (m - 1) * (nz - 1) == 0) by (nonlinear_arith)
                    requires
                        m == 1,
                ;
            }
        }
    }

    /// The mesh has two triangles for each cell of the grid.
    pub proof fn lemma_facet_count(self)
        requires
            self.wf(),
        ensures
            self.facets().len() == 2 * (self.nx - 1) * (self.nz - 1),
            self.triangles().len() == 2 * (self.nx - 1) * (self.nz - 1),
    {
        self.lemma_facets_before(self.nx as nat);
    }

    /// Every triangle of the mesh connects three vertices of one cell, and
    /// all are wound the same way: the face looks up.
    pub proof fn lemma_winding(self, i: int)
        requires
            self.wf(),
            0 <= i < self.facets().len(),
        ensures
            self.sound_facet(self.facets()[i]),
            orientation(self.facets()[i]) > 0,
    {
        self.lemma_facets_before(self.nx as nat);
    }

    /// Every entry of the index buffer is the position of a vertex.
    pub proof fn lemma_triangles_in_range(self, i: int)
        requires
            self.wf(),
            0 <= i < self.triangles().len(),
        ensures
            0 <= self.triangles()[i].0 < self.nx * self.nz,
            0 <= self.triangles()[i].1 < self.nx * self.nz,
            0 <= self.triangles()[i].2 < self.nx * self.nz,
    {
        self.lemma_facets_before(self.nx as nat);
        let f = self.facets()[i];
        assert(self.sound_facet(f));
        self.lemma_index_in_range(f.0);
        self.lemma_index_in_range(f.1);
        self.lemma_index_in_range(f.2);
    }
}

/// The mesh of a grid of `cells_x` by `cells_z` cells: its vertices in order,
/// one more per axis than there are cells, and its index buffer; or
/// `InvalidConfig` when the vertices are too many to be indexed.
pub fn generate(cells_x: u32, cells_z: u32) -> (r: Result<(Vec<GridPoint>, Vec<[u32; 3]>), Error>)
    ensures
        r is Ok <==> (cells_x + 1) * (cells_z + 1) <= u32::MAX,
        r is Err ==> r->Err_0 == Error::InvalidConfig,
        r is Ok ==> {
            let grid = Grid::of_cells(cells_x, cells_z);
            &&& r->Ok_0.0@ == grid.points()
            &&& r->Ok_0.0@.len() == (cells_x + 1) * (cells_z + 1)
            &&& index_model(r->Ok_0.1@) == grid.triangles()
            &&& r->Ok_0.1@.len() == 2 * cells_x * cells_z
        },
{
    match Grid::new(cells_x, cells_z) {
        Ok(grid) => {
            proof {
                assert(grid.nx * grid.nz == (cells_x + 1) * (cells_z + 1)) by (nonlinear_arith)
                    requires
                        grid.nx == cells_x + 1,
                        grid.nz == cells_z + 1,
                ;
                assert(2 * (grid.nx - 1) * (grid.nz - 1) == 2 * cells_x * cells_z)
                    by (nonlinear_arith)
                    requires
                        grid.nx == cells_x + 1,
                        grid.nz == cells_z + 1,
                ;
            }
            Ok(grid.generate())
        },
        Err(error) => Err(error),
    }
}

/// The pairs of neighbouring samples from which a vertex normal is averaged:
/// four samples around the vertex, each paired with the next, the last with
/// the first.
pub fn normal_stencil() -> (pairs: Vec<(Offset, Offset)>)
    ensures
        pairs@ == stencil(),
{
    let east = Offset { dx: 1, dz: 0 };
    let north = Offset { dx: 0, dz: 1 };
    let west = Offset { dx: -1, dz: 0 };
    let south = Offset { dx: 0, dz: -1 };
    let mut pairs: Vec<(Offset, Offset)> = Vec::new();
    pairs.push((east, north));
    pairs.push((north, west));
    pairs.push((west, south));
    pairs.push((south, east));
    proof {
        assert(pairs@ =~= stencil());
    }
    pairs
}

/// Each pair of the stencil turns the same way as the triangles of the mesh,
/// and each pair starts where the one before it ended.
pub proof fn lemma_stencil_turns(i: int)
    requires
        0 <= i < 4,
    ensures
        stencil().len() == 4,
        turn(stencil()[i].0, stencil()[i].1) == 1,
        stencil()[(i + 1) % 4].0 == stencil()[i].1,
{
    let s = stencil();
    lemma_quarter_turn(s[0].0, s[0].1);
    lemma_quarter_turn(s[1].0, s[1].1);
    lemma_quarter_turn(s[2].0, s[2].1);
    lemma_quarter_turn(s[3].0, s[3].1);
}

proof fn lemma_quarter_turn(first: Offset, second: Offset)
    requires
        second.dx == -first.dz,
        second.dz == first.dx,
        first.dz == 0 && (first.dx == 1 || first.dx == -1) || first.dx == 0 && (first.dz == 1
            || first.dz == -1),
    ensures
        turn(first, second) == 1,
{
    assert(second.dz * first.dx - second.dx * first.dz == 1) by (nonlinear_arith)
        requires
            second.dx == -first.dz,
            second.dz == first.dx,
            first.dz == 0 && (first.dx == 1 || first.dx == -1) || first.dx == 0 && (first.dz
                == 1 || first.dz == -1),
    ;
}

/// Both triangles behind a vertex look up.
pub proof fn lemma_facets_look_up(ix: int, iz: int)
    ensures
        orientation(forward_facet(ix, iz)) == 1,
        orientation(backward_facet(ix, iz)) == 1,
{
    let f = forward_facet(ix, iz);
    assert((f.1.1 - f.0.1) * (f.2.0 - f.0.0) == 1) by (nonlinear_arith)
        requires
            f.1.1 - f.0.1 == 1,
            f.2.0 - f.0.0 == 1,
    ;
    assert((f.1.0 - f.0.0) * (f.2.1 - f.0.1) == 0) by (nonlinear_arith)
        requires
            f.1.0 - f.0.0 == 0,
    ;
    let b = backward_facet(ix, iz);
    assert((b.1.1 - b.0.1) * (b.2.0 - b.0.0) == 0) by (nonlinear_arith)
        requires
            b.2.0 - b.0.0 == 0,
    ;
    assert((b.1.0 - b.0.0) * (b.2.1 - b.0.1) == -1) by (nonlinear_arith)
        requires
            b.1.0 - b.0.0 == -1,
            b.2.1 - b.0.1 == 1,
    ;
}

} // verus!
