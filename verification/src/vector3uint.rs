//! Triples of grid sizes and grid indices.

use vstd::arithmetic::div_mod::{
    lemma_fundamental_div_mod, lemma_fundamental_div_mod_converse, lemma_multiply_divide_lt,
};
use vstd::prelude::*;

verus! {

/// Three unsigned sizes or indices, one for each axis.
#[derive(Clone, Copy, Debug, PartialEq, Eq, Structural)]
pub struct Vector3Usize {
    pub x: usize,
    pub y: usize,
    pub z: usize,
}

impl Vector3Usize {
    /// The triple of the three numbers.
    pub fn new(x: usize, y: usize, z: usize) -> (v: Self)
        ensures
            v == (Vector3Usize { x, y, z }),
    {
        Self { x, y, z }
    }

    /// The product of the three sizes: the number of voxels of a grid with
    /// these sizes.
    pub open spec fn product(self) -> int {
        self.x * self.y * self.z
    }

    /// The number of voxels of a grid with these sizes, where it fits in
    /// `usize`.
    pub fn volume(&self) -> (count: Option<usize>)
        ensures
            count == if self.product() <= usize::MAX {
                Some(self.product() as usize)
            } else {
                None::<usize>
            },
    {
        if self.x == 0 || self.y == 0 || self.z == 0 {
            assert(self.product() == 0) by (nonlinear_arith)
                requires
                    self.x == 0 || self.y == 0 || self.z == 0,
            ;
            return Some(0);
        }
        match self.x.checked_mul(self.y) {
            None => {
                assert(self.product() > usize::MAX) by (nonlinear_arith)
                    requires
                        self.x * self.y > usize::MAX,
                        self.z >= 1,
                ;
                None
            },
            Some(xy) => xy.checked_mul(self.z),
        }
    }

    /// Whether `at` is the index triple of a voxel of a grid with these sizes.
    pub open spec fn has_voxel(self, at: Vector3Usize) -> bool {
        at.x < self.x && at.y < self.y && at.z < self.z
    }

    /// The place of the voxel `at` in the arrays of a grid with these sizes:
    /// row-major, the first index the slowest and the last the fastest.
    pub open spec fn linear_index(self, at: Vector3Usize) -> int {
        (at.x * self.y + at.y) * self.z + at.z
    }

    /// The index triple of the voxel that stands at place `index` in the
    /// arrays of a grid with these sizes.
    pub open spec fn voxel_at(self, index: int) -> Vector3Usize {
        Vector3Usize {
            x: (index / (self.z as int) / (self.y as int)) as usize,
            y: (index / (self.z as int) % (self.y as int)) as usize,
            z: (index % (self.z as int)) as usize,
        }
    }

    /// Every voxel has a place in the arrays, and the voxel at that place is
    /// the voxel itself.
    pub proof fn lemma_place_of_voxel(self, at: Vector3Usize)
        requires
            self.has_voxel(at),
        ensures
            0 <= self.linear_index(at) < self.product(),
            self.voxel_at(self.linear_index(at)) == at,
    {
        let row = at.x * self.y + at.y;
        let index = row * self.z + at.z;
        lemma_fundamental_div_mod_converse(index, self.z as int, row, at.z as int);
        lemma_fundamental_div_mod_converse(row, self.y as int, at.x as int, at.y as int);
        assert(index < self.x * self.y * self.z) by (nonlinear_arith)
            requires
                row == at.x * self.y + at.y,
                index == row * self.z + at.z,
                at.x < self.x,
                at.y < self.y,
                at.z < self.z,
        ;
    }

    /// Every place in the arrays holds a voxel of the grid, and the place of
    /// that voxel is the place itself.
    pub proof fn lemma_voxel_of_place(self, index: int)
        requires
            0 <= index < self.product(),
        ensures
            self.has_voxel(self.voxel_at(index)),
            self.linear_index(self.voxel_at(index)) == index,
    {
        let x = self.x as int;
        let y = self.y as int;
        let z = self.z as int;
        assert(x > 0 && y > 0 && z > 0) by (nonlinear_arith)
            requires
                0 <= index < x * y * z,
                x >= 0,
                y >= 0,
                z >= 0,
        ;
        let row = index / z;
        lemma_fundamental_div_mod(index, z);
        lemma_fundamental_div_mod(row, y);
        lemma_multiply_divide_lt(index, z, x * y);
        lemma_multiply_divide_lt(row, y, x);
        assert(z * row == row * z && y * (row / y) == (row / y) * y) by (nonlinear_arith);
    }

    /// The place of the voxel `at` in the arrays.
    pub fn index_of(&self, at: Vector3Usize) -> (index: usize)
        requires
            self.has_voxel(at),
            self.product() <= usize::MAX,
        ensures
            index == self.linear_index(at),
            index < self.product(),
    {
        proof {
            self.lemma_place_of_voxel(at);
            assert(0 <= at.x * self.y + at.y <= (at.x * self.y + at.y) * self.z + at.z)
                by (nonlinear_arith)
                requires
                    at.z < self.z,
            ;
        }
        (at.x * self.y + at.y) * self.z + at.z
    }

    /// The index triple of the voxel at place `index` in the arrays.
    pub fn coordinates_of(&self, index: usize) -> (at: Vector3Usize)
        requires
            index < self.product(),
        ensures
            at == self.voxel_at(index as int),
            self.has_voxel(at),
            self.linear_index(at) == index,
    {
        proof {
            self.lemma_voxel_of_place(index as int);
        }
        let row = index / self.z;
        Vector3Usize { x: row / self.y, y: row % self.y, z: index % self.z }
    }
}

} // verus!
