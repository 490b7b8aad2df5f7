use vstd::prelude::*;
use crate::array2::Array2;
use rand::rngs::StdRng;

verus! {

/// The first `n` words of the `StdRng` stream seeded with `seed`.
pub uninterp spec fn stdrng_words(seed: u64, n: nat) -> Seq<u32>;

/// Relies on `rand::SeedableRng::seed_from_u64` for `StdRng` and on
/// `rand::RngCore::next_u32`: the first `n` words of the stream, which
/// depends on `seed` alone.
#[verifier::external_body]
fn seeded_words(seed: u64, n: usize) -> (r: Vec<u32>)
    ensures
        r@ == stdrng_words(seed, n as nat),
        r@.len() == n,
{
    let mut rng = <StdRng as rand::SeedableRng>::seed_from_u64(seed);
    (0..n).map(|_| rand::RngCore::next_u32(&mut rng)).collect()
}

/// The four lattice gradients around one cell, as turn fractions.
#[derive(Clone, Copy, Debug, PartialEq, Eq, Structural)]
pub struct Corners {
    /// At (x0, y0).
    pub top_left: u32,
    /// At (x0 + 1, y0).
    pub top_right: u32,
    /// At (x0, y0 + 1).
    pub bottom_left: u32,
    /// At (x0 + 1, y0 + 1).
    pub bottom_right: u32,
}

/// A lattice of gradient directions. Each direction is stored as a turn
/// fraction `t`: the angle `2 * pi * t / 2^32`, whose unit vector is
/// `(sin, cos)` of that angle. Drawn once when the lattice is built and
/// never changed afterwards.
pub struct Grid {
    angles: Array2<u32>,
}

impl Grid {
    pub closed spec fn spec_width(&self) -> nat {
        self.angles.spec_width()
    }

    pub closed spec fn spec_height(&self) -> nat {
        self.angles.spec_height()
    }

    /// The directions in row-major order.
    pub closed spec fn view(&self) -> Seq<u32> {
        self.angles@
    }

    pub closed spec fn wf(&self) -> bool {
        self.angles.wf()
    }

    pub open spec fn angle(&self, x: int, y: int) -> u32 {
        self@[y * self.spec_width() + x]
    }

    /// A `width` x `height` lattice whose directions are the first
    /// `width * height` words of the generator seeded with `seed`, in row-major
    /// order: equal seeds give equal lattices.
    pub fn new(width: usize, height: usize, seed: u64) -> (r: Self)
        requires
            width * height <= usize::MAX,
        ensures
            r.wf(),
            r.spec_width() == width,
            r.spec_height() == height,
            r@ == stdrng_words(seed, (width * height) as nat),
    {
        let cells = seeded_words(seed, width * height);
        match Array2::from_vec(width, height, cells) {
            Some(angles) => Grid { angles },
            None => {
                proof {
                    assert(false);
                }
                Grid { angles: Array2::new(width, height, 0) }
            },
        }
    }

    /// Two lattices of one shape drawn from one seed hold the same directions.
    pub proof fn lemma_same_seed_same_lattice(a: Grid, b: Grid, seed: u64, width: nat, height: nat)
        requires
            a.spec_width() == width && a.spec_height() == height,
            b.spec_width() == width && b.spec_height() == height,
            a@ == stdrng_words(seed, width * height),
            b@ == stdrng_words(seed, width * height),
        ensures
            forall|x: int, y: int|
                0 <= x < width && 0 <= y < height ==> #[trigger] a.angle(x, y) == b.angle(x, y),
    {
    }

    /// A lattice with the given directions, in row-major order; `None` when
    /// their number is not `width * height`.
    pub fn from_angles(width: usize, height: usize, angles: Vec<u32>) -> (r: Option<Self>)
        ensures
            r.is_some() <==> width as int * height as int == angles@.len(),
            r matches Some(g) ==> g.wf() && g.spec_width() == width && g.spec_height() == height
                && g@ == angles@,
    {
        match Array2::from_vec(width, height, angles) {
            Some(a) => Some(Grid { angles: a }),
            None => None,
        }
    }

    pub fn width(&self) -> (r: usize)
        ensures
            r == self.spec_width(),
    {
        self.angles.width()
    }

    pub fn height(&self) -> (r: usize)
        ensures
            r == self.spec_height(),
    {
        self.angles.height()
    }

    /// The direction stored at lattice point (`x`, `y`). Reading never
    /// changes the lattice, so two reads give the same direction.
    pub fn angle_at(&self, x: usize, y: usize) -> (r: u32)
        requires
            self.wf(),
            x < self.spec_width(),
            y < self.spec_height(),
        ensures
            r == self.angle(x as int, y as int),
    {
        self.angles.get(x, y)
    }

    /// The four directions around the cell whose upper-left lattice point is
    /// (`x0`, `y0`), the floors of a sample point's coordinates; `None` when
    /// one of those four points lies outside the lattice.
    pub fn corners(&self, x0: i64, y0: i64) -> (r: Option<Corners>)
        requires
            self.wf(),
        ensures
            r.is_some() <==> (0 <= x0 && x0 + 1 < self.spec_width() && 0 <= y0 && y0 + 1
                < self.spec_height()),
            r matches Some(c) ==> c == (Corners {
                top_left: self.angle(x0 as int, y0 as int),
                top_right: self.angle(x0 + 1, y0 as int),
                bottom_left: self.angle(x0 as int, y0 + 1),
                bottom_right: self.angle(x0 + 1, y0 + 1),
            }),
    {
        let w = self.width();
        let h = self.height();
        if x0 < 0 || y0 < 0 {
            return None;
        }
        let ux: u64 = x0 as u64;
        let uy: u64 = y0 as u64;
        if ux >= w as u64 || uy >= h as u64 {
            return None;
        }
        let x: usize = ux as usize;
        let y: usize = uy as usize;
        if x + 1 >= w || y + 1 >= h {
            return None;
        }
        Some(Corners {
            top_left: self.angle_at(x, y),
            top_right: self.angle_at(x + 1, y),
            bottom_left: self.angle_at(x, y + 1),
            bottom_right: self.angle_at(x + 1, y + 1),
        })
    }
}

} // verus!
