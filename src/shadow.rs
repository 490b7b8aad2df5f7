use vstd::prelude::*;

verus! {

/// What a ray march does after one step.
#[derive(Clone, Copy, Debug, PartialEq, Eq, Structural)]
pub enum March {
    /// The ray is still over the grid and unobstructed: step again.
    Continue,
    /// The ray has left the grid: the origin is lit.
    Exit,
    /// The ray from a cell above the water line passed under terrain above the
    /// water line: the origin is in shadow.
    Shadowed,
}

pub open spec fn spec_march_step(
    cell_x: int,
    cell_y: int,
    width: int,
    height: int,
    origin_above_water: bool,
    below_surface: bool,
    cell_above_water: bool,
) -> March {
    if !(0 <= cell_x < width && 0 <= cell_y < height) {
        March::Exit
    } else if origin_above_water && below_surface && cell_above_water {
        March::Shadowed
    } else {
        March::Continue
    }
}

/// Decides one step of a shadow ray. `origin_above_water` says whether the
/// ray's origin cell lies above the water line: shadows are only registered on
/// such cells. (`cell_x`, `cell_y`) is the cell under the marched point (the
/// floors of its planar coordinates); `below_surface` says
/// whether the point is lower than that cell's height, and `cell_above_water`
/// whether that height is above the water line. Both flags are read only when
/// the cell lies in the grid.
pub fn march_step(
    cell_x: i64,
    cell_y: i64,
    width: usize,
    height: usize,
    origin_above_water: bool,
    below_surface: bool,
    cell_above_water: bool,
) -> (r: March)
    ensures
        r == spec_march_step(
            cell_x as int,
            cell_y as int,
            width as int,
            height as int,
            origin_above_water,
            below_surface,
            cell_above_water,
        ),
        r == March::Shadowed ==> origin_above_water && cell_above_water,
{
    if cell_x < 0 || cell_y < 0 || cell_x as u64 >= width as u64 || cell_y as u64 >= height as u64 {
        March::Exit
    } else if origin_above_water && below_surface && cell_above_water {
        March::Shadowed
    } else {
        March::Continue
    }
}

/// A ray from a cell at or below the water line is never shadowed, wherever
/// it goes and whatever terrain it meets.
pub proof fn lemma_water_never_shadowed(
    cell_x: int,
    cell_y: int,
    width: int,
    height: int,
    below_surface: bool,
    cell_above_water: bool,
)
    ensures
        spec_march_step(cell_x, cell_y, width, height, false, below_surface, cell_above_water)
            != March::Shadowed,
{
}

} // verus!
