//! The monochrome screen: a 64 by 32 grid of pixels kept in an `Array2D`,
//! with sprite drawing by exclusive-or and collision reporting.

use array2d::Array2D;
use vstd::prelude::*;

verus! {

/// Number of pixel columns.
pub const CHIP_8_WIDTH: usize = 64;

/// Number of pixel rows.
pub const CHIP_8_HEIGHT: usize = 32;

/// `array2d::Array2D`, taken as an opaque value: its contents are known
/// only through [`grid_cells`] and the functions below.
#[verifier::external_type_specification]
#[verifier::external_body]
#[verifier::reject_recursive_types(T)]
pub struct ExArray2D<T>(Array2D<T>);

/// The contents of a grid: one sequence for each of its rows, as long as
/// the grid has columns, with the element of `(row, column)` at
/// `[row][column]`.
pub uninterp spec fn grid_cells(grid: Array2D<bool>) -> Seq<Seq<bool>>;

/// `Array2D::filled_with`: a grid of `num_rows` rows, each of `num_columns`
/// copies of `element`. The crate multiplies the two dimensions unchecked
/// and allocates a vector of that length, so the product must be a length
/// that a vector can have.
#[verifier::external_body]
fn filled_grid(element: bool, num_rows: usize, num_columns: usize) -> (grid: Array2D<bool>)
    requires
        num_rows * num_columns <= isize::MAX,
    ensures
        grid_cells(grid).len() == num_rows,
        forall|r: int|
            0 <= r < num_rows ==> #[trigger] grid_cells(grid)[r] == Seq::new(
                num_columns as nat,
                |c: int| element,
            ),
{
    Array2D::filled_with(element, num_rows, num_columns)
}

/// `Array2D::num_rows`: the number of rows.
#[verifier::external_body]
fn grid_rows(grid: &Array2D<bool>) -> (rows: usize)
    ensures
        rows == grid_cells(*grid).len(),
{
    grid.num_rows()
}

/// `Array2D::num_columns`: the number of columns, which is the length of
/// every row.
#[verifier::external_body]
fn grid_columns(grid: &Array2D<bool>) -> (columns: usize)
    ensures
        forall|r: int|
            0 <= r < grid_cells(*grid).len() ==> (#[trigger] grid_cells(*grid)[r]).len()
                == columns,
{
    grid.num_columns()
}

/// `Index<(usize, usize)>` of `Array2D`: the element at `(row, column)`. The
/// crate panics on indices out of bounds, so they are excluded.
#[verifier::external_body]
fn grid_at(grid: &Array2D<bool>, row: usize, column: usize) -> (element: bool)
    requires
        row < grid_cells(*grid).len(),
        column < grid_cells(*grid)[row as int].len(),
    ensures
        element == grid_cells(*grid)[row as int][column as int],
{
    grid[(row, column)]
}

/// `IndexMut<(usize, usize)>` of `Array2D`: overwrites the element at
/// `(row, column)` and nothing else. The crate panics on indices out of
/// bounds, so they are excluded.
#[verifier::external_body]
fn grid_put(grid: &mut Array2D<bool>, row: usize, column: usize, element: bool)
    requires
        row < grid_cells(*old(grid)).len(),
        column < grid_cells(*old(grid))[row as int].len(),
    ensures
        grid_cells(*final(grid)) == grid_cells(*old(grid)).update(
            row as int,
            grid_cells(*old(grid))[row as int].update(column as int, element),
        ),
{
    grid[(row, column)] = element;
}

/// A grid of pixels has the screen's shape: 64 columns of 32 pixels, indexed
/// first by the horizontal and then by the vertical coordinate.
pub open spec fn is_screen(pixels: Seq<Seq<bool>>) -> bool {
    &&& pixels.len() == CHIP_8_WIDTH
    &&& forall|x: int| 0 <= x < CHIP_8_WIDTH ==> (#[trigger] pixels[x]).len() == CHIP_8_HEIGHT
}

/// The screen with every pixel unlit.
pub open spec fn blank_pixels() -> Seq<Seq<bool>> {
    Seq::new(CHIP_8_WIDTH as nat, |x: int| Seq::new(CHIP_8_HEIGHT as nat, |y: int| false))
}

/// A screen with every pixel unlit.
pub fn blank_screen() -> (screen: Array2D<bool>)
    ensures
        grid_cells(screen) == blank_pixels(),
        is_screen(grid_cells(screen)),
{
    let screen = filled_grid(false, CHIP_8_WIDTH, CHIP_8_HEIGHT);
    assert(grid_cells(screen) =~= blank_pixels());
    screen
}

/// Whether a grid has the screen's shape.
pub fn has_screen_shape(screen: &Array2D<bool>) -> (ok: bool)
    ensures
        ok == is_screen(grid_cells(*screen)),
{
    let rows = grid_rows(screen);
    let columns = grid_columns(screen);
    proof {
        if rows == CHIP_8_WIDTH {
            assert(grid_cells(*screen)[0].len() == columns);
        }
    }
    rows == CHIP_8_WIDTH && columns == CHIP_8_HEIGHT
}

/// Whether the pixel at column `x`, row `y` is lit.
pub fn pixel(screen: &Array2D<bool>, x: usize, y: usize) -> (lit: bool)
    requires
        is_screen(grid_cells(*screen)),
        x < CHIP_8_WIDTH,
        y < CHIP_8_HEIGHT,
    ensures
        lit == grid_cells(*screen)[x as int][y as int],
{
    grid_at(screen, x, y)
}

/// Whether a sprite row lights its pixel number `column`, counted from the
/// left: the leftmost pixel is the most significant bit of the byte.
pub open spec fn sprite_bit(row: u8, column: int) -> bool {
    0 <= column < 8 && row & (0x80u8 >> (column as u8)) != 0
}

/// Whether a sprite whose top left corner stands at `(x0, y0)` lights the
/// pixel at `(x, y)`.
pub open spec fn sprite_covers(sprite: Seq<u8>, x0: int, y0: int, x: int, y: int) -> bool {
    0 <= y - y0 < sprite.len() && sprite_bit(sprite[y - y0], x - x0)
}

/// The screen after a sprite is drawn at `(x0, y0)`: each pixel that the
/// sprite covers is inverted, every other pixel is kept. What falls off the
/// right or the bottom edge is dropped.
pub open spec fn drawn(pixels: Seq<Seq<bool>>, sprite: Seq<u8>, x0: int, y0: int) -> Seq<
    Seq<bool>,
> {
    Seq::new(
        CHIP_8_WIDTH as nat,
        |x: int|
            Seq::new(
                CHIP_8_HEIGHT as nat,
                |y: int| pixels[x][y] != sprite_covers(sprite, x0, y0, x, y),
            ),
    )
}

/// Whether a sprite drawn at `(x0, y0)` covers the pixel `(x, y)` of the
/// screen and finds it lit.
pub open spec fn hits(
    pixels: Seq<Seq<bool>>,
    sprite: Seq<u8>,
    x0: int,
    y0: int,
    x: int,
    y: int,
) -> bool {
    &&& 0 <= x < CHIP_8_WIDTH
    &&& 0 <= y < CHIP_8_HEIGHT
    &&& pixels[x][y]
    &&& sprite_covers(sprite, x0, y0, x, y)
}

/// Whether a sprite drawn at `(x0, y0)` covers a pixel that is lit.
pub open spec fn collides(pixels: Seq<Seq<bool>>, sprite: Seq<u8>, x0: int, y0: int) -> bool {
    exists|x: int, y: int| #[trigger] hits(pixels, sprite, x0, y0, x, y)
}

/// The part of a sprite that has been painted once `rows` whole rows and the
/// first `columns` pixels of the next row are done.
spec fn sprite_covers_upto(
    sprite: Seq<u8>,
    x0: int,
    y0: int,
    rows: int,
    columns: int,
    x: int,
    y: int,
) -> bool {
    sprite_covers(sprite, x0, y0, x, y) && (y - y0 < rows || (y - y0 == rows && x - x0 < columns))
}

/// Whether the part of a sprite painted so far covers the lit pixel `(x, y)`.
spec fn hits_upto(
    pixels: Seq<Seq<bool>>,
    sprite: Seq<u8>,
    x0: int,
    y0: int,
    rows: int,
    columns: int,
    x: int,
    y: int,
) -> bool {
    hits(pixels, sprite, x0, y0, x, y) && sprite_covers_upto(sprite, x0, y0, rows, columns, x, y)
}

/// Inverts the pixel at column `x`, row `y`, and reports whether it was lit.
pub fn flip_pixel(screen: &mut Array2D<bool>, x: usize, y: usize) -> (was_lit: bool)
    requires
        is_screen(grid_cells(*old(screen))),
        x < CHIP_8_WIDTH,
        y < CHIP_8_HEIGHT,
    ensures
        is_screen(grid_cells(*final(screen))),
        was_lit == grid_cells(*old(screen))[x as int][y as int],
        grid_cells(*final(screen)) == grid_cells(*old(screen)).update(
            x as int,
            grid_cells(*old(screen))[x as int].update(y as int, !was_lit),
        ),
{
    let was_lit = grid_at(screen, x, y);
    grid_put(screen, x, y, !was_lit);
    was_lit
}

/// Draws a sprite, one byte per row, with its top left corner at column
/// `x % 64`, row `y % 32`, and reports whether it covered a lit pixel.
pub fn draw_sprite(screen: &mut Array2D<bool>, sprite: &[u8], x: usize, y: usize) -> (collision:
    bool)
    requires
        is_screen(grid_cells(*old(screen))),
    ensures
        is_screen(grid_cells(*final(screen))),
        grid_cells(*final(screen)) == drawn(
            grid_cells(*old(screen)),
            sprite@,
            x as int % CHIP_8_WIDTH as int,
            y as int % CHIP_8_HEIGHT as int,
        ),
        collision == collides(
            grid_cells(*old(screen)),
            sprite@,
            x as int % CHIP_8_WIDTH as int,
            y as int % CHIP_8_HEIGHT as int,
        ),
{
    let x0: usize = x % CHIP_8_WIDTH;
    let y0: usize = y % CHIP_8_HEIGHT;
    let ghost before = grid_cells(*screen);
    let ghost rows = sprite@;
    let mut collision = false;
    let mut r: usize = 0;
    while r < sprite.len() && y0 + r < CHIP_8_HEIGHT
        invariant
            x0 < CHIP_8_WIDTH,
            y0 < CHIP_8_HEIGHT,
            rows == sprite@,
            r <= sprite.len(),
            y0 + r <= CHIP_8_HEIGHT,
            is_screen(before),
            is_screen(grid_cells(*screen)),
            forall|px: int, py: int|
                0 <= px < CHIP_8_WIDTH && 0 <= py < CHIP_8_HEIGHT ==> #[trigger] grid_cells(
                    *screen,
                )[px][py] == (before[px][py] != sprite_covers_upto(
                    rows,
                    x0 as int,
                    y0 as int,
                    r as int,
                    0,
                    px,
                    py,
                )),
            collision == exists|px: int, py: int|
                #[trigger] hits_upto(before, rows, x0 as int, y0 as int, r as int, 0, px, py),
        decreases sprite.len() - r,
    {
        let row = sprite[r];
        let mut z: usize = 0;
        while z < 8 && x0 + z < CHIP_8_WIDTH
            invariant
                x0 < CHIP_8_WIDTH,
                y0 + r < CHIP_8_HEIGHT,
                rows == sprite@,
                r < sprite.len(),
                row == rows[r as int],
                z <= 8,
                is_screen(before),
                is_screen(grid_cells(*screen)),
                forall|px: int, py: int|
                    0 <= px < CHIP_8_WIDTH && 0 <= py < CHIP_8_HEIGHT ==> #[trigger] grid_cells(
                        *screen,
                    )[px][py] == (before[px][py] != sprite_covers_upto(
                        rows,
                        x0 as int,
                        y0 as int,
                        r as int,
                        z as int,
                        px,
                        py,
                    )),
                collision == exists|px: int, py: int|
                    #[trigger] hits_upto(
                        before,
                        rows,
                        x0 as int,
                        y0 as int,
                        r as int,
                        z as int,
                        px,
                        py,
                    ),
            decreases 8 - z,
        {
            let ghost was = collision;
            if row & (0x80u8 >> (z as u8)) != 0 {
                let was_lit = flip_pixel(screen, x0 + z, y0 + r);
                if was_lit {
                    collision = true;
                }
            }
            proof {
                let (x0i, y0i, ri, zi) = (x0 as int, y0 as int, r as int, z as int);
                let zn = zi + 1;
                assert(sprite_bit(row, zi) == (row & (0x80u8 >> (z as u8)) != 0));
                if collision {
                    if was {
                        let (wx, wy) = choose|px: int, py: int|
                            #[trigger] hits_upto(before, rows, x0i, y0i, ri, zi, px, py);
                        assert(hits_upto(before, rows, x0i, y0i, ri, zn, wx, wy));
                    } else {
                        assert(hits_upto(before, rows, x0i, y0i, ri, zn, x0i + zi, y0i + ri));
                    }
                } else {
                    assert forall|px: int, py: int|
                        !hits_upto(before, rows, x0i, y0i, ri, zn, px, py) by {
                        assert(!hits_upto(before, rows, x0i, y0i, ri, zi, px, py));
                    }
                }
            }
            z += 1;
        }
        proof {
            let (x0i, y0i, ri, zi) = (x0 as int, y0 as int, r as int, z as int);
            let rn = ri + 1;
            if collision {
                let (wx, wy) = choose|px: int, py: int|
                    #[trigger] hits_upto(before, rows, x0i, y0i, ri, zi, px, py);
                assert(hits_upto(before, rows, x0i, y0i, rn, 0, wx, wy));
            } else {
                assert forall|px: int, py: int|
                    !hits_upto(before, rows, x0i, y0i, rn, 0, px, py) by {
                    assert(!hits_upto(before, rows, x0i, y0i, ri, zi, px, py));
                }
            }
        }
        r += 1;
    }
    proof {
        let (x0i, y0i, ri) = (x0 as int, y0 as int, r as int);
        if collision {
            let (wx, wy) = choose|px: int, py: int|
                #[trigger] hits_upto(before, rows, x0i, y0i, ri, 0, px, py);
            assert(hits(before, rows, x0i, y0i, wx, wy));
        } else {
            assert forall|px: int, py: int| !hits(before, rows, x0i, y0i, px, py) by {
                assert(!hits_upto(before, rows, x0i, y0i, ri, 0, px, py));
            }
        }
        assert(grid_cells(*screen) =~~= drawn(before, rows, x0i, y0i));
    }
    collision
}

} // verus!
