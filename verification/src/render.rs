//! The pixel grid and the loop that fills it.

use vstd::prelude::*;
use crate::camera::Coordinate;
use crate::integrator::{Integrator, Radiance};
use crate::renderer::ConfigError;

verus! {

/// The dimensions of an image.
#[derive(Clone, Copy, PartialEq, Eq, Structural, Debug)]
pub struct RenderProperties {
    pub width: usize,
    pub height: usize,
}

/// A grid of radiance, one value for each pixel of an image, kept in a
/// `DMatrix` of `nalgebra` with a row for each column of the image: the pixel
/// in column `x` and row `y` is the cell `(x, y)` of the matrix. What is
/// known of the matrix is what the functions below say of its methods.
#[verifier::external_body]
pub struct Screen {
    matrix: nalgebra::DMatrix<Radiance>,
}

/// The number of rows of the matrix of a screen.
pub uninterp spec fn screen_rows(screen: Screen) -> nat;

/// The number of columns of the matrix of a screen.
pub uninterp spec fn screen_columns(screen: Screen) -> nat;

/// What the matrix of a screen holds, by row and column.
pub uninterp spec fn screen_cells(screen: Screen) -> Map<(int, int), Radiance>;

/// The place on the screen of the pixel in column `x` and row `y`: the column
/// runs from -1 at the left edge towards 1, the row from 1 at the top edge
/// towards -1.
pub open spec fn position_of(width: usize, height: usize, x: usize, y: usize) -> (
    Coordinate,
    Coordinate,
) {
    (
        Coordinate { numerator: (2 * x - width) as i128, denominator: width },
        Coordinate { numerator: (height - 2 * y) as i128, denominator: height },
    )
}

/// The place on the screen of the pixel in column `x` and row `y` of an
/// image: `2x / width - 1` across and `-(2y / height - 1)` down, each as an
/// exact fraction over the dimension.
pub fn normalized_position(properties: &RenderProperties, x: usize, y: usize) -> (r: (
    Coordinate,
    Coordinate,
))
    requires
        x < properties.width,
        y < properties.height,
    ensures
        r == position_of(properties.width, properties.height, x, y),
        r.0.numerator == 2 * x - properties.width,
        r.0.denominator == properties.width,
        r.1.numerator == properties.height - 2 * y,
        r.1.denominator == properties.height,
        r.0.well_formed(),
        r.1.well_formed(),
{
    let across: i128 = 2 * (x as i128) - (properties.width as i128);
    let down: i128 = (properties.height as i128) - 2 * (y as i128);
    (
        Coordinate { numerator: across, denominator: properties.width },
        Coordinate { numerator: down, denominator: properties.height },
    )
}

/// `DMatrix::nrows`: the number of rows the matrix was made with.
#[verifier::external_body]
fn rows_of(screen: &Screen) -> (r: usize)
    ensures
        r == screen_rows(*screen),
{
    screen.matrix.nrows()
}

/// `DMatrix::ncols`: the number of columns the matrix was made with.
#[verifier::external_body]
fn columns_of(screen: &Screen) -> (r: usize)
    ensures
        r == screen_columns(*screen),
{
    screen.matrix.ncols()
}

/// `DMatrix::from_element`: a matrix of the given dimensions that holds
/// `value` in every cell. It multiplies the dimensions and collects one value
/// for each cell into a vector; at sixteen bytes a cell, which no layout of
/// three 32-bit numbers exceeds, the vector must stay within what can be
/// allocated.
#[verifier::external_body]
fn filled(rows: usize, columns: usize, value: Radiance) -> (r: Screen)
    requires
        rows * columns * 16 <= isize::MAX,
    ensures
        screen_rows(r) == rows,
        screen_columns(r) == columns,
        forall|i: int, j: int|
            0 <= i < rows && 0 <= j < columns ==> #[trigger] screen_cells(r)[(i, j)] == value,
{
    Screen { matrix: nalgebra::DMatrix::from_element(rows, columns, value) }
}

/// `Index<(usize, usize)>` of a matrix: the cell in the given row and column.
/// An index outside the matrix makes it panic.
#[verifier::external_body]
fn cell(screen: &Screen, row: usize, column: usize) -> (r: Radiance)
    requires
        row < screen_rows(*screen),
        column < screen_columns(*screen),
    ensures
        r == screen_cells(*screen)[(row as int, column as int)],
{
    screen.matrix[(row, column)]
}

/// `IndexMut<(usize, usize)>` of a matrix, assigned through: the cell in the
/// given row and column takes the value, the dimensions and every other cell
/// stay. An index outside the matrix makes it panic.
#[verifier::external_body]
fn put(screen: &mut Screen, row: usize, column: usize, value: Radiance)
    requires
        row < screen_rows(*old(screen)),
        column < screen_columns(*old(screen)),
    ensures
        screen_rows(*final(screen)) == screen_rows(*old(screen)),
        screen_columns(*final(screen)) == screen_columns(*old(screen)),
        screen_cells(*final(screen)) == screen_cells(*old(screen)).insert(
            (row as int, column as int),
            value,
        ),
{
    screen.matrix[(row, column)] = value;
}

/// Whether an image of the given dimensions can be held: its pixels, at
/// sixteen bytes each, fit into one allocation.
pub open spec fn fits(width: usize, height: usize) -> bool {
    width * height * 16 <= isize::MAX
}

impl Screen {
    /// The number of columns of the image.
    pub open spec fn columns(&self) -> nat {
        screen_rows(*self)
    }

    /// The number of rows of the image.
    pub open spec fn rows(&self) -> nat {
        screen_columns(*self)
    }

    /// The radiance of the pixel in column `x` and row `y`.
    pub open spec fn at(&self, x: int, y: int) -> Radiance {
        screen_cells(*self)[(x, y)]
    }

    /// A screen of the given dimensions on which every pixel is black; none
    /// when an image of these dimensions cannot be held.
    pub fn zeros(width: usize, height: usize) -> (r: Option<Screen>)
        ensures
            r is Some <==> fits(width, height),
            r matches Some(screen) ==> {
                &&& screen.columns() == width
                &&& screen.rows() == height
                &&& forall|x: int, y: int|
                    0 <= x < width && 0 <= y < height ==> #[trigger] screen.at(x, y)
                        == Radiance::black()
            },
    {
        let limit: usize = isize::MAX as usize;
        let count = match width.checked_mul(height) {
            Some(count) => count,
            None => {
                return None;
            },
        };
        if count > limit / 16 {
            return None;
        }
        Some(filled(width, height, Radiance::zero()))
    }

    /// The number of columns of the image.
    pub fn width(&self) -> (r: usize)
        ensures
            r == self.columns(),
    {
        rows_of(self)
    }

    /// The number of rows of the image.
    pub fn height(&self) -> (r: usize)
        ensures
            r == self.rows(),
    {
        columns_of(self)
    }

    /// The radiance of the pixel in column `x` and row `y`; none outside the
    /// image.
    pub fn get(&self, x: usize, y: usize) -> (r: Option<Radiance>)
        ensures
            r is Some <==> x < self.columns() && y < self.rows(),
            r matches Some(radiance) ==> radiance == self.at(x as int, y as int),
    {
        if x < rows_of(self) && y < columns_of(self) {
            Some(cell(self, x, y))
        } else {
            None
        }
    }

    /// Stores the radiance of the pixel in column `x` and row `y`, and
    /// leaves every other pixel as it is.
    pub fn set(&mut self, x: usize, y: usize, radiance: Radiance)
        requires
            x < old(self).columns(),
            y < old(self).rows(),
        ensures
            final(self).columns() == old(self).columns(),
            final(self).rows() == old(self).rows(),
            final(self).at(x as int, y as int) == radiance,
            forall|u: int, v: int|
                u != x || v != y ==> #[trigger] final(self).at(u, v) == old(self).at(u, v),
    {
        put(self, x, y, radiance);
    }
}

/// Renders an image: asks `integrator` for the radiance of every pixel,
/// column by column and in each column from the top row down, and stores
/// what it answers.
///
/// An image without columns or rows is turned down before anything is
/// rendered, and so is one with more pixels than can be held.
pub fn render<I: Integrator>(properties: &RenderProperties, integrator: &I) -> (r: Result<
    Screen,
    ConfigError,
>)
    ensures
        properties.width == 0 ==> r == Err::<Screen, ConfigError>(ConfigError::ZeroWidth),
        properties.width != 0 && properties.height == 0 ==> r == Err::<Screen, ConfigError>(
            ConfigError::ZeroHeight,
        ),
        properties.width != 0 && properties.height != 0 && !fits(
            properties.width,
            properties.height,
        ) ==> r == Err::<Screen, ConfigError>(ConfigError::TooLarge),
        properties.width != 0 && properties.height != 0 && fits(properties.width, properties.height)
            ==> r is Ok,
        r matches Ok(screen) ==> {
            &&& screen.columns() == properties.width
            &&& screen.rows() == properties.height
            &&& forall|x: int, y: int|
                0 <= x < properties.width && 0 <= y < properties.height ==> integrator.answers(
                    position_of(properties.width, properties.height, x as usize, y as usize),
                    #[trigger] screen.at(x, y),
                )
        },
{
    if properties.width == 0 {
        return Err(ConfigError::ZeroWidth);
    }
    if properties.height == 0 {
        return Err(ConfigError::ZeroHeight);
    }
    let mut screen = match Screen::zeros(properties.width, properties.height) {
        Some(screen) => screen,
        None => {
            return Err(ConfigError::TooLarge);
        },
    };
    let mut x: usize = 0;
    while x < properties.width
        invariant
            x <= properties.width,
            screen.columns() == properties.width,
            screen.rows() == properties.height,
            forall|u: int, v: int|
                0 <= u < x && 0 <= v < properties.height ==> integrator.answers(
                    position_of(properties.width, properties.height, u as usize, v as usize),
                    #[trigger] screen.at(u, v),
                ),
        decreases properties.width - x,
    {
        let mut y: usize = 0;
        while y < properties.height
            invariant
                x < properties.width,
                y <= properties.height,
                screen.columns() == properties.width,
                screen.rows() == properties.height,
                forall|u: int, v: int|
                    (0 <= u < x && 0 <= v < properties.height) || (u == x && 0 <= v < y)
                        ==> integrator.answers(
                        position_of(properties.width, properties.height, u as usize, v as usize),
                        #[trigger] screen.at(u, v),
                    ),
            decreases properties.height - y,
        {
            let position = normalized_position(properties, x, y);
            let color = integrator.integrate(position);
            screen.set(x, y, color);
            y = y + 1;
        }
        x = x + 1;
    }
    Ok(screen)
}

/// An integrator that answers nothing but black renders a black image: every
/// pixel of a rendered screen holds one of the integrator's answers for its
/// place.
pub proof fn lemma_black_answers_render_black<I: Integrator>(
    properties: RenderProperties,
    integrator: &I,
    screen: Screen,
)
    requires
        forall|position: (Coordinate, Coordinate), radiance: Radiance| #[trigger]
            integrator.answers(position, radiance) ==> radiance == Radiance::black(),
        forall|x: int, y: int|
            0 <= x < properties.width && 0 <= y < properties.height ==> integrator.answers(
                position_of(properties.width, properties.height, x as usize, y as usize),
                #[trigger] screen.at(x, y),
            ),
    ensures
        forall|x: int, y: int|
            0 <= x < properties.width && 0 <= y < properties.height ==> #[trigger] screen.at(x, y)
                == Radiance::black(),
{
}

} // verus!
