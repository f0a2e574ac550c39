//! The counted side of the two procedural fields: which star a cell of
//! the star field shows, and the glyphs that brightness is drawn with.

use vstd::prelude::*;

verus! {

/// The weights in which a star is drawn.
pub const STAR_GLYPHS: usize = 6;

/// The levels of the plasma ramp.
pub const PLASMA_LEVELS: usize = 10;

/// The glyph of a star of the weight `weight`, from faint to bright.
pub open spec fn star_glyph_of(weight: int) -> char {
    if weight == 0 {
        '.'
    } else if weight == 1 {
        '·'
    } else if weight == 2 {
        ':'
    } else if weight == 3 {
        '+'
    } else if weight == 4 {
        '*'
    } else {
        '#'
    }
}

/// The glyph of the plasma at the level `level`: blank at rest, denser
/// up to the full block, and thinning out again over the last two.
pub open spec fn plasma_glyph_of(level: int) -> char {
    if level == 0 {
        ' '
    } else if level == 1 {
        '·'
    } else if level == 2 {
        '∙'
    } else if level == 3 {
        ':'
    } else if level == 4 || level == 9 {
        '░'
    } else if level == 5 {
        '▒'
    } else if level == 6 || level == 8 {
        '▓'
    } else {
        '█'
    }
}

/// The glyph of a star of the weight `weight`.
pub fn star_glyph(weight: usize) -> (c: char)
    requires
        weight < STAR_GLYPHS,
    ensures
        c == star_glyph_of(weight as int),
{
    if weight == 0 {
        '.'
    } else if weight == 1 {
        '·'
    } else if weight == 2 {
        ':'
    } else if weight == 3 {
        '+'
    } else if weight == 4 {
        '*'
    } else {
        '#'
    }
}

/// The glyph of the plasma at the level `level`.
pub fn plasma_glyph(level: usize) -> (c: char)
    requires
        level < PLASMA_LEVELS,
    ensures
        c == plasma_glyph_of(level as int),
{
    if level == 0 {
        ' '
    } else if level == 1 {
        '·'
    } else if level == 2 {
        '∙'
    } else if level == 3 {
        ':'
    } else if level == 4 || level == 9 {
        '░'
    } else if level == 5 {
        '▒'
    } else if level == 6 || level == 8 {
        '▓'
    } else {
        '█'
    }
}

/// The star that the cell at (`x`, `y`) shows: the first of `stars`
/// that stands there. Later stars at the same cell are not drawn.
pub open spec fn star_shown(stars: Seq<(u16, u16)>, x: int, y: int) -> Option<int>
    decreases stars.len(),
{
    if stars.len() == 0 {
        None
    } else {
        match star_shown(stars.drop_last(), x, y) {
            Some(i) => Some(i),
            None => if stars.last().0 == x && stars.last().1 == y {
                Some(stars.len() - 1)
            } else {
                None
            },
        }
    }
}

/// A cell of a field of `width` columns has one place in its rows laid
/// end to end, and no other cell shares it.
pub proof fn lemma_cell_index(width: int, height: int, x: int, y: int, x2: int, y2: int)
    requires
        0 <= x < width,
        0 <= y < height,
        0 <= x2 < width,
        0 <= y2 < height,
    ensures
        0 <= y * width + x < width * height,
        y * width + x == y2 * width + x2 ==> x == x2 && y == y2,
{
    assert(y * width + x < width * height) by (nonlinear_arith)
        requires
            0 <= x < width,
            0 <= y < height,
    ;
    assert(0 <= y * width) by (nonlinear_arith)
        requires
            0 <= y,
            0 < width,
    ;
    assert(y * width + x == y2 * width + x2 ==> y == y2) by (nonlinear_arith)
        requires
            0 <= x < width,
            0 <= x2 < width,
            0 <= y,
            0 <= y2,
    ;
}

/// Places the stars at the positions `stars`, given as column and row,
/// in a field of `width` by `height` cells. The result holds, row after
/// row, the number of the star that each cell shows; a star outside the
/// field is shown nowhere.
pub fn place_stars(width: u16, height: u16, stars: &Vec<(u16, u16)>) -> (cells: Vec<Option<usize>>)
    ensures
        cells.len() == width * height,
        forall|x: int, y: int|
            0 <= x < width && 0 <= y < height ==> #[trigger] cells[y * width + x] == (
            match star_shown(stars@, x, y) {
                Some(i) => Some(i as usize),
                None => None,
            }),
{
    let w = width as usize;
    let h = height as usize;
    assert(w * h <= 0xffff * 0xffff) by (nonlinear_arith)
        requires
            0 <= w <= 0xffff,
            0 <= h <= 0xffff,
    ;
    let count: usize = w * h;
    let mut cells: Vec<Option<usize>> = Vec::new();
    while cells.len() < count
        invariant
            cells.len() <= count,
            forall|c: int| 0 <= c < cells.len() ==> cells[c] is None,
        decreases count - cells.len(),
    {
        cells.push(None);
    }
    assert(stars@.take(0) == Seq::<(u16, u16)>::empty());
    assert forall|x: int, y: int| 0 <= x < width && 0 <= y < height implies #[trigger] cells[y
        * width + x] is None by {
        lemma_cell_index(width as int, height as int, x, y, 0, 0);
    }
    let mut i: usize = 0;
    while i < stars.len()
        invariant
            i <= stars.len(),
            w == width,
            h == height,
            cells.len() == w * h,
            forall|x: int, y: int|
                0 <= x < width && 0 <= y < height ==> #[trigger] cells[y * width + x] == (
                match star_shown(stars@.take(i as int), x, y) {
                    Some(k) => Some(k as usize),
                    None => None,
                }),
        decreases stars.len() - i,
    {
        let (sx, sy) = stars[i];
        let ghost before = stars@.take(i as int);
        let ghost after = stars@.take(i + 1);
        let ghost old_cells = cells@;
        assert(after.drop_last() == before);
        assert(after.last() == stars@[i as int]);
        if sx < width && sy < height {
            proof {
                lemma_cell_index(width as int, height as int, sx as int, sy as int, 0, 0);
            }
            let at: usize = sy as usize * w + sx as usize;
            if cells[at].is_none() {
                cells.set(at, Some(i));
            }
            assert forall|x: int, y: int| 0 <= x < width && 0 <= y < height implies #[trigger] cells[y
                * width + x] == (match star_shown(after, x, y) {
                Some(k) => Some(k as usize),
                None => None,
            }) by {
                lemma_cell_index(width as int, height as int, x, y, sx as int, sy as int);
                assert(old_cells[y * width + x] == (match star_shown(before, x, y) {
                    Some(k) => Some(k as usize),
                    None => None,
                }));
            }
        } else {
            assert forall|x: int, y: int| 0 <= x < width && 0 <= y < height implies #[trigger] cells[y
                * width + x] == (match star_shown(after, x, y) {
                Some(k) => Some(k as usize),
                None => None,
            }) by {
                assert(old_cells[y * width + x] == (match star_shown(before, x, y) {
                    Some(k) => Some(k as usize),
                    None => None,
                }));
            }
        }
        i += 1;
    }
    assert(stars@.take(i as int) == stars@);
    cells
}

} // verus!
