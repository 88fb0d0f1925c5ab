//! The picture of a game: the glyphs to draw, in the order in which they
//! are drawn. A later glyph covers an earlier one on the same cell.

use vstd::prelude::*;
use crate::game::{Game, GameView};
use crate::geometry::{Point, Rect};
use crate::point_set::ascending;
use crate::glyph::{
    border_glyph, pellet_glyph, push_text, text_glyphs, wall_glyph, Color, Glyph, Style,
};

verus! {

/// The character for the digit `d`.
pub open spec fn spec_digit(d: nat) -> char
    recommends
        d < 10,
{
    ('0' as nat + d) as char
}

/// The decimal digits of `n`, the highest first, without leading zeros.
pub open spec fn decimal(n: nat) -> Seq<char>
    decreases n,
{
    if n < 10 {
        seq![spec_digit(n)]
    } else {
        decimal(n / 10).push(spec_digit(n % 10))
    }
}

/// The words before the score.
pub open spec fn score_label() -> Seq<char> {
    seq!['╣', 'S', 'c', 'o', 'r', 'e', ':', ' ']
}

/// The line that shows the score: the label, the score in decimal digits
/// and a closing bracket.
pub open spec fn score_text(score: nat) -> Seq<char> {
    score_label() + decimal(score) + seq!['╠']
}

/// The words that tell the player that the game is lost.
pub open spec fn banner() -> Seq<char> {
    seq!['G', 'A', 'M', 'E', ' ', 'O', 'V', 'E', 'R']
}

/// The top and the bottom of the border around `field`, column by column
/// from the left corner to the right corner, the top cell before the
/// bottom cell.
pub open spec fn horizontal_border(field: Rect) -> Seq<Glyph> {
    Seq::new(
        2 * (field.width + 2) as nat,
        |i: int|
            border_glyph(
                field.x - 1 + i / 2,
                if i % 2 == 0 {
                    field.y - 1
                } else {
                    field.y + field.height
                },
                '═',
            ),
    )
}

/// The left and the right of the border around `field`, row by row from
/// the top corner to the bottom corner, the left cell before the right
/// cell.
pub open spec fn vertical_border(field: Rect) -> Seq<Glyph> {
    Seq::new(
        2 * (field.height + 2) as nat,
        |i: int|
            border_glyph(
                if i % 2 == 0 {
                    field.x - 1
                } else {
                    field.x + field.width
                },
                field.y - 1 + i / 2,
                '║',
            ),
    )
}

/// The four corners of the border around `field`.
pub open spec fn border_corners(field: Rect) -> Seq<Glyph> {
    seq![
        border_glyph(field.x - 1, field.y - 1, '╔'),
        border_glyph(field.x + field.width, field.y - 1, '╗'),
        border_glyph(field.x - 1, field.y + field.height, '╚'),
        border_glyph(field.x + field.width, field.y + field.height, '╝'),
    ]
}

/// The border: a frame of one cell around `field`, just outside it.
pub open spec fn border_glyphs(field: Rect) -> Seq<Glyph> {
    horizontal_border(field) + vertical_border(field) + border_corners(field)
}

/// Whether `cells` holds each cell of `set` once, and nothing else, from
/// left to right and from top to bottom within a column.
pub open spec fn lists(cells: Seq<Point>, set: Set<Point>) -> bool {
    cells.no_duplicates() && cells.to_set() == set && ascending(cells)
}

impl GameView {
    /// The picture of the game, with the pellets and the walls drawn in the
    /// order of `pellets` and `walls`: the border, the score on its top
    /// edge, the banner if the game is lost, the pellets, the walls, and
    /// the snake on top of them all.
    pub open spec fn render(self, pellets: Seq<Point>, walls: Seq<Point>) -> Seq<Glyph> {
        border_glyphs(self.field) + text_glyphs(
            1,
            0,
            Style::Bold,
            Color::Yellow,
            Color::Default,
            score_text(self.score),
        ) + (if self.lost {
            text_glyphs(2, 1, Style::Bold, Color::Red, Color::Default, banner())
        } else {
            Seq::empty()
        }) + Seq::new(pellets.len(), |i: int| pellet_glyph(pellets[i])) + Seq::new(
            walls.len(),
            |i: int| wall_glyph(walls[i]),
        ) + self.snake.render()
    }
}

/// The character for the digit `d`.
pub fn digit(d: u8) -> (c: char)
    requires
        d < 10,
    ensures
        c == spec_digit(d as nat),
{
    match d {
        0 => '0',
        1 => '1',
        2 => '2',
        3 => '3',
        4 => '4',
        5 => '5',
        6 => '6',
        7 => '7',
        8 => '8',
        _ => '9',
    }
}

/// The decimal digits of `n`, the highest first.
pub fn decimal_digits(n: usize) -> (digits: Vec<char>)
    ensures
        digits@ == decimal(n as nat),
        1 <= digits@.len() <= n / 10 + 1,
    decreases n,
{
    if n < 10 {
        let mut digits: Vec<char> = Vec::new();
        digits.push(digit(n as u8));
        digits
    } else {
        let mut digits = decimal_digits(n / 10);
        digits.push(digit((n % 10) as u8));
        digits
    }
}

/// The glyph of a piece of the border on cell `(x, y)`.
fn draw_border(x: usize, y: usize, symbol: char) -> (glyph: Glyph)
    ensures
        glyph == border_glyph(x as int, y as int, symbol),
{
    Glyph { x, y, style: Style::Normal, foreground: Color::Default, background: Color::Blue, symbol }
}

/// The border around `field`: its top and bottom edges, its left and right
/// edges, then its corners, which cover the ends of the edges.
pub fn render_border(field: &Rect) -> (glyphs: Vec<Glyph>)
    requires
        field.x >= 1,
        field.y >= 1,
        field.x + field.width < usize::MAX,
        field.y + field.height < usize::MAX,
    ensures
        glyphs@ == border_glyphs(*field),
{
    let mut glyphs: Vec<Glyph> = Vec::new();
    let left = field.left() - 1;
    let right = field.right();
    let top = field.top() - 1;
    let bottom = field.bottom();

    // top and bottom
    let mut x = left;
    while x < right + 1
        invariant
            left == field.x - 1,
            right == field.x + field.width,
            top == field.y - 1,
            bottom == field.y + field.height,
            right < usize::MAX,
            left <= x <= right + 1,
            glyphs@ == horizontal_border(*field).subrange(0, 2 * (x - left)),
        decreases right + 1 - x,
    {
        let above = draw_border(x, top, '═');
        let below = draw_border(x, bottom, '═');
        assert(above == horizontal_border(*field)[2 * (x - left)]);
        assert(below == horizontal_border(*field)[2 * (x - left) + 1]);
        glyphs.push(above);
        glyphs.push(below);
        x += 1;
        assert(glyphs@ =~= horizontal_border(*field).subrange(0, 2 * (x - left)));
    }
    assert(glyphs@ =~= horizontal_border(*field));

    // left and right
    let mut y = top;
    while y < bottom + 1
        invariant
            left == field.x - 1,
            right == field.x + field.width,
            top == field.y - 1,
            bottom == field.y + field.height,
            bottom < usize::MAX,
            top <= y <= bottom + 1,
            glyphs@ == horizontal_border(*field) + vertical_border(*field).subrange(
                0,
                2 * (y - top),
            ),
        decreases bottom + 1 - y,
    {
        let before = draw_border(left, y, '║');
        let after = draw_border(right, y, '║');
        assert(before == vertical_border(*field)[2 * (y - top)]);
        assert(after == vertical_border(*field)[2 * (y - top) + 1]);
        glyphs.push(before);
        glyphs.push(after);
        y += 1;
        assert(glyphs@ =~= horizontal_border(*field) + vertical_border(*field).subrange(
            0,
            2 * (y - top),
        ));
    }
    assert(glyphs@ =~= horizontal_border(*field) + vertical_border(*field));

    // corners
    glyphs.push(draw_border(left, top, '╔'));
    glyphs.push(draw_border(right, top, '╗'));
    glyphs.push(draw_border(left, bottom, '╚'));
    glyphs.push(draw_border(right, bottom, '╝'));
    assert(glyphs@ =~= border_glyphs(*field));
    glyphs
}

/// The characters of the line that shows `score`.
pub fn score_line(score: usize) -> (text: Vec<char>)
    ensures
        text@ == score_text(score as nat),
        text@.len() <= score / 10 + 10,
{
    let mut text: Vec<char> = vec!['╣', 'S', 'c', 'o', 'r', 'e', ':', ' '];
    let mut digits = decimal_digits(score);
    text.append(&mut digits);
    text.push('╠');
    assert(text@ =~= score_text(score as nat));
    text
}

impl Game {
    /// The picture of the game: the border, the score on its top edge, the
    /// banner if the game is lost, the pellets, the walls, and the snake on
    /// top of them all. Pellets and walls are each drawn once, from left to
    /// right.
    pub fn render(&self) -> (glyphs: Vec<Glyph>)
        requires
            self.inv(),
        ensures
            exists|pellets: Seq<Point>, walls: Seq<Point>|
                lists(pellets, self@.pellets) && lists(walls, self@.walls) && glyphs@
                    == #[trigger] self@.render(pellets, walls),
    {
        // Border
        let field = self.field();
        let mut glyphs = render_border(&field);

        // Score
        let text = score_line(self.score());
        push_text(&mut glyphs, 1, 0, Style::Bold, Color::Yellow, Color::Default, &text);

        // Game Over
        if self.is_lost() {
            let text: Vec<char> = vec!['G', 'A', 'M', 'E', ' ', 'O', 'V', 'E', 'R'];
            assert(text@ =~= banner());
            push_text(&mut glyphs, 2, 1, Style::Bold, Color::Red, Color::Default, &text);
        }
        let ghost framed = glyphs@;

        // Pellets
        let pellets = self.pellets();
        let mut i: usize = 0;
        while i < pellets.len()
            invariant
                i <= pellets@.len(),
                glyphs@ == framed + Seq::new(i as nat, |j: int| pellet_glyph(pellets@[j])),
            decreases pellets@.len() - i,
        {
            let pellet = pellets[i];
            glyphs.push(
                Glyph {
                    x: pellet.x,
                    y: pellet.y,
                    style: Style::Bold,
                    foreground: Color::Default,
                    background: Color::Red,
                    symbol: ' ',
                },
            );
            i += 1;
            assert(glyphs@ =~= framed + Seq::new(i as nat, |j: int| pellet_glyph(pellets@[j])));
        }
        let ghost scattered = glyphs@;

        // Walls
        let walls = self.walls();
        let mut i: usize = 0;
        while i < walls.len()
            invariant
                i <= walls@.len(),
                glyphs@ == scattered + Seq::new(i as nat, |j: int| wall_glyph(walls@[j])),
            decreases walls@.len() - i,
        {
            let wall = walls[i];
            glyphs.push(
                Glyph {
                    x: wall.x,
                    y: wall.y,
                    style: Style::Normal,
                    foreground: Color::Default,
                    background: Color::Blue,
                    symbol: '#',
                },
            );
            i += 1;
            assert(glyphs@ =~= scattered + Seq::new(i as nat, |j: int| wall_glyph(walls@[j])));
        }

        // Snake
        let mut snake = self.snake().render();
        glyphs.append(&mut snake);

        assert(glyphs@ =~= self@.render(pellets@, walls@));
        assert(lists(pellets@, self@.pellets) && lists(walls@, self@.walls));
        glyphs
    }
}

} // verus!
