use snake_game::glyph::push_text;
use snake_game::render::{decimal_digits, digit, render_border, score_line};
use snake_game::{Color, Game, Glyph, Key, Point, Rect, Style};

fn border(x: usize, y: usize, symbol: char) -> Glyph {
    Glyph {
        x,
        y,
        style: Style::Normal,
        foreground: Color::Default,
        background: Color::Blue,
        symbol,
    }
}

fn text(glyphs: &[Glyph]) -> String {
    glyphs.iter().map(|glyph| glyph.symbol).collect()
}

#[test]
fn digits_of_numbers() {
    assert_eq!(digit(0), '0');
    assert_eq!(digit(7), '7');
    assert_eq!(digit(9), '9');
    assert_eq!(decimal_digits(0), vec!['0']);
    assert_eq!(decimal_digits(9), vec!['9']);
    assert_eq!(decimal_digits(10), vec!['1', '0']);
    assert_eq!(decimal_digits(1234), vec!['1', '2', '3', '4']);
    for n in [0usize, 5, 42, 100, 909, 65535, 1_000_000, usize::MAX] {
        let digits: String = decimal_digits(n).into_iter().collect();
        assert_eq!(digits, format!("{}", n));
    }
}

#[test]
fn score_line_shows_the_score_between_brackets() {
    let line: String = score_line(0).into_iter().collect();
    assert_eq!(line, "╣Score: 0╠");
    let line: String = score_line(42).into_iter().collect();
    assert_eq!(line, "╣Score: 42╠");
}

#[test]
fn push_text_writes_to_the_right() {
    let mut glyphs = vec![border(0, 0, '═')];
    push_text(&mut glyphs, 4, 2, Style::Bold, Color::Red, Color::Default, &vec!['h', 'i', '!']);
    assert_eq!(glyphs.len(), 4);
    assert_eq!(glyphs[0], border(0, 0, '═'));
    for (i, symbol) in ['h', 'i', '!'].into_iter().enumerate() {
        assert_eq!(
            glyphs[1 + i],
            Glyph {
                x: 4 + i,
                y: 2,
                style: Style::Bold,
                foreground: Color::Red,
                background: Color::Default,
                symbol,
            }
        );
    }
}

#[test]
fn border_frames_the_field() {
    let field = Rect { x: 1, y: 1, width: 3, height: 2 };
    let glyphs = render_border(&field);
    let expected = vec![
        // top and bottom, column by column
        border(0, 0, '═'),
        border(0, 3, '═'),
        border(1, 0, '═'),
        border(1, 3, '═'),
        border(2, 0, '═'),
        border(2, 3, '═'),
        border(3, 0, '═'),
        border(3, 3, '═'),
        border(4, 0, '═'),
        border(4, 3, '═'),
        // left and right, row by row
        border(0, 0, '║'),
        border(4, 0, '║'),
        border(0, 1, '║'),
        border(4, 1, '║'),
        border(0, 2, '║'),
        border(4, 2, '║'),
        border(0, 3, '║'),
        border(4, 3, '║'),
        // corners
        border(0, 0, '╔'),
        border(4, 0, '╗'),
        border(0, 3, '╚'),
        border(4, 3, '╝'),
    ];
    assert_eq!(glyphs, expected);
}

#[test]
fn border_lies_just_outside_the_field() {
    let field = Rect { x: 5, y: 7, width: 20, height: 9 };
    let glyphs = render_border(&field);
    assert_eq!(glyphs.len(), 2 * 22 + 2 * 11 + 4);
    for glyph in &glyphs {
        assert!(!field.contains(&Point::new(glyph.x, glyph.y)));
        assert!(glyph.x == 4 || glyph.x == 25 || glyph.y == 6 || glyph.y == 16);
        assert!(4 <= glyph.x && glyph.x <= 25 && 6 <= glyph.y && glyph.y <= 16);
    }
}

#[test]
fn picture_of_an_empty_game() {
    let game = Game::empty(30, 20);
    let glyphs = game.render();
    let border_len = 2 * 30 + 2 * 20 + 4;
    assert_eq!(glyphs.len(), border_len + 10 + 7);
    assert_eq!(glyphs[..border_len].to_vec(), render_border(&game.field()));
    let score = &glyphs[border_len..border_len + 10];
    assert_eq!(text(score), "╣Score: 0╠");
    for (i, glyph) in score.iter().enumerate() {
        assert_eq!((glyph.x, glyph.y), (1 + i, 0));
        assert_eq!(glyph.style, Style::Bold);
        assert_eq!(glyph.foreground, Color::Yellow);
        assert_eq!(glyph.background, Color::Default);
    }
    assert_eq!(glyphs[border_len + 10..].to_vec(), game.snake().render());
}

#[test]
fn picture_shows_pellets_then_walls_then_the_snake() {
    let mut game = Game::empty(30, 20);
    game.place_pellet(Point::new(3, 4));
    game.place_pellet(Point::new(2, 9));
    assert!(game.place_wall(Point::new(7, 7)));
    let glyphs = game.render();
    let start = 2 * 30 + 2 * 20 + 4 + 10;
    assert_eq!(glyphs.len(), start + 2 + 1 + 7);
    let pellets: Vec<(usize, usize)> =
        glyphs[start..start + 2].iter().map(|glyph| (glyph.x, glyph.y)).collect();
    assert_eq!(pellets, vec![(2, 9), (3, 4)]);
    for glyph in &glyphs[start..start + 2] {
        assert_eq!(glyph.style, Style::Bold);
        assert_eq!(glyph.foreground, Color::Default);
        assert_eq!(glyph.background, Color::Red);
        assert_eq!(glyph.symbol, ' ');
    }
    assert_eq!(
        glyphs[start + 2],
        Glyph {
            x: 7,
            y: 7,
            style: Style::Normal,
            foreground: Color::Default,
            background: Color::Blue,
            symbol: '#',
        }
    );
    assert_eq!(glyphs[start + 3..].to_vec(), game.snake().render());
}

#[test]
fn picture_of_a_lost_game_has_the_banner() {
    let mut game = Game::empty(13, 24);
    game.run_logic_step();
    game.run_logic_step();
    assert!(game.is_lost());
    let glyphs = game.render();
    let start = 2 * 13 + 2 * 24 + 4 + 10;
    let banner = &glyphs[start..start + 9];
    assert_eq!(text(banner), "GAME OVER");
    for (i, glyph) in banner.iter().enumerate() {
        assert_eq!((glyph.x, glyph.y), (2 + i, 1));
        assert_eq!(glyph.style, Style::Bold);
        assert_eq!(glyph.foreground, Color::Red);
        assert_eq!(glyph.background, Color::Default);
    }
    let head = glyphs[glyphs.len() - 1];
    assert_eq!((head.x, head.y), (12, 10));
    assert_eq!(head.foreground, Color::Red);
    assert_eq!(head.symbol, '→');
}

#[test]
fn picture_shows_the_score_in_digits() {
    let mut game = Game::empty(200, 24);
    game.place_pellet(Point::new(10, 10));
    for eaten in 1..=12usize {
        game.run_logic_step_with(Point::new(10 + eaten, 10));
    }
    game.push_key(Key::Char(' '));
    game.run_logic_step();
    let glyphs = game.render();
    let start = 2 * 200 + 2 * 24 + 4;
    assert_eq!(text(&glyphs[start..start + 11]), "╣Score: 12╠");
}
