use snake_game::snake::{turn_symbol, BROKEN_SYMBOL, INITIAL_LENGTH};
use snake_game::{Color, Direction, Glyph, Point, Segment, Snake, Style};

fn positions(snake: &Snake) -> Vec<Point> {
    snake.body().iter().map(|segment| segment.position).collect()
}

#[test]
fn new_snake_starts_at_ten_ten_heading_right() {
    let snake = Snake::new();
    assert_eq!(*snake.position(), Point::new(10, 10));
    assert_eq!(*snake.direction(), Direction::Right);
    assert!(!snake.is_dead());
    assert_eq!(snake.len(), INITIAL_LENGTH);
    assert_eq!(snake.len(), 6);
    let expected: Vec<Segment> =
        (4..=9).rev().map(|x| Segment::new(Point::new(x, 10), '─')).collect();
    assert_eq!(snake.body(), expected);
}

#[test]
fn new_snake_is_not_eating_itself() {
    assert!(!Snake::new().eating_itself());
}

#[test]
fn segment_new_keeps_its_parts() {
    let segment = Segment::new(Point::new(2, 3), '│');
    assert_eq!(segment.position, Point::new(2, 3));
    assert_eq!(segment.symbol, '│');
}

#[test]
fn crawl_moves_the_head_and_drops_the_tail_tip() {
    let mut snake = Snake::new();
    snake.crawl(false);
    assert_eq!(*snake.position(), Point::new(11, 10));
    assert_eq!(snake.len(), 6);
    assert_eq!(
        positions(&snake),
        vec![
            Point::new(10, 10),
            Point::new(9, 10),
            Point::new(8, 10),
            Point::new(7, 10),
            Point::new(6, 10),
            Point::new(5, 10),
        ]
    );
    assert_eq!(snake.body()[0].symbol, '─');
}

#[test]
fn crawl_with_growth_keeps_the_tail_tip() {
    let mut snake = Snake::new();
    snake.crawl(true);
    assert_eq!(*snake.position(), Point::new(11, 10));
    assert_eq!(snake.len(), 7);
    assert_eq!(positions(&snake)[0], Point::new(10, 10));
    assert_eq!(positions(&snake)[6], Point::new(4, 10));
}

#[test]
fn body_length_is_first_length_plus_growths() {
    let mut snake = Snake::new();
    let mut grown = 0;
    for step in 0..30 {
        let grow = step % 4 == 1;
        if grow {
            grown += 1;
        }
        snake.crawl(grow);
        assert_eq!(snake.len(), INITIAL_LENGTH + grown);
    }
    assert_eq!(grown, 8);
    assert_eq!(snake.len(), 14);
}

#[test]
fn crawl_follows_each_heading() {
    let mut snake = Snake::new();
    snake.set_direction(Direction::Up);
    snake.crawl(false);
    assert_eq!(*snake.position(), Point::new(10, 9));
    snake.set_direction(Direction::Left);
    snake.crawl(false);
    assert_eq!(*snake.position(), Point::new(9, 9));
    snake.set_direction(Direction::Down);
    snake.crawl(false);
    assert_eq!(*snake.position(), Point::new(9, 10));
    snake.set_direction(Direction::Right);
    snake.crawl(false);
    assert_eq!(*snake.position(), Point::new(10, 10));
}

#[test]
fn turn_symbols_for_straight_travel() {
    assert_eq!(turn_symbol(Direction::Up, Direction::Up), '│');
    assert_eq!(turn_symbol(Direction::Down, Direction::Down), '│');
    assert_eq!(turn_symbol(Direction::Left, Direction::Left), '─');
    assert_eq!(turn_symbol(Direction::Right, Direction::Right), '─');
}

#[test]
fn turn_symbols_for_corners() {
    assert_eq!(turn_symbol(Direction::Up, Direction::Right), '╭');
    assert_eq!(turn_symbol(Direction::Left, Direction::Down), '╭');
    assert_eq!(turn_symbol(Direction::Up, Direction::Left), '╮');
    assert_eq!(turn_symbol(Direction::Right, Direction::Down), '╮');
    assert_eq!(turn_symbol(Direction::Down, Direction::Left), '╯');
    assert_eq!(turn_symbol(Direction::Right, Direction::Up), '╯');
    assert_eq!(turn_symbol(Direction::Down, Direction::Right), '╰');
    assert_eq!(turn_symbol(Direction::Left, Direction::Up), '╰');
}

#[test]
fn turn_symbol_for_a_reversal_is_the_broken_one() {
    assert_eq!(BROKEN_SYMBOL, '#');
    assert_eq!(turn_symbol(Direction::Up, Direction::Down), '#');
    assert_eq!(turn_symbol(Direction::Down, Direction::Up), '#');
    assert_eq!(turn_symbol(Direction::Left, Direction::Right), '#');
    assert_eq!(turn_symbol(Direction::Right, Direction::Left), '#');
}

#[test]
fn a_turn_leaves_a_corner_behind() {
    let mut snake = Snake::new();
    snake.set_direction(Direction::Down);
    snake.crawl(false);
    assert_eq!(snake.body()[0], Segment::new(Point::new(10, 10), '╮'));
    snake.set_direction(Direction::Down);
    snake.crawl(false);
    assert_eq!(snake.body()[0], Segment::new(Point::new(10, 11), '│'));
    snake.set_direction(Direction::Left);
    snake.crawl(false);
    assert_eq!(snake.body()[0], Segment::new(Point::new(10, 12), '╯'));
}

#[test]
fn set_direction_refuses_a_reversal() {
    let mut snake = Snake::new();
    snake.set_direction(Direction::Left);
    assert_eq!(*snake.direction(), Direction::Right);
    snake.set_direction(Direction::Up);
    assert_eq!(*snake.direction(), Direction::Up);
    snake.set_direction(Direction::Down);
    assert_eq!(*snake.direction(), Direction::Up);
}

#[test]
fn set_direction_guards_against_the_heading_of_the_moment() {
    let mut snake = Snake::new();
    snake.set_direction(Direction::Down);
    snake.set_direction(Direction::Up);
    assert_eq!(*snake.direction(), Direction::Down);
    snake.set_direction(Direction::Left);
    assert_eq!(*snake.direction(), Direction::Left);
}

#[test]
fn heading_never_becomes_its_own_reverse() {
    let all = [Direction::Up, Direction::Down, Direction::Left, Direction::Right];
    for first in all {
        for second in all {
            for third in all {
                let mut snake = Snake::new();
                for wanted in [first, second, third] {
                    let before = *snake.direction();
                    snake.set_direction(wanted);
                    assert_ne!(*snake.direction(), before.opposite());
                }
            }
        }
    }
}

#[test]
fn dead_snake_ignores_directions() {
    let mut snake = Snake::new();
    snake.kill();
    assert!(snake.is_dead());
    snake.set_direction(Direction::Up);
    assert_eq!(*snake.direction(), Direction::Right);
    snake.set_direction(Direction::Down);
    assert_eq!(*snake.direction(), Direction::Right);
}

#[test]
fn kill_twice_is_kill_once() {
    let mut snake = Snake::new();
    snake.kill();
    snake.kill();
    assert!(snake.is_dead());
    assert_eq!(*snake.position(), Point::new(10, 10));
    assert_eq!(snake.len(), 6);
}

#[test]
fn snake_that_curls_back_eats_itself() {
    let mut snake = Snake::new();
    snake.set_direction(Direction::Down);
    snake.crawl(false);
    assert!(!snake.eating_itself());
    snake.set_direction(Direction::Left);
    snake.crawl(false);
    assert!(!snake.eating_itself());
    snake.set_direction(Direction::Up);
    snake.crawl(false);
    assert_eq!(*snake.position(), Point::new(9, 10));
    assert!(snake.eating_itself());
}

#[test]
fn snake_that_follows_its_tail_tip_is_safe() {
    // A body of six on a ring of eight cells never meets its head.
    let mut snake = Snake::new();
    let ring = [
        Direction::Down,
        Direction::Left,
        Direction::Left,
        Direction::Left,
        Direction::Up,
        Direction::Right,
        Direction::Right,
        Direction::Right,
    ];
    for _ in 0..3 {
        for heading in ring {
            snake.set_direction(heading);
            snake.crawl(false);
            assert!(!snake.eating_itself());
        }
    }
}

#[test]
fn render_draws_the_body_then_the_head() {
    let snake = Snake::new();
    let glyphs = snake.render();
    assert_eq!(glyphs.len(), 7);
    for (i, glyph) in glyphs.iter().take(6).enumerate() {
        assert_eq!(
            *glyph,
            Glyph {
                x: 9 - i,
                y: 10,
                style: Style::Normal,
                foreground: Color::Yellow,
                background: Color::Green,
                symbol: '─',
            }
        );
    }
    assert_eq!(
        glyphs[6],
        Glyph {
            x: 10,
            y: 10,
            style: Style::Bold,
            foreground: Color::Yellow,
            background: Color::Green,
            symbol: '→',
        }
    );
}

#[test]
fn render_shows_a_dead_head_in_red() {
    let mut snake = Snake::new();
    snake.set_direction(Direction::Up);
    snake.kill();
    let glyphs = snake.render();
    let head = glyphs[glyphs.len() - 1];
    assert_eq!(head.foreground, Color::Red);
    assert_eq!(head.background, Color::Green);
    assert_eq!(head.symbol, '↑');
    assert_eq!(head.style, Style::Bold);
}
