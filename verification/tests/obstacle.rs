use flappy::draw::{Cell, Colour};
use flappy::obstacle::Obstacle;
use flappy::player::Player;

#[test]
fn gap_is_widest_at_score_zero() {
    let obstacle = Obstacle::new(80, 0);
    assert_eq!(obstacle.x, 80);
    assert_eq!(obstacle.size, 20);
}

#[test]
fn gap_is_floored_at_two() {
    assert_eq!(Obstacle::new(80, 25).size, 2);
    assert_eq!(Obstacle::new(80, 18).size, 2);
    assert_eq!(Obstacle::new(80, 19).size, 2);
    assert_eq!(Obstacle::new(80, 17).size, 3);
    assert_eq!(Obstacle::new(80, i32::MAX).size, 2);
}

#[test]
fn gap_shrinks_by_one_per_point() {
    for score in 0..=18 {
        assert_eq!(Obstacle::with_gap(0, 10, score).size, 20 - score);
    }
    for score in 18..60 {
        assert_eq!(Obstacle::with_gap(0, 10, score).size, 2);
    }
    assert_eq!(Obstacle::with_gap(0, 10, -4).size, 24);
}

#[test]
fn with_gap_keeps_column_and_row() {
    assert_eq!(Obstacle::with_gap(123, 17, 5), Obstacle { x: 123, gap_y: 17, size: 15 });
}

#[test]
fn random_gap_is_in_band_and_varies() {
    let mut seen = Vec::new();
    for _ in 0..300 {
        let obstacle = Obstacle::new(80, 3);
        assert!(obstacle.gap_y >= 5 && obstacle.gap_y < 40);
        assert_eq!(obstacle.x, 80);
        assert_eq!(obstacle.size, 17);
        if !seen.contains(&obstacle.gap_y) {
            seen.push(obstacle.gap_y);
        }
    }
    assert!(seen.len() > 1);
}

#[test]
fn hit_needs_the_same_column() {
    let obstacle = Obstacle { x: 50, gap_y: 20, size: 6 };
    assert!(!obstacle.hit_obstacle(&Player { x: 49, y: 0, velocity: 0 }));
    assert!(!obstacle.hit_obstacle(&Player { x: 51, y: 0, velocity: 0 }));
    assert!(obstacle.hit_obstacle(&Player { x: 50, y: 0, velocity: 0 }));
}

#[test]
fn hit_is_strictly_outside_the_gap() {
    let obstacle = Obstacle { x: 50, gap_y: 20, size: 6 };
    for y in 0..17 {
        assert!(obstacle.hit_obstacle(&Player { x: 50, y, velocity: 0 }));
    }
    for y in 17..=23 {
        assert!(!obstacle.hit_obstacle(&Player { x: 50, y, velocity: 0 }));
    }
    for y in 24..60 {
        assert!(obstacle.hit_obstacle(&Player { x: 50, y, velocity: 0 }));
    }
}

#[test]
fn odd_size_halves_downwards() {
    let obstacle = Obstacle { x: 1, gap_y: 10, size: 5 };
    assert!(obstacle.hit_obstacle(&Player { x: 1, y: 7, velocity: 0 }));
    assert!(!obstacle.hit_obstacle(&Player { x: 1, y: 8, velocity: 0 }));
    assert!(!obstacle.hit_obstacle(&Player { x: 1, y: 12, velocity: 0 }));
    assert!(obstacle.hit_obstacle(&Player { x: 1, y: 13, velocity: 0 }));
}

#[test]
fn walls_leave_the_gap_open() {
    let obstacle = Obstacle { x: 30, gap_y: 10, size: 4 };
    let cells = obstacle.render(10);
    let mut expected = Vec::new();
    for y in 0..8 {
        expected.push(Cell { x: 20, y, fg: Colour::Green, bg: Colour::Black, glyph: '|' });
    }
    for y in 13..50 {
        expected.push(Cell { x: 20, y, fg: Colour::Pink, bg: Colour::BlueViolet, glyph: '|' });
    }
    assert_eq!(cells, expected);
}

#[test]
fn walls_match_hits_on_every_row() {
    let obstacle = Obstacle { x: 7, gap_y: 33, size: 9 };
    let cells = obstacle.render(7);
    for y in 0..50 {
        let drawn = cells.iter().any(|cell| cell.y == y);
        assert_eq!(drawn, obstacle.hit_obstacle(&Player { x: 7, y, velocity: 0 }));
    }
}

#[test]
fn gap_at_the_top_has_no_upper_wall() {
    let obstacle = Obstacle { x: 0, gap_y: 5, size: 20 };
    let cells = obstacle.render(0);
    assert_eq!(cells.len(), 34);
    assert_eq!(cells[0], Cell { x: 0, y: 16, fg: Colour::Pink, bg: Colour::BlueViolet, glyph: '|' });
    assert_eq!(cells[33].y, 49);
}

#[test]
fn gap_under_the_screen_has_no_lower_wall() {
    let obstacle = Obstacle { x: 0, gap_y: 48, size: 2 };
    let cells = obstacle.render(-3);
    assert_eq!(cells.len(), 47);
    assert!(cells.iter().all(|cell| cell.x == 3 && cell.fg == Colour::Green));
    let low = Obstacle { x: 0, gap_y: 47, size: 2 };
    assert_eq!(low.render(0).len(), 47);
    assert_eq!(low.render(0)[46].y, 49);
}

#[test]
fn random_gap_rows_are_in_band_and_vary() {
    let mut lowest = i32::MAX;
    let mut highest = i32::MIN;
    for _ in 0..500 {
        let gap_y = Obstacle::random_gap();
        assert!(gap_y >= 5 && gap_y < 40);
        lowest = lowest.min(gap_y);
        highest = highest.max(gap_y);
    }
    assert!(lowest < highest);
}
