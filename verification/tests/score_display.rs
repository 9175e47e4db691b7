//! Decimal digits and pixel layout of the score display.
use flappy::ui::{add_ui, digit_offset, digit_row_width, score_digits, UI_SPRITE_SEP, UI_SPRITE_SIZE};
use flappy::transform::Position;

const SCALE: i64 = 1_000_000;

#[test]
fn zero_is_a_single_zero_digit() {
    assert_eq!(score_digits(0), vec![0]);
}

#[test]
fn single_digit_scores() {
    assert_eq!(score_digits(5), vec![5]);
    assert_eq!(score_digits(9), vec![9]);
}

#[test]
fn digits_come_most_significant_first() {
    assert_eq!(score_digits(105), vec![1, 0, 5]);
    assert_eq!(score_digits(10), vec![1, 0]);
    assert_eq!(score_digits(4_294_967_295), vec![4, 2, 9, 4, 9, 6, 7, 2, 9, 5]);
}

#[test]
fn no_leading_zero() {
    for score in [1u32, 10, 100, 99, 100_000] {
        let d = score_digits(score);
        assert_ne!(d[0], 0);
    }
}

#[test]
fn row_width_formula() {
    // (count - 1) * separation + count * sprite size, in pixels.
    assert_eq!(digit_row_width(1), 36);
    assert_eq!(digit_row_width(3), 2 * UI_SPRITE_SEP + 3 * UI_SPRITE_SIZE);
    assert_eq!(digit_row_width(3), 88);
}

#[test]
fn digit_offsets_step_by_size_plus_separation() {
    assert_eq!(digit_offset(0), 0);
    assert_eq!(digit_offset(1), UI_SPRITE_SEP + UI_SPRITE_SIZE);
    assert_eq!(digit_offset(2), 52);
}

#[test]
fn score_anchor_sits_centered_near_the_top() {
    let ui = add_ui();
    assert_eq!(ui.position, Position { x: 160 * SCALE, y: -290 * SCALE });
}
