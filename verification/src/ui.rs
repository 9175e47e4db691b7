//! The score display's data: the anchor entity the digits are centered on,
//! and the decimal-digit layout the rendering collaborator draws from.
//!
//! The core decides which digit sprite goes where; the collaborator only
//! blits.  Digit positions are in whole pixels, as the sprite sheet is.
use vstd::prelude::*;

use crate::transform::{Position, SCALE};

verus! {

/// Side length of one digit sprite, in pixels.
pub const UI_SPRITE_SIZE: i64 = 36;

/// Horizontal gap between digit sprites, in pixels (negative: they overlap).
pub const UI_SPRITE_SEP: i64 = -10;

/// Horizontal center of the score row.
pub const SCORE_ANCHOR_X: i64 = 160 * SCALE;

/// Vertical position of the score row.
pub const SCORE_ANCHOR_Y: i64 = -290 * SCALE;

/// Marks the score display's anchor entity.
#[derive(Clone, Copy, Debug, PartialEq, Eq, Structural)]
pub struct Score;

#[derive(Clone, Copy, Debug, PartialEq, Eq, Structural)]
pub struct ScoreUI {
    pub position: Position,
    pub is_type: Score,
}

/// Marks the game-over banner entity.
#[derive(Clone, Copy, Debug, PartialEq, Eq, Structural)]
pub struct GameOver;

#[derive(Clone, Copy, Debug, PartialEq, Eq, Structural)]
pub struct GameOverUI {
    pub position: Position,
    pub is_type: GameOver,
}

/// Marks the press-start banner entity.
#[derive(Clone, Copy, Debug, PartialEq, Eq, Structural)]
pub struct PressStart;

#[derive(Clone, Copy, Debug, PartialEq, Eq, Structural)]
pub struct PressStartUI {
    pub position: Position,
    pub is_type: PressStart,
}

/// Creates the score display's anchor entity, centered near the screen top.
pub fn add_ui() -> (ui: ScoreUI)
    ensures
        ui.position == (Position { x: SCORE_ANCHOR_X, y: SCORE_ANCHOR_Y }),
{
    ScoreUI { position: Position { x: SCORE_ANCHOR_X, y: SCORE_ANCHOR_Y }, is_type: Score }
}

/// Ten to the `n`.
pub open spec fn pow10(n: nat) -> int
    decreases n,
{
    if n == 0 {
        1
    } else {
        10 * pow10((n - 1) as nat)
    }
}

/// The number a big-endian digit string denotes.
pub open spec fn digits_value(s: Seq<u32>) -> int
    decreases s.len(),
{
    if s.len() == 0 {
        0
    } else {
        digits_value(s.drop_last()) * 10 + s.last()
    }
}

/// Prepending a digit adds it at the current highest power of ten.
proof fn lemma_digits_prepend(d: u32, s: Seq<u32>)
    ensures
        digits_value(seq![d].add(s)) == d * pow10(s.len()) + digits_value(s),
    decreases s.len(),
{
    let t = seq![d].add(s);
    if s.len() == 0 {
        assert(t.len() == 1);
        assert(t.last() == d);
        assert(t.drop_last() =~= Seq::<u32>::empty());
        assert(digits_value(Seq::<u32>::empty()) == 0);
        assert(digits_value(t) == 0 * 10 + d);
        assert(pow10(s.len()) == 1);
        assert(d * pow10(s.len()) == d) by (nonlinear_arith)
            requires
                pow10(s.len()) == 1,
        ;
    } else {
        let p1 = pow10((s.len() - 1) as nat);
        let v1 = digits_value(s.drop_last());
        assert(t.drop_last() =~= seq![d].add(s.drop_last()));
        lemma_digits_prepend(d, s.drop_last());
        assert(digits_value(t.drop_last()) == d * p1 + v1);
        assert(t.last() == s.last());
        assert(digits_value(t) == (d * p1 + v1) * 10 + s.last());
        assert((d * p1 + v1) * 10 == d * (10 * p1) + v1 * 10) by (nonlinear_arith);
        assert(pow10(s.len()) == 10 * p1);
        assert(digits_value(s) == v1 * 10 + s.last());
    }
}

/// The decimal digits of `score`, most significant first, with no leading
/// zero except for the single digit of zero itself.  This is the digit string
/// the score display draws, one sprite frame per digit.
pub fn score_digits(score: u32) -> (digits: Vec<u32>)
    ensures
        digits@.len() >= 1,
        forall|i: int| 0 <= i < digits@.len() ==> 0 <= #[trigger] digits@[i] < 10,
        digits_value(digits@) == score,
        digits@.len() > 1 ==> digits@[0] != 0,
{
    if score == 0 {
        let mut digits: Vec<u32> = Vec::new();
        digits.push(0);
        assert(digits@.drop_last() =~= Seq::<u32>::empty());
        assert(digits_value(Seq::<u32>::empty()) == 0);
        assert(digits_value(digits@) == 0 * 10 + 0);
        return digits;
    }
    let mut digits: Vec<u32> = Vec::new();
    let mut n: u32 = score;
    assert(digits_value(digits@) == 0);
    while n > 0
        invariant
            score == n * pow10(digits@.len()) + digits_value(digits@),
            forall|i: int| 0 <= i < digits@.len() ==> 0 <= #[trigger] digits@[i] < 10,
            n == 0 ==> digits@.len() >= 1,
            digits@.len() >= 1 && n == 0 ==> digits@[0] != 0,
            score > 0,
        decreases n,
    {
        let d: u32 = n % 10;
        let ghost olddigits = digits@;
        let ghost oldn = n;
        n = n / 10;
        digits.insert(0, d);
        proof {
            assert(digits@ =~= seq![d].add(olddigits));
            lemma_digits_prepend(d, olddigits);
            assert(oldn == n * 10 + d);
            assert(score == (n * 10 + d) * pow10(olddigits.len()) + digits_value(olddigits));
            assert((n * 10 + d) * pow10(olddigits.len()) == n * (10 * pow10(olddigits.len())) + d
                * pow10(olddigits.len())) by (nonlinear_arith);
            assert(pow10(digits@.len()) == 10 * pow10(olddigits.len()));
            if n == 0 {
                assert(d == oldn);
            }
        }
    }
    digits
}

/// Total width in pixels of a row of `count` digit sprites, separations
/// included: the rendering collaborator centers the row on the anchor.
pub fn digit_row_width(count: usize) -> (w: i64)
    requires
        1 <= count <= 1000,
    ensures
        w == (count - 1) * UI_SPRITE_SEP + count * UI_SPRITE_SIZE,
{
    (count as i64 - 1) * UI_SPRITE_SEP + (count as i64) * UI_SPRITE_SIZE
}

/// Horizontal offset in pixels of the digit at `index` from the row's left
/// edge.
pub fn digit_offset(index: usize) -> (x: i64)
    requires
        index <= 1000,
    ensures
        x == index * (UI_SPRITE_SEP + UI_SPRITE_SIZE),
{
    (index as i64) * (UI_SPRITE_SEP + UI_SPRITE_SIZE)
}

} // verus!
