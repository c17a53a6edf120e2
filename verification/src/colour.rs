//! Colours in hue, saturation and value, for smooth transitions.
//!
//! The channels are fixed-point numbers: an integer counts millionths, of a
//! degree for the hue, of the full range for saturation and value.

use vstd::prelude::*;

verus! {

/// One degree of hue, or full saturation, or full value.
pub const UNIT: i64 = 1_000_000;

/// The full turn of the hue circle, 360 degrees.
pub const FULL_TURN: i64 = 360_000_000;

/// Half a turn of the hue circle.
pub const HALF_TURN: i64 = 180_000_000;

/// A colour by hue, saturation and value.
#[derive(Clone, Copy, Debug, PartialEq, Eq, Structural)]
pub struct Hsv {
    /// The hue, in millionths of a degree; any whole number of turns may be
    /// added to it.
    pub hue: i64,
    /// The saturation, in millionths: from 0 to `UNIT`.
    pub saturation: i64,
    /// The value (brightness), in millionths: from 0 to `UNIT`.
    pub value: i64,
}

/// The point `step / last` of the way from `from` to `to`, rounded down.
pub open spec fn lerp(from: int, to: int, step: int, last: int) -> int {
    from + ((to - from) * step) / last
}

/// The signed way from the hue `from` to the hue `to` along the shorter arc
/// of the circle: more than minus half a turn, at most half a turn.
pub open spec fn shorter_arc(from: int, to: int) -> int {
    let ahead = (to - from) % (FULL_TURN as int);
    if ahead > HALF_TURN {
        ahead - FULL_TURN
    } else {
        ahead
    }
}

/// The hue at `step / last` of the way from `from` to `to` along the
/// shorter arc, within the first turn.
pub open spec fn hue_between(from: int, to: int, step: int, last: int) -> int {
    lerp(from % (FULL_TURN as int), from % (FULL_TURN as int) + shorter_arc(from, to), step, last)
        % (FULL_TURN as int)
}

/// The colour at `step / last` of the way from `from` to `to`: each channel
/// interpolated linearly, the hue along the shorter arc.
pub open spec fn mixed(from: Hsv, to: Hsv, step: int, last: int) -> Hsv {
    Hsv {
        hue: hue_between(from.hue as int, to.hue as int, step, last) as i64,
        saturation: lerp(from.saturation as int, to.saturation as int, step, last) as i64,
        value: lerp(from.value as int, to.value as int, step, last) as i64,
    }
}

/// The quotient `num / den` rounded down.
fn floor_div(num: i128, den: i128) -> (q: i128)
    requires
        den > 0,
        num > i128::MIN,
    ensures
        q == (num as int) / (den as int),
{
    if num >= 0 {
        num / den
    } else {
        let below: i128 = -num;
        let q: i128 = below / den;
        let r: i128 = below % den;
        proof {
            vstd::arithmetic::div_mod::lemma_fundamental_div_mod(below as int, den as int);
        }
        if r == 0 {
            proof {
                assert(num == den * (-q) + 0) by (nonlinear_arith)
                    requires
                        -num == den * q + r,
                        r == 0,
                ;
                vstd::arithmetic::div_mod::lemma_fundamental_div_mod_converse(
                    num as int,
                    den as int,
                    -q as int,
                    0,
                );
            }
            -q
        } else {
            proof {
                assert(num == den * (-q - 1) + (den - r)) by (nonlinear_arith)
                    requires
                        -num == den * q + r,
                ;
                vstd::arithmetic::div_mod::lemma_fundamental_div_mod_converse(
                    num as int,
                    den as int,
                    -q - 1,
                    den - r,
                );
            }
            -q - 1
        }
    }
}

/// The point `step / last` of the way from `from` to `to`, rounded down.
fn lerp_exec(from: i64, to: i64, step: u64, last: u64) -> (at: i64)
    requires
        0 < last,
        step <= last,
        -2 * FULL_TURN <= from <= 2 * FULL_TURN,
        -2 * FULL_TURN <= to <= 2 * FULL_TURN,
    ensures
        at == lerp(from as int, to as int, step as int, last as int),
        from <= to ==> from <= at <= to,
        to <= from ==> to <= at <= from,
        step == 0 ==> at == from,
        step == last ==> at == to,
{
    let way: i128 = (to as i128) - (from as i128);
    proof {
        lemma_lerp_bounds(from as int, to as int, step as int, last as int);
        assert(-0x1_0000_0000_0000_0000_0000_0000 < way * step < 0x1_0000_0000_0000_0000_0000_0000)
            by (nonlinear_arith)
            requires
                -0x1_0000_0000 < way < 0x1_0000_0000,
                0 <= step < 0x1_0000_0000_0000_0000,
        ;
    }
    let part: i128 = floor_div(way * (step as i128), last as i128);
    ((from as i128) + part) as i64
}

/// A point between two numbers lies between them, and the ends of the way
/// are the numbers themselves.
pub proof fn lemma_lerp_bounds(from: int, to: int, step: int, last: int)
    requires
        0 < last,
        0 <= step <= last,
    ensures
        from <= to ==> from <= lerp(from, to, step, last) <= to,
        to <= from ==> to <= lerp(from, to, step, last) <= from,
        lerp(from, to, 0, last) == from,
        lerp(from, to, last, last) == to,
{
    let way = to - from;
    assert(((way * 0) / last) == 0) by (nonlinear_arith)
        requires
            last > 0,
    ;
    assert(((way * last) / last) == way) by (nonlinear_arith)
        requires
            last > 0,
    ;
    if way >= 0 {
        assert(0 <= (way * step) / last <= way) by (nonlinear_arith)
            requires
                0 < last,
                0 <= step <= last,
                way >= 0,
        ;
    } else {
        assert(way <= (way * step) / last <= 0) by (nonlinear_arith)
            requires
                0 < last,
                0 <= step <= last,
                way < 0,
        ;
    }
}

impl Hsv {
    /// A colour of the given channels.
    pub fn new(hue: i64, saturation: i64, value: i64) -> (colour: Hsv)
        ensures
            colour == (Hsv { hue, saturation, value }),
    {
        Hsv { hue, saturation, value }
    }

    /// Whether saturation and value lie in their range, from 0 to `UNIT`.
    pub open spec fn in_range(self) -> bool {
        &&& 0 <= self.saturation <= UNIT
        &&& 0 <= self.value <= UNIT
    }

    /// The hue within the first turn.
    pub open spec fn positive_hue(self) -> int {
        (self.hue as int) % (FULL_TURN as int)
    }

    /// Whether saturation and value lie in their range.
    pub fn is_in_range(&self) -> (ok: bool)
        ensures
            ok == self.in_range(),
    {
        0 <= self.saturation && self.saturation <= UNIT && 0 <= self.value && self.value <= UNIT
    }

    /// The hue within the first turn: from 0 up to, not including,
    /// `FULL_TURN`.
    pub fn to_positive_degrees(&self) -> (hue: i64)
        ensures
            hue == self.positive_hue(),
            0 <= hue < FULL_TURN,
    {
        let rest: i64 = self.hue % FULL_TURN;
        if rest < 0 {
            rest + FULL_TURN
        } else {
            rest
        }
    }

    /// The colour at `step / last` of the way from this colour to `other`.
    pub fn mix(&self, other: &Hsv, step: u64, last: u64) -> (colour: Hsv)
        requires
            self.in_range(),
            other.in_range(),
            0 < last,
            step <= last,
        ensures
            colour == mixed(*self, *other, step as int, last as int),
            colour.in_range(),
            0 <= colour.hue < FULL_TURN,
            step == last ==> colour.hue == other.positive_hue(),
            step == last ==> colour.saturation == other.saturation,
            step == last ==> colour.value == other.value,
            step == 0 ==> colour.hue == self.positive_hue(),
            step == 0 ==> colour.saturation == self.saturation,
            step == 0 ==> colour.value == self.value,
    {
        let start: i64 = self.to_positive_degrees();
        let target: i64 = other.to_positive_degrees();
        let ahead: i64 = if target >= start {
            target - start
        } else {
            target - start + FULL_TURN
        };
        let arc: i64 = if ahead > HALF_TURN {
            ahead - FULL_TURN
        } else {
            ahead
        };
        proof {
            lemma_arc(self.hue as int, other.hue as int);
        }
        let raw: i64 = lerp_exec(start, start + arc, step, last);
        let hue: i64 = (Hsv { hue: raw, saturation: 0, value: 0 }).to_positive_degrees();
        let saturation: i64 = lerp_exec(self.saturation, other.saturation, step, last);
        let value: i64 = lerp_exec(self.value, other.value, step, last);
        Hsv { hue, saturation, value }
    }
}

/// The shorter arc leads from the one hue to the other, and is formed from
/// the two hues within the first turn.
pub proof fn lemma_arc(from: int, to: int)
    ensures
        -(HALF_TURN as int) < shorter_arc(from, to) <= HALF_TURN,
        (from % (FULL_TURN as int) + shorter_arc(from, to)) % (FULL_TURN as int) == to % (
        FULL_TURN as int),
        ({
            let start = from % (FULL_TURN as int);
            let target = to % (FULL_TURN as int);
            (to - from) % (FULL_TURN as int) == if target >= start {
                target - start
            } else {
                target - start + FULL_TURN
            }
        }),
{
    let full = FULL_TURN as int;
    let start = from % full;
    let target = to % full;
    assert(from == full * (from / full) + start) by (nonlinear_arith)
        requires
            full > 0,
            start == from % full,
    ;
    assert(to == full * (to / full) + target) by (nonlinear_arith)
        requires
            full > 0,
            target == to % full,
    ;
    let turns = to / full - from / full;
    assert(to - from == full * turns + (target - start)) by (nonlinear_arith)
        requires
            from == full * (from / full) + start,
            to == full * (to / full) + target,
            turns == to / full - from / full,
    ;
    if target >= start {
        vstd::arithmetic::div_mod::lemma_fundamental_div_mod_converse(
            to - from,
            full,
            turns,
            target - start,
        );
    } else {
        assert(to - from == full * (turns - 1) + (target - start + full)) by (nonlinear_arith)
            requires
                to - from == full * turns + (target - start),
        ;
        vstd::arithmetic::div_mod::lemma_fundamental_div_mod_converse(
            to - from,
            full,
            turns - 1,
            target - start + full,
        );
    }
    let arc = shorter_arc(from, to);
    if start + arc == target - full {
        vstd::arithmetic::div_mod::lemma_fundamental_div_mod_converse(start + arc, full, -1, target);
    } else if start + arc == target + full {
        vstd::arithmetic::div_mod::lemma_fundamental_div_mod_converse(start + arc, full, 1, target);
    } else {
        vstd::arithmetic::div_mod::lemma_fundamental_div_mod_converse(start + arc, full, 0, target);
    }
}

} // verus!
