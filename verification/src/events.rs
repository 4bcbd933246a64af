use vstd::prelude::*;

verus! {

/// The number that stands for a boolean: 1 for true, 0 for false.
pub open spec fn bit(b: bool) -> usize {
    if b { 1 } else { 0 }
}

/// The indicator sent to the displays after a play: bit 0 is set when
/// player one scored, bit 1 when player two scored (`Player2 | Player1`).
pub open spec fn spec_indicator(p1_scored: bool, p2_scored: bool) -> usize {
    (bit(p1_scored) + 2 * bit(p2_scored)) as usize
}

/// The indicator of one play of a match, from whether each player's action
/// on that play was positive.
pub fn play_indicator(p1_scored: bool, p2_scored: bool) -> (indicator: usize)
    ensures
        indicator == spec_indicator(p1_scored, p2_scored),
        indicator < 4,
        (indicator & 1 == 1) == p1_scored,
        (indicator & 2 == 2) == p2_scored,
{
    proof {
        lemma_indicator_decodes(p1_scored, p2_scored);
    }
    let mut indicator: usize = 0;
    let b1: usize = if p1_scored { 1 } else { 0 };
    let b2: usize = if p2_scored { 1 } else { 0 };
    assert(0usize | b1 == b1) by (bit_vector);
    indicator = indicator | b1;
    assert(b1 <= 1 && b2 <= 1 ==> b1 | ((b2 * 2) as usize) == (b1 + 2 * b2) as usize) by (bit_vector);
    indicator = indicator | (b2 * 2);
    indicator
}

/// Each player's result can be read back from the indicator alone: bit 0
/// holds player one's, bit 1 player two's, and no other bit is set.
pub proof fn lemma_indicator_decodes(p1_scored: bool, p2_scored: bool)
    ensures
        spec_indicator(p1_scored, p2_scored) < 4,
        spec_indicator(p1_scored, p2_scored) == bit(p1_scored) + 2 * bit(p2_scored),
        (spec_indicator(p1_scored, p2_scored) & 1 == 1) == p1_scored,
        (spec_indicator(p1_scored, p2_scored) & 2 == 2) == p2_scored,
{
    let b1 = bit(p1_scored);
    let b2 = bit(p2_scored);
    assert(b1 <= 1 && b2 <= 1 ==> (((b1 + 2 * b2) as usize) & 1 == 1) == (b1 == 1)) by (bit_vector);
    assert(b1 <= 1 && b2 <= 1 ==> (((b1 + 2 * b2) as usize) & 2 == 2) == (b2 == 1)) by (bit_vector);
}

} // verus!
