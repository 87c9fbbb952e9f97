//! The animated filler that is shown while the status is being computed.

use vstd::prelude::*;
use vstd::string::*;

verus! {

/// How long one frame of the animation is shown, in milliseconds.
pub const FRAME_MILLIS: u64 = 100;

/// How many frames the animation has before it starts over.
pub const FRAME_COUNT: u64 = 11;

// The six colours of the animation, which runs from the first to the last
// and back.
pub const TICK_0: &'static str = "\x1b[38;2;69;132;135m";

pub const TICK_1: &'static str = "\x1b[38;2;58;144;127m";

pub const TICK_2: &'static str = "\x1b[38;2;78;154;106m";

pub const TICK_3: &'static str = "\x1b[38;2;115;159;76m";

pub const TICK_4: &'static str = "\x1b[38;2;162;159;46m";

pub const TICK_5: &'static str = "\x1b[38;2;214;152;33m";

/// The frame at place `index` of the cycle of eleven.
pub open spec fn tick(index: int) -> Seq<char> {
    if index == 0 || index == 10 {
        TICK_0@
    } else if index == 1 || index == 9 {
        TICK_1@
    } else if index == 2 || index == 8 {
        TICK_2@
    } else if index == 3 || index == 7 {
        TICK_3@
    } else if index == 4 || index == 6 {
        TICK_4@
    } else {
        TICK_5@
    }
}

/// The place in the cycle of the frame that is due `millis` milliseconds
/// after the epoch: a frame lasts 100 ms, and after eleven the first comes
/// again.
pub open spec fn frame_index(millis: nat) -> int {
    ((millis / (FRAME_MILLIS as nat)) % (FRAME_COUNT as nat)) as int
}

/// The frame that is due `millis` milliseconds after the epoch.
pub open spec fn placeholder(millis: nat) -> Seq<char> {
    tick(frame_index(millis))
}

/// The frame at place `index` of the cycle.
pub fn tick_at(index: usize) -> (r: &'static str)
    requires
        index < 11,
    ensures
        r@ == tick(index as int),
{
    if index == 0 || index == 10 {
        TICK_0
    } else if index == 1 || index == 9 {
        TICK_1
    } else if index == 2 || index == 8 {
        TICK_2
    } else if index == 3 || index == 7 {
        TICK_3
    } else if index == 4 || index == 6 {
        TICK_4
    } else {
        TICK_5
    }
}

/// The frame to show at `millis` milliseconds after the epoch.
pub fn tickdata(millis: u128) -> (r: String)
    ensures
        r@ == placeholder(millis as nat),
{
    let index: usize = ((millis / (FRAME_MILLIS as u128)) % (FRAME_COUNT as u128)) as usize;
    String::from_str(tick_at(index))
}

/// Two moments in the same window of 100 ms show the same frame.
pub proof fn lemma_frame_is_stable(earlier: nat, later: nat)
    requires
        earlier / 100 == later / 100,
    ensures
        frame_index(earlier) == frame_index(later),
        placeholder(earlier) == placeholder(later),
{
}

/// 100 ms later the next frame of the cycle is shown, and after the
/// eleventh the first.
pub proof fn lemma_frame_advances(millis: nat)
    ensures
        frame_index(millis + 100) == (frame_index(millis) + 1) % 11,
        placeholder(millis + 100) == tick((frame_index(millis) + 1) % 11),
{
    assert((millis + 100) / 100 == millis / 100 + 1);
}

/// The frame depends on the moment only through its window of 100 ms, and a
/// whole cycle of 1100 ms brings the same frame back.
pub proof fn lemma_frame_cycle(millis: nat)
    ensures
        0 <= frame_index(millis) < 11,
        frame_index(millis + 1100) == frame_index(millis),
{
    assert((millis + 1100) / 100 == millis / 100 + 11);
}

} // verus!
