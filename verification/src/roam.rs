//! The course of a history fetch: which page to ask for next, and when to
//! stop. The fetching, the storing and the pauses are the caller's.

use vstd::prelude::*;

verus! {

/// The number of rounds after which a fetch ends.
pub const MAX_ROUNDS: u32 = 1000;

/// The number of messages asked for in one page.
pub const PAGE_SIZE: u32 = 50;

/// The order in which a page is asked for.
pub const PAGE_ORDER: u32 = 1;

/// Where a fetch stands: the rounds begun, the cursor that the service
/// handed back with the last page, and the messages stored so far.
#[derive(Debug, Clone, Copy, PartialEq, Eq, Structural)]
pub struct RoamCursor {
    pub round: u32,
    pub random: i64,
    pub res_last_time: i64,
    pub total_saved: u64,
}

/// What to ask the service for.
#[derive(Debug, Clone, Copy, PartialEq, Eq, Structural)]
pub struct RoamRequest {
    pub msg_time: i64,
    pub random: i64,
    pub max_cnt: u32,
    pub order: u32,
}

/// What a round brought.
#[derive(Debug, Clone, Copy, PartialEq, Eq, Structural)]
pub enum PageOutcome {
    /// The page held no message.
    Empty,
    /// The page was stored: the number of messages stored, and the cursor
    /// fields that the page carried.
    Stored { saved: u64, random: Option<i64>, res_last_time: Option<i64> },
}

/// What to do after a round.
#[derive(Debug, Clone, Copy, PartialEq, Eq, Structural)]
pub enum RoamNext {
    /// Stop at once.
    Stop,
    /// Pause, then begin another round.
    PauseThenFetch,
    /// Pause, then stop: this was the last round.
    PauseThenStop,
}

/// The request of the round that follows the state `cursor`, begun at the
/// time `now`: the first page is asked for from `now` back, every later
/// one from where the last page ended.
pub open spec fn spec_request(cursor: RoamCursor, now: i64) -> RoamRequest {
    RoamRequest {
        msg_time: if cursor.res_last_time == 0 {
            now
        } else {
            cursor.res_last_time
        },
        random: cursor.random,
        max_cnt: PAGE_SIZE,
        order: PAGE_ORDER,
    }
}

/// The state after a round that brought `outcome`: an empty page changes
/// nothing; a stored page adds to the count (which stops at the largest
/// `u64`) and moves the cursor as far as the page carried one.
pub open spec fn spec_after(cursor: RoamCursor, outcome: PageOutcome) -> RoamCursor {
    match outcome {
        PageOutcome::Empty => cursor,
        PageOutcome::Stored { saved, random, res_last_time } => RoamCursor {
            round: cursor.round,
            random: match random {
                Some(r) => r,
                None => cursor.random,
            },
            res_last_time: match res_last_time {
                Some(t) => t,
                None => cursor.res_last_time,
            },
            total_saved: if cursor.total_saved + saved > u64::MAX {
                u64::MAX
            } else {
                (cursor.total_saved + saved) as u64
            },
        },
    }
}

/// What follows a round that brought `outcome`: an empty page ends the
/// fetch at once; after a stored page there is a pause, and then another
/// round unless the rounds are used up.
pub open spec fn spec_next(cursor: RoamCursor, outcome: PageOutcome) -> RoamNext {
    match outcome {
        PageOutcome::Empty => RoamNext::Stop,
        PageOutcome::Stored { .. } => if cursor.round >= MAX_ROUNDS {
            RoamNext::PauseThenStop
        } else {
            RoamNext::PauseThenFetch
        },
    }
}

impl RoamCursor {
    /// The state before the first round.
    pub fn new() -> (cursor: RoamCursor)
        ensures
            cursor == (RoamCursor { round: 0, random: 0, res_last_time: 0, total_saved: 0 }),
    {
        RoamCursor { round: 0, random: 0, res_last_time: 0, total_saved: 0 }
    }

    /// Begins a round at the time `now` and says what to ask for; `None`
    /// once the rounds are used up.
    pub fn begin_round(&mut self, now: i64) -> (r: Option<RoamRequest>)
        ensures
            old(self).round >= MAX_ROUNDS ==> r is None && *final(self) == *old(self),
            old(self).round < MAX_ROUNDS ==> r == Some(spec_request(*old(self), now))
                && *final(self) == (RoamCursor { round: (old(self).round + 1) as u32, ..*old(self) }),
    {
        if self.round >= MAX_ROUNDS {
            return None;
        }
        self.round = self.round + 1;
        Some(
            RoamRequest {
                msg_time: if self.res_last_time == 0 {
                    now
                } else {
                    self.res_last_time
                },
                random: self.random,
                max_cnt: PAGE_SIZE,
                order: PAGE_ORDER,
            },
        )
    }

    /// Ends a round with what it brought and says what to do next.
    pub fn end_round(&mut self, outcome: PageOutcome) -> (next: RoamNext)
        ensures
            *final(self) == spec_after(*old(self), outcome),
            next == spec_next(*old(self), outcome),
    {
        match outcome {
            PageOutcome::Empty => RoamNext::Stop,
            PageOutcome::Stored { saved, random, res_last_time } => {
                self.total_saved = if saved > u64::MAX - self.total_saved {
                    u64::MAX
                } else {
                    self.total_saved + saved
                };
                match random {
                    Some(r) => {
                        self.random = r;
                    },
                    None => {},
                }
                match res_last_time {
                    Some(t) => {
                        self.res_last_time = t;
                    },
                    None => {},
                }
                if self.round >= MAX_ROUNDS {
                    RoamNext::PauseThenStop
                } else {
                    RoamNext::PauseThenFetch
                }
            },
        }
    }
}

} // verus!
