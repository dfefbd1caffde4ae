//! The start and stop beeps: whether they sound, and how often.  Playing the
//! sound is the caller's work.
use vstd::prelude::*;

use crate::clock::unix_time_ms;

verus! {

/// Beeps closer together than this, in milliseconds, are dropped.
pub const BEEP_DEBOUNCE_MS: u64 = 300;

/// Which beep to play.
#[derive(Debug, Clone, Copy, PartialEq, Eq, Structural)]
pub enum BeepMessage {
    PlayStart,
    PlayStop,
}

/// The beep player's state: whether beeps are on, and when the last beep
/// was let through.
#[derive(Debug)]
pub struct BeepPlayer {
    pub enabled: bool,
    pub last_beep_time: u64,
}

/// Whether a beep at `now` is far enough from the last one.
pub open spec fn beep_due(last: u64, now: u64) -> bool {
    !(if now >= last { now - last } else { 0 } < BEEP_DEBOUNCE_MS)
}

/// One request for a beep at `now`: a beep that is due is remembered, and
/// it sounds if beeps are on.
pub open spec fn beep_step(before: BeepPlayer, after: BeepPlayer, msg: BeepMessage, now: u64, r: Option<BeepMessage>) -> bool {
    &&& after.enabled == before.enabled
    &&& after.last_beep_time == (if beep_due(before.last_beep_time, now) {
        now
    } else {
        before.last_beep_time
    })
    &&& r == (if beep_due(before.last_beep_time, now) && before.enabled {
        Some(msg)
    } else {
        None
    })
}

impl BeepPlayer {
    /// A player with beeps off that has never beeped.
    pub fn new() -> (p: Self)
        ensures
            !p.enabled,
            p.last_beep_time == 0,
    {
        BeepPlayer { enabled: false, last_beep_time: 0 }
    }

    /// Turns beeps on or off.
    pub fn initialize(&mut self, enabled: bool)
        ensures
            final(self).enabled == enabled,
            final(self).last_beep_time == old(self).last_beep_time,
    {
        self.enabled = enabled;
    }

    /// Turns beeps on.
    pub fn enable(&mut self)
        ensures
            final(self).enabled,
            final(self).last_beep_time == old(self).last_beep_time,
    {
        self.enabled = true;
    }

    /// Turns beeps off.
    pub fn disable(&mut self)
        ensures
            !final(self).enabled,
            final(self).last_beep_time == old(self).last_beep_time,
    {
        self.enabled = false;
    }

    /// Lets a beep through at `now` unless one went through less than
    /// [`BEEP_DEBOUNCE_MS`] before; a beep let through is remembered.
    pub fn should_play(&mut self, now: u64) -> (b: bool)
        ensures
            b == beep_due(old(self).last_beep_time, now),
            final(self).enabled == old(self).enabled,
            final(self).last_beep_time == (if b {
                now
            } else {
                old(self).last_beep_time
            }),
    {
        let last = self.last_beep_time;
        if now.saturating_sub(last) < BEEP_DEBOUNCE_MS {
            return false;
        }
        self.last_beep_time = now;
        true
    }

    /// Whether beeps are on.
    pub fn is_enabled(&self) -> (b: bool)
        ensures
            b == self.enabled,
    {
        self.enabled
    }

    /// The beep to play at `now`, if any: the debounce is checked (and the
    /// time remembered) before whether beeps are on.
    pub fn beep_at(&mut self, msg: BeepMessage, now: u64) -> (r: Option<BeepMessage>)
        ensures
            beep_step(*old(self), *final(self), msg, now, r),
    {
        if !self.should_play(now) {
            return None;
        }
        if !self.is_enabled() {
            return None;
        }
        Some(msg)
    }
}

/// Turns beeps on or off.
pub fn initialize_beep_player(player: &mut BeepPlayer, enabled: bool)
    ensures
        final(player).enabled == enabled,
        final(player).last_beep_time == old(player).last_beep_time,
{
    player.initialize(enabled);
}

/// Turns beeps on.
pub fn enable_beep(player: &mut BeepPlayer)
    ensures
        final(player).enabled,
        final(player).last_beep_time == old(player).last_beep_time,
{
    player.enable();
}

/// Turns beeps off.
pub fn disable_beep(player: &mut BeepPlayer)
    ensures
        !final(player).enabled,
        final(player).last_beep_time == old(player).last_beep_time,
{
    player.disable();
}

/// The start beep to play now, by the system clock, if any.
pub fn play_start_beep(player: &mut BeepPlayer) -> (r: Option<BeepMessage>)
    ensures
        exists|now: u64| beep_step(*old(player), *final(player), BeepMessage::PlayStart, now, r),
{
    let now = unix_time_ms();
    player.beep_at(BeepMessage::PlayStart, now)
}

/// The stop beep to play now, by the system clock, if any.
pub fn play_stop_beep(player: &mut BeepPlayer) -> (r: Option<BeepMessage>)
    ensures
        exists|now: u64| beep_step(*old(player), *final(player), BeepMessage::PlayStop, now, r),
{
    let now = unix_time_ms();
    player.beep_at(BeepMessage::PlayStop, now)
}

/// Law: of two beeps asked for less than [`BEEP_DEBOUNCE_MS`] apart, the
/// second is dropped when the first was let through.
pub proof fn lemma_beeps_are_debounced(
    p0: BeepPlayer,
    p1: BeepPlayer,
    p2: BeepPlayer,
    m1: BeepMessage,
    m2: BeepMessage,
    t1: u64,
    t2: u64,
    r1: Option<BeepMessage>,
    r2: Option<BeepMessage>,
)
    requires
        beep_step(p0, p1, m1, t1, r1),
        beep_step(p1, p2, m2, t2, r2),
        beep_due(p0.last_beep_time, t1),
        t1 <= t2 < t1 + BEEP_DEBOUNCE_MS,
    ensures
        r2 is None,
        p2.last_beep_time == t1,
{
}

} // verus!
