//! The render loop driver: a frame counter that advances once per tick and
//! the rotation angle derived from it.
use vstd::prelude::*;

verus! {

/// Degrees in one full turn of the cube.
pub const FULL_TURN: u64 = 360;

/// The rotation angle, in whole degrees, shown at frame `frame`.
pub open spec fn degrees_at(frame: nat) -> nat {
    frame % 360
}

/// Rotation angle of the cube at `frame`, in whole degrees; the radian angle
/// is this value times pi / 180.
pub fn rotation_degrees(frame: u64) -> (r: u64)
    ensures
        r as nat == degrees_at(frame as nat),
        r < FULL_TURN,
{
    frame % FULL_TURN
}

/// The angle repeats every full turn: frames `f` and `f + 360` show the
/// cube in the same orientation, so every transform derived from the angle
/// repeats too.
pub proof fn lemma_rotation_period(f: nat)
    ensures
        degrees_at(f + 360) == degrees_at(f),
{
}

/// Frame zero is the unrotated cube.
pub proof fn lemma_frame_zero_unrotated()
    ensures
        degrees_at(0) == 0,
{
}

/// Where the render loop stands: not yet started, waiting for a tick that
/// the host has been asked for, or ended because the host refused to
/// schedule the next tick.
#[derive(Clone, Copy, Debug, PartialEq, Eq, Structural)]
pub enum LoopState {
    Idle,
    Scheduled,
    Stopped,
}

/// The work of one tick: the frame index that was just reached and the
/// rotation angle in whole degrees that the frame's transforms use.
#[derive(Clone, Copy, Debug, PartialEq, Eq, Structural)]
pub struct Tick {
    pub frame: u64,
    pub degrees: u64,
}

/// The render loop driver. It owns the frame counter; the host runs the
/// loop, asking for a tick whenever the driver says so.
pub struct RenderLoop {
    frame: u64,
    state: LoopState,
}

impl RenderLoop {
    /// The number of ticks run so far.
    pub closed spec fn frame_count(&self) -> nat {
        self.frame as nat
    }

    pub closed spec fn loop_state(&self) -> LoopState {
        self.state
    }

    /// A driver that has not started: no tick run yet.
    pub fn new() -> (r: RenderLoop)
        ensures
            r.frame_count() == 0,
            r.loop_state() == LoopState::Idle,
    {
        RenderLoop { frame: 0, state: LoopState::Idle }
    }

    pub fn frame(&self) -> (r: u64)
        ensures
            r as nat == self.frame_count(),
    {
        self.frame
    }

    pub fn state(&self) -> (r: LoopState)
        ensures
            r == self.loop_state(),
    {
        self.state
    }

    /// Starts the loop. Returns whether the host must now be asked for the
    /// first tick: only an idle driver starts; any other is left as it was.
    pub fn start(&mut self) -> (request_tick: bool)
        ensures
            request_tick == (old(self).loop_state() == LoopState::Idle),
            final(self).frame_count() == old(self).frame_count(),
            final(self).loop_state() == if request_tick {
                LoopState::Scheduled
            } else {
                old(self).loop_state()
            },
    {
        if self.state == LoopState::Idle {
            self.state = LoopState::Scheduled;
            true
        } else {
            false
        }
    }

    /// Runs one tick of a scheduled loop: the counter is incremented first
    /// and the new index drives the frame. The caller then asks the host for
    /// the next tick. A loop that is not scheduled runs nothing.
    pub fn tick(&mut self) -> (r: Option<Tick>)
        requires
            old(self).frame_count() < u64::MAX,
        ensures
            old(self).loop_state() == LoopState::Scheduled ==> {
                &&& final(self).frame_count() == old(self).frame_count() + 1
                &&& r == Some(
                    (Tick {
                        frame: final(self).frame_count() as u64,
                        degrees: degrees_at(final(self).frame_count()) as u64,
                    }),
                )
            },
            old(self).loop_state() != LoopState::Scheduled ==> {
                &&& final(self).frame_count() == old(self).frame_count()
                &&& r is None
            },
            final(self).loop_state() == old(self).loop_state(),
    {
        if self.state == LoopState::Scheduled {
            self.frame = self.frame + 1;
            Some(Tick { frame: self.frame, degrees: rotation_degrees(self.frame) })
        } else {
            None
        }
    }

    /// Takes the host's answer to a request for the next tick: a refusal
    /// ends the loop for good.
    pub fn schedule_result(&mut self, accepted: bool)
        ensures
            final(self).frame_count() == old(self).frame_count(),
            final(self).loop_state() == if !accepted {
                LoopState::Stopped
            } else {
                old(self).loop_state()
            },
    {
        if !accepted {
            self.state = LoopState::Stopped;
        }
    }
}

} // verus!
