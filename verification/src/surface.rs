//! The native control surface, seen as a trait.
//!
//! The real simulator integration is a process-wide library with three entry
//! points: set the connection flag, read a channel value, write a channel
//! value. This module captures that interface as the [`Surface`] trait,
//! whose contracts record every call made to the surface in a ghost history,
//! so that code driving a surface can state exactly which native calls it
//! performs. [`RecordingSurface`] is an executable substitute that keeps the
//! history as real data and hands back a scripted reading, for exercising
//! callers without the simulator.

use vstd::pervasive::arbitrary;
use vstd::prelude::*;

verus! {

/// One call made to the native control surface, with the arguments it was
/// given on the wire.
#[derive(Clone, Copy, Debug, PartialEq, Eq, Structural)]
pub enum SurfaceCall {
    /// The connection flag was set: `true` activates the surface, `false`
    /// deactivates it.
    Activate { on: bool },
    /// A channel value was requested for a channel/kind pair of wire codes.
    Read { channel_code: i32, kind_code: i32 },
    /// A value was applied to a channel's wire code.
    Write { channel_code: i32, value: i32 },
}

/// The native control surface: the three entry points of the simulator
/// integration, together with a ghost history of the calls made so far.
///
/// The contracts say only how each call extends the history and that a read
/// hands its pending reading back unmodified; nothing is assumed about what
/// a reading means, since the native surface gives no such guarantee.
pub trait Surface: Sized {
    /// What a read hands back. The native surface returns a float reading;
    /// a substitute may choose any carrier. Readings pass through callers
    /// uninterpreted.
    type Reading;

    /// The calls made to this surface so far, oldest first. A surface this
    /// crate models overrides this; one it does not (the real native
    /// surface, bound outside this crate) keeps the default, about which
    /// nothing is known.
    open spec fn history(&self) -> Seq<SurfaceCall> {
        arbitrary()
    }

    /// The reading the next read call will hand back. A surface this crate
    /// models overrides this; one it does not keeps the default, about which
    /// nothing is known.
    open spec fn next_reading(&self) -> Self::Reading {
        arbitrary()
    }

    /// Set the process-wide connection flag. The native call returns no
    /// status, so nothing is recorded but the call itself.
    fn activate(&mut self, on: bool)
        ensures
            final(self).history() == old(self).history().push((SurfaceCall::Activate { on })),
    ;

    /// Read one channel value for a channel/kind pair of wire codes. The
    /// result is the surface's pending reading, unmodified.
    fn read(&mut self, channel_code: i32, kind_code: i32) -> (reading: Self::Reading)
        ensures
            final(self).history() == old(self).history().push(
                (SurfaceCall::Read { channel_code, kind_code }),
            ),
            reading == old(self).next_reading(),
    ;

    /// Apply a value to a channel's wire code. The native call returns no
    /// status, so nothing is recorded but the call itself.
    fn write(&mut self, channel_code: i32, value: i32)
        ensures
            final(self).history() == old(self).history().push(
                (SurfaceCall::Write { channel_code, value }),
            ),
    ;
}

/// A substitute control surface: records every call in order and answers
/// every read with a scripted value.
pub struct RecordingSurface {
    calls: Vec<SurfaceCall>,
    reading: i32,
}

impl RecordingSurface {
    /// A fresh surface with an empty call history, whose reads will hand
    /// back `reading`.
    pub fn new(reading: i32) -> (surface: RecordingSurface)
        ensures
            surface.history() == Seq::<SurfaceCall>::empty(),
            surface.next_reading() == reading,
    {
        RecordingSurface { calls: Vec::new(), reading }
    }

    /// The calls made to this surface so far, oldest first.
    pub fn calls(&self) -> (calls: &Vec<SurfaceCall>)
        ensures
            calls@ == self.history(),
    {
        &self.calls
    }

    /// Change the value the next reads will hand back; the history is kept.
    pub fn set_reading(&mut self, reading: i32)
        ensures
            final(self).next_reading() == reading,
            final(self).history() == old(self).history(),
    {
        self.reading = reading;
    }
}

impl Surface for RecordingSurface {
    type Reading = i32;

    closed spec fn history(&self) -> Seq<SurfaceCall> {
        self.calls@
    }

    closed spec fn next_reading(&self) -> i32 {
        self.reading
    }

    fn activate(&mut self, on: bool) {
        self.calls.push(SurfaceCall::Activate { on });
    }

    fn read(&mut self, channel_code: i32, kind_code: i32) -> (reading: i32) {
        self.calls.push(SurfaceCall::Read { channel_code, kind_code });
        self.reading
    }

    fn write(&mut self, channel_code: i32, value: i32) {
        self.calls.push(SurfaceCall::Write { channel_code, value });
    }
}

} // verus!
