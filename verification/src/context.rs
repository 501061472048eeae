//! The connection context: the state machine that owns the activation state
//! of the native control surface and guards every channel access behind it.
//!
//! A [`Context`] is constructed connected (construction activates the
//! surface exactly once), mediates `get_value`/`set_value` calls while
//! connected (each marshals its symbols to wire codes and performs exactly
//! one native call), and is torn down with [`Context::disconnect`], which
//! deactivates the surface exactly once. While disconnected, every access
//! fails with [`RailDriverError::NotConnected`] and performs no native call.

use vstd::prelude::*;

use crate::catalog::Kind;
use crate::catalog::Value;
use crate::surface::Surface;
use crate::surface::SurfaceCall;

verus! {

/// Errors returned by the operation being performed.
#[derive(Clone, Copy, Debug, PartialEq, Eq, Structural)]
pub enum RailDriverError {
    /// The simulator doesn't think this context is connected, therefore the
    /// operation cannot continue.
    NotConnected,
}

/// A controller context with the simulator.
///
/// The context is the sole owner of one connection state, `Inactive` or
/// `Active`, here a private flag. The only state-changing operations are
/// construction, which activates the surface, and [`Context::disconnect`],
/// which deactivates it.
///
/// The native surface is process-wide state, while each context keeps its
/// own flag: a second context constructed in the same process toggles the
/// same shared surface independently, so only single-context use carries the
/// guarantees stated here.
pub struct Context {
    connected: bool,
}

impl Context {
    /// Whether this context believes the surface is activated.
    pub closed spec fn is_connected(&self) -> bool {
        self.connected
    }

    /// Creates a new controller context with the simulator: activates the
    /// surface, exactly once, and starts out connected.
    pub fn new<S: Surface>(surface: &mut S) -> (context: Context)
        ensures
            context.is_connected(),
            final(surface).history() == old(surface).history().push(
                (SurfaceCall::Activate { on: true }),
            ),
    {
        let mut context = Context { connected: false };
        context.connect(surface);
        context
    }

    fn connect<S: Surface>(&mut self, surface: &mut S)
        ensures
            final(self).is_connected(),
            final(surface).history() == old(surface).history().push(
                (SurfaceCall::Activate { on: true }),
            ),
    {
        surface.activate(true);
        self.connected = true;
    }

    /// Tears the context down: if it is connected, deactivates the surface,
    /// exactly once; if it is already disconnected, performs no native call.
    /// Either way the context is disconnected afterwards.
    pub fn disconnect<S: Surface>(&mut self, surface: &mut S)
        ensures
            !final(self).is_connected(),
            old(self).is_connected() ==> final(surface).history() == old(surface).history().push(
                (SurfaceCall::Activate { on: false }),
            ),
            !old(self).is_connected() ==> *final(surface) == *old(surface),
    {
        if self.connected {
            surface.activate(false);
            self.connected = false;
        }
    }

    /// Return the value of `of`. Depending on `kind`, this may return the
    /// current value, a minimum, or a maximum.
    ///
    /// While connected, marshals `of` and `kind` to their wire codes,
    /// performs exactly one native read with them, and hands the reading
    /// back unmodified. While disconnected, returns `NotConnected` and
    /// performs no native call.
    pub fn get_value<S: Surface>(&self, surface: &mut S, of: Value, kind: Kind) -> (result:
        Result<S::Reading, RailDriverError>)
        ensures
            self.is_connected() ==> final(surface).history() == old(surface).history().push(
                (SurfaceCall::Read {
                    channel_code: of.wire_code_spec(),
                    kind_code: kind.wire_code_spec(),
                }),
            ),
            self.is_connected() ==> result == Ok::<S::Reading, RailDriverError>(
                old(surface).next_reading(),
            ),
            !self.is_connected() ==> result == Err::<S::Reading, RailDriverError>(
                RailDriverError::NotConnected,
            ),
            !self.is_connected() ==> *final(surface) == *old(surface),
    {
        if !self.connected {
            return Err(RailDriverError::NotConnected);
        }
        let channel_code = of.wire_code();
        let kind_code = kind.wire_code();
        Ok(surface.read(channel_code, kind_code))
    }

    /// Set the value of `of` within the simulator to `value`.
    ///
    /// While connected, marshals `of` to its wire code, performs exactly one
    /// native write with the code and `value`, and succeeds. While
    /// disconnected, returns `NotConnected` and performs no native call.
    pub fn set_value<S: Surface>(&self, surface: &mut S, of: Value, value: i32) -> (result: Result<
        (),
        RailDriverError,
    >)
        ensures
            self.is_connected() ==> final(surface).history() == old(surface).history().push(
                (SurfaceCall::Write { channel_code: of.wire_code_spec(), value }),
            ),
            self.is_connected() ==> result == Ok::<(), RailDriverError>(()),
            !self.is_connected() ==> result == Err::<(), RailDriverError>(
                RailDriverError::NotConnected,
            ),
            !self.is_connected() ==> *final(surface) == *old(surface),
    {
        if !self.connected {
            return Err(RailDriverError::NotConnected);
        }
        let channel_code = of.wire_code();
        surface.write(channel_code, value);
        Ok(())
    }

    /// Whether this context is currently connected.
    pub fn connected(&self) -> (connected: bool)
        ensures
            connected == self.is_connected(),
    {
        self.connected
    }
}

} // verus!
