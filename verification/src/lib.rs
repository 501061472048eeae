//! A typed, safety-checked access layer over the RailDriver native control
//! interface of Train Simulator, which exposes train-control values
//! (throttle, brakes, cameras, UI events) as integer-addressed channels.
//!
//! The crate gives every channel a stable symbolic name instead of a magic
//! integer code, guards every channel access behind the connection state of a
//! [`Context`], and keeps the translation between symbolic identifiers and
//! the native surface's integer wire codes in one explicit catalog.
//!
//! The native surface itself is reached through the [`Surface`] trait; the
//! binding to the real library lives outside this crate, while
//! [`RecordingSurface`] is an in-crate substitute that records every call
//! made to it.

mod catalog;
mod context;
mod surface;

pub use catalog::lemma_kind_wire_code_injective;
pub use catalog::lemma_value_wire_code_injective;
pub use catalog::Kind;
pub use catalog::Value;
pub use context::Context;
pub use context::RailDriverError;
pub use surface::RecordingSurface;
pub use surface::Surface;
pub use surface::SurfaceCall;
