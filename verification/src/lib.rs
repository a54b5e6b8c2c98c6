//! Capability-gated manager for an auxiliary "lute" runtime embedded in a
//! host scripting VM.
//!
//! The crate has two parts: a bit-encoded set of optional standard-library
//! modules ([`flags::LuteStdLib`]), and a lifecycle controller for the
//! auxiliary runtime attached to a host VM instance ([`runtime::Lua`]).
//! Module selection is a pure, order-independent set value; the runtime must
//! be set up exactly once before any module can be attached, and loading a
//! selection binds each chosen module under its fixed global name.

pub mod flags;
pub mod modules;
pub mod runtime;
