//! A verified bridge for subclassing the root class of a C object system.
//!
//! The object system itself (its type registry, reference counting and signal
//! emission) lives behind a C ABI. This library holds everything the bridge
//! decides, over plain values that stand for the foreign data: which handlers
//! go into a class's virtual function table, how a property request that
//! arrives with a one-based index and an untyped value slot becomes a typed
//! call on the implementing object, what is handed to the runtime when
//! properties and signals are registered, and how the floating-reference
//! guard keeps an instance safe while a callback runs.
pub mod class;
pub mod instance;
pub mod object;
pub mod signal;
pub mod store;
pub mod types;
pub mod value;
