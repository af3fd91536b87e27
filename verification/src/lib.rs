//! Live audio-device / session registry.
//!
//! The library mirrors the operating system's audio state: every playback and
//! capture endpoint, every audio-producing process session attached to an
//! endpoint, and every known media-playing application.  It also carries the
//! channel-layout catalog used to describe multichannel speaker masks and the
//! pure decision logic of the endpoint policy surface (default-endpoint
//! selection and status-code translation).
//!
//! OS notifications (device arrival and removal, session created and
//! disconnected, echoed volume changes, media-source changes) are handed in as
//! plain values; the registry applies them and keeps its cross-entity
//! invariants: unique device ids, at most one default device per type and
//! role, sessions contained in their owning device, and soft-deleted media
//! players kept only through a fixed grace window.

pub mod channels;
pub mod domain;
pub mod errors;
pub mod laws;
pub mod registry;
