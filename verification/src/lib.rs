//! Core of a per-bitness privileged daemon: it classifies the active
//! root-granting provider once at boot, loads hook modules into sealed
//! memory-backed files, serves many concurrent client connections over a
//! single abstract-namespace socket, and lazily spawns at most one live
//! companion helper process per module.
//!
//! The verified library holds the daemon's decision logic: provider
//! classification and per-uid policy dispatch, module eligibility and
//! loading, the wire codec, the companion-slot lifecycle, and the
//! per-connection action dispatch. Process creation, sockets and raw
//! descriptor transfer stay with the embedder, which feeds their outcomes
//! in as plain values.
pub mod arch;
pub mod codec;
pub mod companion;
pub mod dispatch;
pub mod memlib;
pub mod modules;
pub mod root;
