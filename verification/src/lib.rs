//! Message remapping between a DJ controller and DJ-performance software.
//!
//! The controller speaks in relative encoder ticks, paired press/release notes
//! and shared knobs; the software wants absolute positions, one signal per
//! button and one control per deck. [`state::State`] owns one adapter per
//! control family and turns every incoming controller message into the
//! messages to deliver, recorded in order in an [`outbox::Outbox`].

pub mod button;
pub mod filter;
pub mod outbox;
pub mod pot;
pub mod state;
pub mod tempo;
pub mod wire;
