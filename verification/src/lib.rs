//! Core of an interactive embedded display controller.
//!
//! The library decodes a rotary-encoder-with-button device into discrete user
//! intents ([`rotary::InputEvent`]), routes those intents through a two-mode
//! screen-selection state machine ([`dispatcher::ScreenDispatcher`]), and
//! relays asynchronously produced background data to the render loop through a
//! single-slot handoff cell ([`mailbox::Mailbox`]).
//!
//! Hardware access, rendering, and thread plumbing live outside this crate:
//! the decode loop feeds observed line levels into [`rotary::QuadratureDecoder`]
//! and its button poll decisions come from [`rotary::button_poll_step`], while
//! the render loop asks [`dispatcher::ScreenDispatcher`] what to do each tick.

pub mod dispatcher;
pub mod mailbox;
pub mod rotary;
