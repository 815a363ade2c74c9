//! Frames, checksums and typed payloads of the byte protocol spoken between
//! a host and a sensor bridge.
//!
//! Bytes arrive in pieces and may begin with noise. [`frame::scan`] finds the
//! next frame in a buffer and checks its checksum; [`stream::FrameScanner`]
//! does so over a buffer that grows. [`payload::PacketPayload`] is the closed
//! set of payloads, read and written by the shapes in [`packets`];
//! [`registry::PacketRegistry`] is the table that leads from a command
//! identifier to a shape, checked when it is built. [`message::find_msg`]
//! goes from bytes to a typed packet in one step.
//!
//! [`command`] holds the packets a host sends by name and writes them with
//! the buffers of the `bytes` crate ([`buffer`]); [`hub`] holds what a host
//! decides during a session. [`magic`] hands out the next message of a
//! stream, with the bytes that follow it.
//!
//! Every function states what it computes over plain values (sequences of
//! bytes and of characters, and views of the types here), and the laws that
//! tie scanning to encoding and reading to writing are proved beside them.

pub mod buffer;
pub mod checksum;
pub mod command;
pub mod frame;
pub mod hub;
pub mod magic;
pub mod message;
pub mod packets;
pub mod payload;
pub mod registry;
pub mod stream;
pub mod text;
