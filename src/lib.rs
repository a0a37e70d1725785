//! Decoding of Art-Net datagrams into typed frames: a validated header and
//! the payload that its opcode selects.

pub mod wire;
pub mod header;
pub mod op_poll;
pub mod op_timecode;
pub mod packet;
