//! Reading a chat platform's message payloads without their schema.
//!
//! [`protobuf`] decodes the wire format into a generic [`value`] tree;
//! [`elem`] reads such trees as text, pictures, video, voice messages and
//! quoted replies. [`cookie`], [`helper`], [`api`] and [`roam`] hold the
//! rules of a fetch session that need neither network nor disk.

pub mod api;
pub mod cookie;
pub mod elem;
pub mod encoding;
pub mod helper;
pub mod protobuf;
pub mod roam;
pub mod value;
pub mod wire_laws;
