//! Verified core of a Luanti (Minetest) protocol server: wire encodings,
//! packet framing, opcode tables, the session handshake state machine,
//! SRP bookkeeping and an in-memory authentication store.

pub mod bytes;
pub mod text;
pub mod codec;
pub mod wire;
pub mod network_packet;
pub mod protocol;
pub mod packet;
pub mod opcodes;
pub mod session;
pub mod strings;
pub mod auth_db;
pub mod crypto;
pub mod srp;
pub mod base64_util;
pub mod auth;
pub mod toclient_packets;
pub mod frame;
pub mod cli;
pub mod command_handler;
pub mod packet_dispatcher;
