//! Client core of a broker's order plant: request encoding with correlation
//! tags, length-prefixed framing, inbound classification, the registry of
//! requests in flight and the plant's event-loop decisions.

pub mod command_types;
pub mod frame;
pub mod message;
pub mod order_plant;
pub mod receiver_api;
pub mod request_handler;
pub mod sender_api;
pub mod tag;
