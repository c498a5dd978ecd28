//! Construction of the command objects of a robotics pub/sub-and-RPC bridge
//! protocol, with a verified model of the structured values they carry.
pub mod command;
pub mod json;
pub mod value;

pub use command::{
    build_advertise, build_call_service, build_cancel_action_goal, build_publish,
    build_send_action_goal, build_subscribe, build_unsubscribe, Command,
};
pub use json::{decode, encode, ConversionError};
pub use value::StructuredValue;
