//! NovAtel OEM6 GPS receiver: binary message formats and framing.

pub mod commands;
pub mod crc32;
pub mod logs;
pub mod messages;
pub mod oem6;
pub mod reader;
pub mod response;
