//! A command-line weather client's logic: resolving the configuration,
//! building the forecast request, judging the server's reply, decoding the
//! current conditions and rendering the one-line summary.
//!
//! Nothing here touches the file system, the environment or the network: the
//! caller reads and sends, and hands over what it got as plain values.

pub mod client;
pub mod config;
pub mod decode;
pub mod error;
pub mod icons;
pub mod limits;
pub mod present;
pub mod temperature;
pub mod text;
pub mod url;
