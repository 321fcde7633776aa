//! Control of a single lamp on the local network: the events of a service
//! discovery are folded into the lamp's address, the address is kept as the
//! session, and each command is turned into the one HTTP request that carries
//! it and, afterwards, into the answer that the caller is given.
//!
//! Nothing here touches the network. A caller browses, sends and reads; this
//! crate decides what is browsed for, what is sent, and what each outcome means.

pub mod discovery;
pub mod dispatch;
pub mod session;
pub mod text;
