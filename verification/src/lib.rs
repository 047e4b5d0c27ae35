//! Extraction of authentication material from the security blob of an SMB
//! Session Setup request, and the grouping of per-flow tag state.

pub mod auth;
pub mod der;
pub mod flow;
pub mod kerberos;
pub mod mechanism;
pub mod ntlmssp_records;
pub mod text;
