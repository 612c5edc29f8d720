//! A small local Telegram daemon on top of TDLib: the part of it that decides and computes.
//!
//! The daemon owns one Telegram session and hands the live updates of TDLib to local clients,
//! one JSON document a line. This library holds its rules: where its files live ([`paths`],
//! [`config`]), what is done to them ([`files`]), how the config file is written and read
//! ([`document`]), where the TDLib library is found ([`tdjson`]), the dialogue that authorizes a
//! client ([`authorization`], [`request`], [`json`]), the life of the daemon ([`daemon`]), how it
//! serves its clients ([`service`]) and the stream that each of them reads ([`stream`]), the checks
//! of the doctor ([`doctor`]), and what is told when something fails ([`failure`]). It touches
//! neither files nor sockets: it is handed what was found, and hands back what to do.
pub mod authorization;
pub mod config;
pub mod daemon;
pub mod doctor;
pub mod document;
pub mod failure;
pub mod files;
pub mod json;
pub mod paths;
pub mod request;
pub mod service;
pub mod stream;
pub mod tdjson;
pub mod text;
