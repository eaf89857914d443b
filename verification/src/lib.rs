//! Verified core of the GlobalTelco game server: the decisions, limits and
//! data transformations that the network handlers rely on.

pub mod chat;
pub mod text;
pub mod ieee;
pub mod command;
pub mod clock;
pub mod rate_limit;
pub mod filtering;
pub mod speed;
pub mod world;
pub mod profiling;
pub mod ids;
pub mod accounts;
pub mod server;
pub mod auth;
pub mod config;
pub mod session;
pub mod storage;
pub mod admin;
pub mod profile;
pub mod tick;
pub mod social;
