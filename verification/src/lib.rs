//! Discordia: the rules behind a Discord bot that answers users according to
//! how fond it is of them, keeps their economy and level records, and plays
//! music from a queue.

pub mod affinity;
pub mod anima;
pub mod commands;
pub mod tags;
pub mod response;
pub mod formatting;
pub mod database;
pub mod user;
pub mod music;
pub mod orchestra;
pub mod bot;
pub mod table;
pub mod embed;
pub mod text;

