//! Verified core of the DanceBattleZ web client: the decisions that the
//! pages and components take between their network calls and their
//! rendering, written as plain functions over plain values.

pub mod text;
pub mod status;
pub mod notification;
pub mod pagination;
pub mod reply;
pub mod vote;
pub mod signed_vote;
pub mod callout;
pub mod battle;
pub mod live_battle;
pub mod router;
pub mod session;
pub mod auth;
pub mod time;
pub mod profile;
pub mod admin;
pub mod vote_list;
pub mod battle_reply;
pub mod main_menu;
