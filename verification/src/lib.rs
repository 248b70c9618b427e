//! Verified core of the Telephone-Booth terminal operator console.

pub mod actions;
pub mod audit;
pub mod auth;
pub mod bodies;
pub mod booth;
pub mod chrome;
pub mod cli;
pub mod clock;
pub mod debug_panes;
pub mod details;
pub mod dispatch;
pub mod edits;
pub mod format;
pub mod health;
pub mod hints;
pub mod icons;
pub mod keymap;
pub mod keys;
pub mod live;
pub mod modal;
pub mod nav;
pub mod onboarding;
pub mod polling;
pub mod remote;
pub mod rows;
pub mod screens;
pub mod startup;
pub mod stats;
pub mod text;
pub mod theme;
pub mod toast;
