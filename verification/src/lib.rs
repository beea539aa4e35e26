//! Verified core of the SynchroSonic LAN audio streaming application: domain
//! models, configuration repair, wire framing, receiver jitter buffering,
//! discovery bookkeeping, the sender/receiver session policies, and what the
//! interface shows and records about them.

pub mod seqs;
pub mod text;
pub mod audio;
pub mod net;
pub mod models;
pub mod error;
pub mod protocol;
pub mod config;
pub mod receiver;
pub mod buffer;
pub mod streaming;
pub mod diagnostics;
pub mod state;
pub mod discovery;
pub mod messages;
pub mod session;
pub mod targets;
pub mod playback;
pub mod worker;
pub mod pipewire;
pub mod metadata;
pub mod health;
pub mod browser_join;
pub mod startup;
pub mod logging;
pub mod presentation;
pub mod fanout;
pub mod report;
pub mod status;
pub mod monitor;
pub mod controls;
pub mod crash;
pub mod services;
