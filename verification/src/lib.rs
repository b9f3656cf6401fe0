//! Call, media and feature policy of an SCCP channel driver.

pub mod access;
pub mod backend;
pub mod background;
pub mod bridge;
pub mod call_control;
pub mod call_service;
pub mod channel;
pub mod cli;
pub mod codecs;
pub mod collect;
pub mod commands;
pub mod completion;
pub mod conference;
pub mod config;
pub mod controller;
pub mod diagnostics;
pub mod dnd_schedule;
pub mod effect_run;
pub mod effects;
pub mod encryption;
pub mod events;
pub mod features;
pub mod forwarding;
pub mod handset;
pub mod hold;
pub mod ids;
pub mod lifecycle;
pub mod lookup;
pub mod management;
pub mod media;
pub mod media_events;
pub mod mobility;
pub mod model;
pub mod parking;
pub mod phone_events;
pub mod preferences;
pub mod presence;
pub mod presence_owner;
pub mod prompts;
pub mod providers;
pub mod queries;
pub mod recording;
pub mod session;
pub mod startup;
pub mod status;
pub mod text;
pub mod transfer;
pub mod voicemail;
