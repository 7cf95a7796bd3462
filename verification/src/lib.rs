//! Local control plane, wire contracts and desktop decisions of WikiSyncer.

pub mod administration;
pub mod anchors;
pub mod application;
pub mod cli;
pub mod client;
pub mod codec;
pub mod codec_laws;
pub mod collection;
pub mod collection_panels;
pub mod control;
pub mod control_plane;
pub mod creation;
pub mod daemon;
pub mod daemon_laws;
pub mod desktop;
pub mod desktop_create;
pub mod desktop_dump;
pub mod desktop_edit;
pub mod desktop_library;
pub mod desktop_policy;
pub mod desktop_purge;
pub mod desktop_trust;
pub mod desktop_update;
pub mod draft_codec;
pub mod draft_decoder;
pub mod draft_laws;
pub mod dump_bootstrap;
pub mod dump_codec;
pub mod dump_form;
pub mod dump_laws;
pub mod dump_receipt;
pub mod error;
pub mod extension;
pub mod forms;
pub mod forms_laws;
pub mod frame;
pub mod labels;
pub mod layout_laws;
pub mod model;
pub mod network;
pub mod panels;
pub mod paths;
pub mod protocol;
pub mod purge;
pub mod purge_dialog;
pub mod purge_laws;
pub mod purge_session;
pub mod schedule;
pub mod snapshot;
pub mod source;
pub mod staging;
pub mod stored;
pub mod sync_panel;
pub mod tasks;
pub mod text;
pub mod upload;
pub mod user_agent;
pub mod wire;
