//! The logic of the agent daemon: wire protocol, supervision, sessions.
pub mod acp;
pub mod agent_engine;
pub mod agent_roster;
pub mod auto_compaction;
pub mod branch_navigation;
pub mod compaction;
pub mod create_reuse;
pub mod engine;
pub mod ids;
pub mod json;
pub mod laws;
pub mod lease;
pub mod mcp_connections;
pub mod messaging;
pub mod paths;
pub mod peer_tickets;
pub mod platform;
pub mod protocol;
pub mod rlm_children;
pub mod roster_activity;
pub mod scheduled_jobs;
pub mod session_commands;
pub mod session_navigation;
pub mod session_usage;
pub mod session_window;
pub mod socket;
pub mod status_line;
pub mod streaming;
pub mod supervisor;
pub mod text;
pub mod worker;
