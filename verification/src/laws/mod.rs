//! What the library promises of its operations as a whole: each law relates what
//! an operation is given to what comes of it, over any number of calls.
pub mod attempts;
pub mod children;
pub mod compactions;
pub mod editors;
pub mod forwarding;
pub mod jobs;
pub mod listing;
pub mod navigation;
pub mod replacement;
pub mod roster;
pub mod routing;
pub mod scripted;
pub mod sessions;
pub mod settings;
pub mod sharing;
pub mod status;
pub mod supervision;
pub mod texts;
pub mod turns;
pub mod wire;
