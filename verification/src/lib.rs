//! Guild configuration and command decisions for a chat bot: the cowboard
//! (reaction-triggered message reposting) settings, music playback command
//! decisions, and the slash-command dispatch shim's message synthesis.

mod cowboard;
mod interactions;
mod music;
mod text;

pub use cowboard::Cowboard;
pub use cowboard::ThresholdError;
pub use cowboard::WebhookAction;
pub use interactions::command_content;
pub use music::JoinDecision;
pub use music::JoinOutcome;
pub use music::LeaveDecision;
pub use music::NowPlayingStatus;
pub use music::PlayRoute;
pub use music::SkipStatus;
pub use music::join_decision;
pub use music::join_outcome;
pub use music::leave_decision;
pub use music::now_playing_reply;
pub use music::play_route;
pub use music::queue_choice;
pub use music::skip_reply;
pub use text::channel_mention;
pub use text::u64_to_string;
pub use text::user_mention;
