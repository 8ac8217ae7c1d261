//! Playback coordination core of a terminal music player.
//!
//! The library models the part of the player that owns a playback session:
//! the shared track queue, the control-command protocol, the poller that
//! applies commands against the media engine and re-submits the queue when
//! the engine reaches its last entry, and the playlist payload decoding.
//! The media engine itself (decoding, audio output, network resolution) and
//! the terminal presentation layer are external collaborators; the session
//! driver around this library performs their I/O and feeds plain values in.

mod control;
mod engine;
mod loader;
mod meta;
mod playlist;
mod poller;
mod queue;
mod session;
mod status;

pub use control::decreased_volume;
pub use control::increased_volume;
pub use control::DEFAULT_VOL;
pub use control::VanControl;
pub use engine::initial_engine;
pub use engine::obs_count;
pub use engine::obs_filename;
pub use engine::obs_media;
pub use engine::obs_pause;
pub use engine::obs_pos;
pub use engine::obs_volume;
pub use engine::EngineError;
pub use engine::EngineModel;
pub use engine::EngineView;
pub use loader::run_loader;
pub use loader::spec_loader;
pub use meta::select_media_meta;
pub use meta::ResolvedSource;
pub use meta::YtdlMediaMeta;
pub use playlist::find_index;
pub use playlist::parse_playlist;
pub use playlist::parse_playlist_chars;
pub use playlist::spec_parse_playlist;
pub use playlist::PlayListItem;
pub use playlist::PlayListItemView;
pub use playlist::PlaylistError;
pub use poller::lemma_at_most_one_command;
pub use poller::lemma_continuation_policy;
pub use poller::lemma_exit_only_from_exit;
pub use poller::lemma_exit_stops;
pub use poller::lemma_jump_exact;
pub use poller::lemma_pause_toggle;
pub use poller::lemma_run_steps_append;
pub use poller::lemma_volume_writes;
pub use poller::lemma_weak_navigation_boundary;
pub use poller::opt_errs;
pub use poller::poll_iteration;
pub use poller::poll_step;
pub use poller::reload_decision;
pub use poller::run_poller;
pub use poller::run_steps;
pub use poller::should_reload;
pub use poller::spec_apply_command;
pub use poller::spec_continuation;
pub use poller::PollOutcome;
pub use poller::PollStepView;
pub use poller::RunOutcome;
pub use poller::RunView;
pub use queue::LoadMode;
pub use queue::Track;
pub use queue::TrackQueue;
pub use queue::TrackView;
pub use session::run_session;
pub use session::session_spec;
pub use session::SessionOutcome;
pub use status::media_info_from_parts;
pub use status::MediaInfo;
pub use status::MediaInfoView;
pub use status::PlayStatus;
pub use status::PlayStatusView;
pub use status::status_of;
pub use status::statuses_view;
