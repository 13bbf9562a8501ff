//! Verified core of a clipboard-access plugin.
//!
//! The library models the desktop clipboard coordination logic: a tagged
//! content model over the formats a clipboard can hold, the store that keeps
//! the coordinated view of the clipboard, the watch lifecycle that guarantees
//! a single active change watcher, the content-addressed image cache, and the
//! best-effort file-size aggregation. An unverified shell performs the native
//! clipboard calls and hands plain values in and out.

mod cache;
mod content;
mod error;
mod files;
mod laws;
mod models;
mod service;
mod state;
mod watch;

pub use cache::FNV_OFFSET;
pub use cache::FNV_PRIME;
pub use cache::ImageCache;
pub use cache::cache_insert;
pub use cache::cache_needs_write;
pub use cache::dec_view;
pub use cache::digit_char;
pub use cache::fnv1a64;
pub use cache::fnv1a_of;
pub use cache::fnv1a_step;
pub use cache::image_cache_path;
pub use cache::image_file_name;
pub use cache::image_path_view;
pub use cache::lemma_image_read_idempotent;
pub use cache::u64_to_dec;
pub use content::ClipboardContentValue;
pub use content::ClipboardFormat;
pub use content::ContentView;
pub use content::ImageData;
pub use content::ImageView;
pub use content::clone_strings;
pub use content::copy_bytes;
pub use content::format_of_view;
pub use error::ClipboardError;
pub use files::FileSizeProbe;
pub use files::build_read_files;
pub use files::lemma_empty_file_list_total;
pub use files::lemma_total_nonneg;
pub use files::sat_u64;
pub use files::size_or_zero;
pub use files::total_of;
pub use laws::lemma_clear_all_absent;
pub use laws::lemma_empty_file_list_read;
pub use laws::lemma_write_files_round_trip;
pub use laws::lemma_write_html_round_trip;
pub use laws::lemma_write_image_round_trip;
pub use laws::lemma_write_rtf_round_trip;
pub use laws::lemma_write_text_round_trip;
pub use models::FileItem;
pub use models::ReadFiles;
pub use models::ReadImage;
pub use service::ClipboardService;
pub use service::ReadImagePlan;
pub use service::ServiceView;
pub use service::extract_single;
pub use service::files_request;
pub use service::finish_read_image;
pub use service::first_string_match;
pub use service::get_file_path;
pub use service::html_request;
pub use service::image_request;
pub use service::rtf_request;
pub use service::string_of;
pub use service::text_request;
pub use state::ClipboardState;
pub use state::StateView;
pub use state::apply_value;
pub use state::apply_values;
pub use state::contents_for;
pub use state::empty_view;
pub use state::lemma_contents_for_push;
pub use state::present;
pub use state::set_result;
pub use state::slot_contents;
pub use watch::WatchLifecycle;
pub use watch::WatchPlan;
pub use watch::active_watchers;
pub use watch::lemma_start_twice_single_watcher;
pub use watch::lemma_stop_idle_noop;
pub use watch::start_watch_spec;
pub use watch::stop_watch_spec;
