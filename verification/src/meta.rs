//! Choosing display metadata from a resolved source description.
//!
//! Before playback, an external resolver can look a source up and report
//! either a whole playlist or a single video. The rule for what to show is
//! the same either way: a playlist shows its own title and its uploader,
//! falling back to the uploader of its first entry; a single video shows
//! its title and uploader. The resolver call itself is the session
//! driver's; this module holds the rule.

use vstd::prelude::*;

verus! {

/// The value of an optional string.
pub open spec fn opt_str_view(o: Option<String>) -> Option<Seq<char>> {
    match o {
        Some(s) => Some(s@),
        None => None,
    }
}

/// Title and uploader to show for one source, either possibly unknown.
#[derive(Debug, PartialEq)]
pub struct YtdlMediaMeta {
    pub title: Option<String>,
    pub uploader: Option<String>,
}

/// What the resolver reported of a source: a playlist with its own
/// metadata and possibly a first entry, or a single video.
pub enum ResolvedSource {
    Playlist { title: Option<String>, uploader: Option<String>, first_entry_uploader: Option<String> },
    Single { title: String, uploader: Option<String> },
}

/// The display-metadata rule: a playlist keeps its title and falls back
/// from its own uploader to its first entry's; a single video keeps its
/// title and uploader as they are.
pub fn select_media_meta(src: ResolvedSource) -> (r: YtdlMediaMeta)
    ensures
        (match src {
            ResolvedSource::Playlist { title, uploader, first_entry_uploader } => {
                &&& opt_str_view(r.title) == opt_str_view(title)
                &&& opt_str_view(r.uploader) == (if uploader is Some {
                    opt_str_view(uploader)
                } else {
                    opt_str_view(first_entry_uploader)
                })
            },
            ResolvedSource::Single { title, uploader } => {
                &&& opt_str_view(r.title) == Some(title@)
                &&& opt_str_view(r.uploader) == opt_str_view(uploader)
            },
        }),
{
    match src {
        ResolvedSource::Playlist { title, uploader, first_entry_uploader } => {
            let chosen = match uploader {
                Some(u) => Some(u),
                None => first_entry_uploader,
            };
            YtdlMediaMeta { title, uploader: chosen }
        },
        ResolvedSource::Single { title, uploader } => {
            YtdlMediaMeta { title: Some(title), uploader }
        },
    }
}

} // verus!
