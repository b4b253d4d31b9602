use vstd::prelude::*;

verus! {

/// Why a track's description could not be read.
#[derive(Clone, Copy, Debug, PartialEq, Eq, Structural)]
pub enum TrackError {
    /// The path cannot be opened, or holds no recognised audio format.
    UnreadableFile,
}

/// A description of an audio file, for display. Fields that could not be
/// determined are absent.
pub struct Track {
    pub path: String,
    pub title: Option<String>,
    pub artist: Option<String>,
    pub album: Option<String>,
    /// Length in milliseconds.
    pub duration_ms: Option<u64>,
}

/// A tag value as a track keeps it: an empty one says nothing and is absent.
pub open spec fn kept_tag(tag: Option<Seq<char>>) -> Option<Seq<char>> {
    match tag {
        Some(t) => if t.len() == 0 {
            None
        } else {
            Some(t)
        },
        None => None,
    }
}

/// A length as a track keeps it: zero says nothing and is absent.
pub open spec fn kept_duration(ms: Option<u64>) -> Option<u64> {
    match ms {
        Some(d) => if d == 0 {
            None
        } else {
            Some(d)
        },
        None => None,
    }
}

pub open spec fn tag_view(tag: Option<String>) -> Option<Seq<char>> {
    match tag {
        Some(t) => Some(t@),
        None => None,
    }
}

fn keep_tag(tag: Option<String>) -> (r: Option<String>)
    ensures
        tag_view(r) == kept_tag(tag_view(tag)),
{
    match tag {
        Some(t) => if t.as_str().is_empty() {
            None
        } else {
            Some(t)
        },
        None => None,
    }
}

impl Track {
    /// A track of which nothing but the path is known.
    pub fn new(path: String) -> (r: Track)
        ensures
            r.path@ == path@,
            r.title is None,
            r.artist is None,
            r.album is None,
            r.duration_ms is None,
    {
        Track { path, title: None, artist: None, album: None, duration_ms: None }
    }

    /// A track from the tags read out of its file; empty tags and a zero
    /// length are taken as undetermined.
    pub fn from_tags(
        path: String,
        title: Option<String>,
        artist: Option<String>,
        album: Option<String>,
        duration_ms: Option<u64>,
    ) -> (r: Track)
        ensures
            r.path@ == path@,
            tag_view(r.title) == kept_tag(tag_view(title)),
            tag_view(r.artist) == kept_tag(tag_view(artist)),
            tag_view(r.album) == kept_tag(tag_view(album)),
            r.duration_ms == kept_duration(duration_ms),
    {
        let duration_ms = match duration_ms {
            Some(d) => if d == 0 {
                None
            } else {
                Some(d)
            },
            None => None,
        };
        Track {
            path,
            title: keep_tag(title),
            artist: keep_tag(artist),
            album: keep_tag(album),
            duration_ms,
        }
    }
}

} // verus!
