//! The structured player-state schema, as far as the core consumes it.
//!
//! The server describes its state with small integer codes for the
//! enumerated fields; `code` and `from_code` fix that wire mapping here.
//! The numeric progress and duration fields of the payload are not part of
//! this model: they are read off at the edge that parses the payload.

use vstd::prelude::*;
use vstd::string::StringExecFns;

verus! {

/// What the player is doing right now.
pub enum PlaybackState {
    Unknown,
    Paused,
    Playing,
    Buffering,
}

impl PlaybackState {
    /// The wire code of the state.
    pub fn code(&self) -> (r: i8)
        ensures
            r == match *self {
                PlaybackState::Unknown => -1int,
                PlaybackState::Paused => 0int,
                PlaybackState::Playing => 1int,
                PlaybackState::Buffering => 2int,
            },
    {
        match self {
            PlaybackState::Unknown => -1,
            PlaybackState::Paused => 0,
            PlaybackState::Playing => 1,
            PlaybackState::Buffering => 2,
        }
    }

    /// The state a wire code names, if any.
    pub fn from_code(c: i8) -> (r: Option<PlaybackState>)
        ensures
            match r {
                Some(s) => s.code_view() == c as int,
                None => !(-1 <= c <= 2),
            },
    {
        match c {
            -1 => Some(PlaybackState::Unknown),
            0 => Some(PlaybackState::Paused),
            1 => Some(PlaybackState::Playing),
            2 => Some(PlaybackState::Buffering),
            _ => None,
        }
    }

    /// The wire code, as the contracts speak of it.
    pub open spec fn code_view(self) -> int {
        match self {
            PlaybackState::Unknown => -1,
            PlaybackState::Paused => 0,
            PlaybackState::Playing => 1,
            PlaybackState::Buffering => 2,
        }
    }

    /// The state's name, as shown in the status line.
    pub fn label(&self) -> (r: String)
        ensures
            r@ == match *self {
                PlaybackState::Unknown => "Unknown"@,
                PlaybackState::Paused => "Paused"@,
                PlaybackState::Playing => "Playing"@,
                PlaybackState::Buffering => "Buffering"@,
            },
    {
        match self {
            PlaybackState::Unknown => String::from_str("Unknown"),
            PlaybackState::Paused => String::from_str("Paused"),
            PlaybackState::Playing => String::from_str("Playing"),
            PlaybackState::Buffering => String::from_str("Buffering"),
        }
    }
}

/// How the queue repeats: not at all, all songs, or one song.
pub enum RepeatMode {
    Unknown,
    /// No repeat at all (wire code 0).
    Off,
    All,
    One,
}

impl RepeatMode {
    /// The wire code, as the contracts speak of it.
    pub open spec fn code_view(self) -> int {
        match self {
            RepeatMode::Unknown => -1,
            RepeatMode::Off => 0,
            RepeatMode::All => 1,
            RepeatMode::One => 2,
        }
    }

    /// The wire code of the mode.
    pub fn code(&self) -> (r: i8)
        ensures
            r == self.code_view(),
    {
        match self {
            RepeatMode::Unknown => -1,
            RepeatMode::Off => 0,
            RepeatMode::All => 1,
            RepeatMode::One => 2,
        }
    }

    /// The mode a wire code names, if any.
    pub fn from_code(c: i8) -> (r: Option<RepeatMode>)
        ensures
            match r {
                Some(m) => m.code_view() == c as int,
                None => !(-1 <= c <= 2),
            },
    {
        match c {
            -1 => Some(RepeatMode::Unknown),
            0 => Some(RepeatMode::Off),
            1 => Some(RepeatMode::All),
            2 => Some(RepeatMode::One),
            _ => None,
        }
    }
}

/// The user's standing toward the current song.
pub enum LikeState {
    Unknown,
    Dislike,
    Indifferent,
    Like,
}

impl LikeState {
    /// The wire code, as the contracts speak of it.
    pub open spec fn code_view(self) -> int {
        match self {
            LikeState::Unknown => -1,
            LikeState::Dislike => 0,
            LikeState::Indifferent => 1,
            LikeState::Like => 2,
        }
    }

    /// The wire code of the standing.
    pub fn code(&self) -> (r: i8)
        ensures
            r == self.code_view(),
    {
        match self {
            LikeState::Unknown => -1,
            LikeState::Dislike => 0,
            LikeState::Indifferent => 1,
            LikeState::Like => 2,
        }
    }

    /// The standing a wire code names, if any.
    pub fn from_code(c: i8) -> (r: Option<LikeState>)
        ensures
            match r {
                Some(s) => s.code_view() == c as int,
                None => !(-1 <= c <= 2),
            },
    {
        match c {
            -1 => Some(LikeState::Unknown),
            0 => Some(LikeState::Dislike),
            1 => Some(LikeState::Indifferent),
            2 => Some(LikeState::Like),
            _ => None,
        }
    }
}

/// What kind of video is playing.
pub enum VideoType {
    Unknown,
    Audio,
    Video,
    Uploaded,
    Podcast,
}

impl VideoType {
    /// The wire code, as the contracts speak of it.
    pub open spec fn code_view(self) -> int {
        match self {
            VideoType::Unknown => -1,
            VideoType::Audio => 0,
            VideoType::Video => 1,
            VideoType::Uploaded => 2,
            VideoType::Podcast => 3,
        }
    }

    /// The wire code of the kind.
    pub fn code(&self) -> (r: i8)
        ensures
            r == self.code_view(),
    {
        match self {
            VideoType::Unknown => -1,
            VideoType::Audio => 0,
            VideoType::Video => 1,
            VideoType::Uploaded => 2,
            VideoType::Podcast => 3,
        }
    }

    /// The kind a wire code names, if any.
    pub fn from_code(c: i8) -> (r: Option<VideoType>)
        ensures
            match r {
                Some(t) => t.code_view() == c as int,
                None => !(-1 <= c <= 3),
            },
    {
        match c {
            -1 => Some(VideoType::Unknown),
            0 => Some(VideoType::Audio),
            1 => Some(VideoType::Video),
            2 => Some(VideoType::Uploaded),
            3 => Some(VideoType::Podcast),
            _ => None,
        }
    }
}

/// One artwork of a queue entry.
pub struct ThumbnailState {
    pub url: String,
    pub width: u32,
    pub height: u32,
}

/// One entry of the queue.
pub struct QueueItemState {
    pub thumbnails: Vec<ThumbnailState>,
    pub title: String,
    pub author: String,
    pub duration: String,
    /// Whether this entry is the one currently selected.
    pub selected: bool,
    pub video_id: String,
    pub counterparts: Option<Vec<QueueItemState>>,
}

/// The queue the player is working through.
pub struct QueueState {
    pub autoplay: bool,
    pub items: Vec<QueueItemState>,
    /// Entries the player appended on its own.
    pub automix_items: Vec<QueueItemState>,
    pub is_generating: bool,
    pub is_infinite: bool,
    pub repeat_mode: RepeatMode,
    pub selected_item_index: isize,
}

} // verus!
