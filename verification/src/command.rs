//! The resolved command descriptor: which request a single invocation makes.
//!
//! A value of [`Command`] is built once from the parsed command line and never
//! mutated. Its accessors say exactly which JSON body, which path and which
//! server address the one HTTP request of this invocation uses.

use vstd::prelude::*;
use vstd::string::StringExecFns;

verus! {

/// Options shared by every zero-argument command.
pub struct BaseArgs {
    /// Optional pre-request delay, as the raw text given on the command line.
    pub delay: Option<String>,
    /// Address of the companion server.
    pub server_addr: String,
    /// Parser-friendly output for commands with output (currently unused).
    pub script_mode: bool,
}

/// Options of the command that changes the playing video or playlist.
pub struct VideoChangeArgs {
    pub video: Option<String>,
    pub playlist: Option<String>,
    pub delay: Option<String>,
    pub server_addr: String,
}

/// Options of the commands that carry one numeric argument.
pub struct TargetArgs {
    /// Decimal rendering of the numeric target, as spliced into the body.
    pub target: String,
    pub delay: Option<String>,
    pub server_addr: String,
}

/// One resolved invocation of the client.
pub enum Command {
    /// Report what the player is currently doing.
    State(BaseArgs),
    /// List the user's playlists.
    Playlists(BaseArgs),
    /// Toggle playback (the default command).
    PlayPause(BaseArgs),
    Play(BaseArgs),
    Pause(BaseArgs),
    VolumeUp(BaseArgs),
    VolumeDown(BaseArgs),
    /// Set the volume to a percentage.
    Volume(TargetArgs),
    Mute(BaseArgs),
    Unmute(BaseArgs),
    /// Seek to a number of seconds into the song.
    Seek(TargetArgs),
    Next(BaseArgs),
    Previous(BaseArgs),
    RepeatNone(BaseArgs),
    RepeatAll(BaseArgs),
    RepeatSingle(BaseArgs),
    Shuffle(BaseArgs),
    /// Jump to an index in the queue.
    Jumpto(TargetArgs),
    Like(BaseArgs),
    Dislike(BaseArgs),
    /// Change playback to a given video and/or playlist.
    Open(VideoChangeArgs),
}

/// A string option as it is spliced into a JSON body: quoted, or `null`.
pub open spec fn json_opt_str(o: Option<String>) -> Seq<char> {
    match o {
        None => "null"@,
        Some(s) => "\""@ + s@ + "\""@,
    }
}

/// The exact JSON body the command sends; empty for the read commands.
pub open spec fn body_view(c: Command) -> Seq<char> {
    match c {
        Command::State(_) => Seq::empty(),
        Command::Playlists(_) => Seq::empty(),
        Command::PlayPause(_) => "{\"command\":\"playPause\"}"@,
        Command::Play(_) => "{\"command\":\"play\"}"@,
        Command::Pause(_) => "{\"command\":\"pause\"}"@,
        Command::VolumeUp(_) => "{\"command\":\"volumeUp\"}"@,
        Command::VolumeDown(_) => "{\"command\":\"volumeDown\"}"@,
        Command::Volume(a) => "{\"command\":\"setVolume\", \"data\": "@ + a.target@ + "}"@,
        Command::Mute(_) => "{\"command\":\"mute\"}"@,
        Command::Unmute(_) => "{\"command\":\"unmute\"}"@,
        Command::Seek(a) => "{\"command\":\"seekTo\", \"data\": "@ + a.target@ + "}"@,
        Command::Next(_) => "{\"command\":\"next\"}"@,
        Command::Previous(_) => "{\"command\":\"previous\"}"@,
        Command::RepeatNone(_) => "{\"command\":\"repeatMode\", \"data\": 0}"@,
        Command::RepeatAll(_) => "{\"command\":\"repeatMode\", \"data\": 1}"@,
        Command::RepeatSingle(_) => "{\"command\":\"repeatMode\", \"data\": 2}"@,
        Command::Shuffle(_) => "{\"command\":\"shuffle\"}"@,
        Command::Jumpto(a) => "{\"command\":\"playQueueIndex\", \"data\": "@ + a.target@ + "}"@,
        Command::Like(_) => "{\"command\":\"toggleLike\"}"@,
        Command::Dislike(_) => "{\"command\":\"toggleDislike\"}"@,
        Command::Open(a) => "{\"command\":\"changeVideo\", \"data\": { \"videoId\": "@
            + json_opt_str(a.video) + ", \"playlistId\": "@ + json_opt_str(a.playlist) + " } }"@,
    }
}

/// The raw delay text of the command, if one was given.
pub open spec fn delay_view(c: Command) -> Option<Seq<char>> {
    let d = match c {
        Command::State(a) => a.delay,
        Command::Playlists(a) => a.delay,
        Command::PlayPause(a) => a.delay,
        Command::Play(a) => a.delay,
        Command::Pause(a) => a.delay,
        Command::VolumeUp(a) => a.delay,
        Command::VolumeDown(a) => a.delay,
        Command::Volume(a) => a.delay,
        Command::Mute(a) => a.delay,
        Command::Unmute(a) => a.delay,
        Command::Seek(a) => a.delay,
        Command::Next(a) => a.delay,
        Command::Previous(a) => a.delay,
        Command::RepeatNone(a) => a.delay,
        Command::RepeatAll(a) => a.delay,
        Command::RepeatSingle(a) => a.delay,
        Command::Shuffle(a) => a.delay,
        Command::Jumpto(a) => a.delay,
        Command::Like(a) => a.delay,
        Command::Dislike(a) => a.delay,
        Command::Open(a) => a.delay,
    };
    match d {
        None => None,
        Some(s) => Some(s@),
    }
}

/// The server address the command is aimed at.
pub open spec fn server_addr_view(c: Command) -> Seq<char> {
    match c {
        Command::State(a) => a.server_addr@,
        Command::Playlists(a) => a.server_addr@,
        Command::PlayPause(a) => a.server_addr@,
        Command::Play(a) => a.server_addr@,
        Command::Pause(a) => a.server_addr@,
        Command::VolumeUp(a) => a.server_addr@,
        Command::VolumeDown(a) => a.server_addr@,
        Command::Volume(a) => a.server_addr@,
        Command::Mute(a) => a.server_addr@,
        Command::Unmute(a) => a.server_addr@,
        Command::Seek(a) => a.server_addr@,
        Command::Next(a) => a.server_addr@,
        Command::Previous(a) => a.server_addr@,
        Command::RepeatNone(a) => a.server_addr@,
        Command::RepeatAll(a) => a.server_addr@,
        Command::RepeatSingle(a) => a.server_addr@,
        Command::Shuffle(a) => a.server_addr@,
        Command::Jumpto(a) => a.server_addr@,
        Command::Like(a) => a.server_addr@,
        Command::Dislike(a) => a.server_addr@,
        Command::Open(a) => a.server_addr@,
    }
}

/// True of the two commands that read information rather than act.
pub open spec fn is_read(c: Command) -> bool {
    c is State || c is Playlists
}

/// The API path of a read command.
pub open spec fn path_view(c: Command) -> Option<Seq<char>> {
    match c {
        Command::State(_) => Some("state"@),
        Command::Playlists(_) => Some("playlists"@),
        _ => None,
    }
}

fn quoted_or_null(o: &Option<String>) -> (r: String)
    ensures
        r@ == json_opt_str(*o),
{
    match o {
        None => String::from_str("null"),
        Some(s) => String::from_str("\"").concat(s.as_str()).concat("\""),
    }
}

impl Command {
    /// The JSON body sent with the request; empty for read commands.
    pub fn get_body(&self) -> (r: String)
        ensures
            r@ == body_view(*self),
    {
        match self {
            Command::State(_) => String::new(),
            Command::Playlists(_) => String::new(),
            Command::PlayPause(_) => String::from_str("{\"command\":\"playPause\"}"),
            Command::Play(_) => String::from_str("{\"command\":\"play\"}"),
            Command::Pause(_) => String::from_str("{\"command\":\"pause\"}"),
            Command::VolumeUp(_) => String::from_str("{\"command\":\"volumeUp\"}"),
            Command::VolumeDown(_) => String::from_str("{\"command\":\"volumeDown\"}"),
            Command::Volume(a) => String::from_str("{\"command\":\"setVolume\", \"data\": ")
                .concat(a.target.as_str())
                .concat("}"),
            Command::Mute(_) => String::from_str("{\"command\":\"mute\"}"),
            Command::Unmute(_) => String::from_str("{\"command\":\"unmute\"}"),
            Command::Seek(a) => String::from_str("{\"command\":\"seekTo\", \"data\": ")
                .concat(a.target.as_str())
                .concat("}"),
            Command::Next(_) => String::from_str("{\"command\":\"next\"}"),
            Command::Previous(_) => String::from_str("{\"command\":\"previous\"}"),
            Command::RepeatNone(_) => String::from_str("{\"command\":\"repeatMode\", \"data\": 0}"),
            Command::RepeatAll(_) => String::from_str("{\"command\":\"repeatMode\", \"data\": 1}"),
            Command::RepeatSingle(_) => String::from_str("{\"command\":\"repeatMode\", \"data\": 2}"),
            Command::Shuffle(_) => String::from_str("{\"command\":\"shuffle\"}"),
            Command::Jumpto(a) => String::from_str("{\"command\":\"playQueueIndex\", \"data\": ")
                .concat(a.target.as_str())
                .concat("}"),
            Command::Like(_) => String::from_str("{\"command\":\"toggleLike\"}"),
            Command::Dislike(_) => String::from_str("{\"command\":\"toggleDislike\"}"),
            Command::Open(a) => {
                let video = quoted_or_null(&a.video);
                let playlist = quoted_or_null(&a.playlist);
                String::from_str("{\"command\":\"changeVideo\", \"data\": { \"videoId\": ")
                    .concat(video.as_str())
                    .concat(", \"playlistId\": ")
                    .concat(playlist.as_str())
                    .concat(" } }")
            },
        }
    }

    /// The API path of a read command, and nothing for a write command.
    pub fn get_path(&self) -> (r: Option<&'static str>)
        ensures
            match r {
                Some(p) => path_view(*self) == Some(p@),
                None => path_view(*self) is None,
            },
    {
        match self {
            Command::State(_) => Some("state"),
            Command::Playlists(_) => Some("playlists"),
            _ => None,
        }
    }

    /// Whether the request is issued as a GET.
    pub fn is_get_request(&self) -> (r: bool)
        ensures
            r == is_read(*self),
    {
        match self {
            Command::State(_) => true,
            Command::Playlists(_) => true,
            _ => false,
        }
    }

    /// The raw delay option given on the command line.
    pub fn get_delay(&self) -> (r: &Option<String>)
        ensures
            match r {
                Some(d) => delay_view(*self) == Some(d@),
                None => delay_view(*self) is None,
            },
    {
        match self {
            Command::State(a) => &a.delay,
            Command::Playlists(a) => &a.delay,
            Command::PlayPause(a) => &a.delay,
            Command::Play(a) => &a.delay,
            Command::Pause(a) => &a.delay,
            Command::VolumeUp(a) => &a.delay,
            Command::VolumeDown(a) => &a.delay,
            Command::Volume(a) => &a.delay,
            Command::Mute(a) => &a.delay,
            Command::Unmute(a) => &a.delay,
            Command::Seek(a) => &a.delay,
            Command::Next(a) => &a.delay,
            Command::Previous(a) => &a.delay,
            Command::RepeatNone(a) => &a.delay,
            Command::RepeatAll(a) => &a.delay,
            Command::RepeatSingle(a) => &a.delay,
            Command::Shuffle(a) => &a.delay,
            Command::Jumpto(a) => &a.delay,
            Command::Like(a) => &a.delay,
            Command::Dislike(a) => &a.delay,
            Command::Open(a) => &a.delay,
        }
    }

    /// The address of the server this command talks to.
    pub fn get_server_addr(&self) -> (r: &str)
        ensures
            r@ == server_addr_view(*self),
    {
        match self {
            Command::State(a) => a.server_addr.as_str(),
            Command::Playlists(a) => a.server_addr.as_str(),
            Command::PlayPause(a) => a.server_addr.as_str(),
            Command::Play(a) => a.server_addr.as_str(),
            Command::Pause(a) => a.server_addr.as_str(),
            Command::VolumeUp(a) => a.server_addr.as_str(),
            Command::VolumeDown(a) => a.server_addr.as_str(),
            Command::Volume(a) => a.server_addr.as_str(),
            Command::Mute(a) => a.server_addr.as_str(),
            Command::Unmute(a) => a.server_addr.as_str(),
            Command::Seek(a) => a.server_addr.as_str(),
            Command::Next(a) => a.server_addr.as_str(),
            Command::Previous(a) => a.server_addr.as_str(),
            Command::RepeatNone(a) => a.server_addr.as_str(),
            Command::RepeatAll(a) => a.server_addr.as_str(),
            Command::RepeatSingle(a) => a.server_addr.as_str(),
            Command::Shuffle(a) => a.server_addr.as_str(),
            Command::Jumpto(a) => a.server_addr.as_str(),
            Command::Like(a) => a.server_addr.as_str(),
            Command::Dislike(a) => a.server_addr.as_str(),
            Command::Open(a) => a.server_addr.as_str(),
        }
    }

    /// Whether output should be parser-friendly; only the read commands carry
    /// the flag, every other command reports false.
    pub fn is_script_mode(&self) -> (r: bool)
        ensures
            r == match *self {
                Command::State(a) => a.script_mode,
                Command::Playlists(a) => a.script_mode,
                _ => false,
            },
    {
        match self {
            Command::State(a) => a.script_mode,
            Command::Playlists(a) => a.script_mode,
            _ => false,
        }
    }
}

/// True of the one invocation that is rejected before any network call:
/// changing the video with neither a video nor a playlist given.
pub fn open_target_missing(c: &Command) -> (r: bool)
    ensures
        r <==> (c matches Command::Open(a) && a.video is None && a.playlist is None),
{
    match c {
        Command::Open(a) => a.video.is_none() && a.playlist.is_none(),
        _ => false,
    }
}

/// The explanation printed when the video-change command lacks both targets.
pub fn open_target_missing_message() -> (r: String)
    ensures
        r@ == "`open` requires either --video or --playlist to be specified"@,
{
    String::from_str("`open` requires either --video or --playlist to be specified")
}

} // verus!
