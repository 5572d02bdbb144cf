//! User settings: the defaults, the marker flags, and the path of the
//! settings file. Reading and writing the file, and the tolerant JSON
//! decoding with per-field fallback to these defaults, live with the
//! runtime; the library holds the decoded values.

use vstd::prelude::*;

verus! {

/// Where recordings are kept when the user configured nothing.
pub fn default_recordings_folder() -> (r: String)
    ensures
        r@ == "league_recordings"@,
{
    String::from_str("league_recordings")
}

/// Where clips are kept when the user configured nothing.
pub fn default_clips_folder() -> (r: String)
    ensures
        r@ == "league_recordings/clips"@,
{
    String::from_str("league_recordings/clips")
}

/// The default strftime pattern for recording file names.
pub fn default_filename_format() -> (r: String)
    ensures
        r@ == "%Y-%m-%d_%H-%M.mp4"@,
{
    String::from_str("%Y-%m-%d_%H-%M.mp4")
}

/// The path of the settings file.
#[derive(Debug)]
pub struct SettingsFile {
    pub path: String,
}

impl SettingsFile {
    /// Remember the settings file path.
    pub fn new(path: String) -> (r: SettingsFile)
        ensures
            r.path == path,
    {
        SettingsFile { path }
    }

    /// The remembered path.
    pub fn get(&self) -> (r: &str)
        ensures
            r@ == self.path@,
    {
        self.path.as_str()
    }
}

/// Which event kinds the GUI shows markers for.
#[derive(Clone, Copy, Debug, PartialEq, Eq, Structural)]
pub struct MarkerFlags {
    pub kill: bool,
    pub death: bool,
    pub assist: bool,
    pub structure: bool,
    pub dragon: bool,
    pub voidgrub: bool,
    pub herald: bool,
    pub baron: bool,
}

impl Default for MarkerFlags {
    /// Every marker enabled.
    fn default() -> (r: MarkerFlags)
        ensures
            r == (MarkerFlags {
                kill: true,
                death: true,
                assist: true,
                structure: true,
                dragon: true,
                voidgrub: true,
                herald: true,
                baron: true,
            }),
    {
        MarkerFlags {
            kill: true,
            death: true,
            assist: true,
            structure: true,
            dragon: true,
            voidgrub: true,
            herald: true,
            baron: true,
        }
    }
}

/// A fixed output resolution.
#[derive(Clone, Copy, Debug, PartialEq, Eq, Structural)]
pub struct Resolution {
    pub width: u32,
    pub height: u32,
}

/// A framerate as a rational number of frames per second.
#[derive(Clone, Copy, Debug, PartialEq, Eq, Structural)]
pub struct Framerate {
    pub num: u32,
    pub den: u32,
}

/// Where recorded audio comes from.
#[derive(Clone, Copy, Debug, PartialEq, Eq, Structural)]
pub enum AudioSource {
    /// Only the game's own audio.
    Application,
    /// The whole system mix.
    System,
    /// Every input, microphone included.
    All,
    /// No audio at all.
    Muted,
}

/// The user's settings, as the library reads them. Resolutions and
/// framerates are plain number pairs; the scoreboard scale is carried
/// in percent.
#[derive(Clone, Debug)]
pub struct Settings {
    pub marker_flags: MarkerFlags,
    pub debug_log: bool,
    pub recordings_folder: String,
    pub clips_folder: String,
    pub filename_format: String,
    pub encoding_quality: u32,
    pub output_resolution: Option<Resolution>,
    pub framerate: Framerate,
    pub record_audio: AudioSource,
    pub autostart: bool,
    pub max_recording_age_days: Option<u64>,
    pub max_recordings_size_gb: Option<u64>,
    pub confirm_delete: bool,
    pub hightlight_hotkey: Option<String>,
    pub start_recording_hotkey: Option<String>,
    pub stop_recording_hotkey: Option<String>,
    pub game_modes: Option<Vec<String>>,
    pub autoplay_video: bool,
    pub auto_stop_playback: bool,
    pub auto_select_recording: bool,
    pub auto_popup_on_end: bool,
    pub ffmpeg_path: Option<String>,
    pub developer_mode: bool,
    pub match_history_base_url: Option<String>,
    pub scroll_frame_step_modifier: Option<String>,
    pub scoreboard_scale_percent: Option<i64>,
}

impl Default for Settings {
    /// The defaults every missing or unreadable settings field falls
    /// back to.
    fn default() -> (r: Settings)
        ensures
            r.marker_flags == (MarkerFlags {
                kill: true,
                death: true,
                assist: true,
                structure: true,
                dragon: true,
                voidgrub: true,
                herald: true,
                baron: true,
            }),
            !r.debug_log,
            r.recordings_folder@ == "league_recordings"@,
            r.clips_folder@ == "league_recordings/clips"@,
            r.filename_format@ == "%Y-%m-%d_%H-%M.mp4"@,
            r.encoding_quality == 25u32,
            r.output_resolution is None,
            r.framerate == (Framerate { num: 30, den: 1 }),
            r.record_audio == AudioSource::Application,
            !r.autostart,
            r.max_recording_age_days is None,
            r.max_recordings_size_gb is None,
            r.confirm_delete,
            r.hightlight_hotkey is None,
            r.start_recording_hotkey matches Some(k) && k@ == "F9"@,
            r.stop_recording_hotkey matches Some(k) && k@ == "F12"@,
            r.game_modes is None,
            !r.autoplay_video,
            !r.auto_stop_playback,
            !r.auto_select_recording,
            !r.auto_popup_on_end,
            r.ffmpeg_path is None,
            !r.developer_mode,
            r.match_history_base_url is None,
            r.scroll_frame_step_modifier matches Some(k) && k@ == "Shift"@,
            r.scoreboard_scale_percent is None,
    {
        Settings {
            marker_flags: MarkerFlags::default(),
            debug_log: false,
            recordings_folder: default_recordings_folder(),
            clips_folder: default_clips_folder(),
            filename_format: default_filename_format(),
            encoding_quality: 25,
            output_resolution: None,
            framerate: Framerate { num: 30, den: 1 },
            record_audio: AudioSource::Application,
            autostart: false,
            max_recording_age_days: None,
            max_recordings_size_gb: None,
            confirm_delete: true,
            hightlight_hotkey: None,
            start_recording_hotkey: Some(String::from_str("F9")),
            stop_recording_hotkey: Some(String::from_str("F12")),
            game_modes: None,
            autoplay_video: false,
            auto_stop_playback: false,
            auto_select_recording: false,
            auto_popup_on_end: false,
            ffmpeg_path: None,
            developer_mode: false,
            match_history_base_url: None,
            scroll_frame_step_modifier: Some(String::from_str("Shift")),
            scoreboard_scale_percent: None,
        }
    }
}

impl Settings {
    /// The allow-list of game modes; nothing means every mode.
    pub fn game_modes(&self) -> (r: &Option<Vec<String>>)
        ensures
            *r == self.game_modes,
    {
        &self.game_modes
    }

    /// Where recordings are written.
    pub fn get_recordings_path(&self) -> (r: String)
        ensures
            r == self.recordings_folder,
    {
        self.recordings_folder.clone()
    }

    /// Where clips are written.
    pub fn get_clips_path(&self) -> (r: String)
        ensures
            r == self.clips_folder,
    {
        self.clips_folder.clone()
    }

    /// The strftime pattern for recording file names.
    pub fn get_filename_format(&self) -> (r: String)
        ensures
            r == self.filename_format,
    {
        self.filename_format.clone()
    }

    /// The encoder quality setting.
    pub fn get_encoding_quality(&self) -> (r: u32)
        ensures
            r == self.encoding_quality,
    {
        self.encoding_quality
    }

    /// The fixed output resolution, if one is configured.
    pub fn get_output_resolution(&self) -> (r: Option<Resolution>)
        ensures
            r == self.output_resolution,
    {
        self.output_resolution
    }

    /// The capture framerate.
    pub fn get_framerate(&self) -> (r: Framerate)
        ensures
            r == self.framerate,
    {
        self.framerate
    }

    /// Which audio goes into the recording.
    pub fn get_audio_source(&self) -> (r: AudioSource)
        ensures
            r == self.record_audio,
    {
        self.record_audio
    }

    /// Whether the recorder starts with the system.
    pub fn autostart(&self) -> (r: bool)
        ensures
            r == self.autostart,
    {
        self.autostart
    }

    /// How many days recordings are kept, if a limit is configured.
    pub fn max_recording_age(&self) -> (r: Option<u64>)
        ensures
            r == self.max_recording_age_days,
    {
        self.max_recording_age_days
    }

    /// How large the recording library may grow, if a limit is
    /// configured.
    pub fn max_recordings_size(&self) -> (r: Option<u64>)
        ensures
            r == self.max_recordings_size_gb,
    {
        self.max_recordings_size_gb
    }

    /// Whether verbose logging was configured.
    pub fn debug_log(&self) -> (r: bool)
        ensures
            r == self.debug_log,
    {
        self.debug_log
    }

    /// The highlight hotkey, if one is configured.
    pub fn hightlight_hotkey(&self) -> (r: &Option<String>)
        ensures
            *r == self.hightlight_hotkey,
    {
        &self.hightlight_hotkey
    }

    /// The manual start hotkey, if one is configured.
    pub fn start_recording_hotkey(&self) -> (r: &Option<String>)
        ensures
            *r == self.start_recording_hotkey,
    {
        &self.start_recording_hotkey
    }

    /// The manual stop hotkey, if one is configured.
    pub fn stop_recording_hotkey(&self) -> (r: &Option<String>)
        ensures
            *r == self.stop_recording_hotkey,
    {
        &self.stop_recording_hotkey
    }

    /// The configured ffmpeg binary, if any.
    pub fn ffmpeg_path(&self) -> (r: &Option<String>)
        ensures
            *r == self.ffmpeg_path,
    {
        &self.ffmpeg_path
    }

    /// Whether playback stops when a recording ends.
    pub fn auto_stop_playback(&self) -> (r: bool)
        ensures
            r == self.auto_stop_playback,
    {
        self.auto_stop_playback
    }

    /// Whether the newest recording is selected automatically.
    pub fn auto_select_recording(&self) -> (r: bool)
        ensures
            r == self.auto_select_recording,
    {
        self.auto_select_recording
    }

    /// The marker flags.
    pub fn get_marker_flags(&self) -> (r: MarkerFlags)
        ensures
            r == self.marker_flags,
    {
        self.marker_flags
    }

    /// Replace the marker flags.
    pub fn set_marker_flags(&mut self, marker_flags: MarkerFlags)
        ensures
            *final(self) == (Settings { marker_flags, ..*old(self) }),
    {
        self.marker_flags = marker_flags;
    }

    /// Whether deleting a recording asks for confirmation.
    pub fn confirm_delete(&self) -> (r: bool)
        ensures
            r == self.confirm_delete,
    {
        self.confirm_delete
    }

    /// Set whether deleting a recording asks for confirmation.
    pub fn set_confirm_delete(&mut self, confirm_delete: bool)
        ensures
            *final(self) == (Settings { confirm_delete, ..*old(self) }),
    {
        self.confirm_delete = confirm_delete;
    }

    /// Whether the main window pops up when a recording finishes on its
    /// own.
    pub fn auto_popup_on_end(&self) -> (r: bool)
        ensures
            r == self.auto_popup_on_end,
    {
        self.auto_popup_on_end
    }
}

} // verus!
