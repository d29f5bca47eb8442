//! Command lines for the external media tools, and the bookkeeping of the
//! conversion that is running.
//!
//! Nothing here starts a process or touches a file: the caller runs the
//! tools with the arguments built here and hands their output back.

use vstd::prelude::*;
use vstd::string::*;

verus! {

/// What the probe and the volume detection printed for one media file.
#[derive(Clone, Debug)]
pub struct MediaMetadata {
    pub metadata: String,
    pub volume: String,
}

/// The settings of an audio conversion. An empty volume leaves the volume
/// as it is.
#[derive(Clone, Debug)]
pub struct AudioOptions {
    pub audio_bitrate: String,
    pub audio_volume: String,
}

/// The settings of a video conversion. An empty field leaves that property
/// as it is.
#[derive(Clone, Debug)]
pub struct VideoOptions {
    pub audio_bitrate: String,
    pub audio_volume: String,
    pub size: String,
    pub rotation: String,
}

/// The conversion that is running: the file it writes and the process that
/// writes it.
#[derive(Clone, Debug)]
pub struct Conversion {
    pub current_file: String,
    pub command: Option<u32>,
}

/// The texts of a list of arguments, in order.
pub open spec fn texts(args: Seq<String>) -> Seq<Seq<char>> {
    args.map_values(|s: String| s@)
}

/// The arguments with which the probe describes `full_path`.
pub open spec fn probe_line(full_path: Seq<char>) -> Seq<Seq<char>> {
    seq![
        "-hide_banner"@,
        "-v"@,
        "error"@,
        "-print_format"@,
        "json"@,
        "-show_streams"@,
        "-show_format"@,
        "-i"@,
        full_path,
    ]
}

/// The arguments with which the converter measures the volume of
/// `source_path` and writes nothing.
pub open spec fn volume_line(source_path: Seq<char>) -> Seq<Seq<char>> {
    seq!["-i"@, source_path, "-vn"@, "-af"@, "volumedetect"@, "-f"@, "null"@, "-"@]
}

/// The arguments that every conversion starts with, followed by the audio
/// filter where a volume is asked for.
pub open spec fn audio_part(source_path: Seq<char>, bitrate: Seq<char>, volume: Seq<char>) -> Seq<
    Seq<char>,
> {
    let head = seq![
        "-i"@,
        source_path,
        "-loglevel"@,
        "error"@,
        "-y"@,
        "-acodec"@,
        "libmp3lame"@,
        "-b:a"@,
        bitrate,
    ];
    if volume.len() == 0 {
        head
    } else {
        head + seq!["-filter:a"@, "volume="@ + volume]
    }
}

/// The arguments of an audio conversion.
pub open spec fn audio_line(
    source_path: Seq<char>,
    dest_path: Seq<char>,
    bitrate: Seq<char>,
    volume: Seq<char>,
) -> Seq<Seq<char>> {
    audio_part(source_path, bitrate, volume) + seq!["-f"@, "mp3"@, dest_path]
}

/// The video filter. Without a rotation there is none, whatever the size;
/// with one, the scaling comes first where a size is given.
pub open spec fn video_filter(size: Seq<char>, rotation: Seq<char>) -> Seq<char> {
    if rotation.len() == 0 {
        Seq::empty()
    } else if size.len() == 0 {
        ",transpose="@ + rotation
    } else {
        "scale="@ + size + ",transpose="@ + rotation
    }
}

/// The arguments of a video conversion.
pub open spec fn video_line(
    source_path: Seq<char>,
    dest_path: Seq<char>,
    bitrate: Seq<char>,
    volume: Seq<char>,
    size: Seq<char>,
    rotation: Seq<char>,
) -> Seq<Seq<char>> {
    let head = audio_part(source_path, bitrate, volume) + seq!["-vcodec"@, "libx264"@];
    let tail = seq!["-f"@, "mp4"@, dest_path];
    if rotation.len() == 0 {
        head + tail
    } else {
        head + seq!["-filter:v"@, video_filter(size, rotation)] + tail
    }
}

fn push_text(args: &mut Vec<String>, text: &str)
    ensures
        texts(final(args)@) == texts(old(args)@).push(text@),
{
    args.push(text.to_owned());
    assert(texts(args@) =~= texts(old(args)@).push(text@));
}

fn push_joined(args: &mut Vec<String>, text: String)
    ensures
        texts(final(args)@) == texts(old(args)@).push(text@),
{
    args.push(text);
    assert(texts(args@) =~= texts(old(args)@).push(text@));
}

/// Builds the arguments with which the probe describes `full_path`.
pub fn probe_args(full_path: &str) -> (args: Vec<String>)
    ensures
        texts(args@) == probe_line(full_path@),
{
    let mut args: Vec<String> = Vec::new();
    assert(texts(args@) =~= Seq::empty());
    push_text(&mut args, "-hide_banner");
    push_text(&mut args, "-v");
    push_text(&mut args, "error");
    push_text(&mut args, "-print_format");
    push_text(&mut args, "json");
    push_text(&mut args, "-show_streams");
    push_text(&mut args, "-show_format");
    push_text(&mut args, "-i");
    push_text(&mut args, full_path);
    assert(texts(args@) =~= probe_line(full_path@));
    args
}

/// Builds the arguments with which the converter measures the volume of
/// `source_path`.
pub fn volume_args(source_path: &str) -> (args: Vec<String>)
    ensures
        texts(args@) == volume_line(source_path@),
{
    let mut args: Vec<String> = Vec::new();
    assert(texts(args@) =~= Seq::empty());
    push_text(&mut args, "-i");
    push_text(&mut args, source_path);
    push_text(&mut args, "-vn");
    push_text(&mut args, "-af");
    push_text(&mut args, "volumedetect");
    push_text(&mut args, "-f");
    push_text(&mut args, "null");
    push_text(&mut args, "-");
    assert(texts(args@) =~= volume_line(source_path@));
    args
}

fn audio_head(source_path: &str, bitrate: &str, volume: &str) -> (args: Vec<String>)
    ensures
        texts(args@) == audio_part(source_path@, bitrate@, volume@),
{
    let mut args: Vec<String> = Vec::new();
    assert(texts(args@) =~= Seq::empty());
    push_text(&mut args, "-i");
    push_text(&mut args, source_path);
    push_text(&mut args, "-loglevel");
    push_text(&mut args, "error");
    push_text(&mut args, "-y");
    push_text(&mut args, "-acodec");
    push_text(&mut args, "libmp3lame");
    push_text(&mut args, "-b:a");
    push_text(&mut args, bitrate);
    if !volume.is_empty() {
        push_text(&mut args, "-filter:a");
        push_joined(&mut args, String::from_str("volume=").concat(volume));
    }
    assert(texts(args@) =~= audio_part(source_path@, bitrate@, volume@));
    args
}

/// Builds the arguments of the conversion of `source_path` to an audio
/// file at `dest_path`.
pub fn audio_args(source_path: &str, dest_path: &str, options: &AudioOptions) -> (args: Vec<String>)
    ensures
        texts(args@) == audio_line(
            source_path@,
            dest_path@,
            options.audio_bitrate@,
            options.audio_volume@,
        ),
{
    let mut args = audio_head(
        source_path,
        options.audio_bitrate.as_str(),
        options.audio_volume.as_str(),
    );
    push_text(&mut args, "-f");
    push_text(&mut args, "mp3");
    push_text(&mut args, dest_path);
    assert(texts(args@) =~= audio_line(
        source_path@,
        dest_path@,
        options.audio_bitrate@,
        options.audio_volume@,
    ));
    args
}

/// Builds the arguments of the conversion of `source_path` to a video file
/// at `dest_path`.
pub fn video_args(source_path: &str, dest_path: &str, options: &VideoOptions) -> (args: Vec<String>)
    ensures
        texts(args@) == video_line(
            source_path@,
            dest_path@,
            options.audio_bitrate@,
            options.audio_volume@,
            options.size@,
            options.rotation@,
        ),
{
    let mut args = audio_head(
        source_path,
        options.audio_bitrate.as_str(),
        options.audio_volume.as_str(),
    );
    push_text(&mut args, "-vcodec");
    push_text(&mut args, "libx264");
    if !options.rotation.as_str().is_empty() {
        let scale = if options.size.as_str().is_empty() {
            String::new()
        } else {
            String::from_str("scale=").concat(options.size.as_str())
        };
        let filter = scale.concat(",transpose=").concat(options.rotation.as_str());
        assert(filter@ =~= video_filter(options.size@, options.rotation@));
        push_text(&mut args, "-filter:v");
        push_joined(&mut args, filter);
    }
    push_text(&mut args, "-f");
    push_text(&mut args, "mp4");
    push_text(&mut args, dest_path);
    assert(texts(args@) =~= video_line(
        source_path@,
        dest_path@,
        options.audio_bitrate@,
        options.audio_volume@,
        options.size@,
        options.rotation@,
    ));
    args
}

/// How a conversion ended, from what the converter wrote to its error
/// stream: it succeeded exactly if it wrote nothing.
pub fn conversion_result(errors: String) -> (result: Result<bool, String>)
    ensures
        errors@.len() == 0 ==> result == Ok::<bool, String>(true),
        errors@.len() != 0 ==> result == Err::<bool, String>(errors),
{
    if errors.as_str().is_empty() {
        Ok(true)
    } else {
        Err(errors)
    }
}

impl Conversion {
    /// No conversion is running.
    pub open spec fn at_rest(self) -> bool {
        self.current_file@.len() == 0 && self.command.is_none()
    }

    /// The state in which no conversion is running.
    pub fn new() -> (state: Conversion)
        ensures
            state.at_rest(),
    {
        Conversion { current_file: String::new(), command: None }
    }
}

/// Forgets a conversion that ended well: its file stays.
pub fn finish_convert(state: &mut Conversion)
    ensures
        final(state).at_rest(),
{
    state.current_file = String::new();
    state.command = None;
}

/// Forgets a conversion that failed, and names the file that it may have
/// left behind, for the caller to delete if it exists.
pub fn clean_up(state: &mut Conversion) -> (leftover: Option<String>)
    ensures
        final(state).at_rest(),
        old(state).current_file@.len() == 0 ==> leftover.is_none(),
        old(state).current_file@.len() != 0 ==> leftover == Some(old(state).current_file),
{
    let file = state.current_file.clone();
    state.current_file = String::new();
    state.command = None;
    if file.as_str().is_empty() {
        None
    } else {
        Some(file)
    }
}

/// Gives up the running conversion: hands out the process to end, if there
/// is one, and forgets it. The file's name is kept.
pub fn cancel(state: &mut Conversion) -> (process: Option<u32>)
    ensures
        process == old(state).command,
        final(state).command.is_none(),
        final(state).current_file == old(state).current_file,
{
    let process = state.command;
    state.command = None;
    process
}

} // verus!
