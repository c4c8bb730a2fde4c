//! FFmpeg command lines for combining, resizing and concatenating media
//! inside the jail. Running the commands happens outside.
use vstd::prelude::*;
use std::sync::Arc;
use crate::fs_guard::{path_join, Jail};
use crate::text::{append_str, chars_of, copy_str, push_char};

verus! {

/// Edits media with FFmpeg inside a jail.
#[derive(Clone)]
pub struct MediaForgeClient {
    /// The working jail.
    pub jail: Arc<Jail>,
}

/// Tool arguments.
#[derive(Debug, Clone)]
pub enum MediaForgeArgs {
    /// Combine video, audio and subtitles.
    Combine {
        video_path: String,
        audio_path: String,
        subtitle_path: Option<String>,
        force_style: Option<String>,
    },
    /// Resize for vertical shorts (9:16).
    Resize { input_path: String },
}

/// Tool output.
#[derive(Debug, Clone)]
pub struct MediaForgeOutput {
    pub output_path: String,
}

/// `s` with every `c` replaced by `rep` (`str::replace` with a one-character pattern).
pub open spec fn replace_char(s: Seq<char>, c: char, rep: Seq<char>) -> Seq<char>
    decreases s.len(),
{
    if s.len() == 0 {
        Seq::empty()
    } else {
        (if s[0] == c {
            rep
        } else {
            seq![s[0]]
        }) + replace_char(s.drop_first(), c, rep)
    }
}

/// The subtitle path escaped for FFmpeg's filter syntax: `'` becomes
/// `'\''`, then `:` becomes `\:`.
pub open spec fn escaped_subtitle_path(p: Seq<char>) -> Seq<char> {
    replace_char(replace_char(p, '\'', "'\\''"@), ':', "\\:"@)
}

/// The default burn-in subtitle style.
pub open spec fn default_style() -> Seq<char> {
    "FontName=Hiragino Sans,FontSize=18,PrimaryColour=&H00FFFFFF,OutlineColour=&H00000000,BorderStyle=1,Outline=2.0,Shadow=1.0,Alignment=2,MarginV=30"@
}

/// The style in force: the default, followed by the forced style if any.
pub open spec fn active_style(force: Option<Seq<char>>) -> Seq<char> {
    match force {
        Some(f) => default_style() + ","@ + f,
        None => default_style(),
    }
}

/// The `-vf` filter that burns the subtitles in.
pub open spec fn subtitle_filter_spec(sub: Seq<char>, force: Option<Seq<char>>) -> Seq<char> {
    "subtitles=filename='"@ + escaped_subtitle_path(sub) + "':force_style='"@ + active_style(force)
        + "'"@
}

/// The concat list FFmpeg reads: one `file '<clip>'` line per clip.
pub open spec fn concat_list_spec(clips: Seq<Seq<char>>) -> Seq<char>
    decreases clips.len(),
{
    if clips.len() == 0 {
        Seq::empty()
    } else {
        concat_list_spec(clips.drop_last()) + "file '"@ + clips.last() + "'\n"@
    }
}

/// Replaces every `c` in `s` by `rep`.
pub fn replace_all_char(s: &str, c: char, rep: &str) -> (r: String)
    ensures
        r@ == replace_char(s@, c, rep@),
{
    let v = chars_of(s);
    let mut out = String::new();
    let mut i: usize = 0;
    proof {
        assert(v@.skip(0) =~= v@);
        assert(out@ + replace_char(v@.skip(0), c, rep@) =~= replace_char(s@, c, rep@));
    }
    while i < v.len()
        invariant
            i <= v@.len(),
            v@ == s@,
            replace_char(s@, c, rep@) == out@ + replace_char(v@.skip(i as int), c, rep@),
        decreases v.len() - i,
    {
        proof {
            assert(v@.skip(i as int).drop_first() =~= v@.skip(i + 1));
        }
        let ghost before = out@;
        if v[i] == c {
            append_str(&mut out, rep);
        } else {
            push_char(&mut out, v[i]);
        }
        proof {
            let piece = if v@[i as int] == c { rep@ } else { seq![v@[i as int]] };
            assert(out@ =~= before + piece);
            assert(replace_char(v@.skip(i as int), c, rep@) == piece + replace_char(v@.skip(i + 1), c, rep@));
            assert(before + (piece + replace_char(v@.skip(i + 1), c, rep@)) =~= out@ + replace_char(v@.skip(i + 1), c, rep@));
        }
        i = i + 1;
    }
    proof {
        assert(v@.skip(i as int) =~= Seq::<char>::empty());
        assert(out@ + Seq::<char>::empty() =~= out@);
    }
    out
}

/// The `-vf` argument that burns the subtitle file in with the given style.
pub fn subtitle_filter(sub_path: &str, force_style: Option<&str>) -> (r: String)
    ensures
        r@ == subtitle_filter_spec(
            sub_path@,
            match force_style {
                Some(f) => Some(f@),
                None => None,
            },
        ),
{
    let once = replace_all_char(sub_path, '\'', "'\\''");
    let escaped = replace_all_char(once.as_str(), ':', "\\:");
    let mut style = copy_str("FontName=Hiragino Sans,FontSize=18,PrimaryColour=&H00FFFFFF,OutlineColour=&H00000000,BorderStyle=1,Outline=2.0,Shadow=1.0,Alignment=2,MarginV=30");
    if let Some(f) = force_style {
        append_str(&mut style, ",");
        append_str(&mut style, f);
    }
    let mut r = copy_str("subtitles=filename='");
    append_str(&mut r, escaped.as_str());
    append_str(&mut r, "':force_style='");
    append_str(&mut r, style.as_str());
    append_str(&mut r, "'");
    r
}

/// The text of the concat list for `clips`.
pub fn concat_list(clips: &Vec<String>) -> (r: String)
    ensures
        r@ == concat_list_spec(clips@.map_values(|c: String| c@)),
{
    let ghost cv = clips@.map_values(|c: String| c@);
    let mut out = String::new();
    let mut i: usize = 0;
    while i < clips.len()
        invariant
            i <= clips@.len(),
            cv == clips@.map_values(|c: String| c@),
            out@ == concat_list_spec(cv.take(i as int)),
        decreases clips.len() - i,
    {
        append_str(&mut out, "file '");
        append_str(&mut out, clips[i].as_str());
        append_str(&mut out, "'\n");
        proof {
            assert(cv.take(i + 1).drop_last() =~= cv.take(i as int));
            assert(out@ =~= concat_list_spec(cv.take(i + 1)));
        }
        i = i + 1;
    }
    proof {
        assert(cv.take(clips@.len() as int) =~= cv);
    }
    out
}

/// The views of a list of strings.
pub open spec fn arg_views(v: Seq<String>) -> Seq<Seq<char>> {
    v.map_values(|s: String| s@)
}

fn push_arg(args: &mut Vec<String>, a: &str)
    ensures
        arg_views(final(args)@) == arg_views(old(args)@).push(a@),
{
    args.push(copy_str(a));
    proof {
        assert(arg_views(final(args)@) =~= arg_views(old(args)@).push(a@));
    }
}

/// The FFmpeg arguments that combine video, audio and (optionally) burned-in
/// subtitles into `output` with the hardware encoder.
pub open spec fn combine_args_spec(
    video: Seq<char>,
    audio: Seq<char>,
    filter: Option<Seq<char>>,
    output: Seq<char>,
) -> Seq<Seq<char>> {
    seq!["-y"@, "-i"@, video, "-i"@, audio] + (match filter {
        Some(f) => seq!["-vf"@, f],
        None => Seq::empty(),
    }) + seq![
        "-c:v"@, "h264_videotoolbox"@, "-b:v"@, "6000k"@, "-pix_fmt"@, "yuv420p"@, "-c:a"@,
        "aac"@, "-shortest"@, output,
    ]
}

impl MediaForgeClient {
    /// A client working in `jail`.
    pub fn new(jail: Arc<Jail>) -> (r: Self)
        ensures
            r.jail == jail,
    {
        MediaForgeClient { jail }
    }

    /// Where the combined video is written.
    pub fn combined_output_path(&self) -> (r: String)
        ensures
            r@ == path_join(self.jail.root_path(), "final_output.mp4"@),
    {
        self.jail.base_path("final_output.mp4")
    }

    /// Where the resized video is written.
    pub fn resized_output_path(&self) -> (r: String)
        ensures
            r@ == path_join(self.jail.root_path(), "resized_shorts.mp4"@),
    {
        self.jail.base_path("resized_shorts.mp4")
    }

    /// Where a joined video named `name` is written.
    pub fn output_path(&self, name: &str) -> (r: String)
        ensures
            r@ == path_join(self.jail.root_path(), name@),
    {
        self.jail.base_path(name)
    }

    /// Where the concat list is written.
    pub fn concat_list_path(&self) -> (r: String)
        ensures
            r@ == path_join(self.jail.root_path(), "concat_list.txt"@),
    {
        self.jail.base_path("concat_list.txt")
    }

    /// FFmpeg arguments that combine the inputs into `output`; with a
    /// subtitle file, its burn-in filter (default style, plus any forced style).
    pub fn combine_args(
        video: &str,
        audio: &str,
        subtitle: Option<&str>,
        force_style: Option<&str>,
        output: &str,
    ) -> (r: Vec<String>)
        ensures
            arg_views(r@) == combine_args_spec(
                video@,
                audio@,
                match subtitle {
                    Some(s) => Some(
                        subtitle_filter_spec(
                            s@,
                            match force_style {
                                Some(f) => Some(f@),
                                None => None,
                            },
                        ),
                    ),
                    None => None,
                },
                output@,
            ),
    {
        let mut a: Vec<String> = Vec::new();
        push_arg(&mut a, "-y");
        push_arg(&mut a, "-i");
        push_arg(&mut a, video);
        push_arg(&mut a, "-i");
        push_arg(&mut a, audio);
        if let Some(s) = subtitle {
            let f = subtitle_filter(s, force_style);
            push_arg(&mut a, "-vf");
            push_arg(&mut a, f.as_str());
        }
        push_arg(&mut a, "-c:v");
        push_arg(&mut a, "h264_videotoolbox");
        push_arg(&mut a, "-b:v");
        push_arg(&mut a, "6000k");
        push_arg(&mut a, "-pix_fmt");
        push_arg(&mut a, "yuv420p");
        push_arg(&mut a, "-c:a");
        push_arg(&mut a, "aac");
        push_arg(&mut a, "-shortest");
        push_arg(&mut a, output);
        proof {
            let filt = match subtitle {
                Some(s) => Some(
                    subtitle_filter_spec(
                        s@,
                        match force_style {
                            Some(f) => Some(f@),
                            None => None,
                        },
                    ),
                ),
                None => None,
            };
            assert(arg_views(a@) =~= combine_args_spec(video@, audio@, filt, output@));
        }
        a
    }

    /// FFmpeg arguments that crop and scale `input` to 1080x1920 into `output`.
    pub fn resize_args(input: &str, output: &str) -> (r: Vec<String>)
        ensures
            arg_views(r@) == seq![
                "-y"@, "-i"@, input@, "-vf"@,
                "scale=1080:1920:force_original_aspect_ratio=increase,crop=1080:1920"@, "-c:v"@,
                "h264_videotoolbox"@, "-b:v"@, "8000k"@, "-pix_fmt"@, "yuv420p"@, "-c:a"@,
                "copy"@, output@,
            ],
    {
        let mut a: Vec<String> = Vec::new();
        push_arg(&mut a, "-y");
        push_arg(&mut a, "-i");
        push_arg(&mut a, input);
        push_arg(&mut a, "-vf");
        push_arg(&mut a, "scale=1080:1920:force_original_aspect_ratio=increase,crop=1080:1920");
        push_arg(&mut a, "-c:v");
        push_arg(&mut a, "h264_videotoolbox");
        push_arg(&mut a, "-b:v");
        push_arg(&mut a, "8000k");
        push_arg(&mut a, "-pix_fmt");
        push_arg(&mut a, "yuv420p");
        push_arg(&mut a, "-c:a");
        push_arg(&mut a, "copy");
        push_arg(&mut a, output);
        proof {
            assert(arg_views(a@) =~= seq![
                "-y"@, "-i"@, input@, "-vf"@,
                "scale=1080:1920:force_original_aspect_ratio=increase,crop=1080:1920"@, "-c:v"@,
                "h264_videotoolbox"@, "-b:v"@, "8000k"@, "-pix_fmt"@, "yuv420p"@, "-c:a"@,
                "copy"@, output@,
            ]);
        }
        a
    }

    /// FFmpeg arguments that concatenate the clips listed in `list` into `output`.
    pub fn concat_args(list: &str, output: &str) -> (r: Vec<String>)
        ensures
            arg_views(r@) == seq![
                "-y"@, "-f"@, "concat"@, "-safe"@, "0"@, "-i"@, list@, "-c"@, "copy"@, output@,
            ],
    {
        let mut a: Vec<String> = Vec::new();
        push_arg(&mut a, "-y");
        push_arg(&mut a, "-f");
        push_arg(&mut a, "concat");
        push_arg(&mut a, "-safe");
        push_arg(&mut a, "0");
        push_arg(&mut a, "-i");
        push_arg(&mut a, list);
        push_arg(&mut a, "-c");
        push_arg(&mut a, "copy");
        push_arg(&mut a, output);
        proof {
            assert(arg_views(a@) =~= seq![
                "-y"@, "-f"@, "concat"@, "-safe"@, "0"@, "-i"@, list@, "-c"@, "copy"@, output@,
            ]);
        }
        a
    }
}

/// The optional view of an optional string.
pub open spec fn opt_str_view(o: Option<String>) -> Option<Seq<char>> {
    match o {
        Some(x) => Some(x@),
        None => None,
    }
}

impl MediaForgeClient {
    /// The FFmpeg arguments a tool request runs, and the file it writes:
    /// a combination goes to `final_output.mp4`, a resize to
    /// `resized_shorts.mp4`, both under the jail root.
    pub fn tool_command(&self, args: &MediaForgeArgs) -> (r: (Vec<String>, String))
        ensures
            match args {
                MediaForgeArgs::Combine { video_path, audio_path, subtitle_path, force_style } => {
                    &&& r.1@ == path_join(self.jail.root_path(), "final_output.mp4"@)
                    &&& arg_views(r.0@) == combine_args_spec(
                        video_path@,
                        audio_path@,
                        match subtitle_path {
                            Some(s) => Some(subtitle_filter_spec(s@, opt_str_view(*force_style))),
                            None => None,
                        },
                        r.1@,
                    )
                },
                MediaForgeArgs::Resize { input_path } => {
                    &&& r.1@ == path_join(self.jail.root_path(), "resized_shorts.mp4"@)
                    &&& arg_views(r.0@) == seq![
                        "-y"@, "-i"@, input_path@, "-vf"@,
                        "scale=1080:1920:force_original_aspect_ratio=increase,crop=1080:1920"@, "-c:v"@,
                        "h264_videotoolbox"@, "-b:v"@, "8000k"@, "-pix_fmt"@, "yuv420p"@, "-c:a"@,
                        "copy"@, r.1@,
                    ]
                },
            },
    {
        match args {
            MediaForgeArgs::Combine { video_path, audio_path, subtitle_path, force_style } => {
                let out = self.combined_output_path();
                let sub: Option<&str> = match subtitle_path {
                    Some(s) => Some(s.as_str()),
                    None => None,
                };
                let fs: Option<&str> = match force_style {
                    Some(f) => Some(f.as_str()),
                    None => None,
                };
                let a = Self::combine_args(video_path.as_str(), audio_path.as_str(), sub, fs, out.as_str());
                (a, out)
            },
            MediaForgeArgs::Resize { input_path } => {
                let out = self.resized_output_path();
                let a = Self::resize_args(input_path.as_str(), out.as_str());
                (a, out)
            },
        }
    }
}

} // verus!
