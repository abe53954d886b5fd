//! The FFmpeg command lines the daemon runs, and the files it writes for
//! FFmpeg to read. Real numbers reach these functions already written out
//! with six decimals.
use vstd::prelude::*;

use crate::models::{Source, SourceKind};
use crate::text::{
    self, append_decimal, append_zero_padded, chars_of, decimal_text, owned, push_char, push_str,
};

verus! {

/// The texts of a list of arguments.
pub open spec fn args_view(v: Seq<String>) -> Seq<Seq<char>> {
    v.map_values(|s: String| s@)
}

/// Appends one argument.
pub fn push_arg(args: &mut Vec<String>, a: &str)
    ensures
        args_view(final(args)@) == args_view(old(args)@).push(a@),
{
    let ghost before = args@;
    args.push(owned(a));
    proof {
        assert(args_view(args@) =~= args_view(before).push(a@));
    }
}

/// Appends a list of arguments.
pub fn push_all(args: &mut Vec<String>, more: Vec<String>)
    ensures
        args_view(final(args)@) == args_view(old(args)@) + args_view(more@),
{
    let ghost before = args@;
    let ghost added = more@;
    let mut more = more;
    args.append(&mut more);
    proof {
        assert(args_view(args@) =~= args_view(before) + args_view(added));
    }
}

/// Whether `s` begins with `prefix`.
pub open spec fn has_prefix(s: Seq<char>, prefix: Seq<char>) -> bool {
    prefix.len() <= s.len() && s.subrange(0, prefix.len() as int) == prefix
}

/// Whether `s` begins with `prefix`, as `str::starts_with` answers.
pub fn starts_with(s: &str, prefix: &str) -> (r: bool)
    ensures
        r == has_prefix(s@, prefix@),
{
    let a = chars_of(s);
    let b = chars_of(prefix);
    if b.len() > a.len() {
        return false;
    }
    let mut i: usize = 0;
    while i < b.len()
        invariant
            b.len() <= a.len(),
            i <= b.len(),
            a@ == s@,
            b@ == prefix@,
            forall|j: int| 0 <= j < i ==> a@[j] == b@[j],
        decreases b.len() - i,
    {
        if a[i] != b[i] {
            proof {
                assert(s@.subrange(0, prefix@.len() as int)[i as int] != prefix@[i as int]);
            }
            return false;
        }
        i = i + 1;
    }
    proof {
        assert(s@.subrange(0, prefix@.len() as int) =~= prefix@);
    }
    true
}

/// The options that every FFmpeg run starts with: no banner, errors only,
/// no reading from standard input, overwrite the output.
pub open spec fn common_args() -> Seq<Seq<char>> {
    seq!["-hide_banner"@, "-loglevel"@, "error"@, "-nostdin"@, "-y"@]
}

fn common(args: &mut Vec<String>)
    ensures
        args_view(final(args)@) == args_view(old(args)@) + common_args(),
{
    let ghost before = args_view(args@);
    push_arg(args, "-hide_banner");
    push_arg(args, "-loglevel");
    push_arg(args, "error");
    push_arg(args, "-nostdin");
    push_arg(args, "-y");
    proof {
        assert(args_view(args@) =~= before + common_args());
    }
}

/// The input options for a source that is read for `duration` seconds: the
/// RTSP transport for an `rtsp://` URL (`tcp` unless the source asks for
/// another), the duration, and the input itself; a `lavfi:` URL names an
/// FFmpeg filter graph and is read with the `lavfi` format. Any other URL,
/// and a local file path, is passed to `-i` as it stands.
pub open spec fn source_args(
    url: Seq<char>,
    rtsp_transport: Option<Seq<char>>,
    duration: Seq<char>,
) -> Seq<Seq<char>> {
    let transport = if has_prefix(url, "rtsp://"@) {
        seq![
            "-rtsp_transport"@,
            match rtsp_transport {
                Some(t) => t,
                None => "tcp"@,
            },
        ]
    } else {
        Seq::empty()
    };
    let input = if has_prefix(url, "lavfi:"@) {
        seq!["-f"@, "lavfi"@, "-i"@, url.skip(6)]
    } else {
        seq!["-i"@, url]
    };
    transport + seq!["-t"@, duration] + input
}

/// Appends the input options for `source`, read for `wall_duration`
/// seconds; see `source_args`.
pub fn add_source_args(args: &mut Vec<String>, source: &Source, wall_duration: &str)
    ensures
        args_view(final(args)@) == args_view(old(args)@) + source_args(
            source.url@,
            text::opt_text(source.rtsp_transport),
            wall_duration@,
        ),
{
    let ghost before = args_view(args@);
    let ghost transport_view: Option<Seq<char>> = text::opt_text(source.rtsp_transport);
    let url = source.url.as_str();
    if starts_with(url, "rtsp://") {
        push_arg(args, "-rtsp_transport");
        match &source.rtsp_transport {
            Some(t) => push_arg(args, t.as_str()),
            None => push_arg(args, "tcp"),
        }
    }
    let ghost after_transport = args_view(args@);
    push_arg(args, "-t");
    push_arg(args, wall_duration);
    let ghost after_duration = args_view(args@);
    if starts_with(url, "lavfi:") {
        push_arg(args, "-f");
        push_arg(args, "lavfi");
        push_arg(args, "-i");
        let v = chars_of(url);
        proof {
            reveal_strlit("lavfi:");
        }
        let graph = crate::text::string_of_range(&v, 6, v.len());
        push_arg(args, graph.as_str());
        proof {
            assert(v@.subrange(6, v@.len() as int) =~= url@.skip(6));
        }
    } else {
        push_arg(args, "-i");
        push_arg(args, url);
    }
    proof {
        let spec = source_args(source.url@, transport_view, wall_duration@);
        let t = if has_prefix(source.url@, "rtsp://"@) {
            seq![
                "-rtsp_transport"@,
                match transport_view {
                    Some(t) => t,
                    None => "tcp"@,
                },
            ]
        } else {
            Seq::empty()
        };
        assert(after_transport =~= before + t);
        assert(after_duration =~= before + t + seq!["-t"@, wall_duration@]);
        assert(args_view(args@) =~= before + spec);
    }
}

/// The input options of a source: for an `rtsp://` URL first
/// `-rtsp_transport` and the transport asked for (`tcp` when none is), then
/// always `-t` and the duration, then the input: `-f lavfi -i` and the
/// filter graph after `lavfi:` for a `lavfi:` URL, `-i` and the URL as it
/// stands otherwise.
pub proof fn source_args_layout(url: Seq<char>, rtsp_transport: Option<Seq<char>>, duration: Seq<char>)
    ensures
        ({
            let a = source_args(url, rtsp_transport, duration);
            let k: int = if has_prefix(url, "rtsp://"@) { 2 } else { 0 };
            &&& k == 2 ==> a[0] == "-rtsp_transport"@ && a[1] == match rtsp_transport {
                Some(t) => t,
                None => "tcp"@,
            }
            &&& a[k] == "-t"@
            &&& a[k + 1] == duration
            &&& has_prefix(url, "lavfi:"@) ==> a.len() == k + 6 && a[k + 2] == "-f"@ && a[k + 3]
                == "lavfi"@ && a[k + 4] == "-i"@ && a[k + 5] == url.skip(6)
            &&& !has_prefix(url, "lavfi:"@) ==> a.len() == k + 4 && a[k + 2] == "-i"@ && a[k + 3]
                == url
        }),
{
}

/// The text of the select filter's threshold, with the comma escaped for
/// the filter graph.
pub open spec fn select_filter(interval: Seq<char>) -> Seq<char> {
    "select='isnan(prev_selected_t)+gte(t-prev_selected_t\\,"@ + interval + ")'"@
}

/// The filter that stamps the `n`-th kept frame at `n / fps` seconds.
pub open spec fn setpts_filter(fps: Seq<char>) -> Seq<char> {
    "setpts=N/("@ + fps + "*TB)"@
}

/// A dimension for the scale filter; `-2` keeps the aspect ratio.
pub open spec fn dimension_text(d: Option<u32>) -> Seq<char> {
    match d {
        Some(v) => text::decimal(v as nat),
        None => "-2"@,
    }
}

/// The capture filter graph: keep one frame per `interval` seconds, stamp
/// the kept frames at the playback rate, and scale when a width or a height
/// is asked for.
pub open spec fn capture_filter_text(
    interval: Seq<char>,
    fps: Seq<char>,
    width: Option<u32>,
    height: Option<u32>,
) -> Seq<char> {
    let base = select_filter(interval) + ","@ + setpts_filter(fps);
    if width is Some || height is Some {
        base + ","@ + "scale="@ + dimension_text(width) + ":"@ + dimension_text(height)
    } else {
        base
    }
}

fn append_dimension(out: &mut String, d: Option<u32>)
    ensures
        final(out)@ == old(out)@ + dimension_text(d),
{
    match d {
        Some(v) => append_decimal(out, v as u64),
        None => push_str(out, "-2"),
    }
}

/// The capture filter graph keeps a frame when none was kept yet or when
/// `interval` seconds have passed since the last one kept (the comma in
/// `gte` escaped for the graph), stamps the `n`-th kept frame at `n / fps`
/// seconds, and ends with `scale=<width>:<height>` exactly when a width or a
/// height is asked for, a missing one written `-2` and a given one in
/// decimal.
pub proof fn capture_filter_layout(
    interval: Seq<char>,
    fps: Seq<char>,
    width: Option<u32>,
    height: Option<u32>,
)
    ensures
        ({
            let f = capture_filter_text(interval, fps, width, height);
            let base = "select='isnan(prev_selected_t)+gte(t-prev_selected_t\\,"@ + interval
                + ")',setpts=N/("@ + fps + "*TB)"@;
            let w = match width {
                Some(v) => text::decimal(v as nat),
                None => "-2"@,
            };
            let h = match height {
                Some(v) => text::decimal(v as nat),
                None => "-2"@,
            };
            &&& (width is None && height is None) ==> f == base
            &&& (width is Some || height is Some) ==> f == base + ",scale="@ + w + ":"@ + h
        }),
{
    reveal_strlit(")'");
    reveal_strlit(",");
    reveal_strlit("setpts=N/(");
    reveal_strlit(")',setpts=N/(");
    reveal_strlit("scale=");
    reveal_strlit(",scale=");
    let f = capture_filter_text(interval, fps, width, height);
    let sel = "select='isnan(prev_selected_t)+gte(t-prev_selected_t\\,"@;
    assert(sel + interval + ")'"@ + ","@ + "setpts=N/("@ + fps + "*TB)"@ =~= sel + interval
        + ")',setpts=N/("@ + fps + "*TB)"@);
    let base = sel + interval + ")',setpts=N/("@ + fps + "*TB)"@;
    let w = dimension_text(width);
    let h = dimension_text(height);
    assert(base + ","@ + "scale="@ + w + ":"@ + h =~= base + ",scale="@ + w + ":"@ + h);
}

/// The capture filter graph; see `capture_filter_text`.
pub fn capture_filter(interval: &str, fps: &str, width: Option<u32>, height: Option<u32>) -> (r:
    String)
    ensures
        r@ == capture_filter_text(interval@, fps@, width, height),
{
    let mut s = owned("select='isnan(prev_selected_t)+gte(t-prev_selected_t\\,");
    push_str(&mut s, interval);
    push_str(&mut s, ")'");
    push_str(&mut s, ",");
    push_str(&mut s, "setpts=N/(");
    push_str(&mut s, fps);
    push_str(&mut s, "*TB)");
    let ghost base = s@;
    proof {
        assert(base =~= select_filter(interval@) + ","@ + setpts_filter(fps@));
    }
    if width.is_some() || height.is_some() {
        push_str(&mut s, ",");
        push_str(&mut s, "scale=");
        append_dimension(&mut s, width);
        push_str(&mut s, ":");
        append_dimension(&mut s, height);
        proof {
            assert(s@ =~= base + ","@ + "scale="@ + dimension_text(width) + ":"@ + dimension_text(
                height,
            ));
        }
    }
    s
}

/// Whether a codec name selects the HEVC encoder.
pub open spec fn is_hevc(codec: Seq<char>) -> bool {
    codec == "hevc"@ || codec == "h265"@
}

/// The encoder options for a codec: `libx265` for `hevc` and `h265`,
/// `libx264` with a fast-start layout for any other name, `auto` among them.
pub open spec fn encoder_args_for(codec: Seq<char>) -> Seq<Seq<char>> {
    if is_hevc(codec) {
        seq![
            "-c:v"@,
            "libx265"@,
            "-preset"@,
            "fast"@,
            "-crf"@,
            "30"@,
            "-pix_fmt"@,
            "yuv420p"@,
        ]
    } else {
        seq![
            "-c:v"@,
            "libx264"@,
            "-preset"@,
            "veryfast"@,
            "-crf"@,
            "28"@,
            "-pix_fmt"@,
            "yuv420p"@,
            "-movflags"@,
            "+faststart"@,
        ]
    }
}

/// The encoder options for a codec; see `encoder_args_for`.
pub fn encoder_args(codec: &str) -> (r: Vec<String>)
    ensures
        args_view(r@) == encoder_args_for(codec@),
{
    let mut a: Vec<String> = Vec::new();
    let ghost empty = args_view(a@);
    if crate::text::same_text(codec, "hevc") || crate::text::same_text(codec, "h265") {
        push_arg(&mut a, "-c:v");
        push_arg(&mut a, "libx265");
        push_arg(&mut a, "-preset");
        push_arg(&mut a, "fast");
        push_arg(&mut a, "-crf");
        push_arg(&mut a, "30");
        push_arg(&mut a, "-pix_fmt");
        push_arg(&mut a, "yuv420p");
    } else {
        push_arg(&mut a, "-c:v");
        push_arg(&mut a, "libx264");
        push_arg(&mut a, "-preset");
        push_arg(&mut a, "veryfast");
        push_arg(&mut a, "-crf");
        push_arg(&mut a, "28");
        push_arg(&mut a, "-pix_fmt");
        push_arg(&mut a, "yuv420p");
        push_arg(&mut a, "-movflags");
        push_arg(&mut a, "+faststart");
    }
    proof {
        assert(empty =~= Seq::<Seq<char>>::empty());
        assert(args_view(a@) =~= encoder_args_for(codec@));
    }
    a
}

/// The `auto` codec, like any name other than `hevc` and `h265`, encodes
/// H.264 in software; `hevc` and `h265` encode HEVC.
pub proof fn auto_codec_encodes_h264()
    ensures
        encoder_args_for("auto"@)[1] == "libx264"@,
        encoder_args_for("hevc"@)[1] == "libx265"@,
        encoder_args_for("h265"@)[1] == "libx265"@,
{
    reveal_strlit("auto");
    reveal_strlit("hevc");
    reveal_strlit("h265");
    assert("auto"@[0] != "hevc"@[0]);
    assert("auto"@[0] != "h265"@[0]);
}

/// The encoder options of each codec: `hevc` and `h265` encode with
/// `libx265` at the `fast` preset and quality 30; every other name encodes
/// with `libx264` at the `veryfast` preset and quality 28, laid out for fast
/// start. Both write 4:2:0 pixels.
pub proof fn encoder_args_by_codec(codec: Seq<char>)
    ensures
        (codec == "hevc"@ || codec == "h265"@) ==> encoder_args_for(codec) == seq![
            "-c:v"@,
            "libx265"@,
            "-preset"@,
            "fast"@,
            "-crf"@,
            "30"@,
            "-pix_fmt"@,
            "yuv420p"@,
        ],
        !(codec == "hevc"@ || codec == "h265"@) ==> encoder_args_for(codec) == seq![
            "-c:v"@,
            "libx264"@,
            "-preset"@,
            "veryfast"@,
            "-crf"@,
            "28"@,
            "-pix_fmt"@,
            "yuv420p"@,
            "-movflags"@,
            "+faststart"@,
        ],
{
}

/// The arguments of the FFmpeg run that captures one segment of `source`
/// for `wall_duration` seconds into `tmp_path`, through the filter graph
/// `filter`, encoded for `codec`, without audio and with the filter's
/// timestamps kept.
pub open spec fn capture_args_for(
    url: Seq<char>,
    rtsp_transport: Option<Seq<char>>,
    wall_duration: Seq<char>,
    filter: Seq<char>,
    codec: Seq<char>,
    tmp_path: Seq<char>,
) -> Seq<Seq<char>> {
    common_args() + source_args(url, rtsp_transport, wall_duration) + seq![
        "-an"@,
        "-vf"@,
        filter,
        "-fps_mode"@,
        "passthrough"@,
    ] + encoder_args_for(codec) + seq![tmp_path]
}

/// The layout of a capture run, for every codec: the five common options,
/// the source's input options, then exactly `-an -vf <filter> -fps_mode
/// passthrough` (no audio, the filter graph, and the filter's timestamps
/// kept), then the codec's encoder options, and last the temporary path.
pub proof fn capture_args_layout(
    url: Seq<char>,
    rtsp_transport: Option<Seq<char>>,
    wall_duration: Seq<char>,
    filter: Seq<char>,
    codec: Seq<char>,
    tmp_path: Seq<char>,
)
    ensures
        ({
            let a = capture_args_for(url, rtsp_transport, wall_duration, filter, codec, tmp_path);
            let n = source_args(url, rtsp_transport, wall_duration).len() as int;
            let e = encoder_args_for(codec).len() as int;
            &&& a.len() == 5 + n + 5 + e + 1
            &&& a.subrange(0, 5) == seq!["-hide_banner"@, "-loglevel"@, "error"@, "-nostdin"@, "-y"@]
            &&& a.subrange(5, 5 + n) == source_args(url, rtsp_transport, wall_duration)
            &&& a.subrange(5 + n, 10 + n) == seq![
                "-an"@,
                "-vf"@,
                filter,
                "-fps_mode"@,
                "passthrough"@,
            ]
            &&& a.subrange(10 + n, 10 + n + e) == encoder_args_for(codec)
            &&& a.last() == tmp_path
        }),
{
    let a = capture_args_for(url, rtsp_transport, wall_duration, filter, codec, tmp_path);
    let n = source_args(url, rtsp_transport, wall_duration).len() as int;
    let e = encoder_args_for(codec).len() as int;
    assert(a.subrange(0, 5) =~= seq!["-hide_banner"@, "-loglevel"@, "error"@, "-nostdin"@, "-y"@]);
    assert(a.subrange(5, 5 + n) =~= source_args(url, rtsp_transport, wall_duration));
    assert(a.subrange(5 + n, 10 + n) =~= seq![
        "-an"@,
        "-vf"@,
        filter,
        "-fps_mode"@,
        "passthrough"@,
    ]);
    assert(a.subrange(10 + n, 10 + n + e) =~= encoder_args_for(codec));
}

/// The arguments of a capture run; see `capture_args_for`.
pub fn capture_args(
    source: &Source,
    wall_duration: &str,
    filter: &str,
    codec: &str,
    tmp_path: &str,
) -> (r: Vec<String>)
    ensures
        args_view(r@) == capture_args_for(
            source.url@,
            text::opt_text(source.rtsp_transport),
            wall_duration@,
            filter@,
            codec@,
            tmp_path@,
        ),
{
    let mut a: Vec<String> = Vec::new();
    let ghost e = args_view(a@);
    common(&mut a);
    add_source_args(&mut a, source, wall_duration);
    let ghost s1 = args_view(a@);
    push_arg(&mut a, "-an");
    push_arg(&mut a, "-vf");
    push_arg(&mut a, filter);
    push_arg(&mut a, "-fps_mode");
    push_arg(&mut a, "passthrough");
    let ghost s2 = args_view(a@);
    push_all(&mut a, encoder_args(codec));
    push_arg(&mut a, tmp_path);
    proof {
        assert(e =~= Seq::<Seq<char>>::empty());
        assert(s2 =~= s1 + seq!["-an"@, "-vf"@, filter@, "-fps_mode"@, "passthrough"@]);
        assert(args_view(a@) =~= capture_args_for(
            source.url@,
            text::opt_text(source.rtsp_transport),
            wall_duration@,
            filter@,
            codec@,
            tmp_path@,
        ));
    }
    a
}

/// The arguments of the FFmpeg run that writes the last frame of a segment
/// to an image.
pub open spec fn latest_frame_args_for(segment: Seq<char>, frame: Seq<char>) -> Seq<Seq<char>> {
    common_args() + seq!["-sseof"@, "-1"@, "-i"@, segment, "-frames:v"@, "1"@, frame]
}

/// A latest-frame run seeks to one second before the end of the segment
/// and writes a single frame.
pub proof fn latest_frame_args_layout(segment: Seq<char>, frame: Seq<char>)
    ensures
        latest_frame_args_for(segment, frame) == seq![
            "-hide_banner"@,
            "-loglevel"@,
            "error"@,
            "-nostdin"@,
            "-y"@,
            "-sseof"@,
            "-1"@,
            "-i"@,
            segment,
            "-frames:v"@,
            "1"@,
            frame,
        ],
{
    assert(latest_frame_args_for(segment, frame) =~= seq![
        "-hide_banner"@,
        "-loglevel"@,
        "error"@,
        "-nostdin"@,
        "-y"@,
        "-sseof"@,
        "-1"@,
        "-i"@,
        segment,
        "-frames:v"@,
        "1"@,
        frame,
    ]);
}

/// The arguments of a latest-frame run; see `latest_frame_args_for`.
pub fn latest_frame_args(segment_path: &str, frame_path: &str) -> (r: Vec<String>)
    ensures
        args_view(r@) == latest_frame_args_for(segment_path@, frame_path@),
{
    let mut a: Vec<String> = Vec::new();
    let ghost e = args_view(a@);
    common(&mut a);
    push_arg(&mut a, "-sseof");
    push_arg(&mut a, "-1");
    push_arg(&mut a, "-i");
    push_arg(&mut a, segment_path);
    push_arg(&mut a, "-frames:v");
    push_arg(&mut a, "1");
    push_arg(&mut a, frame_path);
    proof {
        assert(e =~= Seq::<Seq<char>>::empty());
        assert(args_view(a@) =~= latest_frame_args_for(segment_path@, frame_path@));
    }
    a
}

/// The arguments of the FFmpeg run that writes the first video frame of a
/// segment to an image, for a preview.
pub open spec fn preview_frame_args_for(segment: Seq<char>, frame: Seq<char>) -> Seq<Seq<char>> {
    common_args() + seq![
        "-i"@,
        segment,
        "-map"@,
        "0:v:0"@,
        "-an"@,
        "-frames:v"@,
        "1"@,
        frame,
    ]
}

/// A preview-frame run writes the first frame of the segment's first video
/// stream, without audio.
pub proof fn preview_frame_args_layout(segment: Seq<char>, frame: Seq<char>)
    ensures
        preview_frame_args_for(segment, frame) == seq![
            "-hide_banner"@,
            "-loglevel"@,
            "error"@,
            "-nostdin"@,
            "-y"@,
            "-i"@,
            segment,
            "-map"@,
            "0:v:0"@,
            "-an"@,
            "-frames:v"@,
            "1"@,
            frame,
        ],
{
    assert(preview_frame_args_for(segment, frame) =~= seq![
        "-hide_banner"@,
        "-loglevel"@,
        "error"@,
        "-nostdin"@,
        "-y"@,
        "-i"@,
        segment,
        "-map"@,
        "0:v:0"@,
        "-an"@,
        "-frames:v"@,
        "1"@,
        frame,
    ]);
}

/// The arguments of a preview-frame run; see `preview_frame_args_for`.
pub fn preview_frame_args(segment_path: &str, frame_path: &str) -> (r: Vec<String>)
    ensures
        args_view(r@) == preview_frame_args_for(segment_path@, frame_path@),
{
    let mut a: Vec<String> = Vec::new();
    let ghost e = args_view(a@);
    common(&mut a);
    push_arg(&mut a, "-i");
    push_arg(&mut a, segment_path);
    push_arg(&mut a, "-map");
    push_arg(&mut a, "0:v:0");
    push_arg(&mut a, "-an");
    push_arg(&mut a, "-frames:v");
    push_arg(&mut a, "1");
    push_arg(&mut a, frame_path);
    proof {
        assert(e =~= Seq::<Seq<char>>::empty());
        assert(args_view(a@) =~= preview_frame_args_for(segment_path@, frame_path@));
    }
    a
}

/// The options that re-encode to a small H.264 preview, at most 960 pixels
/// wide.
pub open spec fn preview_encoding_args() -> Seq<Seq<char>> {
    seq![
        "-vf"@,
        "scale='min(960,iw)':-2"@,
        "-c:v"@,
        "libx264"@,
        "-preset"@,
        "veryfast"@,
        "-crf"@,
        "30"@,
        "-pix_fmt"@,
        "yuv420p"@,
        "-movflags"@,
        "+faststart"@,
    ]
}

fn preview_encoding(args: &mut Vec<String>)
    ensures
        args_view(final(args)@) == args_view(old(args)@) + preview_encoding_args(),
{
    let ghost before = args_view(args@);
    push_arg(args, "-vf");
    push_arg(args, "scale='min(960,iw)':-2");
    push_arg(args, "-c:v");
    push_arg(args, "libx264");
    push_arg(args, "-preset");
    push_arg(args, "veryfast");
    push_arg(args, "-crf");
    push_arg(args, "30");
    push_arg(args, "-pix_fmt");
    push_arg(args, "yuv420p");
    push_arg(args, "-movflags");
    push_arg(args, "+faststart");
    proof {
        assert(args_view(args@) =~= before + preview_encoding_args());
    }
}

/// The arguments of the FFmpeg run that joins the segments listed in
/// `list_path` into `tmp_output` in `format`: re-encoded as a preview, or
/// with the streams copied as they are.
pub open spec fn export_args_for(
    list_path: Seq<char>,
    format: Seq<char>,
    preview: bool,
    tmp_output: Seq<char>,
) -> Seq<Seq<char>> {
    common_args() + seq!["-f"@, "concat"@, "-safe"@, "0"@, "-i"@, list_path] + (if preview {
        preview_encoding_args()
    } else {
        seq!["-c"@, "copy"@]
    }) + seq!["-f"@, format, tmp_output]
}

/// An export run reads the concat list with unsafe paths allowed; a
/// preview re-encodes to H.264 at most 960 pixels wide, a full export copies
/// the streams as they are; either way, whatever the format, it writes that
/// format to the temporary output, which comes last.
pub proof fn export_args_layout(
    list_path: Seq<char>,
    format: Seq<char>,
    preview: bool,
    tmp_output: Seq<char>,
)
    ensures
        ({
            let a = export_args_for(list_path, format, preview, tmp_output);
            let head = seq![
                "-hide_banner"@,
                "-loglevel"@,
                "error"@,
                "-nostdin"@,
                "-y"@,
                "-f"@,
                "concat"@,
                "-safe"@,
                "0"@,
                "-i"@,
                list_path,
            ];
            let middle = if preview {
                seq![
                    "-vf"@,
                    "scale='min(960,iw)':-2"@,
                    "-c:v"@,
                    "libx264"@,
                    "-preset"@,
                    "veryfast"@,
                    "-crf"@,
                    "30"@,
                    "-pix_fmt"@,
                    "yuv420p"@,
                    "-movflags"@,
                    "+faststart"@,
                ]
            } else {
                seq!["-c"@, "copy"@]
            };
            a == head + middle + seq!["-f"@, format, tmp_output]
        }),
{
    let a = export_args_for(list_path, format, preview, tmp_output);
    assert(common_args() + seq!["-f"@, "concat"@, "-safe"@, "0"@, "-i"@, list_path] =~= seq![
        "-hide_banner"@,
        "-loglevel"@,
        "error"@,
        "-nostdin"@,
        "-y"@,
        "-f"@,
        "concat"@,
        "-safe"@,
        "0"@,
        "-i"@,
        list_path,
    ]);
}

/// The arguments of an export run; see `export_args_for`.
pub fn export_args(list_path: &str, format: &str, preview: bool, tmp_output: &str) -> (r: Vec<
    String,
>)
    ensures
        args_view(r@) == export_args_for(list_path@, format@, preview, tmp_output@),
{
    let mut a: Vec<String> = Vec::new();
    let ghost e = args_view(a@);
    common(&mut a);
    push_arg(&mut a, "-f");
    push_arg(&mut a, "concat");
    push_arg(&mut a, "-safe");
    push_arg(&mut a, "0");
    push_arg(&mut a, "-i");
    push_arg(&mut a, list_path);
    let ghost s1 = args_view(a@);
    if preview {
        preview_encoding(&mut a);
    } else {
        push_arg(&mut a, "-c");
        push_arg(&mut a, "copy");
    }
    let ghost s2 = args_view(a@);
    push_arg(&mut a, "-f");
    push_arg(&mut a, format);
    push_arg(&mut a, tmp_output);
    proof {
        assert(e =~= Seq::<Seq<char>>::empty());
        assert(s2 =~= s1 + (if preview {
            preview_encoding_args()
        } else {
            seq!["-c"@, "copy"@]
        }));
        assert(args_view(a@) =~= export_args_for(list_path@, format@, preview, tmp_output@));
    }
    a
}

/// The arguments of the FFmpeg run that encodes the numbered frame images
/// matched by `pattern` into an MP4 preview at `fps` frames per second.
pub open spec fn preview_encode_args_for(
    fps: Seq<char>,
    pattern: Seq<char>,
    tmp_output: Seq<char>,
) -> Seq<Seq<char>> {
    common_args() + seq!["-framerate"@, fps, "-start_number"@, "0"@, "-i"@, pattern]
        + preview_encoding_args() + seq!["-f"@, "mp4"@, tmp_output]
}

/// A frame-preview run reads the numbered images from number 0 at `fps`
/// frames per second and encodes them into an H.264 MP4 at most 960 pixels
/// wide, written to the temporary output, which comes last.
pub proof fn preview_encode_args_layout(fps: Seq<char>, pattern: Seq<char>, tmp_output: Seq<char>)
    ensures
        preview_encode_args_for(fps, pattern, tmp_output) == seq![
            "-hide_banner"@,
            "-loglevel"@,
            "error"@,
            "-nostdin"@,
            "-y"@,
            "-framerate"@,
            fps,
            "-start_number"@,
            "0"@,
            "-i"@,
            pattern,
            "-vf"@,
            "scale='min(960,iw)':-2"@,
            "-c:v"@,
            "libx264"@,
            "-preset"@,
            "veryfast"@,
            "-crf"@,
            "30"@,
            "-pix_fmt"@,
            "yuv420p"@,
            "-movflags"@,
            "+faststart"@,
            "-f"@,
            "mp4"@,
            tmp_output,
        ],
{
    assert(preview_encode_args_for(fps, pattern, tmp_output) =~= seq![
        "-hide_banner"@,
        "-loglevel"@,
        "error"@,
        "-nostdin"@,
        "-y"@,
        "-framerate"@,
        fps,
        "-start_number"@,
        "0"@,
        "-i"@,
        pattern,
        "-vf"@,
        "scale='min(960,iw)':-2"@,
        "-c:v"@,
        "libx264"@,
        "-preset"@,
        "veryfast"@,
        "-crf"@,
        "30"@,
        "-pix_fmt"@,
        "yuv420p"@,
        "-movflags"@,
        "+faststart"@,
        "-f"@,
        "mp4"@,
        tmp_output,
    ]);
}

/// The arguments of a frame-preview run; see `preview_encode_args_for`.
pub fn preview_encode_args(fps: &str, pattern: &str, tmp_output: &str) -> (r: Vec<String>)
    ensures
        args_view(r@) == preview_encode_args_for(fps@, pattern@, tmp_output@),
{
    let mut a: Vec<String> = Vec::new();
    let ghost e = args_view(a@);
    common(&mut a);
    push_arg(&mut a, "-framerate");
    push_arg(&mut a, fps);
    push_arg(&mut a, "-start_number");
    push_arg(&mut a, "0");
    push_arg(&mut a, "-i");
    push_arg(&mut a, pattern);
    let ghost s1 = args_view(a@);
    preview_encoding(&mut a);
    push_arg(&mut a, "-f");
    push_arg(&mut a, "mp4");
    push_arg(&mut a, tmp_output);
    proof {
        assert(e =~= Seq::<Seq<char>>::empty());
        assert(args_view(a@) =~= preview_encode_args_for(fps@, pattern@, tmp_output@));
    }
    a
}

// ---------------------------------------------------------------------------
// Files written for FFmpeg
// ---------------------------------------------------------------------------

/// What one character of a path becomes inside a single-quoted concat
/// entry: a quote closes the quoting, is written escaped, and reopens it.
pub open spec fn escaped_char(c: char) -> Seq<char> {
    if c == '\'' {
        seq!['\'', '\\', '\'', '\'']
    } else {
        seq![c]
    }
}

/// A path escaped for a single-quoted concat entry.
pub open spec fn escaped(s: Seq<char>) -> Seq<char>
    decreases s.len(),
{
    if s.len() == 0 {
        Seq::empty()
    } else {
        escaped(s.drop_last()) + escaped_char(s.last())
    }
}

fn append_escaped_char(out: &mut String, c: char)
    ensures
        final(out)@ == old(out)@ + escaped_char(c),
{
    let ghost before = out@;
    if c == '\'' {
        push_char(out, '\'');
        push_char(out, '\\');
        push_char(out, '\'');
        push_char(out, '\'');
    } else {
        push_char(out, c);
    }
    proof {
        assert(out@ =~= before + escaped_char(c));
    }
}

/// `path` with each `'` written as `'\''`, for a single-quoted entry of an
/// FFmpeg concat list.
pub fn escape_concat_path(path: &str) -> (r: String)
    ensures
        r@ == escaped(path@),
{
    let v = chars_of(path);
    let mut out = String::new();
    let mut i: usize = 0;
    while i < v.len()
        invariant
            i <= v.len(),
            v@ == path@,
            out@ == escaped(v@.take(i as int)),
        decreases v.len() - i,
    {
        append_escaped_char(&mut out, v[i]);
        proof {
            let t = v@.take(i + 1);
            assert(t.drop_last() =~= v@.take(i as int));
            assert(t.last() == v@[i as int]);
        }
        i = i + 1;
    }
    proof {
        assert(v@.take(v@.len() as int) =~= v@);
    }
    out
}

/// A path with no `'` in it is left as it is.
pub proof fn escape_keeps_paths_without_quotes(s: Seq<char>)
    requires
        forall|i: int| 0 <= i < s.len() ==> s[i] != '\'',
    ensures
        escaped(s) == s,
    decreases s.len(),
{
    if s.len() > 0 {
        escape_keeps_paths_without_quotes(s.drop_last());
        assert(s.drop_last().push(s.last()) =~= s);
    }
}

/// Escaping adds three characters for each `'` and keeps the others.
pub proof fn escape_length(s: Seq<char>)
    ensures
        escaped(s).len() == s.len() + 3 * s.filter(|c: char| c == '\'').len(),
    decreases s.len(),
{
    reveal(Seq::filter);
    if s.len() > 0 {
        escape_length(s.drop_last());
    }
}

/// Reads back an escaped path: each `'\''` becomes `'` again.
pub open spec fn unescaped(s: Seq<char>) -> Seq<char>
    decreases s.len(),
{
    if s.len() == 0 {
        Seq::empty()
    } else if s.len() >= 4 && s.subrange(s.len() - 4, s.len() as int) == escaped_char('\'') {
        unescaped(s.subrange(0, s.len() - 4)).push('\'')
    } else {
        unescaped(s.drop_last()).push(s.last())
    }
}

/// Escaping can be undone: reading back an escaped path gives the path.
pub proof fn escape_can_be_undone(s: Seq<char>)
    ensures
        unescaped(escaped(s)) == s,
    decreases s.len(),
{
    if s.len() > 0 {
        let a = escaped(s.drop_last());
        let c = s.last();
        escape_can_be_undone(s.drop_last());
        let e = escaped(s);
        assert(e == a + escaped_char(c));
        if c == '\'' {
            assert(e.subrange(e.len() - 4, e.len() as int) =~= escaped_char('\''));
            assert(e.subrange(0, e.len() - 4) =~= a);
        } else {
            assert(e.last() == c);
            assert(e.drop_last() =~= a);
            if e.len() >= 4 {
                assert(e.subrange(e.len() - 4, e.len() as int)[3] == c);
                assert(escaped_char('\'')[3] == '\'');
            }
        }
        assert(s.drop_last().push(c) =~= s);
    }
}

/// One line of an FFmpeg concat list.
pub open spec fn concat_line(path: Seq<char>) -> Seq<char> {
    "file '"@ + escaped(path) + "'\n"@
}

/// The concat list for `paths`, one quoted `file` line per path.
pub open spec fn concat_text(paths: Seq<Seq<char>>) -> Seq<char>
    decreases paths.len(),
{
    if paths.len() == 0 {
        Seq::empty()
    } else {
        concat_text(paths.drop_last()) + concat_line(paths.last())
    }
}

/// The concat list of two lists of paths one after the other is the list
/// of the first followed by the list of the second, and a single path gives
/// the one line `file '<escaped path>'` and a newline.
pub proof fn concat_text_joins(a: Seq<Seq<char>>, b: Seq<Seq<char>>)
    ensures
        concat_text(a + b) == concat_text(a) + concat_text(b),
        forall|p: Seq<char>| #[trigger] concat_text(seq![p]) == "file '"@ + escaped(p) + "'\n"@,
    decreases b.len(),
{
    if b.len() == 0 {
        assert(a + b =~= a);
        assert(concat_text(a) + concat_text(b) =~= concat_text(a));
    } else {
        concat_text_joins(a, b.drop_last());
        assert((a + b).drop_last() =~= a + b.drop_last());
        assert((a + b).last() == b.last());
        assert(concat_text(a) + concat_text(b.drop_last()) + concat_line(b.last()) =~= concat_text(a)
            + (concat_text(b.drop_last()) + concat_line(b.last())));
    }
    assert forall|p: Seq<char>| #[trigger] concat_text(seq![p]) == "file '"@ + escaped(p) + "'\n"@ by {
        assert(seq![p].drop_last() =~= Seq::<Seq<char>>::empty());
        assert(concat_text(Seq::<Seq<char>>::empty()) == Seq::<char>::empty());
        assert(concat_text(seq![p]) == concat_text(seq![p].drop_last()) + concat_line(p));
        assert(Seq::<char>::empty() + concat_line(p) =~= concat_line(p));
    }
}

/// The concat list for `paths`; see `concat_text`.
pub fn concat_list(paths: &Vec<String>) -> (r: String)
    ensures
        r@ == concat_text(args_view(paths@)),
{
    let mut out = String::new();
    let mut i: usize = 0;
    while i < paths.len()
        invariant
            i <= paths.len(),
            out@ == concat_text(args_view(paths@).take(i as int)),
        decreases paths.len() - i,
    {
        let ghost before = out@;
        push_str(&mut out, "file '");
        let e = escape_concat_path(paths[i].as_str());
        push_str(&mut out, e.as_str());
        push_str(&mut out, "'\n");
        proof {
            let t = args_view(paths@).take(i + 1);
            assert(t.drop_last() =~= args_view(paths@).take(i as int));
            assert(t.last() == paths@[i as int]@);
            assert(out@ =~= before + concat_line(paths@[i as int]@));
        }
        i = i + 1;
    }
    proof {
        assert(args_view(paths@).take(paths@.len() as int) =~= args_view(paths@));
    }
    out
}

/// The image file name of the `index`-th preview frame: `frame_`, the index
/// in at least six digits, `.jpg`; the pattern `frame_%06d.jpg` reads them
/// back in order.
pub open spec fn frame_file_name_text(index: nat) -> Seq<char> {
    "frame_"@ + text::zero_pad(text::decimal(index), 6) + ".jpg"@
}

/// The image file name of a preview frame; see `frame_file_name_text`.
pub fn frame_file_name(index: usize) -> (r: String)
    ensures
        r@ == frame_file_name_text(index as nat),
{
    let mut s = owned("frame_");
    let d = decimal_text(index as u64);
    append_zero_padded(&mut s, &d, 6);
    push_str(&mut s, ".jpg");
    s
}

/// Different frame numbers give different file names, and the number in
/// a frame's name reads back as its index.
pub proof fn frame_file_names_are_distinct(i: nat, j: nat)
    ensures
        text::digits_value(
            frame_file_name_text(i).subrange(6, frame_file_name_text(i).len() - 4),
        ) == i,
        i != j ==> frame_file_name_text(i) != frame_file_name_text(j),
{
    let di = text::zero_pad(text::decimal(i), 6);
    let dj = text::zero_pad(text::decimal(j), 6);
    reveal_strlit("frame_");
    reveal_strlit(".jpg");
    let ni = frame_file_name_text(i);
    let nj = frame_file_name_text(j);
    assert(ni.subrange(6, ni.len() - 4) =~= di);
    assert(nj.subrange(6, nj.len() - 4) =~= dj);
    text::zero_padded_decimal_reads_back(i, 6);
    text::zero_padded_decimal_reads_back(j, 6);
}

/// The pattern under which FFmpeg reads the preview frames back.
pub fn frame_pattern() -> (r: String)
    ensures
        r@ == "frame_%06d.jpg"@,
{
    owned("frame_%06d.jpg")
}

/// The file names of a segment with id text `id`: where it is written
/// while being captured, and where it is moved once complete.
pub fn segment_file_names(id: &str) -> (r: (String, String))
    ensures
        r.0@ == id@ + ".tmp.mp4"@,
        r.1@ == id@ + ".mp4"@,
{
    let mut tmp = owned(id);
    push_str(&mut tmp, ".tmp.mp4");
    let mut done = owned(id);
    push_str(&mut done, ".mp4");
    (tmp, done)
}

/// What a list of segments is turned into.
#[derive(Debug, Clone, Copy, PartialEq, Eq, Structural)]
pub enum SegmentUse {
    /// A full export.
    Export,
    /// A preview.
    Preview,
}

/// The text of the refusal when there is no segment to use.
pub open spec fn no_segments_text(purpose: SegmentUse) -> Seq<char> {
    match purpose {
        SegmentUse::Export => "no captured segments are available to export"@,
        SegmentUse::Preview => "no captured segments are available to preview"@,
    }
}

/// Refuses to export or preview an empty list of segments.
pub fn require_segments(count: usize, purpose: SegmentUse) -> (r: Result<(), String>)
    ensures
        match r {
            Ok(()) => count > 0,
            Err(e) => count == 0 && e@ == no_segments_text(purpose),
        },
{
    if count > 0 {
        Ok(())
    } else {
        match purpose {
            SegmentUse::Export => Err(owned("no captured segments are available to export")),
            SegmentUse::Preview => Err(owned("no captured segments are available to preview")),
        }
    }
}

/// The frame images of a preview written so far. A frame that could not be
/// extracted does not take a number, so the images written are always
/// numbered 0, 1, 2, ... without a gap, which is what the pattern
/// `frame_%06d.jpg` reads.
pub struct PreviewFrames {
    written: usize,
}

impl View for PreviewFrames {
    type V = nat;

    /// How many frame images have been written.
    closed spec fn view(&self) -> nat {
        self.written as nat
    }
}

impl PreviewFrames {
    /// No frame has been written.
    pub fn new() -> (r: PreviewFrames)
        ensures
            r@ == 0,
    {
        PreviewFrames { written: 0 }
    }

    /// How many frame images have been written.
    pub fn count(&self) -> (r: usize)
        ensures
            r == self@,
    {
        self.written
    }

    /// The file name the next frame is extracted to.
    pub fn next_file_name(&self) -> (r: String)
        ensures
            r@ == frame_file_name_text(self@),
    {
        frame_file_name(self.written)
    }

    /// Refuses to encode a preview when no frame could be extracted.
    pub fn require_frames(&self) -> (r: Result<(), String>)
        ensures
            match r {
                Ok(()) => self@ > 0,
                Err(e) => self@ == 0 && e@
                    == "no valid video frames were available in the selected segments"@,
            },
    {
        if self.written > 0 {
            Ok(())
        } else {
            Err(owned("no valid video frames were available in the selected segments"))
        }
    }

    /// Records whether the next frame was extracted; only an extracted frame
    /// keeps its number.
    pub fn record(&mut self, extracted: bool)
        requires
            old(self)@ < usize::MAX,
        ensures
            final(self)@ == old(self)@ + if extracted {
                1nat
            } else {
                0nat
            },
    {
        if extracted {
            self.written = self.written + 1;
        }
    }
}

} // verus!
