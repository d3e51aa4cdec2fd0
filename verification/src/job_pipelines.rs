//! Builders for the launch descriptions the job service submits to the
//! daemon: transcoding pipelines for each output format, and
//! source-separation pipelines with one branch per extracted stem. Every
//! builder's output text is pinned exactly by its contract.

use vstd::prelude::*;

use crate::jobs::{model_name, model_stems, DemucsModel, DemucsOptions, OutputFormat,
    TranscodeOptions};
use crate::text::{chars_to_string, dec_str, push_str_chars, str_eq, u64_to_dec_chars};

verus! {

/// A path with backslashes and double quotes escaped for inclusion in a
/// launch description.
pub open spec fn escaped_path(s: Seq<char>) -> Seq<char>
    decreases s.len(),
{
    if s.len() == 0 {
        Seq::empty()
    } else {
        escaped_path(s.drop_last()) + (if s.last() == '\\' {
            seq!['\\', '\\']
        } else if s.last() == '"' {
            seq!['\\', '"']
        } else {
            seq![s.last()]
        })
    }
}

/// Escapes backslashes and double quotes in a path for use inside a
/// quoted launch-description property.
pub fn escape_path(path: &str) -> (r: String)
    ensures
        r@ == escaped_path(path@),
{
    let cs = crate::text::str_to_chars(path);
    let n = cs.len();
    let mut out: Vec<char> = Vec::new();
    let mut i: usize = 0;
    while i < n
        invariant
            i <= n,
            n == cs@.len(),
            cs@ == path@,
            out@ == escaped_path(path@.take(i as int)),
        decreases n - i,
    {
        let c = cs[i];
        if c == '\\' {
            out.push('\\');
            out.push('\\');
        } else if c == '"' {
            out.push('\\');
            out.push('"');
        } else {
            out.push(c);
        }
        proof {
            assert(path@.take(i + 1 as int).drop_last() =~= path@.take(i as int));
            assert(path@.take(i + 1 as int).last() == path@[i as int]);
        }
        i += 1;
    }
    assert(path@.take(n as int) == path@);
    chars_to_string(&out)
}

/// The audio bitrate in kbit/s, with `dflt` when unset.
pub open spec fn audio_kbps(o: TranscodeOptions, dflt: int) -> int {
    match o.audio_bitrate_kbps {
        Some(b) => b as int,
        None => dflt,
    }
}

/// The video-scaling prefix selected by the requested dimensions.
pub open spec fn video_scale_text(o: TranscodeOptions) -> Seq<char> {
    match (o.width, o.height) {
        (Some(w), Some(h)) => "videoscale ! video/x-raw,width="@ + dec_str(w as int) + ",height="@
            + dec_str(h as int) + " ! "@,
        (Some(w), None) => "videoscale ! video/x-raw,width="@ + dec_str(w as int) + " ! "@,
        (None, Some(h)) => "videoscale ! video/x-raw,height="@ + dec_str(h as int) + " ! "@,
        (None, None) => Seq::empty(),
    }
}

/// The H.264 encoder fragment: optional scaling, then the encoder with an
/// optional bitrate.
pub open spec fn x264_text(o: TranscodeOptions) -> Seq<char> {
    video_scale_text(o) + "x264enc tune=zerolatency"@ + (match o.video_bitrate_kbps {
        Some(b) => " bitrate="@ + dec_str(b as int),
        None => Seq::<char>::empty(),
    })
}

/// The AAC encoder fragment, bitrate in bit/s (default 128 kbit/s).
pub open spec fn aac_text(o: TranscodeOptions) -> Seq<char> {
    "fdkaacenc bitrate="@ + dec_str(audio_kbps(o, 128) * 1000)
}

/// The transcoding description for the selected output format.
pub open spec fn transcode_text(input: Seq<char>, output: Seq<char>, o: TranscodeOptions) -> Seq<
    char,
> {
    let inp = escaped_path(input);
    let out = escaped_path(output);
    match o.output_format {
        OutputFormat::Mp4 => "filesrc location=\""@ + inp
            + "\" ! decodebin name=dec dec. ! queue ! videoconvert ! "@ + x264_text(o)
            + " ! h264parse ! queue ! mux. dec. ! queue ! audioconvert ! audioresample ! "@
            + aac_text(o) + " ! queue ! mux. mp4mux name=mux ! filesink location=\""@ + out
            + "\""@,
        OutputFormat::Mkv => "filesrc location=\""@ + inp
            + "\" ! decodebin name=dec dec. ! queue ! videoconvert ! "@ + x264_text(o)
            + " ! h264parse ! queue ! mux. dec. ! queue ! audioconvert ! audioresample ! "@
            + aac_text(o) + " ! queue ! mux. matroskamux name=mux ! filesink location=\""@ + out
            + "\""@,
        OutputFormat::Webm => "filesrc location=\""@ + inp
            + "\" ! decodebin name=dec dec. ! queue ! videoconvert ! vp8enc target-bitrate="@
            + dec_str((match o.video_bitrate_kbps {
            Some(b) => b as int,
            None => 2000,
        }) * 1000)
            + " deadline=1 ! queue ! mux. dec. ! queue ! audioconvert ! audioresample ! vorbisenc bitrate="@
            + dec_str(audio_kbps(o, 128) * 1000)
            + " ! queue ! mux. webmmux name=mux ! filesink location=\""@ + out + "\""@,
        OutputFormat::Mp3 => "filesrc location=\""@ + inp
            + "\" ! decodebin ! audioconvert ! audioresample ! lamemp3enc target=bitrate bitrate="@
            + dec_str(audio_kbps(o, 192)) + " ! id3v2mux ! filesink location=\""@ + out + "\""@,
        OutputFormat::Ogg => "filesrc location=\""@ + inp
            + "\" ! decodebin ! audioconvert ! audioresample ! vorbisenc bitrate="@ + dec_str(
            audio_kbps(o, 128) * 1000,
        ) + " ! oggmux ! filesink location=\""@ + out + "\""@,
        OutputFormat::Flac => "filesrc location=\""@ + inp
            + "\" ! decodebin ! audioconvert ! audioresample ! flacenc ! filesink location=\""@
            + out + "\""@,
    }
}

/// Renders a `u32` as decimal characters.
fn push_u32_dec(out: &mut Vec<char>, n: u32)
    ensures
        final(out)@ == old(out)@ + dec_str(n as int),
{
    let mut digits = u64_to_dec_chars(n as u64);
    out.append(&mut digits);
}

/// Builds the H.264 encoder fragment.
fn push_x264(out: &mut Vec<char>, options: &TranscodeOptions)
    ensures
        final(out)@ == old(out)@ + x264_text(*options),
{
    match (options.width, options.height) {
        (Some(w), Some(h)) => {
            push_str_chars(out, "videoscale ! video/x-raw,width=");
            push_u32_dec(out, w);
            push_str_chars(out, ",height=");
            push_u32_dec(out, h);
            push_str_chars(out, " ! ");
        },
        (Some(w), None) => {
            push_str_chars(out, "videoscale ! video/x-raw,width=");
            push_u32_dec(out, w);
            push_str_chars(out, " ! ");
        },
        (None, Some(h)) => {
            push_str_chars(out, "videoscale ! video/x-raw,height=");
            push_u32_dec(out, h);
            push_str_chars(out, " ! ");
        },
        (None, None) => {},
    }
    push_str_chars(out, "x264enc tune=zerolatency");
    if let Some(b) = options.video_bitrate_kbps {
        push_str_chars(out, " bitrate=");
        push_u32_dec(out, b);
    }
}

/// Builds the AAC encoder fragment.
fn push_aac(out: &mut Vec<char>, options: &TranscodeOptions)
    ensures
        final(out)@ == old(out)@ + aac_text(*options),
{
    push_str_chars(out, "fdkaacenc bitrate=");
    let kbps: u64 = match options.audio_bitrate_kbps {
        Some(b) => b as u64,
        None => 128,
    };
    let mut digits = u64_to_dec_chars(kbps * 1000);
    out.append(&mut digits);
}

/// Builds the launch description that transcodes `input_path` into
/// `output_path` with the given options.
pub fn build_transcode_pipeline(
    input_path: &str,
    output_path: &str,
    options: &TranscodeOptions,
) -> (r: String)
    ensures
        r@ == transcode_text(input_path@, output_path@, *options),
{
    let input = escape_path(input_path);
    let output = escape_path(output_path);
    let mut out: Vec<char> = Vec::new();
    push_str_chars(&mut out, "filesrc location=\"");
    push_str_chars(&mut out, input.as_str());
    match options.output_format {
        OutputFormat::Mp4 | OutputFormat::Mkv => {
            push_str_chars(&mut out, "\" ! decodebin name=dec dec. ! queue ! videoconvert ! ");
            push_x264(&mut out, options);
            push_str_chars(
                &mut out,
                " ! h264parse ! queue ! mux. dec. ! queue ! audioconvert ! audioresample ! ",
            );
            push_aac(&mut out, options);
            match options.output_format {
                OutputFormat::Mp4 => push_str_chars(
                    &mut out,
                    " ! queue ! mux. mp4mux name=mux ! filesink location=\"",
                ),
                _ => push_str_chars(
                    &mut out,
                    " ! queue ! mux. matroskamux name=mux ! filesink location=\"",
                ),
            }
        },
        OutputFormat::Webm => {
            push_str_chars(
                &mut out,
                "\" ! decodebin name=dec dec. ! queue ! videoconvert ! vp8enc target-bitrate=",
            );
            let vbps: u64 = match options.video_bitrate_kbps {
                Some(b) => b as u64,
                None => 2000,
            };
            let mut digits = u64_to_dec_chars(vbps * 1000);
            out.append(&mut digits);
            push_str_chars(
                &mut out,
                " deadline=1 ! queue ! mux. dec. ! queue ! audioconvert ! audioresample ! vorbisenc bitrate=",
            );
            let abps: u64 = match options.audio_bitrate_kbps {
                Some(b) => b as u64,
                None => 128,
            };
            let mut digits2 = u64_to_dec_chars(abps * 1000);
            out.append(&mut digits2);
            push_str_chars(
                &mut out,
                " ! queue ! mux. webmmux name=mux ! filesink location=\"",
            );
        },
        OutputFormat::Mp3 => {
            push_str_chars(
                &mut out,
                "\" ! decodebin ! audioconvert ! audioresample ! lamemp3enc target=bitrate bitrate=",
            );
            let kbps: u64 = match options.audio_bitrate_kbps {
                Some(b) => b as u64,
                None => 192,
            };
            let mut digits = u64_to_dec_chars(kbps);
            out.append(&mut digits);
            push_str_chars(&mut out, " ! id3v2mux ! filesink location=\"");
        },
        OutputFormat::Ogg => {
            push_str_chars(
                &mut out,
                "\" ! decodebin ! audioconvert ! audioresample ! vorbisenc bitrate=",
            );
            let kbps: u64 = match options.audio_bitrate_kbps {
                Some(b) => b as u64,
                None => 128,
            };
            let mut digits = u64_to_dec_chars(kbps * 1000);
            out.append(&mut digits);
            push_str_chars(&mut out, " ! oggmux ! filesink location=\"");
        },
        OutputFormat::Flac => {
            push_str_chars(
                &mut out,
                "\" ! decodebin ! audioconvert ! audioresample ! flacenc ! filesink location=\"",
            );
        },
    }
    push_str_chars(&mut out, output.as_str());
    push_str_chars(&mut out, "\"");
    chars_to_string(&out)
}

/// The stems of `requested` that the model supports, in request order.
pub open spec fn stems_selected(requested: Seq<String>, model: Seq<Seq<char>>) -> Seq<Seq<char>>
    decreases requested.len(),
{
    if requested.len() == 0 {
        Seq::empty()
    } else {
        stems_selected(requested.drop_last(), model) + (if model.contains(requested.last()@) {
            seq![requested.last()@]
        } else {
            Seq::empty()
        })
    }
}

/// The stems a separation job extracts: all the model's stems when none
/// are requested, else the requested ones the model supports.
pub open spec fn stems_for(o: DemucsOptions) -> Seq<Seq<char>> {
    if o.stems@.len() == 0 {
        model_stems(o.model)
    } else {
        stems_selected(o.stems@, model_stems(o.model))
    }
}

/// The stem-file extension of a separation job: `flac` when asked for,
/// else `wav`.
pub open spec fn stem_ext(o: DemucsOptions) -> Seq<char> {
    if o.output_format@ == "flac"@ {
        "flac"@
    } else {
        "wav"@
    }
}

/// The stem encoder of a separation job.
pub open spec fn stem_encoder(o: DemucsOptions) -> Seq<char> {
    if o.output_format@ == "flac"@ {
        "flacenc"@
    } else {
        "wavenc"@
    }
}

/// The output branches of a separation description, one per extracted
/// stem.
pub open spec fn stem_branches(
    stems: Seq<Seq<char>>,
    outdir: Seq<char>,
    enc: Seq<char>,
    ext: Seq<char>,
) -> Seq<char>
    decreases stems.len(),
{
    if stems.len() == 0 {
        Seq::empty()
    } else {
        stem_branches(stems.drop_last(), outdir, enc, ext) + " demucs.src_"@ + stems.last()
            + " ! queue ! audioconvert ! "@ + enc + " ! filesink location=\""@ + outdir + "/"@
            + stems.last() + "."@ + ext + "\""@
    }
}

/// The terminating branches for the model stems that were not requested.
pub open spec fn fakesink_branches(model: Seq<Seq<char>>, selected: Seq<Seq<char>>) -> Seq<char>
    decreases model.len(),
{
    if model.len() == 0 {
        Seq::empty()
    } else {
        fakesink_branches(model.drop_last(), selected) + (if selected.contains(model.last()) {
            Seq::empty()
        } else {
            " demucs.src_"@ + model.last() + " ! fakesink"@
        })
    }
}

/// The whole separation description.
pub open spec fn demucs_text(input: Seq<char>, output_dir: Seq<char>, o: DemucsOptions) -> Seq<
    char,
> {
    let inp = escaped_path(input);
    let outd = escaped_path(output_dir);
    "filesrc location=\""@ + inp
        + "\" ! decodebin ! audioconvert ! audioresample ! audio/x-raw,format=F32LE,rate=44100,channels=2 ! demucs model="@
        + model_name(o.model) + " name=demucs"@ + stem_branches(
        stems_for(o),
        outd,
        stem_encoder(o),
        stem_ext(o),
    ) + fakesink_branches(model_stems(o.model), stems_for(o))
}

/// The stems a separation job extracts, in order.
pub fn get_stems_for_pipeline(options: &DemucsOptions) -> (r: Vec<String>)
    ensures
        r@.len() == stems_for(*options).len(),
        forall|i: int| 0 <= i < r@.len() ==> (#[trigger] r@[i])@ == stems_for(*options)[i],
{
    let model = options.model.stems();
    if options.stems.len() == 0 {
        let n = model.len();
        let mut out: Vec<String> = Vec::new();
        let mut i: usize = 0;
        while i < n
            invariant
                i <= n,
                n == model@.len(),
                n == model_stems(options.model).len(),
                forall|j: int|
                    0 <= j < n ==> (#[trigger] model@[j])@ == model_stems(options.model)[j],
                out@.len() == i,
                forall|j: int|
                    0 <= j < i ==> (#[trigger] out@[j])@ == model_stems(options.model)[j],
            decreases n - i,
        {
            out.push(String::from_str(model[i]));
            i += 1;
        }
        out
    } else {
        let n = options.stems.len();
        let mut out: Vec<String> = Vec::new();
        let mut i: usize = 0;
        while i < n
            invariant
                i <= n,
                n == options.stems@.len(),
                model@.len() == model_stems(options.model).len(),
                forall|j: int|
                    0 <= j < model@.len() ==> (#[trigger] model@[j])@ == model_stems(
                        options.model,
                    )[j],
                out@.len() == stems_selected(
                    options.stems@.take(i as int),
                    model_stems(options.model),
                ).len(),
                forall|j: int|
                    0 <= j < out@.len() ==> (#[trigger] out@[j])@ == stems_selected(
                        options.stems@.take(i as int),
                        model_stems(options.model),
                    )[j],
            decreases n - i,
        {
            let stem = &options.stems[i];
            let supported = crate::jobs::stem_list_contains(&model, stem.as_str());
            proof {
                let ms = model_stems(options.model);
                assert(supported == ms.contains(stem@)) by {
                    if supported {
                        let q = choose|q: int|
                            0 <= q < model@.len() && (#[trigger] model@[q])@ == stem@;
                        assert(ms[q] == stem@);
                    }
                    if ms.contains(stem@) {
                        let q = choose|q: int| 0 <= q < ms.len() && ms[q] == stem@;
                        assert((model@[q])@ == stem@);
                    }
                }
                assert(options.stems@.take(i + 1 as int).drop_last() =~= options.stems@.take(
                    i as int,
                ));
                assert(options.stems@.take(i + 1 as int).last() == options.stems@[i as int]);
            }
            if supported {
                out.push(stem.clone());
            }
            i += 1;
        }
        proof {
            assert(options.stems@.take(n as int) == options.stems@);
        }
        out
    }
}

/// Appends one stem's output branch.
fn push_stem_branch(out: &mut Vec<char>, stem: &str, outdir: &str, flac: bool)
    ensures
        final(out)@ == old(out)@ + " demucs.src_"@ + stem@ + " ! queue ! audioconvert ! "@ + (if flac {
            "flacenc"@
        } else {
            "wavenc"@
        }) + " ! filesink location=\""@ + outdir@ + "/"@ + stem@ + "."@ + (if flac {
            "flac"@
        } else {
            "wav"@
        }) + "\""@,
{
    push_str_chars(out, " demucs.src_");
    push_str_chars(out, stem);
    push_str_chars(out, " ! queue ! audioconvert ! ");
    if flac {
        push_str_chars(out, "flacenc");
    } else {
        push_str_chars(out, "wavenc");
    }
    push_str_chars(out, " ! filesink location=\"");
    push_str_chars(out, outdir);
    push_str_chars(out, "/");
    push_str_chars(out, stem);
    push_str_chars(out, ".");
    if flac {
        push_str_chars(out, "flac");
    } else {
        push_str_chars(out, "wav");
    }
    push_str_chars(out, "\"");
}

/// Builds the launch description that separates `input_path` into stem
/// files under `output_dir`.
#[verifier::rlimit(100)]
pub fn build_demucs_pipeline(input_path: &str, output_dir: &str, options: &DemucsOptions) -> (r:
    String)
    ensures
        r@ == demucs_text(input_path@, output_dir@, *options),
{
    let input = escape_path(input_path);
    let outdir = escape_path(output_dir);
    let stems = get_stems_for_pipeline(options);
    let flac = str_eq(options.output_format.as_str(), "flac");
    let mut out: Vec<char> = Vec::new();
    push_str_chars(&mut out, "filesrc location=\"");
    push_str_chars(&mut out, input.as_str());
    push_str_chars(
        &mut out,
        "\" ! decodebin ! audioconvert ! audioresample ! audio/x-raw,format=F32LE,rate=44100,channels=2 ! demucs model=",
    );
    push_str_chars(&mut out, options.model.as_str());
    push_str_chars(&mut out, " name=demucs");
    let ghost sel = stems_for(*options);
    let n = stems.len();
    let ghost head = out@;
    let mut i: usize = 0;
    while i < n
        invariant
            i <= n,
            n == stems@.len(),
            n == sel.len(),
            sel == stems_for(*options),
            flac == (options.output_format@ == "flac"@),
            forall|j: int| 0 <= j < n ==> (#[trigger] stems@[j])@ == sel[j],
            outdir@ == escaped_path(output_dir@),
            out@ == head + stem_branches(
                sel.take(i as int),
                escaped_path(output_dir@),
                stem_encoder(*options),
                stem_ext(*options),
            ),
        decreases n - i,
    {
        push_stem_branch(&mut out, stems[i].as_str(), outdir.as_str(), flac);
        proof {
            assert(sel.take(i + 1 as int).drop_last() =~= sel.take(i as int));
            assert(sel.take(i + 1 as int).last() == sel[i as int]);
            assert(stem_encoder(*options) == if flac {
                "flacenc"@
            } else {
                "wavenc"@
            });
            assert(stem_ext(*options) == if flac {
                "flac"@
            } else {
                "wav"@
            });
            assert(out@ =~= head + stem_branches(
                sel.take(i + 1 as int),
                escaped_path(output_dir@),
                stem_encoder(*options),
                stem_ext(*options),
            ));
        }
        i += 1;
    }
    proof {
        assert(sel.take(n as int) == sel);
    }
    let model = options.model.stems();
    let m = model.len();
    let ghost head2 = out@;
    let ghost ms = model_stems(options.model);
    let mut j: usize = 0;
    while j < m
        invariant
            j <= m,
            m == model@.len(),
            m == ms.len(),
            ms == model_stems(options.model),
            sel == stems_for(*options),
            n == stems@.len(),
            n == sel.len(),
            forall|q: int| 0 <= q < m ==> (#[trigger] model@[q])@ == ms[q],
            forall|q: int| 0 <= q < n ==> (#[trigger] stems@[q])@ == sel[q],
            out@ == head2 + fakesink_branches(ms.take(j as int), sel),
        decreases m - j,
    {
        let in_selected = crate::jobs::string_list_contains(&stems, model[j]);
        proof {
            assert(in_selected == sel.contains(ms[j as int])) by {
                if in_selected {
                    let q = choose|q: int|
                        0 <= q < stems@.len() && (#[trigger] stems@[q])@ == model@[j as int]@;
                    assert(sel[q] == ms[j as int]);
                }
                if sel.contains(ms[j as int]) {
                    let q = choose|q: int| 0 <= q < sel.len() && sel[q] == ms[j as int];
                    assert((stems@[q])@ == model@[j as int]@);
                }
            }
            assert(ms.take(j + 1 as int).drop_last() =~= ms.take(j as int));
            assert(ms.take(j + 1 as int).last() == ms[j as int]);
        }
        if !in_selected {
            push_str_chars(&mut out, " demucs.src_");
            push_str_chars(&mut out, model[j]);
            push_str_chars(&mut out, " ! fakesink");
        }
        j += 1;
    }
    proof {
        assert(ms.take(m as int) == ms);
    }
    chars_to_string(&out)
}

/// The expected stem files of a separation job: each extracted stem,
/// paired with its output path `{output_dir}/{stem}.{ext}`.
#[verifier::rlimit(50)]
pub fn get_demucs_output_files(output_dir: &str, options: &DemucsOptions) -> (r: Vec<
    (String, String),
>)
    ensures
        r@.len() == stems_for(*options).len(),
        forall|i: int|
            0 <= i < r@.len() ==> {
                &&& (#[trigger] r@[i]).0@ == stems_for(*options)[i]
                &&& r@[i].1@ == output_dir@ + "/"@ + stems_for(*options)[i] + "."@ + stem_ext(
                    *options,
                )
            },
{
    let stems = get_stems_for_pipeline(options);
    let flac = str_eq(options.output_format.as_str(), "flac");
    let n = stems.len();
    let mut out: Vec<(String, String)> = Vec::new();
    let mut i: usize = 0;
    while i < n
        invariant
            i <= n,
            n == stems@.len(),
            n == stems_for(*options).len(),
            flac == (options.output_format@ == "flac"@),
            forall|j: int| 0 <= j < n ==> (#[trigger] stems@[j])@ == stems_for(*options)[j],
            out@.len() == i,
            forall|j: int|
                0 <= j < i ==> {
                    &&& (#[trigger] out@[j]).0@ == stems_for(*options)[j]
                    &&& out@[j].1@ == output_dir@ + "/"@ + stems_for(*options)[j] + "."@
                        + stem_ext(*options)
                },
        decreases n - i,
    {
        let mut path: Vec<char> = Vec::new();
        push_str_chars(&mut path, output_dir);
        push_str_chars(&mut path, "/");
        push_str_chars(&mut path, stems[i].as_str());
        push_str_chars(&mut path, ".");
        if flac {
            push_str_chars(&mut path, "flac");
        } else {
            push_str_chars(&mut path, "wav");
        }
        out.push((stems[i].clone(), chars_to_string(&path)));
        i += 1;
    }
    out
}

} // verus!
