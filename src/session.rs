use vstd::prelude::*;
use crate::backend::{codec_name, Encoder};

verus! {

/// The settings of one recording, fixed before it starts.
#[derive(Debug)]
pub struct SessionConfig {
    /// Frames captured per second.
    pub fps: u32,
    /// Length of the recording in seconds.
    pub duration_secs: u64,
    /// The audio capture device to record alongside, if any.
    pub audio_device: Option<String>,
    /// Where the encoder writes the finished file.
    pub output_path: String,
}

/// The character of a decimal digit.
pub open spec fn digit_char(d: nat) -> char {
    if d == 0 { '0' }
    else if d == 1 { '1' }
    else if d == 2 { '2' }
    else if d == 3 { '3' }
    else if d == 4 { '4' }
    else if d == 5 { '5' }
    else if d == 6 { '6' }
    else if d == 7 { '7' }
    else if d == 8 { '8' }
    else { '9' }
}

/// `n` written in decimal, without leading zeros.
pub open spec fn decimal(n: nat) -> Seq<char>
    decreases n,
{
    if n < 10 {
        seq![digit_char(n)]
    } else {
        decimal(n / 10).push(digit_char(n % 10))
    }
}

/// Relies on `u64::to_string`: the decimal digits of the number.
#[verifier::external_body]
fn decimal_string(n: u64) -> (r: String)
    ensures
        r@ == decimal(n as nat),
{
    n.to_string()
}

/// The audio input of the encoder's invocation: a DirectShow device.
pub open spec fn audio_input(device: Option<Seq<char>>) -> Seq<Seq<char>> {
    match device {
        Some(d) => seq!["-f"@, "dshow"@, "-i"@, "audio="@ + d],
        None => seq![],
    }
}

/// The audio codec of the encoder's invocation, when audio is recorded.
pub open spec fn audio_codec(device: Option<Seq<char>>) -> Seq<Seq<char>> {
    match device {
        Some(_) => seq!["-c:a"@, "aac"@],
        None => seq![],
    }
}

/// The arguments of the encoder tool: raw RGB frames of the geometry at the
/// rate on its input, the optional audio device, the backend's codec with
/// planar 4:2:0 output, the session's length and the output file.
pub open spec fn invocation(
    width: nat,
    height: nat,
    fps: nat,
    duration_secs: nat,
    encoder: Encoder,
    audio: Option<Seq<char>>,
    output: Seq<char>,
) -> Seq<Seq<char>> {
    seq!["-y"@, "-f"@, "rawvideo"@, "-pix_fmt"@, "rgb24"@, "-s"@,
        decimal(width) + "x"@ + decimal(height), "-r"@, decimal(fps), "-i"@, "-"@]
        + audio_input(audio)
        + seq!["-c:v"@, codec_name(encoder), "-pix_fmt"@, "yuv420p"@]
        + audio_codec(audio)
        + seq!["-t"@, decimal(duration_secs), output]
}

/// The audio device of a configuration as characters.
pub open spec fn audio_of(config: &SessionConfig) -> Option<Seq<char>> {
    match config.audio_device {
        Some(d) => Some(d@),
        None => None,
    }
}

fn push_str(args: &mut Vec<String>, s: &str)
    ensures
        final(args).deep_view() == old(args).deep_view().push(s@),
{
    args.push(String::from_str(s));
    assert(final(args).deep_view() =~= old(args).deep_view().push(s@));
}

fn push_string(args: &mut Vec<String>, s: String)
    ensures
        final(args).deep_view() == old(args).deep_view().push(s@),
{
    let ghost v = s@;
    args.push(s);
    assert(final(args).deep_view() =~= old(args).deep_view().push(v));
}

/// The arguments with which the encoder tool is started for a recording of a
/// `width` by `height` display.
pub fn encoder_arguments(config: &SessionConfig, width: usize, height: usize, encoder: Encoder) -> (r: Vec<String>)
    ensures
        r.deep_view() == invocation(
            width as nat,
            height as nat,
            config.fps as nat,
            config.duration_secs as nat,
            encoder,
            audio_of(config),
            config.output_path@,
        ),
{
    let mut args: Vec<String> = Vec::new();
    push_str(&mut args, "-y");
    push_str(&mut args, "-f");
    push_str(&mut args, "rawvideo");
    push_str(&mut args, "-pix_fmt");
    push_str(&mut args, "rgb24");
    push_str(&mut args, "-s");
    let size = decimal_string(width as u64).concat("x").concat(decimal_string(height as u64).as_str());
    push_string(&mut args, size);
    push_str(&mut args, "-r");
    push_string(&mut args, decimal_string(config.fps as u64));
    push_str(&mut args, "-i");
    push_str(&mut args, "-");
    let ghost head = args.deep_view();
    assert(head =~= seq!["-y"@, "-f"@, "rawvideo"@, "-pix_fmt"@, "rgb24"@, "-s"@,
        decimal(width as nat) + "x"@ + decimal(height as nat), "-r"@, decimal(config.fps as nat), "-i"@, "-"@]);
    match &config.audio_device {
        Some(d) => {
            push_str(&mut args, "-f");
            push_str(&mut args, "dshow");
            push_str(&mut args, "-i");
            push_string(&mut args, String::from_str("audio=").concat(d.as_str()));
        },
        None => {},
    }
    let ghost with_audio = args.deep_view();
    assert(with_audio =~= head + audio_input(audio_of(config)));
    push_str(&mut args, "-c:v");
    push_str(&mut args, encoder.codec());
    push_str(&mut args, "-pix_fmt");
    push_str(&mut args, "yuv420p");
    match &config.audio_device {
        Some(_) => {
            push_str(&mut args, "-c:a");
            push_str(&mut args, "aac");
        },
        None => {},
    }
    push_str(&mut args, "-t");
    let ghost with_codec = args.deep_view();
    assert(with_codec =~= with_audio + seq!["-c:v"@, codec_name(encoder), "-pix_fmt"@, "yuv420p"@]
        + audio_codec(audio_of(config)) + seq!["-t"@]);
    push_string(&mut args, decimal_string(config.duration_secs));
    push_string(&mut args, config.output_path.clone());
    assert(args.deep_view() =~~= invocation(
        width as nat,
        height as nat,
        config.fps as nat,
        config.duration_secs as nat,
        encoder,
        audio_of(config),
        config.output_path@,
    ));
    args
}

} // verus!
