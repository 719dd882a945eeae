use screencast::backend::Encoder;
use screencast::session::{encoder_arguments, SessionConfig};

#[test]
fn arguments_with_audio() {
    let config = SessionConfig {
        fps: 30,
        duration_secs: 10,
        audio_device: Some("Microphone (USB)".to_string()),
        output_path: "output.mp4".to_string(),
    };
    let args = encoder_arguments(&config, 1920, 1080, Encoder::Software);
    let expected: Vec<&str> = vec![
        "-y", "-f", "rawvideo", "-pix_fmt", "rgb24", "-s", "1920x1080", "-r", "30", "-i", "-",
        "-f", "dshow", "-i", "audio=Microphone (USB)", "-c:v", "libx264", "-pix_fmt", "yuv420p",
        "-c:a", "aac", "-t", "10", "output.mp4",
    ];
    assert_eq!(args, expected);
}

#[test]
fn arguments_without_audio() {
    let config = SessionConfig {
        fps: 10,
        duration_secs: 1,
        audio_device: None,
        output_path: "clip.mp4".to_string(),
    };
    let args = encoder_arguments(&config, 2, 2, Encoder::Nvidia);
    let expected: Vec<&str> = vec![
        "-y", "-f", "rawvideo", "-pix_fmt", "rgb24", "-s", "2x2", "-r", "10", "-i", "-",
        "-c:v", "h264_nvenc", "-pix_fmt", "yuv420p", "-t", "1", "clip.mp4",
    ];
    assert_eq!(args, expected);
}
