use voice_clip::clip::{timestamp, Clip, LocalTime};

fn time(year: i32, month: u32, day: u32, hour: u32, minute: u32, second: u32) -> LocalTime {
    LocalTime { year, month, day, hour, minute, second }
}

#[test]
fn recordings_are_named_after_their_start() {
    assert_eq!(timestamp(&time(2026, 3, 25, 14, 30, 52)), "2026-03-25_143052");
    assert_eq!(timestamp(&time(2026, 3, 25, 14, 45, 10)), "2026-03-25_144510");
    assert_eq!(timestamp(&time(2024, 2, 29, 0, 0, 0)), "2024-02-29_000000");
    assert_eq!(timestamp(&time(999, 12, 31, 23, 59, 59)), "0999-12-31_235959");
}

#[test]
fn years_outside_of_four_digits_have_a_sign() {
    assert_eq!(timestamp(&time(10000, 1, 1, 1, 2, 3)), "+10000-01-01_010203");
    assert_eq!(timestamp(&time(-5, 1, 1, 1, 2, 3)), "-0005-01-01_010203");
    assert_eq!(timestamp(&time(0, 1, 1, 1, 2, 3)), "0000-01-01_010203");
    assert_eq!(timestamp(&time(262142, 12, 31, 1, 2, 3)), "+262142-12-31_010203");
    assert_eq!(timestamp(&time(-262143, 1, 1, 1, 2, 3)), "-262143-01-01_010203");
}

#[test]
fn different_seconds_give_different_names() {
    assert_ne!(
        timestamp(&time(2026, 3, 25, 14, 30, 52)),
        timestamp(&time(2026, 3, 25, 14, 30, 53))
    );
}

#[test]
fn the_transcript_stands_beside_the_audio() {
    let clip = Clip::starting_at("/home/me/voice-clips/clips", &time(2026, 3, 25, 14, 30, 52));
    assert_eq!(clip.wav_name(), "2026-03-25_143052.wav");
    assert_eq!(
        clip.wav_path(),
        "/home/me/voice-clips/clips/2026-03-25_143052.wav"
    );
    assert_eq!(
        clip.txt_path(),
        "/home/me/voice-clips/clips/2026-03-25_143052.txt"
    );
    let txt = std::path::Path::new(&clip.wav_path()).with_extension("txt");
    assert_eq!(clip.txt_path(), txt.display().to_string());
}
