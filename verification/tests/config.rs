use voice_clip::config::{env_path, load_config, parse_assignment, Config, ConfigError};
use voice_clip::paths::join_path;

fn loaded(contents: &str) -> Config {
    load_config("/home/me", Some(contents)).unwrap()
}

fn pair(key: &str, value: &str) -> Option<(String, String)> {
    Some((key.to_string(), value.to_string()))
}

#[test]
fn the_key_alone_is_enough() {
    let config = loaded("OPENAI_API_KEY=sk-your-key-here\n");
    assert_eq!(config.api_key, "sk-your-key-here");
    assert_eq!(config.lang, "nl");
    assert_eq!(config.device, "plughw:0,0");
    assert_eq!(config.clips_dir, "/home/me/voice-clips/clips");
}

#[test]
fn every_setting_can_be_given() {
    let config = loaded(
        "# settings\r\n\r\nVOICE_CLIP_DEVICE = \"hw:1,0\"\r\n  OPENAI_API_KEY='k e y'\r\nVOICE_CLIP_LANG=en\r\n",
    );
    assert_eq!(config.api_key, "k e y");
    assert_eq!(config.lang, "en");
    assert_eq!(config.device, "hw:1,0");
}

#[test]
fn the_last_assignment_wins() {
    let config = loaded("OPENAI_API_KEY=a\nVOICE_CLIP_LANG=en\nOPENAI_API_KEY=b\nnonsense\n#OPENAI_API_KEY=c");
    assert_eq!(config.api_key, "b");
    assert_eq!(config.lang, "en");
}

#[test]
fn without_a_key_there_are_no_settings() {
    for contents in [None, Some(""), Some("VOICE_CLIP_LANG=en"), Some("# OPENAI_API_KEY=x")] {
        let error = load_config("/home/me", contents).unwrap_err();
        assert_eq!(
            error,
            ConfigError::MissingApiKey("/home/me/voice-clips/.env".to_string())
        );
        assert_eq!(
            error.message(),
            "OPENAI_API_KEY not found in /home/me/voice-clips/.env"
        );
    }
}

#[test]
fn an_empty_key_is_a_key() {
    assert_eq!(loaded("OPENAI_API_KEY=").api_key, "");
}

#[test]
fn lines_are_read_one_by_one() {
    assert_eq!(parse_assignment("A=b"), pair("A", "b"));
    assert_eq!(parse_assignment("  A  =  b c  "), pair("A", "b c"));
    assert_eq!(parse_assignment("A=b=c"), pair("A", "b=c"));
    assert_eq!(parse_assignment("A=\"b\""), pair("A", "b"));
    assert_eq!(parse_assignment("A=\"  b \""), pair("A", "  b "));
    assert_eq!(parse_assignment("A=' b'"), pair("A", " b"));
    assert_eq!(parse_assignment("A=\"'b'\""), pair("A", "b"));
    assert_eq!(parse_assignment("A='\"b\"'"), pair("A", "\"b\""));
    assert_eq!(parse_assignment("=b"), pair("", "b"));
    assert_eq!(parse_assignment("A"), None);
    assert_eq!(parse_assignment("   "), None);
    assert_eq!(parse_assignment("  # A=b"), None);
}

#[test]
fn paths_are_joined_with_one_slash() {
    assert_eq!(env_path("/home/me"), "/home/me/voice-clips/.env");
    assert_eq!(env_path("/home/me/"), "/home/me/voice-clips/.env");
    assert_eq!(env_path("/"), "/voice-clips/.env");
    assert_eq!(env_path(""), "voice-clips/.env");
    for base in ["/home/me", "/home/me/", "/", ""] {
        let path = std::path::PathBuf::from(base).join("a/b");
        assert_eq!(join_path(base, "a/b"), path.display().to_string());
    }
}

#[test]
fn idle_lines_make_no_difference_anywhere() {
    let plain = loaded("OPENAI_API_KEY=a\nVOICE_CLIP_LANG=en");
    for idle in ["", "# c", "nonsense", "OTHER=x", "  #OPENAI_API_KEY=z"] {
        let top = format!("{}\nOPENAI_API_KEY=a\nVOICE_CLIP_LANG=en", idle);
        let middle = format!("OPENAI_API_KEY=a\n{}\nVOICE_CLIP_LANG=en", idle);
        let end = format!("OPENAI_API_KEY=a\nVOICE_CLIP_LANG=en\n{}", idle);
        assert_eq!(loaded(&top), plain);
        assert_eq!(loaded(&middle), plain);
        assert_eq!(loaded(&end), plain);
    }
}

#[test]
fn lines_with_different_keys_may_be_swapped() {
    assert_eq!(
        loaded("VOICE_CLIP_LANG=en\nOPENAI_API_KEY=a\nVOICE_CLIP_DEVICE=d"),
        loaded("OPENAI_API_KEY=a\nVOICE_CLIP_LANG=en\nVOICE_CLIP_DEVICE=d")
    );
}
