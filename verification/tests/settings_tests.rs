use ncm_tui::settings::{
    cycle_quality, download_qualities, quality_display_name, quality_level_name, validate_quality, Settings,
};

#[test]
fn validates_download_quality() {
    for quality in download_qualities() {
        assert!(validate_quality(quality).is_ok());
    }
    assert!(validate_quality("unknown").is_err());
}

#[test]
fn maps_quality_display_names() {
    assert_eq!(quality_display_name("standard"), "标准");
    assert_eq!(quality_display_name("hires"), "Hi-Res");
    assert_eq!(quality_display_name("jymaster"), "超清母带");
    assert_eq!(quality_display_name("unknown"), "unknown");
}

#[test]
fn cycles_quality_wrapping_around() {
    assert_eq!(cycle_quality("standard", true), "higher");
    assert_eq!(cycle_quality("jymaster", true), "standard");
    assert_eq!(cycle_quality("standard", false), "jymaster");
    assert_eq!(cycle_quality("hires", false), "lossless");
    assert_eq!(cycle_quality("unknown", true), "higher");
}

#[test]
fn cycling_forward_then_back_returns_every_quality() {
    for quality in download_qualities() {
        assert_eq!(cycle_quality(cycle_quality(quality, true), false), quality);
        assert_eq!(cycle_quality(cycle_quality(quality, false), true), quality);
    }
}

#[test]
fn cycling_forward_nine_times_comes_back() {
    let mut key = "lossless";
    for _ in 0..download_qualities().len() {
        key = cycle_quality(key, true);
    }
    assert_eq!(key, "lossless");
}

#[test]
fn lists_the_nine_qualities_in_order() {
    assert_eq!(
        download_qualities(),
        vec!["standard", "higher", "exhigh", "lossless", "hires", "jyeffect", "sky", "dolby", "jymaster"]
    );
}

#[test]
fn names_reported_quality_levels() {
    assert_eq!(quality_level_name("jyeffect"), "高清臻音");
    assert_eq!(quality_display_name("jyeffect"), "高清臻音");
    assert_eq!(quality_level_name("dolby"), "杜比全景声");
    assert_eq!(quality_level_name("weird"), "weird");
}

#[test]
fn invalid_quality_message_lists_the_keys() {
    let err = validate_quality("flac").unwrap_err();
    assert_eq!(
        err.message(),
        "invalid quality 'flac'; supported values: standard, higher, exhigh, lossless, hires, jyeffect, sky, dolby, jymaster"
    );
}

#[test]
fn default_settings_hold_download_defaults() {
    let settings = Settings::default();
    assert!(!settings.use_remote_api);
    assert!(settings.download_path.is_empty());
    assert_eq!(settings.download_quality, "jymaster");
    assert_eq!(settings.play_quality, "hires");
    assert_eq!(settings.download_file_name_pattern, "{name}-{singer}-{album}-{quality}-{id}");
    assert_eq!(settings.download_lyric_name_pattern, "{name}-Lyric");
    assert!(settings.pinned_created_songlists.is_empty());
    assert!(settings.pinned_subscribed_songlists.is_empty());
}

#[test]
fn normalize_fills_only_empty_entries() {
    let mut settings = Settings::default();
    settings.download_lyric_name_pattern = String::new();
    settings.download_quality = String::from("lossless");
    settings.normalize("/music/downloads");
    assert_eq!(settings.download_path, "/music/downloads");
    assert_eq!(settings.download_lyric_name_pattern, "{name}-Lyric");
    assert_eq!(settings.download_quality, "lossless");

    settings.download_path = String::from("/elsewhere");
    settings.normalize("/music/downloads");
    assert_eq!(settings.download_path, "/elsewhere");
}

#[test]
fn api_changes_are_noticed() {
    let old = Settings::default();
    let mut new = old.duplicate();
    assert!(!old.api_changed(&new));
    assert!(old.same_settings(&new));
    new.download_quality = String::from("hires");
    assert!(!old.api_changed(&new));
    assert!(!old.same_settings(&new));
    new.remote_api_url = String::from("https://example.com/");
    assert!(old.api_changed(&new));
    let mut switched = old.duplicate();
    switched.use_remote_api = true;
    assert!(old.api_changed(&switched));
}
