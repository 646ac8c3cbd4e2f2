use better_bar::volume::{
    apply_volume_delta, audio_stream_step, format_volume_tooltip, is_sink_event, parse_mute,
    parse_volume, volume_icon_name, AudioStreamAction, AudioStreamEvent, AudioStreamState,
    ScrollAccum, VolumeConfig, VolumeError, VolumeInfo,
};

#[test]
fn volume_is_the_first_percent_token() {
    let out = "Volume: front-left: 42598 /  65% / -11.23 dB,   front-right: 65536 / 100% / 0 dB";
    assert_eq!(parse_volume(out).unwrap(), 65);
}

#[test]
fn missing_percent_token_is_a_parse_error() {
    let e = parse_volume("no percentage here").unwrap_err();
    match e {
        VolumeError::ParseError(m) => assert_eq!(m, "No volume percentage found"),
        _ => panic!("wrong error variant"),
    }
}

#[test]
fn oversized_percent_token_is_a_parse_error() {
    assert!(parse_volume("Volume: 300%").is_err());
    assert!(parse_volume("Volume: %").is_err());
}

#[test]
fn boosted_sink_levels_clamp_to_one_hundred() {
    // the reply reads, but the sample percentage never exceeds 100
    assert_eq!(parse_volume("Volume: 150%").unwrap(), 100);
    assert_eq!(parse_volume("Volume: 255%").unwrap(), 100);
    assert_eq!(parse_volume("Volume: 100%").unwrap(), 100);
    assert_eq!(parse_volume("Volume: 99%").unwrap(), 99);
}

#[test]
fn mute_reply_ends_in_yes() {
    assert!(parse_mute("Mute: yes"));
    assert!(parse_mute("Mute: yes \n"));
    assert!(!parse_mute("Mute: no"));
    assert!(!parse_mute(""));
}

#[test]
fn deltas_raise_and_cap_at_hundred() {
    assert_eq!(apply_volume_delta(50, 10), 60);
    assert_eq!(apply_volume_delta(95, 10), 100);
    assert_eq!(apply_volume_delta(100, 1), 100);
}

#[test]
fn deltas_lower_and_stop_at_zero() {
    assert_eq!(apply_volume_delta(50, -10), 40);
    assert_eq!(apply_volume_delta(5, -10), 0);
}

#[test]
fn boosted_levels_only_cap_when_raising() {
    assert_eq!(apply_volume_delta(150, -10), 140);
    assert_eq!(apply_volume_delta(150, 10), 100);
}

#[test]
fn scroll_ticks_coalesce_into_one_flush() {
    // a burst of rapid ticks inside the debounce window: the flush hands
    // out a single delta equal to the algebraic sum
    let mut acc = ScrollAccum::new();
    for _ in 0..5 {
        acc.tick_up();
    }
    for _ in 0..2 {
        acc.tick_down();
    }
    let delta = acc.flush();
    assert_eq!(delta, 3);
    // nothing pending afterwards: a second flush is a no-op
    assert_eq!(acc.flush(), 0);
    // the one resulting adjustment call, clamped to the displayable range
    assert_eq!(apply_volume_delta(99, delta), 100);
    assert_eq!(apply_volume_delta(50, delta), 53);
}

#[test]
fn icon_names_follow_thresholds() {
    assert_eq!(volume_icon_name(50, true), "audio-volume-muted-symbolic");
    assert_eq!(volume_icon_name(0, false), "audio-volume-muted-symbolic");
    assert_eq!(volume_icon_name(30, false), "audio-volume-low-symbolic");
    assert_eq!(volume_icon_name(31, false), "audio-volume-medium-symbolic");
    assert_eq!(volume_icon_name(70, false), "audio-volume-medium-symbolic");
    assert_eq!(volume_icon_name(71, false), "audio-volume-high-symbolic");
}

#[test]
fn samples_render_their_display_text() {
    let v = VolumeInfo { percentage: 55, is_muted: false };
    assert_eq!(v.display_text(), "audio-volume-medium 55%");
    let m = VolumeInfo { percentage: 20, is_muted: true };
    assert_eq!(m.display_text(), "audio-volume-muted 20%");
    let z = VolumeInfo { percentage: 0, is_muted: false };
    assert_eq!(z.display_text(), "audio-volume-muted 0%");
}

#[test]
fn tooltip_substitutes_state_and_percentage() {
    let config = VolumeConfig::default();
    let v = VolumeInfo { percentage: 55, is_muted: false };
    assert_eq!(format_volume_tooltip(&config, &v), "Volume: 55% (55%)");
    let m = VolumeInfo { percentage: 55, is_muted: true };
    assert_eq!(format_volume_tooltip(&config, &m), "Volume: 55% (muted)");
}

#[test]
fn sink_events_are_recognized() {
    assert!(is_sink_event("Event 'change' on sink #56"));
    assert!(is_sink_event("Event 'new' on sink #2"));
    assert!(!is_sink_event("Event 'change' on source #1"));
    assert!(!is_sink_event("Event 'remove' on sink #2"));
}

#[test]
fn errors_render_their_messages() {
    let e = VolumeError::CommandFailed("boom".to_string());
    assert_eq!(e.message(), "Command failed: boom");
    let p = VolumeError::ParseError("bad".to_string());
    assert_eq!(p.message(), "Parse error: bad");
    let i = VolumeError::IoError("gone".to_string());
    assert_eq!(i.message(), "IO error: gone");
}

#[test]
fn audio_stream_walks_its_lifecycle() {
    let (s, a) = audio_stream_step(AudioStreamState::Idle, AudioStreamEvent::ListenerSpawned);
    assert_eq!(s, AudioStreamState::Subscribed);
    assert_eq!(a, AudioStreamAction::EmitInitialSample);
    let (s, a) = audio_stream_step(s, AudioStreamEvent::FirstSampleEmitted);
    assert_eq!(s, AudioStreamState::Streaming);
    assert_eq!(a, AudioStreamAction::Nothing);
    let (s, a) = audio_stream_step(s, AudioStreamEvent::SinkChanged);
    assert_eq!(s, AudioStreamState::Streaming);
    assert_eq!(a, AudioStreamAction::RequeryAndEmit);
    let (s, a) = audio_stream_step(s, AudioStreamEvent::ReceiverGone);
    assert_eq!(s, AudioStreamState::Stopped);
    assert_eq!(a, AudioStreamAction::Nothing);
}

#[test]
fn failed_subscription_never_restarts() {
    let (s, a) = audio_stream_step(AudioStreamState::Idle, AudioStreamEvent::SpawnFailed);
    assert_eq!(s, AudioStreamState::Failed);
    assert_eq!(a, AudioStreamAction::ReportFailure);
    let (s2, a2) = audio_stream_step(s, AudioStreamEvent::ListenerSpawned);
    assert_eq!(s2, AudioStreamState::Failed);
    assert_eq!(a2, AudioStreamAction::Nothing);
}
