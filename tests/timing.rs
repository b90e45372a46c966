use rpgm_playback::timing::{negotiate, ContainerHint, DecoderInitCause, OpenError, TimeBase, TrackParams};

fn params(time_base: Option<TimeBase>, n_frames: Option<u64>) -> Option<TrackParams> {
    Some(TrackParams { track_id: 3, time_base, n_frames })
}

#[test]
fn ogg_signature_selects_ogg() {
    assert_eq!(ContainerHint::detect(b"OggS\x00\x02rest"), ContainerHint::Ogg);
    assert_eq!(ContainerHint::detect(b"OggS"), ContainerHint::Ogg);
    assert_eq!(ContainerHint::Ogg.extension(), "ogg");
}

#[test]
fn anything_else_selects_mp4() {
    assert_eq!(ContainerHint::detect(b""), ContainerHint::Mp4);
    assert_eq!(ContainerHint::detect(b"Ogg"), ContainerHint::Mp4);
    assert_eq!(ContainerHint::detect(b"OggT1234"), ContainerHint::Mp4);
    assert_eq!(ContainerHint::detect(b"\x00\x00\x00\x20ftypM4A "), ContainerHint::Mp4);
    assert_eq!(ContainerHint::Mp4.extension(), "mp4");
}

#[test]
fn no_track_is_no_playable_track() {
    assert_eq!(negotiate(None), Err(OpenError::NoPlayableTrack));
}

#[test]
fn missing_metadata_is_decoder_failure() {
    let tb = TimeBase { numer: 1, denom: 44100 };
    assert_eq!(
        negotiate(params(None, Some(10))),
        Err(OpenError::DecoderInitFailure(DecoderInitCause::MissingTimeBase))
    );
    assert_eq!(
        negotiate(params(Some(TimeBase { numer: 0, denom: 44100 }), Some(10))),
        Err(OpenError::DecoderInitFailure(DecoderInitCause::MissingTimeBase))
    );
    assert_eq!(
        negotiate(params(Some(TimeBase { numer: 1, denom: 0 }), Some(10))),
        Err(OpenError::DecoderInitFailure(DecoderInitCause::MissingTimeBase))
    );
    assert_eq!(
        negotiate(params(Some(tb), None)),
        Err(OpenError::DecoderInitFailure(DecoderInitCause::MissingFrameCount))
    );
}

#[test]
fn duration_in_whole_seconds_and_display() {
    let tb = TimeBase { numer: 1, denom: 44100 };
    let t = negotiate(params(Some(tb), Some(441_000))).unwrap();
    assert_eq!(t.track_id, 3);
    assert_eq!(t.time_base, tb);
    assert_eq!(t.n_frames, 441_000);
    assert_eq!(t.seconds, 10);
    assert_eq!(String::from_utf8(t.display).unwrap(), "00:10");

    let long = negotiate(params(Some(tb), Some(44100 * 185 + 22050))).unwrap();
    assert_eq!(long.seconds, 185);
    assert_eq!(String::from_utf8(long.display).unwrap(), "03:05");
}

#[test]
fn negotiated_track_has_positive_duration() {
    let tb = TimeBase { numer: 1, denom: 48000 };
    let t = negotiate(params(Some(tb), Some(48000 * 2))).unwrap();
    assert!(t.seconds > 0);
}
