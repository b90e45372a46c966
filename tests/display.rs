use rpgm_playback::display::{clock_text, progress_text, SeekSlider, SliderPosition};

fn text(bytes: Vec<u8>) -> String {
    String::from_utf8(bytes).unwrap()
}

#[test]
fn clock_pads_minutes_and_seconds() {
    assert_eq!(text(clock_text(0)), "00:00");
    assert_eq!(text(clock_text(9)), "00:09");
    assert_eq!(text(clock_text(125)), "02:05");
    assert_eq!(text(clock_text(599)), "09:59");
}

#[test]
fn clock_grows_past_two_minute_digits() {
    assert_eq!(text(clock_text(3600)), "60:00");
    assert_eq!(text(clock_text(6000)), "100:00");
    assert_eq!(text(clock_text(u64::MAX)), "307445734561825860:15");
}

#[test]
fn progress_label_joins_elapsed_and_total() {
    assert_eq!(text(progress_text(5, 600)), "00:05 / 10:00");
    assert_eq!(text(progress_text(0, 0)), "00:00 / 00:00");
}

#[test]
fn slider_follows_positions_unless_held() {
    let mut slider = SeekSlider::new();
    assert!(!slider.drag());
    let up = slider.on_position(3, 10);
    assert_eq!(text(up.label), "00:03 / 00:10");
    assert_eq!(up.slider, Some(SliderPosition { max: 10, value: 3 }));

    slider.press();
    assert!(slider.drag());
    let held = slider.on_position(4, 10);
    assert_eq!(text(held.label), "00:04 / 00:10");
    assert_eq!(held.slider, None);

    slider.release();
    assert!(!slider.drag());
    assert_eq!(slider.on_position(5, 10).slider, Some(SliderPosition { max: 10, value: 5 }));
}

