use progress_clock::clock::{ClockError, ProgressClock};

const ID: &str = "00000000-0000-4000-8000-000000000000";

fn encoding(size: &str, ticks: &str, marker: &str, id: &str, name: &str) -> String {
    let mut s = String::new();
    s.push_str(size);
    s.push_str(ticks);
    s.push_str(marker);
    s.push_str(id);
    s.push_str(name);
    s
}

#[test]
fn round_trip_preserves_every_field() {
    let mut c = ProgressClock::new("Doom", true);
    c.tick();
    c.tick();
    c.enlarge();
    let text = c.to_string();
    let d = ProgressClock::from_string(text).unwrap();
    assert_eq!(d.get_name(), c.get_name());
    assert_eq!(d.get_size(), c.get_size());
    assert_eq!(d.get_ticks(), c.get_ticks());
    assert_eq!(d.is_positive(), c.is_positive());
    assert_eq!(d.get_id(), c.get_id());
}

#[test]
fn round_trip_of_a_fresh_clock() {
    let c = ProgressClock::new("", false);
    let d = ProgressClock::from_string(c.to_string()).unwrap();
    assert_eq!(d.get_name(), "");
    assert_eq!(d.get_size(), 4);
    assert_eq!(d.get_ticks(), 0);
    assert!(!d.is_positive());
    assert_eq!(d.get_id(), c.get_id());
}

#[test]
fn round_trip_with_awkward_name() {
    let mut c = ProgressClock::new("a;b 0402T\nend", true);
    c.set_tick(1);
    let d = ProgressClock::from_string(c.to_string()).unwrap();
    assert_eq!(d.get_name(), "a;b 0402T\nend");
    assert_eq!(d.get_ticks(), 1);
}

#[test]
fn encoding_has_the_documented_shape() {
    let c = ProgressClock::new("Doom", false);
    let text = c.to_string();
    assert!(text.starts_with("0400F"));
    assert!(text.ends_with("Doom"));
    assert_eq!(text.chars().count(), 41 + 4);
    assert_eq!(&text[5..41], c.get_id());
}

#[test]
fn decode_of_a_known_text() {
    let text = encoding("04", "02", "T", ID, "Doom");
    let c = ProgressClock::from_string(text).unwrap();
    assert_eq!(c.get_name(), "Doom");
    assert_eq!(c.get_size(), 4);
    assert_eq!(c.get_ticks(), 2);
    assert!(c.is_positive());
    assert_eq!(c.get_id(), ID);
}

#[test]
fn decode_rejects_short_text() {
    assert!(matches!(
        ProgressClock::from_string(String::new()),
        Err(ClockError::InvalidEncoding)
    ));
    assert!(matches!(
        ProgressClock::from_string(String::from("0402T")),
        Err(ClockError::InvalidEncoding)
    ));
}

#[test]
fn decode_rejects_non_digits() {
    let text = encoding("x4", "02", "T", ID, "Doom");
    assert!(matches!(
        ProgressClock::from_string(text),
        Err(ClockError::InvalidEncoding)
    ));
    let text = encoding("04", "0y", "T", ID, "Doom");
    assert!(matches!(
        ProgressClock::from_string(text),
        Err(ClockError::InvalidEncoding)
    ));
}

#[test]
fn decode_rejects_size_out_of_range() {
    let text = encoding("01", "00", "T", ID, "Doom");
    assert!(matches!(
        ProgressClock::from_string(text),
        Err(ClockError::InvalidEncoding)
    ));
    let text = encoding("13", "00", "T", ID, "Doom");
    assert!(matches!(
        ProgressClock::from_string(text),
        Err(ClockError::InvalidEncoding)
    ));
}

#[test]
fn decode_rejects_ticks_above_size() {
    let text = encoding("04", "05", "T", ID, "Doom");
    assert!(matches!(
        ProgressClock::from_string(text),
        Err(ClockError::InvalidEncoding)
    ));
}

#[test]
fn decode_rejects_bad_polarity_marker() {
    let text = encoding("04", "02", "X", ID, "Doom");
    assert!(matches!(
        ProgressClock::from_string(text),
        Err(ClockError::InvalidEncoding)
    ));
}

#[test]
fn decode_accepts_the_boundary_values() {
    let c = ProgressClock::from_string(encoding("02", "02", "F", ID, "")).unwrap();
    assert_eq!(c.get_size(), 2);
    assert_eq!(c.get_ticks(), 2);
    let c = ProgressClock::from_string(encoding("12", "12", "T", ID, "x")).unwrap();
    assert_eq!(c.get_size(), 12);
    assert_eq!(c.get_ticks(), 12);
}
