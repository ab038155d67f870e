use uptime::clock::{print_time, ClockTime};

#[test]
fn a_time_of_day_is_framed_by_spaces() {
    let t = ClockTime { hour: 9, minute: 5, second: 0 };
    assert_eq!(t.render(), " 09:05:00 ");
    let t = ClockTime { hour: 23, minute: 59, second: 60 };
    assert_eq!(t.render(), " 23:59:60 ");
    let t = ClockTime { hour: 0, minute: 0, second: 0 };
    assert_eq!(t.render(), " 00:00:00 ");
}

#[test]
fn a_time_of_day_agrees_with_the_standard_formatter() {
    let t = ClockTime { hour: 7, minute: 123, second: -4 };
    assert_eq!(t.render(), format!(" {:02}:{:02}:{:02} ", 7, 123, -4));
}

#[test]
fn the_current_time_has_the_shape_of_a_clock() {
    let text = print_time();
    let bytes = text.as_bytes();
    assert_eq!(bytes.len(), 10);
    assert_eq!(bytes[0], b' ');
    assert_eq!(bytes[3], b':');
    assert_eq!(bytes[6], b':');
    assert_eq!(bytes[9], b' ');
    let hour: u32 = text[1..3].parse().unwrap();
    let minute: u32 = text[4..6].parse().unwrap();
    let second: u32 = text[7..9].parse().unwrap();
    assert!(hour <= 23);
    assert!(minute <= 59);
    assert!(second <= 60);
}
