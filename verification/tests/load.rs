use uptime::load::{print_loadavg, LOAD_UNAVAILABLE};

fn shown(samples: &[f64]) -> Vec<String> {
    samples.iter().map(|x| format!("{:.2}", x)).collect()
}

#[test]
fn three_samples_make_the_full_line() {
    let samples = shown(&[0.10, 0.20, 0.15]);
    assert_eq!(print_loadavg(3, &samples), "load average: 0.10, 0.20, 0.15\n");
}

#[test]
fn an_unavailable_load_is_a_bare_line_end() {
    let samples = shown(&[0.0, 0.0, 0.0]);
    assert_eq!(print_loadavg(LOAD_UNAVAILABLE, &samples), "\n");
    assert_eq!(print_loadavg(-1, &vec![]), "\n");
}

#[test]
fn fewer_samples_end_after_the_last() {
    let samples = shown(&[1.5, 2.25, 3.0]);
    assert_eq!(print_loadavg(1, &samples), "load average: 1.50\n");
    assert_eq!(print_loadavg(2, &samples), "load average: 1.50, 2.25\n");
}

#[test]
fn no_sample_is_a_bare_line_end() {
    let samples = shown(&[1.5, 2.25, 3.0]);
    assert_eq!(print_loadavg(0, &samples), "\n");
    assert_eq!(print_loadavg(0, &vec![]), "\n");
    assert_eq!(print_loadavg(-2, &samples), "\n");
    assert_eq!(print_loadavg(i32::MIN, &vec![]), "\n");
}

#[test]
fn every_load_line_ends_its_line() {
    let samples = shown(&[0.5, 0.25, 0.125]);
    for loads in -1..=3 {
        let line = print_loadavg(loads, &samples);
        assert!(line.ends_with('\n'));
        assert_eq!(line.matches('\n').count(), 1);
    }
}

#[test]
fn samples_are_shown_as_given() {
    let samples = vec![String::from("12.00"), String::from("0.99"), String::from("100.01")];
    assert_eq!(print_loadavg(3, &samples), "load average: 12.00, 0.99, 100.01\n");
}
