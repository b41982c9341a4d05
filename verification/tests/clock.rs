use mytime::Mytime;

fn sample() -> [Mytime; 2] {
    [
        Mytime { hour: 1, minute: 23, second: 45 },
        Mytime { hour: 0, minute: 0, second: 0 },
    ]
}

#[test]
fn test_init() {
    let [a, b] = sample();
    assert_eq!(a.hour, 1);
    assert_eq!(a.minute, 23);
    assert_eq!(a.second, 45);
    assert_eq!(b.hour, 0);
    assert_eq!(b.minute, 0);
    assert_eq!(b.second, 0);
}

#[test]
fn test_new_takes_fields_as_given() {
    let t = Mytime::new(7, 80, 5025);
    assert_eq!(t.hour, 7);
    assert_eq!(t.minute, 80);
    assert_eq!(t.second, 5025);
}

#[test]
fn test_total_seconds() {
    let [a, b] = sample();
    assert_eq!(a.total_seconds(), 3600 + 23 * 60 + 45);
    assert_eq!(b.total_seconds(), 0);
}

#[test]
fn test_total_seconds_exact_value() {
    assert_eq!(Mytime { hour: 1, minute: 23, second: 45 }.total_seconds(), 5025);
    assert_eq!(Mytime { hour: 0, minute: 0, second: 5025 }.total_seconds(), 5025);
    assert_eq!(Mytime { hour: 2, minute: 120, second: 7200 }.total_seconds(), 21600);
}

#[test]
fn test_checked_total_seconds() {
    let [a, b] = sample();
    assert_eq!(a.checked_total_seconds(), Some(5025));
    assert_eq!(b.checked_total_seconds(), Some(0));
    let top = Mytime { hour: 0, minute: 0, second: usize::MAX };
    assert_eq!(top.checked_total_seconds(), Some(usize::MAX));
}

#[test]
fn test_checked_total_seconds_out_of_range() {
    let hours = Mytime { hour: usize::MAX, minute: 0, second: 0 };
    assert_eq!(hours.checked_total_seconds(), None);
    let minutes = Mytime { hour: 0, minute: usize::MAX, second: 0 };
    assert_eq!(minutes.checked_total_seconds(), None);
    let minutes_on_hours = Mytime { hour: usize::MAX / 3600, minute: 60, second: 0 };
    assert_eq!(minutes_on_hours.checked_total_seconds(), None);
    let one_too_many = Mytime { hour: 0, minute: 1, second: usize::MAX - 59 };
    assert_eq!(one_too_many.checked_total_seconds(), None);
    let just_fits = Mytime { hour: 0, minute: 1, second: usize::MAX - 60 };
    assert_eq!(just_fits.checked_total_seconds(), Some(usize::MAX));
}

#[test]
fn test_eq() {
    let [a, mut b] = sample();
    assert_ne!(a, b);
    b.hour = 1;
    assert_ne!(a, b);
    b.minute = 23;
    assert_ne!(a, b);
    b.second = 45;
    assert_eq!(a, b);
}

#[test]
fn test_eq_is_by_total_not_by_field() {
    let spread = Mytime { hour: 1, minute: 23, second: 45 };
    let flat = Mytime { hour: 0, minute: 0, second: 5025 };
    let minutes = Mytime { hour: 0, minute: 83, second: 45 };
    assert!(spread == flat);
    assert!(flat == spread);
    assert!(spread == minutes);
    assert!(flat != Mytime { hour: 0, minute: 0, second: 5026 });
    assert_ne!(spread.to_string(), flat.to_string());
}

#[test]
fn test_eq_beyond_the_range_of_totals() {
    let top = Mytime { hour: usize::MAX, minute: usize::MAX, second: usize::MAX };
    let same = Mytime { hour: usize::MAX, minute: usize::MAX, second: usize::MAX };
    let less = Mytime { hour: usize::MAX, minute: usize::MAX - 1, second: usize::MAX };
    let as_much = Mytime { hour: usize::MAX, minute: usize::MAX, second: usize::MAX - 60 };
    assert!(top == same);
    assert!(top != less);
    assert!(less == as_much);
    let hours = Mytime { hour: usize::MAX, minute: 0, second: 0 };
    let in_minutes = Mytime { hour: usize::MAX - 1, minute: 60, second: 0 };
    let in_seconds = Mytime { hour: usize::MAX - 1, minute: 59, second: 60 };
    assert!(hours == in_minutes);
    assert!(hours == in_seconds);
    assert!(hours != Mytime { hour: usize::MAX - 1, minute: 59, second: 59 });
}

#[test]
fn test_normalize() {
    let [a, mut b] = sample();
    b.second = a.total_seconds();
    assert_eq!(b.to_string(), "00:00:5025".to_string());
    assert_ne!(b.to_string(), a.to_string());
    assert_eq!(b, a);
    b.normalize();
    assert_eq!(b.to_string(), a.to_string());
}

#[test]
fn test_normalize_fields() {
    let mut t = Mytime { hour: 0, minute: 0, second: 5025 };
    t.normalize();
    assert_eq!((t.hour, t.minute, t.second), (1, 23, 45));
    let mut u = Mytime { hour: 2, minute: 75, second: 130 };
    u.normalize();
    assert_eq!((u.hour, u.minute, u.second), (3, 17, 10));
}

#[test]
fn test_normalize_carries_seconds_through_minutes_into_hours() {
    let mut t = Mytime { hour: 0, minute: 59, second: 60 };
    t.normalize();
    assert_eq!((t.hour, t.minute, t.second), (1, 0, 0));
    let mut u = Mytime { hour: 0, minute: 0, second: 7325 };
    u.normalize();
    assert_eq!((u.hour, u.minute, u.second), (2, 2, 5));
    let mut v = Mytime { hour: 1, minute: 59, second: 3599 };
    v.normalize();
    assert_eq!((v.hour, v.minute, v.second), (2, 58, 59));
}

#[test]
fn test_normalize_keeps_total() {
    for (h, m, s) in [(0, 0, 0), (0, 0, 59), (0, 0, 60), (0, 61, 61), (3, 200, 9000), (100, 0, 1)] {
        let before = Mytime { hour: h, minute: m, second: s };
        let mut after = before;
        after.normalize();
        assert_eq!(after.total_seconds(), h * 3600 + m * 60 + s);
        assert_eq!(after, before);
        assert!(after.minute < 60 && after.second < 60);
    }
}

#[test]
fn test_normalize_twice_is_once() {
    for (h, m, s) in [(0, 0, 0), (0, 0, 5025), (1, 23, 45), (0, 600, 600), (99, 59, 60)] {
        let mut once = Mytime { hour: h, minute: m, second: s };
        once.normalize();
        let mut twice = once;
        twice.normalize();
        assert_eq!((twice.hour, twice.minute, twice.second), (once.hour, once.minute, once.second));
    }
}

#[test]
fn test_normalize_leaves_normalized_value() {
    let mut t = Mytime { hour: 123, minute: 59, second: 59 };
    t.normalize();
    assert_eq!((t.hour, t.minute, t.second), (123, 59, 59));
    let mut zero = Mytime { hour: 0, minute: 0, second: 0 };
    zero.normalize();
    assert_eq!((zero.hour, zero.minute, zero.second), (0, 0, 0));
}

#[test]
fn test_normalize_at_the_top_of_the_range() {
    let mut t = Mytime { hour: 0, minute: 0, second: usize::MAX };
    t.normalize();
    assert_eq!(t.hour, usize::MAX / 3600);
    assert_eq!(t.minute, usize::MAX / 60 % 60);
    assert_eq!(t.second, usize::MAX % 60);
    assert_eq!(t.total_seconds(), usize::MAX);
}
