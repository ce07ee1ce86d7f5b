use eloquentlog::command::get::Get;
use eloquentlog::config::Config;
use eloquentlog::text::{str_equal, u64_to_decimal};

#[test]
fn decimal_of_numbers() {
    assert_eq!(u64_to_decimal(0), "0");
    assert_eq!(u64_to_decimal(7), "7");
    assert_eq!(u64_to_decimal(9), "9");
    assert_eq!(u64_to_decimal(10), "10");
    assert_eq!(u64_to_decimal(101), "101");
    assert_eq!(u64_to_decimal(1234567890), "1234567890");
    assert_eq!(u64_to_decimal(u64::MAX), "18446744073709551615");
}

#[test]
fn decimal_agrees_with_the_standard_library() {
    let mut n: u64 = 1;
    for _ in 0..64 {
        assert_eq!(u64_to_decimal(n), n.to_string());
        assert_eq!(u64_to_decimal(n - 1), (n - 1).to_string());
        n = n.wrapping_mul(2);
    }
}

#[test]
fn str_equal_compares_texts() {
    assert!(str_equal("", ""));
    assert!(str_equal("debug", "debug"));
    assert!(str_equal("é", "é"));
    assert!(!str_equal("debug", "Debug"));
    assert!(!str_equal("debug", "debu"));
    assert!(!str_equal("", " "));
    assert!(!str_equal("warn", "info"));
}

#[test]
fn get_keeps_its_settings() {
    let mut config = Config::default();
    config.user.name = "someone".to_string();
    let get = Get::new(config);
    get.invoke();
    assert_eq!(get.config.user.name, "someone");
    assert_eq!(get.config.server.url, "https://eloquentlog.com/");
}
