use eloquentlog::cli::{find_action, is_option_argument, option_arguments};

fn line(args: &[&str]) -> Vec<String> {
    args.iter().map(|arg| arg.to_string()).collect()
}

#[test]
fn options_begin_with_a_hyphen() {
    assert!(is_option_argument("-d"));
    assert!(is_option_argument("--debug"));
    assert!(is_option_argument("-"));
    assert!(is_option_argument("--server-url=https://x.test/"));
    assert!(!is_option_argument(""));
    assert!(!is_option_argument("get"));
    assert!(!is_option_argument("g-et"));
    assert!(!is_option_argument(" -d"));
    assert!(!is_option_argument("é-"));
}

#[test]
fn action_is_the_first_argument_that_is_no_option() {
    assert_eq!(find_action(&line(&["eloquentlog", "get"])), Some(1));
    assert_eq!(find_action(&line(&["eloquentlog", "-d", "get"])), Some(2));
    assert_eq!(
        find_action(&line(&["eloquentlog", "--debug", "get", "put", "-d"])),
        Some(2)
    );
    assert_eq!(find_action(&line(&["eloquentlog", "", "get"])), Some(1));
}

#[test]
fn command_line_without_action() {
    assert_eq!(find_action(&line(&[])), None);
    assert_eq!(find_action(&line(&["eloquentlog"])), None);
    assert_eq!(find_action(&line(&["get"])), None);
    assert_eq!(find_action(&line(&["eloquentlog", "-d", "--help"])), None);
}

#[test]
fn option_arguments_keep_their_order() {
    assert_eq!(
        option_arguments(&line(&["get", "-d", "x", "--server-url=https://x.test/", "", "-"])),
        line(&["-d", "--server-url=https://x.test/", "-"])
    );
    assert_eq!(option_arguments(&line(&[])), line(&[]));
    assert_eq!(option_arguments(&line(&["get", "put"])), line(&[]));
    assert_eq!(option_arguments(&line(&["-a", "-b"])), line(&["-a", "-b"]));
}
