use eloquentlog::config::{
    format_url, Config, Log, Server, CONFIG_FILE, CONFIG_ROOT, DEFAULT_CONTENTS,
};
use eloquentlog::runner::Args;

#[test]
fn test_is_debug_via_args() {
    let tests = vec![
        (
            Args {
                debug: false,
                ..Default::default()
            },
            false,
        ),
        (
            Args {
                debug: true,
                ..Default::default()
            },
            true,
        ),
    ];
    for (args, want) in tests.into_iter() {
        let mut config = Config {
            ..Default::default()
        };
        config = config.update(args);
        assert_eq!(config.is_debug(), want);
    }
}

#[test]
fn test_is_debug_via_toml() {
    let tests = vec![
        (
            Log {
                severity: "warn".to_string(),
            },
            false,
        ),
        (
            Log {
                severity: "info".to_string(),
            },
            false,
        ),
        (
            Log {
                severity: "debug".to_string(),
            },
            true,
        ),
    ];
    for (log, want) in tests.into_iter() {
        let config = Config {
            log,
            ..Default::default()
        };
        assert_eq!(config.is_debug(), want);
    }
}

#[test]
fn test_is_valid() {
    let config = Config {
        ..Default::default()
    };
    assert_eq!(config.is_valid(), true);
}

#[test]
fn format_url_removes_one_trailing_slash() {
    assert_eq!(format_url("https://x.test/".to_string()), "https://x.test");
    assert_eq!(format_url("/".to_string()), "");
    assert_eq!(format_url("é/".to_string()), "é");
}

#[test]
fn format_url_keeps_a_url_without_trailing_slash() {
    assert_eq!(format_url("https://x.test".to_string()), "https://x.test");
    assert_eq!(format_url("".to_string()), "");
    assert_eq!(format_url("/a".to_string()), "/a");
    assert_eq!(format_url("https://x.test/é".to_string()), "https://x.test/é");
}

#[test]
fn format_url_removes_only_one_of_two_slashes() {
    assert_eq!(format_url("https://x.test//".to_string()), "https://x.test/");
    assert_eq!(format_url("//".to_string()), "/");
}

#[test]
fn format_url_twice_is_format_url_once() {
    for url in ["https://x.test/", "https://x.test", "", "/", "a/b/"] {
        let once = format_url(url.to_string());
        let twice = format_url(once.clone());
        assert_eq!(once, twice);
    }
}

#[test]
fn default_config_values() {
    let config = Config::default();
    assert_eq!(config.credential.api_key, "");
    assert_eq!(config.credential.secret, "");
    assert_eq!(config.server.url, "https://eloquentlog.com/");
    assert_eq!(config.user.name, "");
    assert_eq!(config.log.severity, "warn");
}

#[test]
fn update_overwrites_any_severity() {
    for severity in ["debug", "info", "warn", "", "verbose"] {
        let config = Config {
            log: Log {
                severity: severity.to_string(),
            },
            ..Default::default()
        };
        let on = config.clone().update(Args {
            debug: true,
            ..Default::default()
        });
        assert_eq!(on.log.severity, "debug");
        assert!(on.is_debug());
        let off = config.update(Args {
            debug: false,
            ..Default::default()
        });
        assert_eq!(off.log.severity, "warn");
        assert!(!off.is_debug());
    }
}

#[test]
fn update_with_server_url_and_debug_off() {
    let config = Config::default().update(Args {
        server_url: "https://x.test/".to_string(),
        debug: false,
        ..Default::default()
    });
    assert_eq!(config.server.url, "https://x.test");
    assert_eq!(config.log.severity, "warn");
}

#[test]
fn update_without_server_url_keeps_the_configured_one() {
    let config = Config {
        server: Server {
            url: "https://kept.test".to_string(),
        },
        ..Default::default()
    };
    let config = config.update(Args::default());
    assert_eq!(config.server.url, "https://kept.test");
}

#[test]
fn update_keeps_credential_and_user() {
    let mut config = Config::default();
    config.credential.api_key = "k".to_string();
    config.credential.secret = "s".to_string();
    config.user.name = "n".to_string();
    let config = config.update(Args {
        server_url: "http://other.test".to_string(),
        debug: true,
        ..Default::default()
    });
    assert_eq!(config.credential.api_key, "k");
    assert_eq!(config.credential.secret, "s");
    assert_eq!(config.user.name, "n");
    assert_eq!(config.server.url, "http://other.test");
}

#[test]
fn normalized_strips_the_url_only() {
    let config = Config {
        server: Server {
            url: "https://x.test/".to_string(),
        },
        log: Log {
            severity: "info".to_string(),
        },
        ..Default::default()
    };
    let config = config.normalized();
    assert_eq!(config.server.url, "https://x.test");
    assert_eq!(config.log.severity, "info");
}

#[test]
fn clone_keeps_every_field() {
    let mut config = Config::template();
    config.user.name = "someone".to_string();
    let copy = config.clone();
    assert_eq!(copy.credential.api_key, "<api_key>");
    assert_eq!(copy.credential.secret, "<secret>");
    assert_eq!(copy.server.url, "https://eloquentlog.com");
    assert_eq!(copy.user.name, "someone");
    assert_eq!(copy.log.severity, "warn");
}

#[test]
fn template_is_what_the_default_contents_parse_to() {
    let parsed: toml::Value = DEFAULT_CONTENTS.parse().unwrap();
    let text = |table: &str, key: &str| -> String {
        parsed
            .get(table)
            .and_then(|t| t.get(key))
            .and_then(|v| v.as_str())
            .unwrap()
            .to_string()
    };
    let template = Config::template();
    assert_eq!(template.credential.api_key, text("credential", "api_key"));
    assert_eq!(template.credential.secret, text("credential", "secret"));
    assert_eq!(template.server.url, text("server", "url"));
    assert_eq!(template.user.name, text("user", "name"));
    assert_eq!(template.log.severity, text("log", "severity"));
    assert_eq!(template.credential.api_key, "<api_key>");
    assert_eq!(template.credential.secret, "<secret>");
    assert_eq!(template.server.url, "https://eloquentlog.com");
    assert_eq!(template.user.name, "");
    assert_eq!(template.log.severity, "warn");
}

#[test]
fn default_contents_text() {
    let expected = "[credential]
api_key = \"<api_key>\"
secret = \"<secret>\"

[server]
url = \"https://eloquentlog.com\"

[user]
name = \"\"

[log]
severity = \"warn\"
";
    assert_eq!(DEFAULT_CONTENTS, expected);
}

#[test]
fn config_paths_below_a_given_root() {
    assert_eq!(CONFIG_ROOT, "eloquentlog");
    assert_eq!(CONFIG_FILE, "eloquentlog.toml");
    assert_eq!(
        Config::config_home_in("/home/alice/.config".to_string()),
        vec!["/home/alice/.config".to_string(), "eloquentlog".to_string()]
    );
    assert_eq!(
        Config::default_config_file_in("/home/alice/.config".to_string()),
        vec![
            "/home/alice/.config".to_string(),
            "eloquentlog".to_string(),
            "eloquentlog.toml".to_string()
        ]
    );
}

#[test]
fn config_paths_below_the_platform_root() {
    match (Config::config_home(), Config::default_config_file()) {
        (Some(home), Some(file)) => {
            assert_eq!(home.len(), 2);
            assert_eq!(home[1], "eloquentlog");
            assert_eq!(file.len(), 3);
            assert_eq!(file[0], home[0]);
            assert_eq!(file[1], "eloquentlog");
            assert_eq!(file[2], "eloquentlog.toml");
        }
        (None, None) => {}
        _ => panic!("one path without the other"),
    }
}

#[test]
fn config_paths_from_what_the_platform_names() {
    assert_eq!(
        Config::config_home_from(Some("/home/alice/.config".to_string())),
        Some(vec![
            "/home/alice/.config".to_string(),
            "eloquentlog".to_string()
        ])
    );
    assert_eq!(
        Config::default_config_file_from(Some("C:\\Users\\Alice\\AppData\\Roaming".to_string())),
        Some(vec![
            "C:\\Users\\Alice\\AppData\\Roaming".to_string(),
            "eloquentlog".to_string(),
            "eloquentlog.toml".to_string()
        ])
    );
    assert_eq!(
        Config::config_home_from(Some("".to_string())),
        Some(vec!["".to_string(), "eloquentlog".to_string()])
    );
}

#[test]
fn no_config_paths_where_the_platform_names_no_root() {
    assert_eq!(Config::config_home_from(None), None);
    assert_eq!(Config::default_config_file_from(None), None);
}
