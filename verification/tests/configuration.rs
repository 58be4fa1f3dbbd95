use deployer::config::{
    config_path_from_args, deploy_config_of, Config, General, GitHub, InitializationError,
    LogLevel, MailParameters, UnrecoverableError, WebServerParameters,
};
use deployer::text::{i32_to_string, short_name, trim, trim_end, u64_to_string};

#[test]
fn config_path_found() {
    let args = vec![
        String::from("deployer"),
        String::from("--verbose"),
        String::from("--config=/etc/deployer.toml"),
    ];
    match config_path_from_args(&args) {
        Ok(path) => assert_eq!(path, "/etc/deployer.toml"),
        Err(_) => panic!("the flag is present"),
    }
}

#[test]
fn config_path_first_match_wins() {
    let args = vec![String::from("--config=a"), String::from("--config=b")];
    match config_path_from_args(&args) {
        Ok(path) => assert_eq!(path, "a"),
        Err(_) => panic!("the flag is present"),
    }
}

#[test]
fn config_path_missing() {
    let args = vec![String::from("deployer"), String::from("--config")];
    match config_path_from_args(&args) {
        Ok(_) => panic!("no --config=<path> argument is present"),
        Err(e) => assert_eq!(e.message(), "ConfigurationError: missing --config=<config_path>"),
    }
}

#[test]
fn config_path_may_hold_equals_signs() {
    let args = vec![String::from("--config=a=b")];
    match config_path_from_args(&args) {
        Ok(path) => assert_eq!(path, "a=b"),
        Err(_) => panic!("the flag is present"),
    }
}

#[test]
fn initialization_error_messages() {
    let e = InitializationError::FileIOError(String::from("permission denied"));
    assert_eq!(e.message(), "FileIOError: permission denied");
    let e = InitializationError::ConfigFileError(String::from("missing field"));
    assert_eq!(e.message(), "ConfigFileError: missing field");
    let e = InitializationError::CredentialEnvError(String::from("not set"));
    assert_eq!(e.message(), "CredentialEnvError: not set");
}

#[test]
fn unrecoverable_error_messages() {
    let inner = InitializationError::ConfigFilePathError(String::from("missing"));
    let e = UnrecoverableError::InitializationError(inner);
    assert_eq!(e.message(), "InitializationError: ConfigurationError: missing");
    let e = UnrecoverableError::MailError(String::from("relay down"));
    assert_eq!(e.message(), "MailError: relay down");
}

#[test]
fn deploy_config_takes_the_deployment_slice() {
    let cfg = Config {
        web_server: WebServerParameters {
            bind_address: String::from("127.0.0.1"),
            bind_port: 8443,
        },
        mail: MailParameters {
            smtp_user: String::from("u"),
            smtp_password: String::from("p"),
            smtp_endpoint: String::from("smtp.example.org"),
            from: String::from("a@example.org"),
            to: String::from("b@example.org"),
        },
        github: GitHub {
            webhook_secret: String::from("s3cret"),
            expected_repo_full_name: vec![String::from("org/repo")],
            deploy_script_path: String::from("/opt/deploy/deploy.sh"),
        },
        general: General {
            dev_dir: String::from("/srv/dev"),
            scripts_dir: String::from("/var/log/scripts"),
            log_path: String::from("/var/log/deployer.log"),
            log_level: LogLevel::Info,
            log_to_stdout: false,
        },
    };
    let d = deploy_config_of(&cfg);
    assert_eq!(d.webhook_secret, "s3cret");
    assert_eq!(d.expected_repo_full_name, vec![String::from("org/repo")]);
    assert_eq!(d.deploy_script_path, "/opt/deploy/deploy.sh");
    assert_eq!(d.dev_dir, "/srv/dev");
    assert_eq!(d.scripts_dir, "/var/log/scripts");
}

#[test]
fn trim_removes_ascii_whitespace_on_both_ends() {
    assert_eq!(trim(" \t\r\nok\n\t "), "ok");
    assert_eq!(trim("ok"), "ok");
    assert_eq!(trim(""), "");
    assert_eq!(trim(" \n\t"), "");
    assert_eq!(trim("a b"), "a b");
}

#[test]
fn trim_end_keeps_leading_whitespace() {
    assert_eq!(trim_end("  secret\n"), "  secret");
    assert_eq!(trim_end("secret"), "secret");
}

#[test]
fn decimal_renderings() {
    assert_eq!(u64_to_string(0), "0");
    assert_eq!(u64_to_string(10), "10");
    assert_eq!(u64_to_string(18446744073709551615), "18446744073709551615");
    assert_eq!(i32_to_string(0), "0");
    assert_eq!(i32_to_string(42), "42");
    assert_eq!(i32_to_string(-1), "-1");
    assert_eq!(i32_to_string(i32::MIN), "-2147483648");
    assert_eq!(i32_to_string(i32::MAX), "2147483647");
}

#[test]
fn short_name_variants() {
    assert_eq!(short_name("org/repo"), "repo");
    assert_eq!(short_name("a/b/c"), "c");
    assert_eq!(short_name("plain"), "plain");
    assert_eq!(short_name(""), "");
}

#[test]
fn short_name_never_empties_a_nonempty_name() {
    // a trailing slash leaves nothing after it: fall back to the whole name
    assert_eq!(short_name("org/"), "org/");
    assert_eq!(short_name("/"), "/");
    assert_eq!(short_name("a//"), "a//");
    assert_eq!(short_name("/lead"), "lead");
}

#[test]
fn trim_removes_unicode_whitespace() {
    assert_eq!(trim("\u{a0}ok\u{2003}"), "ok");
    assert_eq!(trim("\u{3000}a\u{85}b\u{2028}"), "a\u{85}b");
    assert_eq!(trim_end("x\u{202f}\u{205f}"), "x");
}
