use topgrade_config::remote::{decide, remote_host, should_execute};
use topgrade_config::{CommandLineArgs, Config, ConfigFile, Context};

fn context() -> Context {
    Context { config_directory: String::new(), keep_at_end: false }
}

fn config() -> Config {
    Config::load(CommandLineArgs::default(), context(), Some(Ok(ConfigFile::default())))
}

fn config_with_limit(limit: &str) -> Config {
    let mut opt = CommandLineArgs::default();
    opt.remote_host_limit = Some(limit.to_string());
    Config::load(opt, context(), Some(Ok(ConfigFile::default())))
}

#[test]
fn test_should_execute_remote_different_hostname() {
    assert!(config().should_execute_remote(Ok::<String, String>("hostname".to_string()), "remote_hostname"));
}

#[test]
fn test_should_execute_remote_different_hostname_with_user() {
    assert!(config().should_execute_remote(Ok::<String, String>("hostname".to_string()), "user@remote_hostname"));
}

#[test]
fn test_should_execute_remote_unknown_hostname() {
    assert!(config().should_execute_remote(Err::<String, &str>("failed to get hostname"), "remote_hostname"));
}

#[test]
fn test_should_not_execute_remote_same_hostname() {
    assert!(!config().should_execute_remote(Ok::<String, String>("hostname".to_string()), "hostname"));
}

#[test]
fn test_should_not_execute_remote_same_hostname_with_user() {
    assert!(!config().should_execute_remote(Ok::<String, String>("hostname".to_string()), "user@hostname"));
}

#[test]
fn test_should_execute_remote_matching_limit() {
    let config = config_with_limit("remote_hostname");
    assert!(config.should_execute_remote(Ok::<String, String>("hostname".to_string()), "user@remote_hostname"));
}

#[test]
fn test_should_not_execute_remote_not_matching_limit() {
    let config = config_with_limit("other_hostname");
    assert!(!config.should_execute_remote(Ok::<String, String>("hostname".to_string()), "user@remote_hostname"));
}

#[test]
fn remote_host_is_what_follows_the_first_at() {
    assert_eq!(remote_host("host"), "host");
    assert_eq!(remote_host("user@host"), "host");
    assert_eq!(remote_host("user@host@more"), "host@more");
    assert_eq!(remote_host("user@"), "");
    assert_eq!(remote_host("@host"), "host");
    assert_eq!(remote_host(""), "");
    assert_eq!(remote_host("üser@höst"), "höst");
}

#[test]
fn limit_is_an_expression_and_not_a_name() {
    assert!(should_execute(Some("here"), "user@web-17", Some("^web-[0-9]+$")));
    assert!(!should_execute(Some("here"), "user@db-17", Some("^web-[0-9]+$")));
    // The expression is held against the host, not against the user.
    assert!(!should_execute(Some("here"), "web-1@db-17", Some("^web-[0-9]+$")));
}

#[test]
fn own_host_is_left_out_whatever_the_limit() {
    assert!(!should_execute(Some("web-1"), "user@web-1", Some("web")));
    assert!(!should_execute(Some("web-1"), "web-1", None));
}

#[test]
fn invalid_limit_admits_no_host() {
    assert!(!should_execute(None, "user@host", Some("ho(st")));
    assert!(!config_with_limit("ho(st").should_execute_remote(Err::<String, ()>(()), "host"));
}

#[test]
fn decision_for_each_case() {
    assert!(!decide(true, None));
    assert!(!decide(true, Some(Some(true))));
    assert!(decide(false, None));
    assert!(decide(false, Some(Some(true))));
    assert!(!decide(false, Some(Some(false))));
    assert!(!decide(false, Some(None)));
}
