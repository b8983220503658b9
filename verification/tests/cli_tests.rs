use jailbox::cli::{bind_address, default_script, preflight, Args, Commands};
use jailbox::host::EntryPoint;

#[test]
fn listen_defaults() {
    match Commands::listen(None, None, None, None) {
        Commands::Listen { port, host, context, script } => {
            assert_eq!(port, 3000);
            assert_eq!(host, "127.0.0.1");
            assert_eq!(context, "./context");
            assert_eq!(script, None);
        }
        other => panic!("unexpected command: {:?}", other),
    }
}

#[test]
fn listen_keeps_what_is_given() {
    let command = Commands::listen(
        Some(8080),
        Some(String::from("0.0.0.0")),
        Some(String::from("/srv/ctx")),
        Some(String::from("/srv/main.rn")),
    );
    match &command {
        Commands::Listen { port, host, context, script } => {
            assert_eq!(*port, 8080);
            assert_eq!(host, "0.0.0.0");
            assert_eq!(context, "/srv/ctx");
            assert_eq!(script.as_deref(), Some("/srv/main.rn"));
        }
        other => panic!("unexpected command: {:?}", other),
    }
    assert_eq!(command.script_path(), "/srv/main.rn");
    assert_eq!(command.context(), "/srv/ctx");
    assert_eq!(command.entry(), None);
}

#[test]
fn collect_and_check_defaults() {
    let collect = Commands::collect(None, None, None);
    assert!(matches!(&collect, Commands::Collect { parse: false, .. }));
    assert_eq!(collect.context(), "./context");
    assert_eq!(collect.script_path(), "./context/configure.rn");
    assert_eq!(collect.entry(), Some(EntryPoint::Collect));
    let check = Commands::check(None, String::from("guess"), None, Some(true));
    match &check {
        Commands::Check { input, parse, .. } => {
            assert_eq!(input, "guess");
            assert!(*parse);
        }
        other => panic!("unexpected command: {:?}", other),
    }
    assert_eq!(check.entry(), Some(EntryPoint::Check));
    let args = Args { command: check };
    assert_eq!(args.command.script_path(), "./context/configure.rn");
}

#[test]
fn default_script_joins_with_one_separator() {
    assert_eq!(default_script("./context"), "./context/configure.rn");
    assert_eq!(default_script("/ctx/"), "/ctx/configure.rn");
    assert_eq!(default_script("/"), "/configure.rn");
    assert_eq!(default_script(""), "configure.rn");
}

#[test]
fn bind_address_is_host_colon_port() {
    assert_eq!(bind_address("127.0.0.1", 3000), "127.0.0.1:3000");
    assert_eq!(bind_address("localhost", 0), "localhost:0");
    assert_eq!(bind_address("::1", 65535), "::1:65535");
    assert_eq!(bind_address("h", 7), "h:7");
    assert_eq!(bind_address("h", 10), "h:10");
    assert_eq!(bind_address("h", 1090), "h:1090");
}

#[test]
fn preflight_reports_the_first_thing_missing() {
    assert_eq!(preflight("s.rn", true, "ctx", true), Ok(()));
    assert_eq!(
        preflight("s.rn", false, "ctx", false),
        Err(String::from("Error: Rune script file does not exist: s.rn"))
    );
    assert_eq!(
        preflight("s.rn", true, "ctx", false),
        Err(String::from("Error: Context directory does not exist: ctx"))
    );
}
