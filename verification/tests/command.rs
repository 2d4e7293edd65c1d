use service_cli::command::Command;
use service_cli::error::Error;

fn argv(tokens: &[&str]) -> Vec<String> {
    tokens.iter().map(|token| token.to_string()).collect()
}

fn install(service: &str, executable: &str, args: &str) -> Command {
    Command::Install {
        service: service.to_string(),
        executable: executable.to_string(),
        args: args.to_string(),
    }
}

#[test]
fn install_with_long_options() {
    let args = argv(&[
        "svc", "install", "--service", "demo", "--executable", "/usr/bin/demo", "--args",
        "--flag value",
    ]);
    assert_eq!(Command::parse(&args), Ok(install("demo", "/usr/bin/demo", "--flag value")));
}

#[test]
fn install_with_short_options() {
    let args = argv(&["svc", "install", "-s", "demo", "-e", "/usr/bin/demo", "-a", "-a -b"]);
    assert_eq!(Command::parse(&args), Ok(install("demo", "/usr/bin/demo", "-a -b")));
}

#[test]
fn install_options_in_any_order() {
    let args = argv(&["svc", "install", "-a", "x y", "--service", "demo", "-e", "/bin/d"]);
    assert_eq!(Command::parse(&args), Ok(install("demo", "/bin/d", "x y")));
}

#[test]
fn install_with_empty_argument_line() {
    let args = argv(&["svc", "install", "-s", "demo", "-e", "/bin/d", "--args", ""]);
    assert_eq!(Command::parse(&args), Ok(install("demo", "/bin/d", "")));
}

#[test]
fn remove_start_and_stop() {
    assert_eq!(
        Command::parse(&argv(&["svc", "remove", "--service", "demo"])),
        Ok(Command::Remove { service: "demo".to_string() })
    );
    assert_eq!(
        Command::parse(&argv(&["svc", "start", "-s", "demo"])),
        Ok(Command::Start { service: "demo".to_string() })
    );
    assert_eq!(
        Command::parse(&argv(&["svc", "stop", "--service", "demo"])),
        Ok(Command::Stop { service: "demo".to_string() })
    );
}

#[test]
fn program_name_is_passed_over() {
    assert_eq!(
        Command::parse(&argv(&["stop", "start", "-s", "demo"])),
        Ok(Command::Start { service: "demo".to_string() })
    );
    assert_eq!(
        Command::parse(&argv(&["", "stop", "-s", "demo"])),
        Ok(Command::Stop { service: "demo".to_string() })
    );
}

#[test]
fn values_are_taken_as_they_stand() {
    assert_eq!(
        Command::parse(&argv(&["svc", "start", "--service", "--service"])),
        Ok(Command::Start { service: "--service".to_string() })
    );
    assert_eq!(
        Command::parse(&argv(&["svc", "stop", "-s", " Demo.Service "])),
        Ok(Command::Stop { service: " Demo.Service ".to_string() })
    );
    let args = argv(&["svc", "install", "-s", "-e", "-e", "-a", "-a", "-s"]);
    assert_eq!(Command::parse(&args), Ok(install("-e", "-a", "-s")));
}

#[test]
fn no_arguments_at_all() {
    assert_eq!(Command::parse(&argv(&[])), Err(Error::UsageError));
}

#[test]
fn no_verb() {
    assert_eq!(Command::parse(&argv(&["svc"])), Err(Error::UsageError));
}

#[test]
fn unknown_verb() {
    assert_eq!(
        Command::parse(&argv(&["svc", "restart", "--service", "demo"])),
        Err(Error::UsageError)
    );
    assert_eq!(
        Command::parse(&argv(&["svc", "Install", "-s", "d", "-e", "/d", "-a", ""])),
        Err(Error::UsageError)
    );
    assert_eq!(
        Command::parse(&argv(&["svc", "--service", "demo", "stop"])),
        Err(Error::UsageError)
    );
}

#[test]
fn missing_service() {
    for verb in ["remove", "start", "stop"] {
        assert_eq!(Command::parse(&argv(&["svc", verb])), Err(Error::UsageError));
    }
    assert_eq!(
        Command::parse(&argv(&["svc", "install", "-e", "/bin/d", "-a", "x"])),
        Err(Error::UsageError)
    );
}

#[test]
fn missing_executable() {
    assert_eq!(
        Command::parse(&argv(&["svc", "install", "-s", "demo", "-a", "x"])),
        Err(Error::UsageError)
    );
}

#[test]
fn missing_argument_line() {
    assert_eq!(
        Command::parse(&argv(&["svc", "install", "-s", "demo", "-e", "/bin/d"])),
        Err(Error::UsageError)
    );
}

#[test]
fn option_without_value() {
    assert_eq!(Command::parse(&argv(&["svc", "stop", "--service"])), Err(Error::UsageError));
    assert_eq!(
        Command::parse(&argv(&["svc", "install", "-s", "demo", "-e", "/bin/d", "-a"])),
        Err(Error::UsageError)
    );
}

#[test]
fn empty_service_name() {
    assert_eq!(Command::parse(&argv(&["svc", "start", "-s", ""])), Err(Error::UsageError));
    assert_eq!(
        Command::parse(&argv(&["svc", "install", "-s", "", "-e", "/bin/d", "-a", "x"])),
        Err(Error::UsageError)
    );
}

#[test]
fn empty_executable() {
    assert_eq!(
        Command::parse(&argv(&["svc", "install", "-s", "demo", "-e", "", "-a", "x"])),
        Err(Error::UsageError)
    );
}

#[test]
fn option_given_twice() {
    assert_eq!(
        Command::parse(&argv(&["svc", "stop", "-s", "one", "-s", "two"])),
        Err(Error::UsageError)
    );
    assert_eq!(
        Command::parse(&argv(&["svc", "install", "-s", "a", "-s", "b", "-e", "/d", "-a", "x"])),
        Err(Error::UsageError)
    );
    assert_eq!(
        Command::parse(&argv(&["svc", "install", "-s", "a", "--service", "b", "-e", "/d"])),
        Err(Error::UsageError)
    );
}

#[test]
fn unknown_option() {
    assert_eq!(
        Command::parse(&argv(&["svc", "stop", "--name", "demo"])),
        Err(Error::UsageError)
    );
    assert_eq!(
        Command::parse(&argv(&["svc", "stop", "-s", "demo", "--force", "yes"])),
        Err(Error::UsageError)
    );
    assert_eq!(
        Command::parse(&argv(&["svc", "stop", "-e", "/bin/d"])),
        Err(Error::UsageError)
    );
    assert_eq!(
        Command::parse(&argv(&["svc", "stop", "-s", "demo", "-e", "/bin/d"])),
        Err(Error::UsageError)
    );
}

#[test]
fn stray_token() {
    assert_eq!(
        Command::parse(&argv(&["svc", "stop", "-s", "demo", "extra"])),
        Err(Error::UsageError)
    );
    assert_eq!(
        Command::parse(&argv(&["svc", "stop", "extra", "-s", "demo"])),
        Err(Error::UsageError)
    );
}

#[test]
fn other_spellings_of_an_option_are_not_known() {
    assert_eq!(Command::parse(&argv(&["svc", "stop", "--service=demo"])), Err(Error::UsageError));
    assert_eq!(Command::parse(&argv(&["svc", "stop", "-sdemo"])), Err(Error::UsageError));
    assert_eq!(
        Command::parse(&argv(&["svc", "stop", "--Service", "demo"])),
        Err(Error::UsageError)
    );
}
