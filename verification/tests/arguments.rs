use meo_wifi::args::{parse, usage_instructions, Args, Mode, Output, USAGE};

fn read(arguments: &[&str]) -> Result<Output, String> {
    let arguments: Vec<String> = arguments.iter().map(|a| a.to_string()).collect();
    parse(&arguments, "1.2.3")
}

fn args(arguments: &[&str]) -> Args {
    match read(arguments) {
        Ok(Output::Args(args)) => args,
        other => panic!("no arguments came out: {:?}", other),
    }
}

fn info(arguments: &[&str]) -> String {
    match read(arguments) {
        Ok(Output::Info(info)) => info,
        other => panic!("no text came out: {:?}", other),
    }
}

#[test]
fn user_name_and_password_are_read() {
    let args = args(&["-u", "user@example.com", "-p", "Passw0rd"]);
    assert_eq!(args.user(), "user@example.com");
    assert_eq!(args.username(), "user@example.com");
    assert_eq!(args.pass(), "Passw0rd");
    assert_eq!(args.password(), "Passw0rd");
    assert!(args.is_one_shot());
    assert!(!args.is_continuous());
    assert_eq!(args.mode(), Mode::OneShot);
}

#[test]
fn long_options_are_read_too() {
    let args = args(&["--password", "Passw0rd", "--continuous", "--username", "user@example.com"]);
    assert_eq!(args.username(), "user@example.com");
    assert_eq!(args.password(), "Passw0rd");
    assert!(args.is_continuous());
    assert!(!args.is_one_shot());
}

#[test]
fn short_option_for_continuous_mode() {
    assert!(args(&["-c", "-u", "u", "-p", "p"]).is_continuous());
}

#[test]
fn later_value_replaces_an_earlier_one() {
    let args = args(&["-u", "first", "-p", "p", "-u", "second"]);
    assert_eq!(args.username(), "second");
}

#[test]
fn option_takes_whatever_stands_behind_it() {
    let args = args(&["-u", "-p", "-p", "-c"]);
    assert_eq!(args.username(), "-p");
    assert_eq!(args.password(), "-c");
    assert!(args.is_one_shot());
}

#[test]
fn missing_credentials_are_mistakes() {
    assert_eq!(read(&[]).err(), Some("Missing username and password".to_string()));
    assert_eq!(read(&["-c"]).err(), Some("Missing username and password".to_string()));
    assert_eq!(read(&["-u", "u"]).err(), Some("Missing password".to_string()));
    assert_eq!(read(&["-p", "p"]).err(), Some("Missing username".to_string()));
}

#[test]
fn option_at_the_end_loses_its_value() {
    assert_eq!(read(&["-u", "u", "-p", "p", "-u"]).err(), Some("Missing username".to_string()));
    assert_eq!(read(&["-u", "u", "-p", "p", "--password"]).err(), Some("Missing password".to_string()));
    assert_eq!(read(&["-u"]).err(), Some("Missing username and password".to_string()));
}

#[test]
fn unknown_argument_is_a_mistake() {
    assert_eq!(read(&["-x"]).err(), Some("Unknown argument: -x".to_string()));
    assert_eq!(read(&["-u", "u", "stray", "-h"]).err(), Some("Unknown argument: stray".to_string()));
    assert_eq!(read(&[""]).err(), Some("Unknown argument: ".to_string()));
    assert_eq!(read(&["-U"]).err(), Some("Unknown argument: -U".to_string()));
}

#[test]
fn help_shows_the_usage() {
    assert_eq!(info(&["-h"]), USAGE);
    assert_eq!(info(&["--help"]), USAGE);
    assert_eq!(info(&["-u", "u", "-h", "-x"]), USAGE);
    assert_eq!(usage_instructions(), USAGE);
    assert_eq!(
        USAGE,
        format!(
            "{}{}{}{}{}{}{}",
            "Usage: program -u <username> -p <password> [-c]\n\n",
            "Options:\n",
            "\t-u, --username    Specify the username\n",
            "\t-p, --password    Specify the password\n",
            "\t-c, --continuous  Run in continuous mode (default is one-shot)\n",
            "\t-h, --help        Display this help message\n",
            "\t-v, --version     Display the version number"
        )
    );
}

#[test]
fn version_shows_the_version_number() {
    assert_eq!(info(&["-v"]), "v1.2.3");
    assert_eq!(info(&["--version"]), "v1.2.3");
    assert_eq!(info(&["-c", "-v", "-x"]), "v1.2.3");
}

#[test]
fn output_is_unwrapped_into_its_parts() {
    let (args, info) = read(&["-u", "u", "-p", "p"]).unwrap().unwrap();
    assert_eq!(args.map(|args| args.username().to_string()), Some("u".to_string()));
    assert_eq!(info, None);
    let (args, info) = read(&["-v"]).unwrap().unwrap();
    assert!(args.is_none());
    assert_eq!(info, Some("v1.2.3".to_string()));
}
