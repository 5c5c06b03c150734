use greycat_zed::command::{command_step, BinarySettings, Command, CommandStep};

fn env() -> Vec<(String, String)> {
    vec![("RUST_LOG".to_string(), "off".to_string())]
}

fn user(path: Option<&str>, args: Option<Vec<&str>>) -> Option<BinarySettings> {
    Some(BinarySettings {
        path: path.map(|p| p.to_string()),
        arguments: args.map(|a| a.into_iter().map(|s| s.to_string()).collect()),
    })
}

fn cmd(command: &str, args: &[&str]) -> CommandStep {
    CommandStep::Decided(Ok(Command {
        command: command.to_string(),
        args: args.iter().map(|s| s.to_string()).collect(),
        env: env(),
    }))
}

#[test]
fn user_binary_wins() {
    assert_eq!(command_step(user(Some("/opt/ga"), None), None, None, env()), cmd("/opt/ga", &["server"]));
    assert_eq!(
        command_step(user(Some("/opt/ga"), Some(vec!["server", "--stdio"])), Some(Some("/usr/bin/ga".to_string())), None, env()),
        cmd("/opt/ga", &["server", "--stdio"])
    );
}

#[test]
fn empty_user_path_is_ignored() {
    assert_eq!(command_step(user(Some(""), Some(vec!["x"])), None, None, env()), CommandStep::LookupPath);
    assert_eq!(command_step(user(None, Some(vec!["x"])), None, None, env()), CommandStep::LookupPath);
    assert_eq!(command_step(None, None, None, env()), CommandStep::LookupPath);
}

#[test]
fn path_lookup_comes_second() {
    assert_eq!(
        command_step(None, Some(Some("/usr/bin/greycat-analyzer".to_string())), None, env()),
        cmd("/usr/bin/greycat-analyzer", &["server"])
    );
    assert_eq!(command_step(None, Some(None), None, env()), CommandStep::InstallManaged);
}

#[test]
fn managed_install_comes_last() {
    assert_eq!(
        command_step(None, Some(None), Some(Ok("greycat-analyzer-v1/greycat-analyzer".to_string())), env()),
        cmd("greycat-analyzer-v1/greycat-analyzer", &["server"])
    );
    assert_eq!(
        command_step(None, Some(None), Some(Err("offline".to_string())), env()),
        CommandStep::Decided(Err("offline".to_string()))
    );
}
