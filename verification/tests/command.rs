use taur::command::{command_failure, command_or_default, default_directory, get_repo_path, Command};

#[test]
fn no_command_means_fetch() {
    assert_eq!(command_or_default(None), Command::Fetch);
}

#[test]
fn a_given_command_is_run() {
    assert_eq!(command_or_default(Some(Command::Fetch)), Command::Fetch);
    assert_eq!(
        command_or_default(Some(Command::Clone { package_name: String::from("taur") })),
        Command::Clone { package_name: String::from("taur") }
    );
    assert_eq!(
        command_or_default(Some(Command::Pull { package_names: Vec::new() })),
        Command::Pull { package_names: Vec::new() }
    );
    assert_eq!(
        command_or_default(Some(Command::Search { expression: String::from("aur") })),
        Command::Search { expression: String::from("aur") }
    );
}

#[test]
fn what_is_said_of_a_failed_command() {
    assert_eq!(
        command_failure(
            &Command::Clone { package_name: String::from("x") },
            "Package 'x' not found"
        ),
        "Error while cloning: Package 'x' not found"
    );
    assert_eq!(command_failure(&Command::Fetch, "denied"), "Error while fetching: denied");
    assert_eq!(
        command_failure(&Command::Pull { package_names: Vec::new() }, "denied"),
        "Error while pulling: denied"
    );
    assert_eq!(
        command_failure(&Command::Search { expression: String::from("q") }, "no route"),
        "Error while searching: no route"
    );
}

#[test]
fn a_given_root_is_taken() {
    assert_eq!(get_repo_path(Some("/srv/repos"), "/home/u/.local/share/taur/repos"), "/srv/repos");
}

#[test]
fn the_default_root_is_taken_where_none_is_given() {
    assert_eq!(default_directory(), "repos");
    assert_eq!(
        get_repo_path(None, "/home/u/.local/share/taur/repos"),
        "/home/u/.local/share/taur/repos"
    );
}
