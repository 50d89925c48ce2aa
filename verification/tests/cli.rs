use spotify_infos::cli::Invocation;

fn command_line(arguments: &[&str]) -> Vec<String> {
    let mut args = vec!["spotify-infos".to_string()];
    for argument in arguments {
        args.push(argument.to_string());
    }
    args
}

#[test]
fn no_argument_asks_for_the_record() {
    let invocation = Invocation::from_args(&command_line(&[]));
    assert_eq!(invocation, Invocation::Dump);
    assert_eq!(invocation.exit_status(), 0);
}

#[test]
fn one_argument_is_the_template() {
    let invocation = Invocation::from_args(&command_line(&["%artists% - %title%"]));
    assert_eq!(invocation, Invocation::Render("%artists% - %title%".to_string()));
    assert_eq!(invocation.exit_status(), 0);
    let invocation = Invocation::from_args(&command_line(&[""]));
    assert_eq!(invocation, Invocation::Render(String::new()));
}

#[test]
fn two_or_more_arguments_are_a_usage_error() {
    let invocation = Invocation::from_args(&command_line(&["%title%", "%album%"]));
    assert_eq!(invocation, Invocation::Usage);
    assert_eq!(invocation.exit_status(), 1);
    let invocation = Invocation::from_args(&command_line(&["a", "b", "c", "d"]));
    assert_eq!(invocation, Invocation::Usage);
    assert_eq!(invocation.exit_status(), 1);
}

#[test]
fn command_line_without_even_a_name_is_a_usage_error() {
    let invocation = Invocation::from_args(&Vec::new());
    assert_eq!(invocation, Invocation::Usage);
    assert_eq!(invocation.exit_status(), 1);
}
