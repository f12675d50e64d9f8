use procfan::command::Color;
use procfan::command::CommandError;
use procfan::command::CommandLike;
use procfan::command::CommandOperations;
use procfan::console::ConsoleCommand;
use procfan::console::assign_colors;
use procfan::engine::RestartOptions;
use procfan::runner::Runner;

fn cmd(name: &str, line: &str) -> ConsoleCommand {
    ConsoleCommand::full_cmd(name, line).unwrap()
}

#[test]
fn duplicate_names_are_rejected_not_overwritten() {
    let runner: Runner<ConsoleCommand> = Runner::new()
        .command(cmd("test1", "ls -la ."))
        .command(cmd("test2", "ls -la .."))
        .command(cmd("test1", "ls -la ../.."));
    match runner.validate() {
        Err(CommandError::DuplicateName(n)) => assert_eq!(n, "test1"),
        _ => panic!("expected the duplicate name to be rejected"),
    }
}

#[test]
fn empty_descriptor_set_is_rejected() {
    let runner: Runner<ConsoleCommand> = Runner::new();
    assert!(matches!(runner.validate(), Err(CommandError::NoCommands)));
}

#[test]
fn unique_names_pass_validation() {
    let runner: Runner<ConsoleCommand> = Runner::new()
        .command(cmd("test1", "ls -la ."))
        .command(cmd("test2", "ls -la .."))
        .command(cmd("test3", "ls -la ../.."));
    assert!(runner.validate().is_ok());
    assert_eq!(runner.commands().len(), 3);
}

#[test]
fn options_reflect_the_configuration() {
    let runner: Runner<ConsoleCommand> = Runner::new()
        .command(cmd("test1", "ls -la ."))
        .restart(RestartOptions::Kill)
        .verbose(true)
        .file_handle_flags(true);
    let options = runner.to_options();
    assert!(options.verbose);
    assert!(options.file_handle_flags);
    assert_eq!(options.restart, RestartOptions::Kill);
}

#[test]
fn color_method_sets_display_color() {
    let mut c = cmd("test1", "ls -la .");
    c.color(Color::Red);
    assert_eq!(c.get_color(), Color::Red);
    assert_eq!(c.get_command().name, "test1");
}

#[test]
fn random_colors_are_drawn_from_the_pool_in_order() {
    let mut second = cmd("test2", "ls -la ..");
    second.color(Color::Red);
    let cmds = vec![cmd("test1", "ls -la ."), second, cmd("test3", "ls -la ../..")];
    let colors = assign_colors(&cmds);
    assert_eq!(colors, vec![Color::Cyan, Color::Red, Color::Magenta]);
}

#[test]
fn pool_cycles_after_six_draws() {
    let names = ["a", "b", "c", "d", "e", "f", "g"];
    let cmds: Vec<ConsoleCommand> = names.iter().map(|n| cmd(n, "ls")).collect();
    let colors = assign_colors(&cmds);
    assert_eq!(
        colors,
        vec![
            Color::Cyan,
            Color::Magenta,
            Color::Green,
            Color::Yellow,
            Color::Blue,
            Color::Red,
            Color::Cyan,
        ]
    );
}

#[test]
fn descriptors_keep_registration_order() {
    let runner: Runner<ConsoleCommand> = Runner::new()
        .command(cmd("test1", "ls -la ."))
        .command(cmd("test2", "ls -la .."));
    let names: Vec<String> = runner
        .commands()
        .iter()
        .map(|c| c.get_command().name.clone())
        .collect();
    assert_eq!(names, vec!["test1".to_string(), "test2".to_string()]);
}
