use vargos_cli::cli::{Cli, Commands, Plan};

fn cli() -> Cli {
    Cli { message: None, agent: None, config_path: None, list_agents: false, agent_info: None, command: None }
}

fn words(items: &[&str]) -> Option<Vec<String>> {
    Some(items.iter().map(|s| s.to_string()).collect())
}

#[test]
fn listing_goes_before_everything() {
    let mut args = cli();
    args.list_agents = true;
    args.agent_info = Some("helper".to_string());
    args.message = words(&["hi"]);
    assert_eq!(args.plan(), Plan::ListAgents);
}

#[test]
fn lookup_goes_before_a_message() {
    let mut args = cli();
    args.agent_info = Some("helper".to_string());
    args.message = words(&["hi"]);
    assert_eq!(args.plan(), Plan::AgentInfo("helper".to_string()));
}

#[test]
fn words_are_joined_by_single_spaces() {
    let mut args = cli();
    args.message = words(&["hello", "there", "agent"]);
    assert_eq!(args.plan(), Plan::Chat("hello there agent".to_string()));
    args.message = words(&["one"]);
    assert_eq!(args.plan(), Plan::Chat("one".to_string()));
    args.message = words(&["", ""]);
    assert_eq!(args.plan(), Plan::Chat(" ".to_string()));
}

#[test]
fn no_words_means_nothing_to_send() {
    let mut args = cli();
    args.message = words(&[]);
    assert_eq!(args.plan(), Plan::Interactive);
}

#[test]
fn no_message_argument_awaits_input() {
    let mut args = cli();
    assert_eq!(args.plan(), Plan::AwaitInput);
    args.agent = Some("helper".to_string());
    args.command = Some(Commands::Version);
    assert_eq!(args.plan(), Plan::AwaitInput);
}

#[test]
fn input_is_trimmed() {
    assert_eq!(Cli::plan_for_input("  hello there \n"), Plan::Chat("hello there".to_string()));
    assert_eq!(Cli::plan_for_input("x"), Plan::Chat("x".to_string()));
    assert_eq!(Cli::plan_for_input("\t\u{a0}a b\u{2003}\r\n"), Plan::Chat("a b".to_string()));
}

#[test]
fn blank_input_means_nothing_to_send() {
    assert_eq!(Cli::plan_for_input(""), Plan::Interactive);
    assert_eq!(Cli::plan_for_input(" \n\t "), Plan::Interactive);
}
