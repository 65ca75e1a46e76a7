use init_supervisor::config::{Config, ProcessSpec};

fn entry(name: &str, command: &str) -> ProcessSpec {
    ProcessSpec { name: String::from(name), command: String::from(command) }
}

#[test]
fn configuration_keeps_its_entries_in_order() {
    let config = Config::new(vec![entry("web", "serve --listen 8080"), entry("worker", "run-worker")])
        .unwrap();
    assert_eq!(config.len(), 2);
    assert_eq!(config.get(0).unwrap().name, "web");
    assert_eq!(config.get(0).unwrap().command, "serve --listen 8080");
    assert_eq!(config.get(1).unwrap().name, "worker");
    assert_eq!(config.get(1).unwrap().command, "run-worker");
    assert_eq!(config.get(2), None);
}

#[test]
fn empty_configuration_is_valid() {
    let config = Config::new(Vec::new()).unwrap();
    assert_eq!(config.len(), 0);
}

#[test]
fn a_name_that_occurs_twice_is_refused() {
    assert!(Config::new(vec![entry("a", "true"), entry("a", "false")]).is_none());
    assert!(Config::new(vec![entry("a", "true"), entry("b", "true"), entry("a", "true")]).is_none());
    assert!(Config::new(vec![entry("b", "x"), entry("a", "y"), entry("c", "z"), entry("c", "z")]).is_none());
}

#[test]
fn the_same_command_under_two_names_is_accepted() {
    let config = Config::new(vec![entry("a", "sleep 100"), entry("b", "sleep 100")]).unwrap();
    assert_eq!(config.len(), 2);
}

#[test]
fn names_differ_by_case_and_by_length() {
    assert!(Config::new(vec![entry("a", "true"), entry("A", "true"), entry("aa", "true")]).is_some());
    assert!(Config::new(vec![entry("", "true"), entry(" ", "true")]).is_some());
}

#[test]
fn a_child_is_launched_through_the_shell() {
    let launch = entry("a", "sleep 100").launch();
    assert_eq!(launch.program, "sh");
    assert_eq!(launch.arguments, vec![String::from("-c"), String::from("sleep 100")]);
}

#[test]
fn the_command_is_one_argument_whatever_it_holds() {
    let launch = entry("b", "echo 'a b' && exit 3").launch();
    assert_eq!(launch.program, "sh");
    assert_eq!(launch.arguments.len(), 2);
    assert_eq!(launch.arguments[0], "-c");
    assert_eq!(launch.arguments[1], "echo 'a b' && exit 3");
}
