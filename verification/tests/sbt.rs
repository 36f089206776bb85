use lib::sbt::{Sbt, SystemProperty, Task, TaskRef};

#[test]
fn format_concurrent_tasks() {
    let tasks = ["test", "syntaxJS/fullOptJS"];
    assert_eq!(Sbt::concurrent_tasks(&tasks), "all test syntaxJS/fullOptJS");
}

#[test]
fn concurrent_tasks_without_tasks_is_all() {
    let tasks: [&str; 0] = [];
    assert_eq!(Sbt::concurrent_tasks(&tasks), "all");
}

#[test]
fn concurrent_tasks_single() {
    assert_eq!(Sbt::concurrent_tasks(&["compile"]), "all compile");
}

#[test]
fn chunked_splits_in_order() {
    let tasks = vec!["a", "b", "c", "d", "e"];
    assert_eq!(
        Sbt::concurrent_tasks_chunked(&tasks, 2),
        vec!["all a b".to_string(), "all c d".to_string(), "all e".to_string()]
    );
}

#[test]
fn chunked_exact_multiple() {
    let tasks = vec!["a", "b", "c", "d"];
    assert_eq!(
        Sbt::concurrent_tasks_chunked(&tasks, 2),
        vec!["all a b".to_string(), "all c d".to_string()]
    );
}

#[test]
fn chunked_zero_means_one_chunk() {
    let tasks = vec!["test", "syntaxJS/fullOptJS"];
    assert_eq!(
        Sbt::concurrent_tasks_chunked(&tasks, 0),
        vec![Sbt::concurrent_tasks(&tasks)]
    );
}

#[test]
fn chunked_large_size_means_one_chunk() {
    let tasks = vec!["x", "y", "z"];
    assert_eq!(Sbt::concurrent_tasks_chunked(&tasks, 10), vec!["all x y z".to_string()]);
}

#[test]
fn chunked_size_one() {
    let tasks = vec!["x", "y"];
    assert_eq!(
        Sbt::concurrent_tasks_chunked(&tasks, 1),
        vec!["all x".to_string(), "all y".to_string()]
    );
}

#[test]
fn chunked_without_tasks_gives_no_command() {
    let tasks: Vec<&str> = vec![];
    assert!(Sbt::concurrent_tasks_chunked(&tasks, 3).is_empty());
}

#[test]
fn chunked_commands_cover_every_task_once() {
    let tasks = vec!["t1", "t2", "t3", "t4", "t5", "t6", "t7"];
    let commands = Sbt::concurrent_tasks_chunked(&tasks, 3);
    assert_eq!(commands.len(), 3);
    let mut seen: Vec<String> = Vec::new();
    for command in &commands {
        let mut words = command.split(' ');
        assert_eq!(words.next(), Some("all"));
        let chunk: Vec<String> = words.map(|w| w.to_string()).collect();
        assert!(!chunk.is_empty() && chunk.len() <= 3);
        seen.extend(chunk);
    }
    let expected: Vec<String> = tasks.iter().map(|t| t.to_string()).collect();
    assert_eq!(seen, expected);
}

#[test]
fn executable_name_is_sbt() {
    assert_eq!(Sbt.executable_name(), "sbt");
}

#[test]
fn system_property_argument() {
    let property = SystemProperty::new("bench.compileOnly".to_string(), "true".to_string());
    assert_eq!(property.name, "bench.compileOnly");
    assert_eq!(property.value, "true");
    assert_eq!(property.into_iter(), vec!["-Dbench.compileOnly=true".to_string()]);
}

#[test]
fn system_property_empty_value() {
    let property = SystemProperty::new("flag".to_string(), String::new());
    assert_eq!(property.into_iter(), vec!["-Dflag=".to_string()]);
}

#[test]
fn task_wraps_name() {
    let task = Task::new("runtime/test".to_string());
    assert_eq!(task.0, "runtime/test");
    assert_eq!(task, Task("runtime/test".to_string()));
    assert_eq!(TaskRef("runtime/test").0, task.0.as_str());
}

#[test]
fn splitting_a_command_on_spaces_gives_back_the_tasks() {
    let tasks = ["test", "syntaxJS/fullOptJS", "runtime/compile"];
    let command = Sbt::concurrent_tasks(&tasks);
    let pieces: Vec<&str> = command.split(' ').collect();
    assert_eq!(pieces, vec!["all", "test", "syntaxJS/fullOptJS", "runtime/compile"]);
}
