use exe_deploy::report::{GroupSummary, TargetStatus, group_summary, overall_summary};

fn status(id: &str, is_running: bool) -> TargetStatus {
    TargetStatus {
        id: String::from(id),
        is_running,
        log_tail: String::from("log"),
    }
}

#[test]
fn group_summary_lists_stopped_ids_in_order() {
    let statuses = vec![status("a", false), status("b", true), status("c", false)];
    let summary = group_summary(String::from("g"), &statuses);
    assert_eq!(summary.group_name, "g");
    assert_eq!(summary.target_count, 3);
    assert_eq!(summary.not_running, vec![String::from("a"), String::from("c")]);
    assert!(!summary.fully_healthy());
}

#[test]
fn group_summary_healthy_iff_none_stopped() {
    let statuses = vec![status("a", true), status("b", true)];
    let summary = group_summary(String::from("g"), &statuses);
    assert_eq!(summary.target_count, 2);
    assert!(summary.not_running.is_empty());
    assert!(summary.fully_healthy());
}

#[test]
fn group_summary_all_stopped() {
    let statuses = vec![status("a", false), status("b", false)];
    let summary = group_summary(String::from("g"), &statuses);
    assert_eq!(summary.not_running.len(), 2);
    assert!(!summary.fully_healthy());
}

#[test]
fn group_summary_of_empty_group() {
    let summary = group_summary(String::from("g"), &Vec::new());
    assert_eq!(summary.target_count, 0);
    assert!(summary.fully_healthy());
}

fn summary(name: &str, target_count: usize, stopped: &[&str]) -> GroupSummary {
    GroupSummary {
        group_name: String::from(name),
        target_count,
        not_running: stopped.iter().map(|s| String::from(*s)).collect(),
    }
}

#[test]
fn overall_summary_sums_and_omits_healthy_groups() {
    let summaries = vec![
        summary("healthy", 2, &[]),
        summary("partial", 3, &["x", "y"]),
        summary("down", 1, &["z"]),
    ];
    let overall = overall_summary(&summaries);
    assert_eq!(overall.total_target_count, 6);
    assert_eq!(overall.not_running_target_count, 3);
    assert_eq!(overall.problems.len(), 2);
    assert_eq!(overall.problems[0].group_name, "partial");
    assert_eq!(
        overall.problems[0].not_running,
        vec![String::from("x"), String::from("y")]
    );
    assert_eq!(overall.problems[1].group_name, "down");
    assert_eq!(overall.problems[1].not_running, vec![String::from("z")]);
}

#[test]
fn overall_summary_all_healthy() {
    let summaries = vec![summary("a", 4, &[]), summary("b", 1, &[])];
    let overall = overall_summary(&summaries);
    assert_eq!(overall.total_target_count, 5);
    assert_eq!(overall.not_running_target_count, 0);
    assert!(overall.problems.is_empty());
}

#[test]
fn overall_summary_of_no_groups() {
    let overall = overall_summary(&Vec::new());
    assert_eq!(overall.total_target_count, 0);
    assert_eq!(overall.not_running_target_count, 0);
    assert!(overall.problems.is_empty());
}

#[test]
fn statuses_feed_group_summaries() {
    // A report built from probe interpretations end to end at the group level.
    let exe = exe_deploy::executable::Executable::new(
        String::from("svc"),
        String::from("/srv/app"),
        String::from("/local/bin"),
    )
    .unwrap();
    let outputs = [("a", "1\n"), ("b", "0\n"), ("c", "1\n")];
    let statuses: Vec<TargetStatus> = outputs
        .iter()
        .map(|(id, out)| TargetStatus {
            id: String::from(*id),
            is_running: exe.check_remote_server_process_is_running(out),
            log_tail: String::new(),
        })
        .collect();
    let summary = group_summary(String::from("default"), &statuses);
    assert_eq!(summary.target_count, 3);
    assert_eq!(summary.not_running, vec![String::from("b")]);
}
