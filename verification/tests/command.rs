use rclone_batch::command::{get_command, log_header};
use rclone_batch::job::{get_jobs, FsAction, LoadStep};
use rclone_batch::node::Node;
use rclone_batch::types::{Job, LoadError, Platform, RcloneActions};

fn word(x: &str) -> Node {
    Node::Str(x.to_string())
}

fn table(pairs: Vec<(&str, Node)>) -> Node {
    Node::Mapping(
        pairs
            .into_iter()
            .map(|(k, v)| (Node::Str(k.to_string()), v))
            .collect(),
    )
}

fn run_load(
    doc: &Node,
    platform: Platform,
    tmp_dir: &str,
    existing: &[&str],
) -> Result<(Vec<Job>, Vec<FsAction>), LoadError> {
    let mut facts: Vec<(String, bool)> = Vec::new();
    loop {
        match get_jobs(doc, platform, tmp_dir, &facts)? {
            LoadStep::NeedProbe(path) => {
                let exists = existing.contains(&path.as_str());
                facts.push((path, exists));
            }
            LoadStep::Loaded(jobs, actions) => return Ok((jobs, actions)),
        }
    }
}

#[test]
fn full_argument_vector_with_filters() {
    let doc = table(vec![(
        "job1",
        table(vec![
            ("source", word("/a")),
            ("dest", word("/b")),
            ("options", word("-v")),
            ("filters", Node::List(vec![word("*.tmp"), word("*.log")])),
        ]),
    )]);
    let (jobs, actions) = run_load(&doc, Platform::Linux, "/tmp/rb", &[]).unwrap();
    let args = get_command(&jobs[0], "/usr/bin/rclone", &RcloneActions::Copy);
    assert_eq!(
        args,
        vec![
            "/usr/bin/rclone".to_string(),
            "copy".to_string(),
            "/a".to_string(),
            "/b".to_string(),
            "-v".to_string(),
            "--filter-from".to_string(),
            "/tmp/rb/job1".to_string(),
        ]
    );
    // The filter file holds exactly the two patterns, one per line.
    assert_eq!(
        actions,
        vec![FsAction::WriteFilters(
            "/tmp/rb/job1".to_string(),
            vec!["*.tmp".to_string(), "*.log".to_string()]
        )]
    );
}

#[test]
fn no_filters_omits_the_flag_pair_entirely() {
    let doc = table(vec![(
        "job1",
        table(vec![
            ("source", word("/a")),
            ("dest", word("/b")),
            ("options", word("-v")),
        ]),
    )]);
    let (jobs, actions) = run_load(&doc, Platform::Linux, "/tmp/rb", &[]).unwrap();
    let args = get_command(&jobs[0], "/usr/bin/rclone", &RcloneActions::Copy);
    assert_eq!(
        args,
        vec![
            "/usr/bin/rclone".to_string(),
            "copy".to_string(),
            "/a".to_string(),
            "/b".to_string(),
            "-v".to_string(),
        ]
    );
    assert!(!args.contains(&"--filter-from".to_string()));
    // The empty filter file is still created.
    assert_eq!(
        actions,
        vec![FsAction::WriteFilters("/tmp/rb/job1".to_string(), Vec::new())]
    );
}

#[test]
fn empty_filter_list_also_omits_the_flag_pair() {
    let doc = table(vec![(
        "job1",
        table(vec![
            ("source", word("/a")),
            ("dest", word("/b")),
            ("options", word("")),
            ("filters", Node::List(Vec::new())),
        ]),
    )]);
    let (jobs, _) = run_load(&doc, Platform::Linux, "/tmp/rb", &[]).unwrap();
    let args = get_command(&jobs[0], "/usr/bin/rclone", &RcloneActions::Sync);
    assert_eq!(
        args,
        vec![
            "/usr/bin/rclone".to_string(),
            "sync".to_string(),
            "/a".to_string(),
            "/b".to_string(),
        ]
    );
}

#[test]
fn log_file_pair_comes_after_options() {
    let doc = table(vec![(
        "job1",
        table(vec![
            ("source", word("/a")),
            ("dest", word("/b")),
            ("options", word("-v --dry-run")),
            ("log_path", table(vec![("linux", word("/lg"))])),
            ("filters", Node::List(vec![word("*.bak")])),
        ]),
    )]);
    let (jobs, _) = run_load(&doc, Platform::Linux, "/tmp/rb", &["/lg"]).unwrap();
    let args = get_command(&jobs[0], "/opt/rclone", &RcloneActions::Check);
    assert_eq!(
        args,
        vec![
            "/opt/rclone".to_string(),
            "check".to_string(),
            "/a".to_string(),
            "/b".to_string(),
            "-v".to_string(),
            "--dry-run".to_string(),
            "--log-file".to_string(),
            "/lg".to_string(),
            "--filter-from".to_string(),
            "/tmp/rb/job1".to_string(),
        ]
    );
}

#[test]
fn remote_log_path_leaves_no_log_flag() {
    let doc = table(vec![(
        "job1",
        table(vec![
            ("source", word("/a")),
            ("dest", word("/b")),
            ("options", word("")),
            ("log_path", table(vec![("remote", word("gd:logs"))])),
        ]),
    )]);
    let (jobs, _) = run_load(&doc, Platform::Linux, "/tmp/rb", &[]).unwrap();
    assert_eq!(jobs[0].log_path, None);
    let args = get_command(&jobs[0], "/usr/bin/rclone", &RcloneActions::Copy);
    assert!(!args.contains(&"--log-file".to_string()));
    assert_eq!(
        args,
        vec![
            "/usr/bin/rclone".to_string(),
            "copy".to_string(),
            "/a".to_string(),
            "/b".to_string(),
        ]
    );
}

#[test]
fn header_text_is_exact() {
    let job = Job {
        source: "/a".to_string(),
        destination: "/b".to_string(),
        options: Vec::new(),
        log_path: Some("/lg".to_string()),
        filters: Vec::new(),
        tmp_filter_file: "/t/j".to_string(),
    };
    let line = "_".repeat(45);
    let expected = format!("\n\n{line}sync{line}\nFROM: /a             TO: /b\n");
    assert_eq!(log_header(&job, &RcloneActions::Sync), expected);
}
