use linkplan::alias::{AliasIndex, EnvVar};
use linkplan::document::{parse_config, ConfigError};
use linkplan::executor::{Action, Event, LinkJob, Outcome, Stage};
use linkplan::plan::{plan_document, plan_documents, plan_links, plan_run};
use linkplan::probe::{is_dir, is_file, PathStatus};
use linkplan::request::{LinkKind, LinkRequest, PathFault, SectionShapeError, ShapeFault};
use linkplan::resolve::{resolve_request, ResolvedLinkRequest};

fn file() -> PathStatus {
    PathStatus { exists: true, regular_file: true, directory: false }
}

fn directory() -> PathStatus {
    PathStatus { exists: true, regular_file: false, directory: true }
}

fn resolved(kind: LinkKind, src: &str, dst: &str) -> ResolvedLinkRequest {
    ResolvedLinkRequest { kind, src: src.to_string(), dst: dst.to_string() }
}

fn index() -> AliasIndex {
    let vars = vec![EnvVar {
        name: "DATA".to_string(),
        value: "/data".to_string(),
        status: directory(),
    }];
    AliasIndex::build(&vars, "/home/u")
}

fn run(request: ResolvedLinkRequest, events: Vec<Event>) -> (Vec<Action>, Option<Outcome>) {
    let mut job = LinkJob::start(request);
    let mut actions = vec![job.next_action()];
    for event in events {
        job.advance(event);
        actions.push(job.next_action());
    }
    let outcome = match job.outcome() {
        Some(Outcome::Linked) => Some(Outcome::Linked),
        Some(Outcome::Skipped) => Some(Outcome::Skipped),
        Some(Outcome::Failed(cause)) => Some(Outcome::Failed(cause.clone())),
        None => None,
    };
    (actions, outcome)
}

fn probe(path: &str) -> Action {
    Action::Probe(path.to_string())
}

fn remove(path: &str) -> Action {
    Action::RemoveFile(path.to_string())
}

fn link(kind: LinkKind, src: &str, dst: &str) -> Action {
    Action::CreateLink { kind, src: src.to_string(), dst: dst.to_string() }
}

#[test]
fn status_tells_files_and_directories() {
    assert!(is_file(&file()));
    assert!(!is_file(&directory()));
    assert!(!is_file(&PathStatus::missing()));
    assert!(!is_file(&PathStatus { exists: false, regular_file: true, directory: false }));
    assert!(is_dir(&directory()));
    assert!(!is_dir(&file()));
    assert!(!is_dir(&PathStatus::missing()));
    assert!(!is_dir(&PathStatus { exists: false, regular_file: false, directory: true }));
    assert_eq!(
        PathStatus::missing(),
        PathStatus { exists: false, regular_file: false, directory: false }
    );
}

#[test]
fn mutations_are_removal_and_link() {
    assert!(!probe("a").is_mutation());
    assert!(!Action::Stop.is_mutation());
    assert!(remove("a").is_mutation());
    assert!(link(LinkKind::Symlink, "a", "b").is_mutation());
}

#[test]
fn hardlink_of_existing_source_to_new_destination() {
    let plan = plan_links("hardlink: [{src: a.txt},{dst: b.txt}]", &index()).unwrap();
    assert_eq!(plan, vec![Ok(resolved(LinkKind::Hardlink, "a.txt", "b.txt"))]);
    let (actions, outcome) = run(
        resolved(LinkKind::Hardlink, "a.txt", "b.txt"),
        vec![Event::Probed(PathStatus::missing()), Event::Probed(file()), Event::Linked],
    );
    assert_eq!(
        actions,
        vec![
            probe("b.txt"),
            probe("a.txt"),
            link(LinkKind::Hardlink, "a.txt", "b.txt"),
            Action::Stop,
        ]
    );
    assert_eq!(outcome, Some(Outcome::Linked));
}

#[test]
fn second_run_removes_destination_and_links_again() {
    let (actions, outcome) = run(
        resolved(LinkKind::Hardlink, "a.txt", "b.txt"),
        vec![Event::Probed(file()), Event::Removed, Event::Probed(file()), Event::Linked],
    );
    assert_eq!(
        actions,
        vec![
            probe("b.txt"),
            remove("b.txt"),
            probe("a.txt"),
            link(LinkKind::Hardlink, "a.txt", "b.txt"),
            Action::Stop,
        ]
    );
    assert_eq!(outcome, Some(Outcome::Linked));
}

#[test]
fn rerun_asks_for_the_same_link_for_either_file_kind() {
    for kind in [LinkKind::Symlink, LinkKind::Hardlink] {
        let (first, _) = run(
            resolved(kind, "s", "d"),
            vec![Event::Probed(PathStatus::missing()), Event::Probed(file()), Event::Linked],
        );
        let (second, end) = run(
            resolved(kind, "s", "d"),
            vec![Event::Probed(file()), Event::Removed, Event::Probed(file()), Event::Linked],
        );
        assert_eq!(first[2], link(kind, "s", "d"));
        assert_eq!(second[1], remove("d"));
        assert_eq!(second[3], first[2]);
        assert_eq!(end, Some(Outcome::Linked));
    }
}

#[test]
fn file_link_with_missing_source_changes_nothing() {
    for kind in [LinkKind::Symlink, LinkKind::Hardlink] {
        for source in [PathStatus::missing(), directory()] {
            let (actions, outcome) = run(
                resolved(kind, "s", "d"),
                vec![Event::Probed(PathStatus::missing()), Event::Probed(source)],
            );
            assert_eq!(actions, vec![probe("d"), probe("s"), Action::Stop]);
            assert!(actions.iter().all(|action| !action.is_mutation()));
            assert_eq!(outcome, Some(Outcome::Skipped));
        }
    }
}

#[test]
fn file_link_clears_destination_before_it_looks_at_source() {
    let (actions, outcome) = run(
        resolved(LinkKind::Symlink, "s", "d"),
        vec![Event::Probed(file()), Event::Removed, Event::Probed(PathStatus::missing())],
    );
    assert_eq!(actions, vec![probe("d"), remove("d"), probe("s"), Action::Stop]);
    assert_eq!(outcome, Some(Outcome::Skipped));
}

#[test]
fn file_link_leaves_a_directory_at_the_destination() {
    let (actions, outcome) = run(
        resolved(LinkKind::Symlink, "s", "d"),
        vec![
            Event::Probed(directory()),
            Event::Probed(file()),
            Event::LinkFailed("exists".to_string()),
        ],
    );
    assert_eq!(
        actions,
        vec![probe("d"), probe("s"), link(LinkKind::Symlink, "s", "d"), Action::Stop]
    );
    assert_eq!(outcome, Some(Outcome::Failed("exists".to_string())));
}

#[test]
fn directory_link_of_missing_source_changes_nothing() {
    let plan =
        plan_links("symlink-dir: [{src: missing_dir},{dst: out_link}]", &index()).unwrap();
    assert_eq!(plan, vec![Ok(resolved(LinkKind::DirSymlink, "missing_dir", "out_link"))]);
    for source in [PathStatus::missing(), file()] {
        let (actions, outcome) = run(
            resolved(LinkKind::DirSymlink, "missing_dir", "out_link"),
            vec![Event::Probed(source)],
        );
        assert_eq!(actions, vec![probe("missing_dir"), Action::Stop]);
        assert!(actions.iter().all(|action| !action.is_mutation()));
        assert_eq!(outcome, Some(Outcome::Skipped));
    }
}

#[test]
fn directory_link_never_clears_the_destination() {
    let (actions, outcome) = run(
        resolved(LinkKind::DirSymlink, "src_dir", "out_link"),
        vec![Event::Probed(directory()), Event::Linked],
    );
    assert_eq!(
        actions,
        vec![probe("src_dir"), link(LinkKind::DirSymlink, "src_dir", "out_link"), Action::Stop]
    );
    assert_eq!(outcome, Some(Outcome::Linked));
}

#[test]
fn failed_link_is_reported_with_its_cause() {
    let (_, outcome) = run(
        resolved(LinkKind::DirSymlink, "src_dir", "out_link"),
        vec![Event::Probed(directory()), Event::LinkFailed("permission denied".to_string())],
    );
    assert_eq!(outcome, Some(Outcome::Failed("permission denied".to_string())));
}

#[test]
fn events_that_answer_nothing_are_passed_over() {
    let (actions, outcome) = run(
        resolved(LinkKind::Hardlink, "s", "d"),
        vec![
            Event::Linked,
            Event::Removed,
            Event::LinkFailed("early".to_string()),
            Event::Probed(PathStatus::missing()),
            Event::Removed,
            Event::Probed(file()),
            Event::Probed(file()),
            Event::Linked,
            Event::Probed(file()),
            Event::LinkFailed("late".to_string()),
        ],
    );
    assert_eq!(
        actions,
        vec![
            probe("d"),
            probe("d"),
            probe("d"),
            probe("d"),
            probe("s"),
            probe("s"),
            link(LinkKind::Hardlink, "s", "d"),
            link(LinkKind::Hardlink, "s", "d"),
            Action::Stop,
            Action::Stop,
            Action::Stop,
        ]
    );
    assert_eq!(outcome, Some(Outcome::Linked));
}

#[test]
fn job_has_no_outcome_before_it_is_done() {
    let job = LinkJob::start(resolved(LinkKind::Symlink, "s", "d"));
    assert_eq!(job.outcome(), None);
}

#[test]
fn job_keeps_its_request_and_shows_its_stage() {
    let mut job = LinkJob::start(resolved(LinkKind::Hardlink, "s", "d"));
    assert_eq!(job.request(), &resolved(LinkKind::Hardlink, "s", "d"));
    assert_eq!(job.stage(), &Stage::CheckDestination);
    job.advance(Event::Probed(file()));
    assert_eq!(job.stage(), &Stage::ClearDestination);
    job.advance(Event::Removed);
    assert_eq!(job.stage(), &Stage::CheckSource);
    job.advance(Event::Probed(file()));
    assert_eq!(job.stage(), &Stage::CreateLink);
    job.advance(Event::LinkFailed("no".to_string()));
    assert_eq!(job.stage(), &Stage::Done(Outcome::Failed("no".to_string())));
    assert_eq!(job.request(), &resolved(LinkKind::Hardlink, "s", "d"));
    let job = LinkJob::start(resolved(LinkKind::DirSymlink, "s", "d"));
    assert_eq!(job.stage(), &Stage::CheckSource);
}

#[test]
fn plan_resolves_aliases_in_both_paths() {
    let plan = plan_links(
        "symlink: [{src: $HOME/notes.txt},{dst: $DATA\\notes.txt}]",
        &index(),
    )
    .unwrap();
    assert_eq!(
        plan,
        vec![Ok(resolved(LinkKind::Symlink, "/home/u/notes.txt", "/data\\notes.txt"))]
    );
}

#[test]
fn plan_takes_documents_in_order_and_keeps_faults_in_place() {
    let text = "hardlink: [{src: a},{dst: b}]\n\
                symlink: [{src: 1},{dst: c}]\n\
                ---\n\
                symlink-dir: [{src: $DATA/d},{dst: e}]\n\
                ---\n\
                symlink: oops\n";
    let plan = plan_links(text, &index()).unwrap();
    assert_eq!(
        plan,
        vec![
            Err(SectionShapeError {
                kind: LinkKind::Symlink,
                fault: ShapeFault::Source(PathFault::NotText),
            }),
            Ok(resolved(LinkKind::Hardlink, "a", "b")),
            Ok(resolved(LinkKind::DirSymlink, "/data/d", "e")),
            Err(SectionShapeError { kind: LinkKind::Symlink, fault: ShapeFault::NotAPair }),
        ]
    );
}

#[test]
fn plan_of_a_text_without_sections_is_empty() {
    assert_eq!(plan_links("", &index()).unwrap(), Vec::new());
    assert_eq!(plan_links("other: value", &index()).unwrap(), Vec::new());
    assert_eq!(plan_links("- a\n- b\n", &index()).unwrap(), Vec::new());
}

#[test]
fn unparseable_text_gives_a_parse_error_and_no_step() {
    let plan = plan_links("hardlink: [{src: a.txt},{dst: b.txt}", &index());
    assert!(matches!(plan, Err(ConfigError::Parse(_))));
    let plan = plan_run(Ok("symlink: [{src: a}, {dst: b}]\nhardlink: [".to_string()), &index());
    assert!(matches!(plan, Err(ConfigError::Parse(_))));
}

#[test]
fn unreadable_file_gives_a_read_error() {
    let plan = plan_run(Err("permission denied".to_string()), &index());
    assert_eq!(plan, Err(ConfigError::Read("permission denied".to_string())));
}

#[test]
fn readable_file_gives_its_plan() {
    let plan = plan_run(Ok("hardlink: [{src: a.txt},{dst: b.txt}]".to_string()), &index());
    assert_eq!(plan, Ok(vec![Ok(resolved(LinkKind::Hardlink, "a.txt", "b.txt"))]));
}

#[test]
fn plan_of_parsed_documents() {
    let docs = parse_config("symlink: [{src: $DATA/a},{dst: b}]\n---\nhardlink: 1\n").unwrap();
    let expected = vec![
        Ok(resolved(LinkKind::Symlink, "/data/a", "b")),
        Err(SectionShapeError { kind: LinkKind::Hardlink, fault: ShapeFault::NotAPair }),
    ];
    assert_eq!(plan_documents(&docs, &index()), expected);
    assert_eq!(plan_documents(&Vec::new(), &index()), Vec::new());
    let mut plan = vec![Ok(resolved(LinkKind::DirSymlink, "x", "y"))];
    plan_document(&docs[1], &index(), &mut plan);
    plan_document(&docs[0], &index(), &mut plan);
    assert_eq!(
        plan,
        vec![
            Ok(resolved(LinkKind::DirSymlink, "x", "y")),
            Err(SectionShapeError { kind: LinkKind::Hardlink, fault: ShapeFault::NotAPair }),
            Ok(resolved(LinkKind::Symlink, "/data/a", "b")),
        ]
    );
}

#[test]
fn request_is_resolved_path_by_path() {
    let request =
        LinkRequest::new(LinkKind::Hardlink, "$DATA/in.txt".to_string(), "out.txt".to_string())
            .unwrap();
    assert_eq!(
        resolve_request(&request, &index()),
        resolved(LinkKind::Hardlink, "/data/in.txt", "out.txt")
    );
    let request =
        LinkRequest::new(LinkKind::DirSymlink, "$NOPE/d".to_string(), "$HOME\\l".to_string())
            .unwrap();
    assert_eq!(
        resolve_request(&request, &index()),
        resolved(LinkKind::DirSymlink, "$NOPE/d", "/home/u\\l")
    );
}
