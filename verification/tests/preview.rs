use bulk_rename::components::add::Placement;
use bulk_rename::components::auto_date::{AutoDateMutation, DateType, Moments};
use bulk_rename::components::case::{CaseMutation, CaseType};
use bulk_rename::components::file_browser::{DirectorySnapshot, FileBrowser, Listed, Metadata};
use bulk_rename::components::numbering::NumberingMutation;
use bulk_rename::components::regex::RegexMutation;
use bulk_rename::components::replace::ReplaceMutation;
use bulk_rename::preview::{moments, propose_each, propose_names, update, MutationConfig, Stage};
use bulk_rename::utilities::mutation_pipeline::MutationPipeline;
use bulk_rename::utilities::path_map::PathMap;

fn lowercasing_regex() -> RegexMutation {
    RegexMutation {
        enabled: true,
        pattern: "REPORT".to_string(),
        substitution: "report".to_string(),
        including_extension: false,
    }
}

fn file(name: &str) -> Listed {
    timed(name, None, None)
}

fn timed(name: &str, created: Option<i64>, modified: Option<i64>) -> Listed {
    Listed {
        name: Some(name.to_string()),
        metadata: Some(Metadata {
            size: 1,
            is_dir: false,
            is_file: true,
            is_symlink: false,
            modified,
            created,
        }),
    }
}

fn now_only(now: i64) -> Moments {
    Moments { created: None, modified: None, current: now }
}

#[test]
fn two_selected_files_get_their_regex_names() {
    let mut selection = PathMap::new();
    selection.insert("/d/REPORT one.TXT".to_string(), "REPORT one.TXT".to_string());
    selection.insert("/d/REPORT two.TXT".to_string(), "REPORT two.TXT".to_string());

    let lowercasing = lowercasing_regex();
    let mut pipeline = MutationPipeline::new();
    pipeline.add_mutation(Stage::Regex(&lowercasing));
    pipeline.add_mutation(Stage::Case(CaseMutation {
        enabled: false,
        case_type: CaseType::UpperCase,
    }));

    let proposed = propose_names(&pipeline, &selection);
    assert_eq!(proposed.len(), 2);
    assert_eq!(proposed.get("/d/REPORT one.TXT"), Some(&"report one.TXT".to_string()));
    assert_eq!(proposed.get("/d/REPORT two.TXT"), Some(&"report two.TXT".to_string()));

    let regex_alone = lowercasing_regex();
    for i in 0..selection.len() {
        let (path, name) = selection.entry(i);
        let mut single = MutationPipeline::new();
        single.add_mutation(lowercasing_regex());
        assert_eq!(proposed.get(path), Some(&single.apply_mutation(name)));
        assert_eq!(regex_alone.pattern, "REPORT");
    }
}

#[test]
fn an_empty_selection_proposes_nothing() {
    let config = MutationConfig::default();
    let pipeline = config.pipeline_at(0, now_only(0));
    let proposed = propose_names(&pipeline, &PathMap::new());
    assert_eq!(proposed.len(), 0);
}

#[test]
fn the_default_configuration_keeps_every_name() {
    let config = MutationConfig::default();
    assert!(config.regex.enabled);
    assert!(!config.case.enabled);
    assert_eq!(config.case.case_type, CaseType::Identity);
    assert!(!config.replace.enabled);
    assert!(!config.remove.enabled);
    assert!(!config.add.enabled);
    assert!(!config.auto_date.enabled);
    assert!(!config.numbering.enabled);
    let pipeline = config.pipeline_at(3, now_only(1_431_648_000));
    assert_eq!(pipeline.apply_mutation("Report.TXT"), "Report.TXT");
    assert_eq!(pipeline.apply_mutation(".bashrc"), ".bashrc");
}

#[test]
fn the_configured_pipeline_runs_regex_then_case() {
    let config = MutationConfig {
        regex: lowercasing_regex(),
        case: CaseMutation { enabled: true, case_type: CaseType::ShoutySnakeCase },
        ..MutationConfig::default()
    };
    assert_eq!(
        config.pipeline_at(0, now_only(0)).apply_mutation("REPORT one.TXT"),
        "REPORT_ONE_TXT"
    );
    let kept = MutationConfig {
        case: CaseMutation { enabled: true, case_type: CaseType::TitleCase },
        ..config
    };
    assert_eq!(
        kept.pipeline_at(0, now_only(0)).apply_mutation("REPORT one.TXT"),
        "Report One Txt"
    );
}

#[test]
fn update_without_a_waiting_selection_does_nothing() {
    let mut browser = FileBrowser::new("/d");
    assert!(!update(&MutationConfig::default(), &mut browser, 0));
    assert!(browser.take_new_names().is_none());
}

#[test]
fn update_turns_the_waiting_selection_into_proposed_names() {
    let mut browser = FileBrowser::new("/d");
    let listing = vec![file("REPORT one.TXT"), file("notes.md"), file("REPORT two.TXT")];
    assert!(browser.rebuild(Some(&listing)).is_ok());
    browser.publish_selection(&vec![0, 2]);

    let config = MutationConfig { regex: lowercasing_regex(), ..MutationConfig::default() };
    assert!(update(&config, &mut browser, 0));
    assert!(browser.take_selection().is_none());

    let proposed = browser.take_new_names().expect("proposed names wait");
    assert_eq!(proposed.len(), 2);
    assert_eq!(proposed.get("/d/REPORT one.TXT"), Some(&"report one.TXT".to_string()));
    assert_eq!(proposed.get("/d/REPORT two.TXT"), Some(&"report two.TXT".to_string()));
    assert_eq!(proposed.get("/d/notes.md"), None);

    // The selection was taken: a second refresh finds nothing to do.
    assert!(!update(&config, &mut browser, 0));
}

#[test]
fn every_stage_runs_in_the_order_of_the_configuration() {
    let config = MutationConfig {
        regex: RegexMutation {
            enabled: true,
            pattern: "^(.*)$".to_string(),
            substitution: "$1 copy".to_string(),
            including_extension: true,
        },
        case: CaseMutation { enabled: true, case_type: CaseType::SnakeCase },
        replace: ReplaceMutation {
            enabled: true,
            find: "_copy".to_string(),
            with: "".to_string(),
            case_sensitive: true,
            first_only: false,
        },
        numbering: NumberingMutation {
            enabled: true,
            pad: 2,
            separator: "-".to_string(),
            ..NumberingMutation::default()
        },
        auto_date: AutoDateMutation {
            enabled: true,
            date_type: DateType::Current,
            format: "%Y".to_string(),
            mode: Placement::Suffix,
            separator: ".".to_string(),
        },
        ..MutationConfig::default()
    };
    // regex: "My Report copy", case: "my_report_copy", replace: "my_report",
    // date: "my_report.2015", number of position 4: "05-my_report.2015".
    let pipeline = config.pipeline_at(4, now_only(1_431_648_000));
    assert_eq!(pipeline.apply_mutation("My Report"), "05-my_report.2015");
}

#[test]
fn selected_names_are_numbered_in_the_order_of_the_marks() {
    let mut browser = FileBrowser::new("/d");
    let listing = vec![file("a.txt"), file("b.txt"), file("c.txt"), file("d.txt")];
    assert!(browser.rebuild(Some(&listing)).is_ok());
    browser.publish_selection(&vec![2, 0, 2, 9, 3]);

    let config = MutationConfig {
        numbering: NumberingMutation {
            enabled: true,
            separator: "_".to_string(),
            ..NumberingMutation::default()
        },
        ..MutationConfig::default()
    };
    assert!(update(&config, &mut browser, 0));
    let proposed = browser.take_new_names().expect("proposed names wait");
    assert_eq!(proposed.len(), 3);
    assert_eq!(proposed.get("/d/c.txt"), Some(&"1_c.txt".to_string()));
    assert_eq!(proposed.get("/d/a.txt"), Some(&"2_a.txt".to_string()));
    assert_eq!(proposed.get("/d/d.txt"), Some(&"3_d.txt".to_string()));
    assert_eq!(proposed.get("/d/b.txt"), None);
}

#[test]
fn selected_names_are_dated_with_the_times_of_their_entries() {
    let listing = vec![
        timed("old.txt", Some(0), Some(86_400)),
        timed("new.txt", Some(1_431_648_000), None),
    ];
    let snapshot = DirectorySnapshot::build("/d", &listing);
    let selection = snapshot.selection(&vec![0, 1]);
    let stamp = |date_type| MutationConfig {
        auto_date: AutoDateMutation {
            enabled: true,
            date_type,
            format: "%Y-%m-%d".to_string(),
            mode: Placement::Prefix,
            separator: " ".to_string(),
        },
        ..MutationConfig::default()
    };

    let created = propose_each(&stamp(DateType::Created), &snapshot, 7, &selection);
    assert_eq!(created.get("/d/old.txt"), Some(&"1970-01-01 old.txt".to_string()));
    assert_eq!(created.get("/d/new.txt"), Some(&"2015-05-15 new.txt".to_string()));

    let modified = propose_each(&stamp(DateType::Modified), &snapshot, 7, &selection);
    assert_eq!(modified.get("/d/old.txt"), Some(&"1970-01-02 old.txt".to_string()));
    assert_eq!(modified.get("/d/new.txt"), Some(&"new.txt".to_string()));

    let current = propose_each(&stamp(DateType::Current), &snapshot, 86_400 * 365, &selection);
    assert_eq!(current.get("/d/old.txt"), Some(&"1971-01-01 old.txt".to_string()));
    assert_eq!(current.get("/d/new.txt"), Some(&"1971-01-01 new.txt".to_string()));
}

#[test]
fn the_times_of_a_path_come_from_its_entry() {
    let listing = vec![timed("a", Some(1), Some(2)), timed("b", None, Some(4))];
    let snapshot = DirectorySnapshot::build("/d", &listing);
    assert_eq!(
        moments(&snapshot, "/d/a", 9),
        Moments { created: Some(1), modified: Some(2), current: 9 }
    );
    assert_eq!(
        moments(&snapshot, "/d/b", 9),
        Moments { created: None, modified: Some(4), current: 9 }
    );
    assert_eq!(moments(&snapshot, "/d/c", 9), now_only(9));
    assert_eq!(snapshot.position("/d/b"), Some(1));
    assert_eq!(snapshot.position("/e/b"), None);
}
