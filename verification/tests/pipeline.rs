use bulk_rename::components::case::{to_ascii_lower, to_ascii_upper, CaseMutation, CaseType};
use bulk_rename::components::regex::{RegexMutation, RegexStatus};
use bulk_rename::preview::Stage;
use bulk_rename::utilities::mutation_pipeline::{FunctionMutation, Mutation, MutationPipeline};

fn regex(pattern: &str, substitution: &str, including_extension: bool) -> RegexMutation {
    RegexMutation {
        enabled: true,
        pattern: pattern.to_string(),
        substitution: substitution.to_string(),
        including_extension,
    }
}

fn case(case_type: CaseType) -> CaseMutation {
    CaseMutation { enabled: true, case_type }
}

#[test]
fn empty_pipeline_returns_the_input() {
    let pipeline: MutationPipeline<Stage> = MutationPipeline::new();
    assert_eq!(pipeline.apply_mutation("Report Final.TXT"), "Report Final.TXT");
    assert_eq!(pipeline.apply_mutation(".bashrc"), ".bashrc");
    assert_eq!(pipeline.apply_mutation(""), "");
}

#[test]
fn disabled_regex_alone_is_the_identity() {
    let mut mutation = regex("^(.*)$", "X", false);
    mutation.enabled = false;
    assert_eq!(mutation.mutate("report.txt"), "report.txt");
    let mut pipeline = MutationPipeline::new();
    pipeline.add_mutation(mutation);
    assert_eq!(pipeline.apply_mutation("report.txt"), "report.txt");
    assert_eq!(pipeline.apply_mutation(".bashrc"), ".bashrc");
}

#[test]
fn disabled_case_alone_is_the_identity() {
    let mutation = CaseMutation { enabled: false, case_type: CaseType::UpperCase };
    assert_eq!(mutation.mutate("report.txt"), "report.txt");
    let mut pipeline = MutationPipeline::new();
    pipeline.add_mutation(mutation);
    assert_eq!(pipeline.apply_mutation("My File.txt"), "My File.txt");
}

#[test]
fn regex_replaces_the_stem_and_keeps_the_extension() {
    let mutation = regex("^(.*)$", "X", false);
    assert_eq!(mutation.mutate("report.txt"), "X.txt");
}

#[test]
fn regex_on_a_hidden_file_appends_a_bare_dot() {
    let mutation = regex("^(.*)$", "X", false);
    assert_eq!(mutation.mutate(".bashrc"), "X.");
}

#[test]
fn regex_without_extension_appends_a_dot_to_a_plain_name() {
    let mutation = regex("a", "o", false);
    assert_eq!(mutation.mutate("banana"), "bonono.");
}

#[test]
fn regex_including_extension_works_on_the_whole_name() {
    let mutation = regex("t", "T", true);
    assert_eq!(mutation.mutate("report.txt"), "reporT.TxT");
    let groups = regex(r"^(\w+)\.(\w+)$", "$2.$1", true);
    assert_eq!(groups.mutate("report.txt"), "txt.report");
}

#[test]
fn regex_with_an_empty_pattern_is_the_identity() {
    let mutation = regex("", "X", false);
    assert_eq!(mutation.mutate("report.txt"), "report.txt");
    let (name, status) = mutation.mutate_with_status("report.txt");
    assert_eq!(name, "report.txt");
    assert_eq!(status, RegexStatus::Inactive);
}

#[test]
fn regex_with_an_invalid_pattern_keeps_the_name_and_says_so() {
    let mutation = regex("foo(bar", "X", false);
    assert_eq!(mutation.mutate("foo(bar.txt"), "foo(bar.txt");
    let (name, status) = mutation.mutate_with_status("foo(bar.txt");
    assert_eq!(name, "foo(bar.txt");
    assert_eq!(status, RegexStatus::InvalidPattern);
}

#[test]
fn regex_status_tells_applied_from_inactive() {
    let mutation = regex("zzz", "X", false);
    let (name, status) = mutation.mutate_with_status("report.txt");
    assert_eq!(name, "report.txt");
    assert_eq!(status, RegexStatus::Applied);
    let mut disabled = regex("zzz", "X", false);
    disabled.enabled = false;
    assert_eq!(disabled.mutate_with_status("report.txt").1, RegexStatus::Inactive);
}

#[test]
fn resolve_builds_the_name_from_the_engine_outcome() {
    let stem_only = regex("x", "y", false);
    assert_eq!(
        stem_only.resolve("report.txt", Some("R".to_string())),
        ("R.txt".to_string(), RegexStatus::Applied)
    );
    assert_eq!(
        stem_only.resolve("report.txt", None),
        ("report.txt".to_string(), RegexStatus::InvalidPattern)
    );
    let whole = regex("x", "y", true);
    assert_eq!(
        whole.resolve("report.txt", Some("R".to_string())),
        ("R".to_string(), RegexStatus::Applied)
    );
}

#[test]
fn split_filename_splits_at_the_last_dot() {
    let split = |name: &str| RegexMutation::split_filename(name);
    assert_eq!(split("report.txt"), ("report".to_string(), "txt".to_string()));
    assert_eq!(split("archive.tar.gz"), ("archive.tar".to_string(), "gz".to_string()));
    assert_eq!(split("noext"), ("noext".to_string(), "".to_string()));
    assert_eq!(split("trailing."), ("trailing".to_string(), "".to_string()));
    assert_eq!(split(""), ("".to_string(), "".to_string()));
}

#[test]
fn split_filename_gives_a_hidden_name_no_extension() {
    let split = |name: &str| RegexMutation::split_filename(name);
    assert_eq!(split(".bashrc"), ("bashrc".to_string(), "".to_string()));
    assert_eq!(split(".config.json"), ("config.json".to_string(), "".to_string()));
    assert_eq!(split("."), ("".to_string(), "".to_string()));
}

#[test]
fn default_regex_is_enabled_with_an_empty_pattern() {
    let mutation = RegexMutation::default();
    assert!(mutation.enabled);
    assert_eq!(mutation.pattern, "");
    assert_eq!(mutation.substitution, "");
    assert!(!mutation.including_extension);
    assert_eq!(mutation.mutate("report.txt"), "report.txt");
}

#[test]
fn snake_case_and_uppercase_examples() {
    assert_eq!(case(CaseType::SnakeCase).mutate("MyFile Name"), "my_file_name");
    assert_eq!(case(CaseType::UpperCase).mutate("abc"), "ABC");
}

#[test]
fn every_case_style_converts() {
    let name = "MyFile Name";
    assert_eq!(case(CaseType::Identity).mutate(name), "MyFile Name");
    assert_eq!(case(CaseType::LowerCamelCase).mutate(name), "myFileName");
    assert_eq!(case(CaseType::UpperCamelCase).mutate(name), "MyFileName");
    assert_eq!(case(CaseType::ShoutyKebabCase).mutate(name), "MY-FILE-NAME");
    assert_eq!(case(CaseType::ShoutySnakeCase).mutate(name), "MY_FILE_NAME");
    assert_eq!(case(CaseType::SnakeCase).mutate(name), "my_file_name");
    assert_eq!(case(CaseType::TitleCase).mutate(name), "My File Name");
    assert_eq!(case(CaseType::KebabCase).mutate(name), "My-File-Name");
    assert_eq!(case(CaseType::UpperCase).mutate(name), "MYFILE NAME");
    assert_eq!(case(CaseType::LowerCase).mutate(name), "myfile name");
}

#[test]
fn case_conversion_works_on_the_whole_name() {
    assert_eq!(case(CaseType::UpperCase).mutate("report.txt"), "REPORT.TXT");
    assert_eq!(case(CaseType::SnakeCase).mutate("My Report.txt"), "my_report_txt");
}

#[test]
fn upper_and_lower_case_follow_unicode_beyond_ascii() {
    assert_eq!(case(CaseType::UpperCase).mutate("tschüß"), "TSCHÜSS");
    assert_eq!(case(CaseType::LowerCase).mutate("ÀÉÎ"), "àéî");
    assert_eq!(case(CaseType::UpperCase).mutate("a{z`"), "A{Z`");
    assert_eq!(case(CaseType::LowerCase).mutate("A[Z@"), "a[z@");
}

#[test]
fn uppercase_twice_equals_uppercase_once() {
    let upper = case(CaseType::UpperCase);
    for name in ["abc", "Report Final.txt", "", "ALREADY", "tschüß", "123_x-y.z"] {
        let once = upper.mutate(name);
        assert_eq!(upper.mutate(&once), once);
    }
}

#[test]
fn default_case_mutation_is_disabled() {
    let mutation = CaseMutation::default();
    assert!(!mutation.enabled);
    assert_eq!(mutation.case_type, CaseType::Identity);
    assert_eq!(CaseType::default(), CaseType::Identity);
}

#[test]
fn case_labels() {
    assert_eq!(CaseType::Identity.label(), "None");
    assert_eq!(CaseType::LowerCamelCase.label(), "lower_camel_case");
    assert_eq!(CaseType::UpperCamelCase.label(), "Upper_Camel_Case");
    assert_eq!(CaseType::ShoutyKebabCase.label(), "SHOUTY-KEBAB-CASE");
    assert_eq!(CaseType::ShoutySnakeCase.label(), "SHOUTY_SNAKE_CASE");
    assert_eq!(CaseType::SnakeCase.label(), "snake_case");
    assert_eq!(CaseType::TitleCase.label(), "Title Case");
    assert_eq!(CaseType::KebabCase.label(), "kebab-case");
    assert_eq!(CaseType::UpperCase.label(), "UPPER CASE");
    assert_eq!(CaseType::LowerCase.label(), "lower case");
}

#[test]
fn base_name_stops_at_the_first_dot() {
    assert_eq!(CaseMutation::extract_base_name("archive.tar.gz"), "archive");
    assert_eq!(CaseMutation::extract_base_name("noext"), "noext");
    assert_eq!(CaseMutation::extract_base_name(".bashrc"), ".bashrc");
    assert_eq!(CaseMutation::extract_base_name(".config.json"), ".config.json");
    assert_eq!(CaseMutation::extract_base_name(""), "");
}

#[test]
fn stages_are_applied_first_to_last() {
    let to_summary = regex("report", "Summary Of Year", false);
    let mut pipeline = MutationPipeline::new();
    pipeline.add_mutation(Stage::Regex(&to_summary));
    pipeline.add_mutation(Stage::Case(case(CaseType::SnakeCase)));
    assert_eq!(pipeline.apply_mutation("report.txt"), "summary_of_year_txt");

    let lower_only = regex("report", "summary", false);
    let mut reversed = MutationPipeline::new();
    reversed.add_mutation(Stage::Case(case(CaseType::UpperCase)));
    reversed.add_mutation(Stage::Regex(&lower_only));
    assert_eq!(reversed.apply_mutation("report.txt"), "REPORT.TXT");
}

#[test]
fn a_pipeline_can_be_reused_for_many_names() {
    let mut pipeline = MutationPipeline::new();
    pipeline.add_mutation(Stage::Case(case(CaseType::UpperCase)));
    assert_eq!(pipeline.apply_mutation("a.txt"), "A.TXT");
    assert_eq!(pipeline.apply_mutation("b.txt"), "B.TXT");
    assert_eq!(pipeline.apply_mutation("a.txt"), "A.TXT");
}

#[test]
fn function_mutation_calls_its_function() {
    let mutation = FunctionMutation::new(|name: &str| format!("copy of {}", name));
    assert_eq!(mutation.mutate("a.txt"), "copy of a.txt");
    let mut pipeline = MutationPipeline::new();
    pipeline.add_mutation(FunctionMutation::new(|name: &str| name.replace(' ', "_")));
    assert_eq!(pipeline.apply_mutation("a b a"), "a_b_a");
}

#[test]
fn boxed_mutations_of_different_types_share_a_pipeline() {
    let mut pipeline: MutationPipeline<Box<dyn Mutation>> = MutationPipeline::new();
    pipeline.add_mutation(Box::new(regex("report", "Summary", false)));
    pipeline.add_mutation(Box::new(case(CaseType::UpperCase)));
    pipeline.add_mutation(Box::new(FunctionMutation::new(|name: &str| name.replace('.', "_"))));
    pipeline.add_mutation(Box::new(FunctionMutation::new(|name: &str| format!("{}!", name))));
    assert_eq!(pipeline.apply_mutation("report.txt"), "SUMMARY_TXT!");
}

struct Reverse;

impl Mutation for Reverse {
    fn mutate(&self, input: &str) -> String {
        input.chars().rev().collect()
    }
}

#[test]
fn a_mutation_of_the_caller_fits_the_pipeline() {
    let mut pipeline: MutationPipeline<Box<dyn Mutation>> = MutationPipeline::new();
    pipeline.add_mutation(Box::new(Reverse));
    pipeline.add_mutation(Box::new(case(CaseType::UpperCase)));
    assert_eq!(pipeline.apply_mutation("abc.txt"), "TXT.CBA");
}

#[test]
fn ascii_letters_change_case_and_nothing_else_does() {
    assert_eq!(to_ascii_upper('a'), 'A');
    assert_eq!(to_ascii_upper('z'), 'Z');
    assert_eq!(to_ascii_upper('Q'), 'Q');
    assert_eq!(to_ascii_upper('`'), '`');
    assert_eq!(to_ascii_upper('{'), '{');
    assert_eq!(to_ascii_upper('é'), 'é');
    assert_eq!(to_ascii_lower('A'), 'a');
    assert_eq!(to_ascii_lower('Z'), 'z');
    assert_eq!(to_ascii_lower('q'), 'q');
    assert_eq!(to_ascii_lower('@'), '@');
    assert_eq!(to_ascii_lower('['), '[');
    assert_eq!(to_ascii_lower('É'), 'É');
    for code in 0u8..128 {
        let c = code as char;
        assert_eq!(to_ascii_upper(c), c.to_ascii_uppercase());
        assert_eq!(to_ascii_lower(c), c.to_ascii_lowercase());
    }
    let every: String = (0u8..128).map(|code| code as char).collect();
    assert_eq!(case(CaseType::UpperCase).mutate(&every), every.to_uppercase());
    assert_eq!(case(CaseType::LowerCase).mutate(&every), every.to_lowercase());
}

#[test]
fn a_pattern_that_compiles_is_applied_and_one_that_does_not_is_not() {
    let valid = regex("FILE", "file", false);
    assert_eq!(
        valid.mutate_with_status("FILE.txt"),
        ("file.txt".to_string(), RegexStatus::Applied)
    );
    assert_eq!(valid.mutate("MYFILE.md"), "MYfile.md");
    let invalid = regex("FILE(", "file", false);
    assert_eq!(
        invalid.mutate_with_status("FILE(.txt"),
        ("FILE(.txt".to_string(), RegexStatus::InvalidPattern)
    );
    let too_big = regex(r"\w{1000}", "x", true);
    assert_eq!(
        too_big.mutate_with_status("name.txt"),
        ("name.txt".to_string(), RegexStatus::InvalidPattern)
    );

    let mut pipeline: MutationPipeline<Box<dyn Mutation>> = MutationPipeline::new();
    pipeline.add_mutation(Box::new(regex("a", "B", true)));
    pipeline.add_mutation(Box::new(case(CaseType::UpperCase)));
    assert_eq!(pipeline.apply_mutation("a.txt"), "B.TXT");
}
