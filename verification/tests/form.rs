use bulk_rename::components::add::Placement;
use bulk_rename::components::auto_date::{DateType, Moments};
use bulk_rename::components::case::CaseType;
use bulk_rename::form::{
    read_amount, read_base, read_count, read_date_type, read_placement, read_upper_case,
    FormField, MutationForm,
};
use bulk_rename::text::{parse_number, split_words};

fn now() -> Moments {
    Moments { created: None, modified: None, current: 1_431_648_000 }
}

#[test]
fn numbers_are_read_from_decimal_numerals() {
    assert_eq!(parse_number("0"), Some(0));
    assert_eq!(parse_number("12"), Some(12));
    assert_eq!(parse_number("007"), Some(7));
    assert_eq!(parse_number("18446744073709551615"), Some(u64::MAX));
    assert_eq!(parse_number("18446744073709551616"), None);
    assert_eq!(parse_number("99999999999999999999999999"), None);
    assert_eq!(parse_number("000000000000000000000000000000042"), Some(42));
    assert_eq!(parse_number(""), None);
    assert_eq!(parse_number("1a"), None);
    assert_eq!(parse_number("-1"), None);
    assert_eq!(parse_number("+1"), None);
    assert_eq!(parse_number(" 1"), None);
    assert_eq!(parse_number("1.5"), None);
    assert_eq!(parse_number("٣"), None);
    assert_eq!(parse_number("99999999999999999999999999x"), None);
}

#[test]
fn an_empty_field_reads_as_its_unset_value() {
    assert_eq!(read_count("", 0), Some(0));
    assert_eq!(read_count("", 7), Some(7));
    assert_eq!(read_count("3", 7), Some(3));
    assert_eq!(read_count("x", 7), None);
    assert_eq!(read_amount("", 1), Some(1));
    assert_eq!(read_amount("250", 1), Some(250));
    assert_eq!(read_amount("2 50", 1), None);
    assert_eq!(read_amount("18446744073709551616", 1), None);
}

#[test]
fn bases_run_from_two_to_thirty_six() {
    assert_eq!(read_base(""), Some(10));
    assert_eq!(read_base("2"), Some(2));
    assert_eq!(read_base("16"), Some(16));
    assert_eq!(read_base("36"), Some(36));
    assert_eq!(read_base("0"), None);
    assert_eq!(read_base("1"), None);
    assert_eq!(read_base("37"), None);
    assert_eq!(read_base("256"), None);
    assert_eq!(read_base("hex"), None);
}

#[test]
fn choices_are_read_by_name() {
    assert_eq!(read_date_type(""), Some(DateType::Current));
    assert_eq!(read_date_type("current"), Some(DateType::Current));
    assert_eq!(read_date_type("created"), Some(DateType::Created));
    assert_eq!(read_date_type("modified"), Some(DateType::Modified));
    assert_eq!(read_date_type("Created"), None);
    assert_eq!(read_date_type("accessed"), None);
    assert_eq!(read_placement("", 4), Some(Placement::Prefix));
    assert_eq!(read_placement("prefix", 4), Some(Placement::Prefix));
    assert_eq!(read_placement("suffix", 4), Some(Placement::Suffix));
    assert_eq!(read_placement("insert", 4), Some(Placement::At(4)));
    assert_eq!(read_placement("middle", 4), None);
    assert_eq!(read_upper_case(""), Some(false));
    assert_eq!(read_upper_case("lower"), Some(false));
    assert_eq!(read_upper_case("upper"), Some(true));
    assert_eq!(read_upper_case("UPPER"), None);
}

#[test]
fn words_are_split_at_spaces() {
    assert_eq!(split_words("foo bar"), ["foo", "bar"]);
    assert_eq!(split_words("  foo   bar baz "), ["foo", "bar", "baz"]);
    assert_eq!(split_words("single"), ["single"]);
    assert_eq!(split_words("tab\tstays with"), ["tab\tstays", "with"]);
    assert_eq!(split_words(""), Vec::<String>::new());
    assert_eq!(split_words("   "), Vec::<String>::new());
}

#[test]
fn the_blank_form_reads_as_the_default_configuration() {
    let form = MutationForm::default();
    assert!(form.regex.enabled);
    assert_eq!(form.case.case_type, CaseType::Identity);
    assert_eq!(form.remove_first_n, "");
    assert_eq!(form.numbering_base_case, "");
    assert!(!form.numbering_enabled);
    let config = form.config().expect("a blank form is well formed");
    assert!(config.regex.enabled);
    assert_eq!(config.regex.pattern, "");
    assert!(!config.case.enabled);
    assert!(!config.replace.enabled);
    assert!(!config.remove.enabled);
    assert_eq!(config.remove.first_n, 0);
    assert!(config.remove.words.is_empty());
    assert!(!config.add.enabled);
    assert!(!config.auto_date.enabled);
    assert_eq!(config.auto_date.date_type, DateType::Current);
    assert_eq!(config.auto_date.mode, Placement::Suffix);
    assert!(!config.numbering.enabled);
    assert_eq!(config.numbering.mode, Placement::Prefix);
    assert_eq!(config.numbering.start, 1);
    assert_eq!(config.numbering.increment, 1);
    assert_eq!(config.numbering.pad, 0);
    assert_eq!(config.numbering.break_at, 0);
    assert_eq!(config.numbering.base, 10);
    assert!(!config.numbering.upper_case);
    assert_eq!(config.pipeline_at(0, now()).apply_mutation("Report.TXT"), "Report.TXT");
}

#[test]
fn a_filled_form_reads_into_its_settings() {
    let mut form = MutationForm::default();
    form.regex.enabled = false;
    form.replace_enabled = true;
    form.replace_match = "draft".to_string();
    form.replace_with = "final".to_string();
    form.replace_case_sensitive = true;
    form.remove_enabled = true;
    form.remove_first_n = "1".to_string();
    form.remove_last_n = "2".to_string();
    form.remove_from = "3".to_string();
    form.remove_to = "4".to_string();
    form.remove_chars = "_".to_string();
    form.remove_words = "copy  old".to_string();
    form.remove_digits = true;
    form.add_enabled = true;
    form.add_prefix = "x".to_string();
    form.add_at_pos = "5".to_string();
    form.auto_date_type = "modified".to_string();
    form.auto_date_format = "%Y".to_string();
    form.numbering_enabled = true;
    form.numbering_mode = "insert".to_string();
    form.numbering_at = "2".to_string();
    form.numbering_start = "100".to_string();
    form.numbering_increment = "10".to_string();
    form.numbering_pad = "4".to_string();
    form.numbering_separator = "-".to_string();
    form.numbering_break = "3".to_string();
    form.numbering_base = "16".to_string();
    form.numbering_base_case = "upper".to_string();

    let config = form.config().expect("the form is well formed");
    assert!(!config.regex.enabled);
    assert!(config.replace.enabled);
    assert_eq!(config.replace.find, "draft");
    assert_eq!(config.replace.with, "final");
    assert!(config.replace.case_sensitive);
    assert!(!config.replace.first_only);
    assert_eq!(
        (config.remove.first_n, config.remove.last_n, config.remove.from, config.remove.to),
        (1, 2, 3, 4)
    );
    assert_eq!(config.remove.chars, "_");
    assert_eq!(config.remove.words, ["copy", "old"]);
    assert!(config.remove.digits && !config.remove.accents && !config.remove.trim);
    assert_eq!(config.add.prefix, "x");
    assert_eq!(config.add.at_pos, 5);
    assert_eq!(config.auto_date.date_type, DateType::Modified);
    assert_eq!(config.auto_date.format, "%Y");
    assert!(!config.auto_date.enabled);
    assert_eq!(config.numbering.mode, Placement::At(2));
    assert_eq!(config.numbering.start, 100);
    assert_eq!(config.numbering.increment, 10);
    assert_eq!(config.numbering.pad, 4);
    assert_eq!(config.numbering.separator, "-");
    assert_eq!(config.numbering.break_at, 3);
    assert_eq!(config.numbering.base, 16);
    assert!(config.numbering.upper_case);
    assert_eq!(config.numbering.label(1), "006E");
}

#[test]
fn the_first_malformed_field_is_reported() {
    let mut form = MutationForm::default();
    form.numbering_base = "99".to_string();
    assert_eq!(form.config().err(), Some(FormField::NumberingBase));
    form.numbering_base_case = "mixed".to_string();
    assert_eq!(form.config().err(), Some(FormField::NumberingBase));
    form.numbering_base = "8".to_string();
    assert_eq!(form.config().err(), Some(FormField::NumberingBaseCase));
    form.numbering_break = "never".to_string();
    assert_eq!(form.config().err(), Some(FormField::NumberingBreak));
    form.numbering_pad = "-".to_string();
    assert_eq!(form.config().err(), Some(FormField::NumberingPad));
    form.numbering_increment = "1.5".to_string();
    assert_eq!(form.config().err(), Some(FormField::NumberingIncrement));
    form.numbering_start = "one".to_string();
    assert_eq!(form.config().err(), Some(FormField::NumberingStart));
    form.numbering_mode = "between".to_string();
    assert_eq!(form.config().err(), Some(FormField::NumberingMode));
    form.numbering_at = "x".to_string();
    assert_eq!(form.config().err(), Some(FormField::NumberingAt));
    form.auto_date_type = "birth".to_string();
    assert_eq!(form.config().err(), Some(FormField::AutoDateType));
    form.add_at_pos = "end".to_string();
    assert_eq!(form.config().err(), Some(FormField::AddAtPos));
    form.remove_to = "b".to_string();
    assert_eq!(form.config().err(), Some(FormField::RemoveTo));
    form.remove_from = "a".to_string();
    assert_eq!(form.config().err(), Some(FormField::RemoveFrom));
    form.remove_last_n = "2x".to_string();
    assert_eq!(form.config().err(), Some(FormField::RemoveLastN));
    form.remove_first_n = "x2".to_string();
    assert_eq!(form.config().err(), Some(FormField::RemoveFirstN));
}
