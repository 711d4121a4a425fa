use namenotes::cli::{Commands, ReadArgs, WriteArgs};
use namenotes::gender::Gender;
use namenotes::name::Names;
use namenotes::store::{run, Outcome};

fn named(name: &str, gender: Gender) -> WriteArgs {
    WriteArgs {
        name: name.to_string(),
        language: None,
        meaning: None,
        gender,
        fictional: false,
    }
}

fn no_filter() -> ReadArgs {
    ReadArgs {
        name: None,
        language: None,
        meaning: None,
        gender: None,
        length: None,
        contains: None,
        contains_letter: None,
        fictional: false,
    }
}

fn asking_gender(gender: Gender) -> ReadArgs {
    let mut filter = no_filter();
    filter.gender = Some(gender);
    filter
}

fn asking_letter(letter: char) -> ReadArgs {
    let mut filter = no_filter();
    filter.contains_letter = Some(letter);
    filter
}

fn names_of(names: &Names) -> Vec<String> {
    names.0.iter().map(|record| record.name.clone()).collect()
}

fn sample() -> Names {
    Names(vec![
        named("Max", Gender::Male),
        named("Anna", Gender::Female),
        named("Maxine", Gender::Female),
        named("Robin", Gender::Unisex),
        named("Anna", Gender::Unisex),
    ])
}

fn saved(outcome: Outcome) -> Names {
    match outcome {
        Outcome::Save(names) => names,
        Outcome::Report(report) => panic!("a report where names were expected: {}", report),
    }
}

fn reported(outcome: Outcome) -> String {
    match outcome {
        Outcome::Report(report) => report,
        Outcome::Save(names) => panic!("names where a report was expected: {:?}", names),
    }
}

#[test]
fn filtering_keeps_order_and_duplicates() {
    let found = sample().filtered_list(asking_letter('n'));
    assert_eq!(names_of(&found), vec!["Anna", "Maxine", "Robin", "Anna"]);
    assert_eq!(found.0[0].gender, Gender::Female);
    assert_eq!(found.0[3].gender, Gender::Unisex);
}

#[test]
fn filtering_twice_changes_nothing() {
    let once = sample().filtered_list(asking_gender(Gender::Female));
    let expected = names_of(&once);
    assert_eq!(expected, vec!["Anna", "Maxine", "Robin", "Anna"]);
    let twice = once.filtered_list(asking_gender(Gender::Female));
    assert_eq!(names_of(&twice), expected);
}

#[test]
fn filtering_without_constraint_gives_all() {
    let found = sample().filtered_list(no_filter());
    assert_eq!(names_of(&found), vec!["Max", "Anna", "Maxine", "Robin", "Anna"]);
    assert_eq!(found.0[0].gender, Gender::Male);
    assert_eq!(found.0[4].gender, Gender::Unisex);
}

#[test]
fn filtering_may_give_nothing() {
    let found = sample().filtered_list(asking_letter('q'));
    assert!(found.0.is_empty());
    let found = Names(Vec::new()).filtered_list(no_filter());
    assert!(found.0.is_empty());
}

#[test]
fn append_adds_at_the_end() {
    let all = sample().append_new_names(Names(vec![named("Zoë", Gender::Female)]));
    assert_eq!(all.0.len(), 6);
    assert_eq!(names_of(&all), vec!["Max", "Anna", "Maxine", "Robin", "Anna", "Zoë"]);
}

#[test]
fn append_keeps_duplicates_and_order_of_both() {
    let more = Names(vec![named("Max", Gender::Unisex), named("Ada", Gender::Female)]);
    let all = sample().append_new_names(more);
    assert_eq!(names_of(&all), vec!["Max", "Anna", "Maxine", "Robin", "Anna", "Max", "Ada"]);
    assert_eq!(all.0[0].gender, Gender::Male);
    assert_eq!(all.0[5].gender, Gender::Unisex);
}

#[test]
fn append_to_and_of_empty() {
    let all = Names(Vec::new()).append_new_names(Names(vec![named("Ada", Gender::Female)]));
    assert_eq!(names_of(&all), vec!["Ada"]);
    let all = all.append_new_names(Names(Vec::new()));
    assert_eq!(names_of(&all), vec!["Ada"]);
}

#[test]
fn new_from_args_holds_one_record() {
    let names = Names::new_from_args(named("Ada", Gender::Female));
    assert_eq!(names_of(&names), vec!["Ada"]);
    assert_eq!(names.0[0].gender, Gender::Female);
}

#[test]
fn scenario_alice() {
    let alice = || named("Alice", Gender::Female);
    let stored = saved(run(Commands::Write(alice()), Names(Vec::new())));
    assert_eq!(names_of(&stored), vec!["Alice"]);

    let found = stored.filtered_list(asking_gender(Gender::Unisex));
    assert_eq!(found.0.len(), 0);

    let stored = saved(run(Commands::Write(alice()), Names(Vec::new())));
    let found = stored.filtered_list(asking_gender(Gender::Female));
    assert_eq!(names_of(&found), vec!["Alice"]);

    let stored = saved(run(Commands::Write(alice()), Names(Vec::new())));
    let found = stored.filtered_list(no_filter());
    assert_eq!(names_of(&found), vec!["Alice"]);
}

#[test]
fn scenario_alice_reports() {
    let alice = || Names(vec![named("Alice", Gender::Female)]);
    assert_eq!(
        reported(run(Commands::Read(asking_gender(Gender::Unisex)), alice())),
        "\n0 Names found: \n\n"
    );
    assert_eq!(
        reported(run(Commands::Read(asking_gender(Gender::Female)), alice())),
        "\n1 Names found: \n\n'Alice'\nGender: Feminine\n\n"
    );
    assert_eq!(
        reported(run(Commands::Read(no_filter()), alice())),
        "\n1 Names found: \n\n'Alice'\nGender: Feminine\n\n"
    );
}

#[test]
fn scenario_max_and_maxine() {
    let stored = saved(run(Commands::Write(named("Max", Gender::Unisex)), Names(Vec::new())));
    let stored = saved(run(Commands::Write(named("Maxine", Gender::Unisex)), stored));
    assert_eq!(names_of(&stored), vec!["Max", "Maxine"]);
    let found = stored.filtered_list(asking_letter('x'));
    assert_eq!(names_of(&found), vec!["Max", "Maxine"]);
}

#[test]
fn report_counts_and_lists() {
    let names = Names(vec![
        WriteArgs {
            name: "Frodo".to_string(),
            language: Some("Westron".to_string()),
            meaning: None,
            gender: Gender::Male,
            fictional: true,
        },
        named("Robin", Gender::Unisex),
    ]);
    assert_eq!(
        names.to_string(),
        "\n2 Names found: \n\n'Frodo'\nLanguage: Westron\nGender: Masculine\n(fictional)\n\n'Robin'\nGender: Unisex\n\n"
    );
}

#[test]
fn report_on_nothing() {
    assert_eq!(Names(Vec::new()).to_string(), "\n0 Names found: \n\n");
}

#[test]
fn report_counts_in_base_ten() {
    let mut records = Vec::new();
    for _ in 0..12 {
        records.push(named("A", Gender::Unisex));
    }
    let report = Names(records).to_string();
    assert!(report.starts_with("\n12 Names found: \n\n'A'\nGender: Unisex\n\n"));
    assert_eq!(report.matches("'A'\n").count(), 12);
}
