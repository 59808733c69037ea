use note::notes::{int_string, note_path_parts, note_template};

#[test]
fn path_of_a_note() {
    let parts = note_path_parts(&"note".to_string(), 2021, 40);
    assert_eq!(parts, vec!["TEST", "note", "2021", "40.md"]);
}

#[test]
fn negative_year_in_path() {
    let parts = note_path_parts(&"n".to_string(), -44, 3);
    assert_eq!(parts[2], "-44");
    assert_eq!(int_string(0), "0");
    assert_eq!(int_string(i32::MIN), "-2147483648");
}

#[test]
fn template_of_a_week() {
    let days = vec![
        "Monday, 10-May-2021".to_string(),
        "Tuesday, 11-May-2021".to_string(),
    ];
    assert_eq!(
        note_template(19, 2021, &days),
        "# Week 19, 2021\n---\n\n## Monday, 10-May-2021\n\n## Tuesday, 11-May-2021\n\n"
    );
}

#[test]
fn template_without_days() {
    assert_eq!(note_template(1, 2022, &Vec::new()), "# Week 1, 2022\n---\n\n");
}
