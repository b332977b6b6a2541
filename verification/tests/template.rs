use chunkdump::template::get_file_chunk_output;

#[test]
fn returns_the_correct_string_from_valid_template_content_and_values() {
    let test_content = "one {{ two }} three";
    let correct_result = "one 2 three";
    let test_value = vec![("two".to_string(), "2".to_string())];
    let result = get_file_chunk_output(test_content, &test_value).unwrap();

    assert_eq!(correct_result, result);
}

#[test]
fn fills_every_placeholder_of_a_template() {
    let values = vec![
        ("title".to_string(), "Fact".to_string()),
        ("body".to_string(), "Samples: 4".to_string()),
    ];
    let result = get_file_chunk_output("{{ title }}:\n{{ body }}", &values).unwrap();
    assert_eq!(result, "Fact:\nSamples: 4");
}

#[test]
fn returns_an_error_message_for_an_unclosed_placeholder() {
    let values = vec![("two".to_string(), "2".to_string())];
    let result = get_file_chunk_output("one {{ two three", &values);
    assert!(result.is_err());
    assert!(!result.unwrap_err().is_empty());
}

#[test]
fn returns_an_error_message_for_an_unknown_name() {
    let values: Vec<(String, String)> = vec![];
    let result = get_file_chunk_output("one {{ two }} three", &values);
    assert!(result.is_err());
}
