use chunkdump::cli::{process_cli_arguments, Args, CliArguments};

#[test]
fn returns_correctly_formated_args_from_valid_cli_input_and_output_path() {
    let test_input_path = String::from("/tmp/test.wav");
    let test_output_path = String::from("/tmp/test.txt");
    let test_args = CliArguments {
        version: false,
        mandatory: true,
        file: Some(test_input_path.clone()),
        output_file: Some(test_output_path.clone()),
    };
    let correct_result = Args {
        mandatory: true,
        input_file_path: test_input_path,
        output_file_path: Some(test_output_path),
    };

    let result = process_cli_arguments(test_args);

    assert_eq!(result, correct_result);
}

#[test]
fn returns_correctly_formated_args_from_valid_cli_input_but_no_output_path() {
    let test_input_path = String::from("/tmp/test.wav");
    let test_args = CliArguments {
        version: false,
        mandatory: false,
        file: Some(test_input_path.clone()),
        output_file: None,
    };
    let correct_result = Args {
        mandatory: false,
        input_file_path: test_input_path,
        output_file_path: None,
    };

    let result = process_cli_arguments(test_args);

    assert_eq!(result, correct_result);
}
