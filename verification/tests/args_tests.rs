use tbg::args::{parse_args, GameArgs};

// The arguments as a test hands them over.
fn parse_args_test(args: Vec<String>) -> GameArgs {
    parse_args(&args)
}

#[test]
fn test_parse_args_no_flags() {
    // Test with no flags provided
    let args = vec![];
    let parsed_args = parse_args_test(args);

    assert!(!parsed_args.new_game);
    assert!(!parsed_args.dev);
}

#[test]
fn test_parse_args_new_game_only() {
    // Test with the `--new-game` flag
    let args = vec!["--new-game".to_string()];
    let parsed_args = parse_args_test(args);

    assert!(parsed_args.new_game);
    assert!(!parsed_args.dev);
}

#[test]
fn test_parse_args_dev_only() {
    // Test with the `--dev` flag
    let args = vec!["--dev".to_string()];
    let parsed_args = parse_args_test(args);

    assert!(!parsed_args.new_game);
    assert!(parsed_args.dev);
}

#[test]
fn test_parse_args_both_flags() {
    // Test with both `--new-game` and `--dev` flags
    let args = vec!["--new-game".to_string(), "--dev".to_string()];
    let parsed_args = parse_args_test(args);

    assert!(parsed_args.new_game);
    assert!(parsed_args.dev);
}
