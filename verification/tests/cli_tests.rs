use phisher::cli::Cli;

#[test]
fn new_parse_starts_with_nothing_selected() {
    let possible = vec!["generate".to_string(), "dev".to_string()];
    let cli = Cli::new(possible.clone());
    assert_eq!(cli.possible_args, possible);
    assert!(cli.final_args.is_empty());
}

#[test]
fn new_parse_over_no_flags() {
    let cli: Cli<String> = Cli::new(Vec::new());
    assert!(cli.possible_args.is_empty());
    assert!(cli.final_args.is_empty());
}
