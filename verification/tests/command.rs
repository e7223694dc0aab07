use sqruff_provision::command::language_server_command;

#[test]
fn the_server_is_started_with_the_lsp_argument_alone() {
    let spec = language_server_command("sqruff-v2/sqruff".to_string());
    assert_eq!(spec.command, "sqruff-v2/sqruff");
    assert_eq!(spec.args, vec!["lsp".to_string()]);
    assert!(spec.env.is_empty());
}
