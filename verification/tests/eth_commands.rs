use eth_query::{Balance, Contract, Eth, UsageError};

fn dispatch_balance(args: Vec<String>) -> Balance {
    match Eth::dispatch(&args) {
        Ok(Eth::Balance(balance)) => balance,
        Err(e) => panic!("dispatch rejected a balance command line: {:?}", e),
    }
}

#[test]
fn balance_single_token_accepted() {
    let args = vec!["balance".to_string(), "mykey".to_string()];
    let balance = dispatch_balance(args);
    assert_eq!(balance.check_usage(), Ok(()));
    assert!(!balance.help_requested());
    assert_eq!(balance.run(), "mykey".to_string());
}

#[test]
fn balance_without_token_is_invalid_usage() {
    let args = vec!["balance".to_string()];
    let balance = dispatch_balance(args);
    assert_eq!(
        balance.check_usage(),
        Err(UsageError::InvalidArgumentCount)
    );
}

#[test]
fn balance_with_two_tokens_is_invalid_usage() {
    let args = vec!["balance".to_string(), "a".to_string(), "b".to_string()];
    let balance = dispatch_balance(args);
    assert_eq!(
        balance.check_usage(),
        Err(UsageError::InvalidArgumentCount)
    );
}

#[test]
fn contract_invocation_is_rejected() {
    let args = vec!["contract".to_string(), "x".to_string()];
    let result = Eth::dispatch(&args);
    assert!(matches!(result, Err(UsageError::UnknownSubcommand)));
}

#[test]
fn empty_command_line_is_missing_subcommand() {
    let args: Vec<String> = vec![];
    let result = Eth::dispatch(&args);
    assert!(matches!(result, Err(UsageError::MissingSubcommand)));
}

#[test]
fn unknown_subcommand_is_rejected() {
    let args = vec!["stake".to_string(), "mykey".to_string()];
    let result = Eth::dispatch(&args);
    assert!(matches!(result, Err(UsageError::UnknownSubcommand)));
}

#[test]
fn help_flag_is_separated_from_free_tokens() {
    let args = vec![
        "balance".to_string(),
        "--help".to_string(),
        "mykey".to_string(),
    ];
    let balance = dispatch_balance(args);
    assert!(balance.help_requested());
    assert_eq!(balance.check_usage(), Ok(()));
    assert_eq!(balance.run(), "mykey".to_string());
}

#[test]
fn help_flag_alone_leaves_no_free_token() {
    let args = vec!["balance".to_string(), "--help".to_string()];
    let balance = dispatch_balance(args);
    assert!(balance.help_requested());
    assert_eq!(
        balance.check_usage(),
        Err(UsageError::InvalidArgumentCount)
    );
}

#[test]
fn balance_new_captures_arguments() {
    let balance = Balance::new(vec!["k1".to_string()], true);
    assert!(balance.help_requested());
    assert_eq!(balance.check_usage(), Ok(()));
    assert_eq!(balance.run(), "k1".to_string());
}

#[test]
fn eth_run_is_inert() {
    let args = vec!["balance".to_string(), "mykey".to_string()];
    let cmd = match Eth::dispatch(&args) {
        Ok(cmd) => cmd,
        Err(e) => panic!("dispatch rejected a balance command line: {:?}", e),
    };
    cmd.run();
}

#[test]
fn contract_run_is_inert() {
    let contract = Contract::new(vec!["x".to_string()], false);
    contract.run();
}
