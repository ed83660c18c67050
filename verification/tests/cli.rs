use forest_core::cli::confirms;
use forest_core::cli::format_vec_pretty;
use forest_core::cli::process_perms;
use forest_core::cli::AuthCommands;
use forest_core::cli::CarCommands;
use forest_core::cli::Cli;
use forest_core::cli::FetchCommands;
use forest_core::cli::Subcommand;
use forest_core::cli::WalletCommands;
use forest_core::cli::CliError;
use forest_core::rpc_api::check_access;
use forest_core::rpc_api::Access;

fn strings(items: &[&str]) -> Vec<String> {
    items.iter().map(|s| s.to_string()).collect()
}

#[test]
fn vec_is_shown_in_brackets_with_commas() {
    assert_eq!(format_vec_pretty(strings(&["a", "b", "c"])), "[a, b, c]");
    assert_eq!(format_vec_pretty(strings(&["one"])), "[one]");
    assert_eq!(format_vec_pretty(Vec::new()), "[]");
    assert_eq!(format_vec_pretty(strings(&["", ""])), "[, ]");
    assert_eq!(format_vec_pretty(strings(&["a, b", "c"])), "[a, b, c]");
    let items = strings(&["x", "yy", "", "z z"]);
    assert_eq!(format_vec_pretty(items.clone()), format!("[{}]", items.join(", ")));
}

#[test]
fn permission_carries_the_claims_below_it() {
    assert_eq!(process_perms("admin".to_string()), Ok(strings(&["read", "write", "sign", "admin"])));
    assert_eq!(process_perms("sign".to_string()), Ok(strings(&["read", "write", "sign"])));
    assert_eq!(process_perms("write".to_string()), Ok(strings(&["read", "write"])));
    assert_eq!(process_perms("read".to_string()), Ok(strings(&["read"])));
}

#[test]
fn unknown_permission_is_invalid_params() {
    for perm in ["", "Admin", "root", "read ", " read", "read,write"] {
        assert_eq!(process_perms(perm.to_string()), Err(CliError::InvalidParams));
    }
}

#[test]
fn claims_of_a_permission_grant_every_level_up_to_it() {
    let levels = [("read", Access::Read), ("write", Access::Write), ("sign", Access::Sign), ("admin", Access::Admin)];
    for (i, (perm, _)) in levels.iter().enumerate() {
        let claims = process_perms(perm.to_string()).unwrap();
        for (j, (_, access)) in levels.iter().enumerate() {
            assert_eq!(check_access(access, &claims), j <= i);
        }
    }
}

#[test]
fn auth_command_asks_for_a_token_with_the_claims_of_its_permission() {
    let create = AuthCommands::CreateToken { perm: "write".to_string() };
    let params = create.request(3600).unwrap();
    assert_eq!(params.perms, strings(&["read", "write"]));
    assert_eq!(params.token_exp, 3600);
    let info = AuthCommands::ApiInfo { perm: "admin".to_string() };
    let params = info.request(-1).unwrap();
    assert_eq!(params.perms, strings(&["read", "write", "sign", "admin"]));
    assert_eq!(params.token_exp, -1);
    let bad = AuthCommands::ApiInfo { perm: "owner".to_string() };
    assert_eq!(bad.request(3600).err(), Some(CliError::InvalidParams));
}

#[test]
fn auth_command_shows_the_token_or_the_api_info_line() {
    let create = AuthCommands::CreateToken { perm: "read".to_string() };
    assert_eq!(create.output("eyJhbGciOi", "/ip4/127.0.0.1/tcp/1234/http"), "eyJhbGciOi");
    let info = AuthCommands::ApiInfo { perm: "read".to_string() };
    assert_eq!(
        info.output("eyJhbGciOi", "/ip4/127.0.0.1/tcp/1234/http"),
        "FULLNODE_API_INFO=\"eyJhbGciOi:/ip4/127.0.0.1/tcp/1234/http\""
    );
    assert_eq!(info.output("", ""), "FULLNODE_API_INFO=\":\"");
}

#[test]
fn strings_are_compared_as_written() {
    assert!(forest_core::strings::reads(&"read".to_string(), "read"));
    assert!(!forest_core::strings::reads(&"read".to_string(), "Read"));
    assert!(!forest_core::strings::reads(&"read".to_string(), "rea"));
    assert!(forest_core::strings::reads(&String::new(), ""));
}

#[test]
fn confirmation_is_y_or_yes_in_any_case() {
    for line in ["y", "Y", "yes", "YES", "Yes", " y\n", "\tyes \r\n", "yEs"] {
        assert!(confirms(line));
    }
    for line in ["", "n", "no", "yess", "ye", "y es", "yes please", "1", "\n"] {
        assert!(!confirms(line));
    }
}

#[test]
fn command_line_holds_what_was_given() {
    let cli = Cli { token: Some("t".to_string()), cmd: Subcommand::Auth(AuthCommands::ApiInfo { perm: "read".to_string() }) };
    assert_eq!(cli.token.as_deref(), Some("t"));
    match cli.cmd {
        Subcommand::Auth(command) => assert_eq!(command.request(1).unwrap().perms, strings(&["read"])),
        other => panic!("{:?}", other),
    }
    let fetch = FetchCommands { all: true, keys: false, dry_run: true, params_size: None };
    assert!(fetch.all && !fetch.keys && fetch.dry_run && fetch.params_size.is_none());
    assert!(matches!(WalletCommands::List { no_round: true, no_abbrev: false }, WalletCommands::List { no_round: true, .. }));
    let CarCommands::Concat { car_files, output } =
        CarCommands::Concat { car_files: strings(&["a.car", "b.car"]), output: "c.car".to_string() };
    assert_eq!(car_files.len(), 2);
    assert_eq!(output, "c.car");
}
