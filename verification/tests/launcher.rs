use app_shell::launcher::{
    dev_cli_candidate_list, find_dev_cli_path, resolve_server_command, resolve_server_mode,
    ServerMode,
};

#[test]
fn mode_is_production_with_server_dir() {
    assert!(matches!(resolve_server_mode(true), ServerMode::Production));
}

#[test]
fn mode_is_development_without_server_dir() {
    assert!(matches!(resolve_server_mode(false), ServerMode::Development));
}

#[test]
fn candidates_are_fixed_and_ordered() {
    let c = dev_cli_candidate_list();
    assert_eq!(c.len(), 3);
    assert_eq!(c[0], "../cli.js");
    assert_eq!(c[1], "../../cli.js");
    assert_eq!(c[2], "cli.js");
}

#[test]
fn probe_returns_first_existing_candidate() {
    assert_eq!(find_dev_cli_path(&vec![true, true, true]), "../cli.js");
    assert_eq!(find_dev_cli_path(&vec![false, true, true]), "../../cli.js");
    assert_eq!(find_dev_cli_path(&vec![false, false, true]), "cli.js");
    assert_eq!(find_dev_cli_path(&vec![false, true, false]), "../../cli.js");
}

#[test]
fn probe_defaults_to_first_candidate() {
    assert_eq!(find_dev_cli_path(&vec![false, false, false]), "../cli.js");
}

#[test]
fn production_command_uses_bundled_server() {
    let c = resolve_server_command("/opt/app/resources", true, &vec![false, false, false]);
    assert!(matches!(c.mode, ServerMode::Production));
    assert_eq!(c.program, "node-server");
    assert_eq!(c.args.len(), 5);
    assert_eq!(c.args[0], "/opt/app/resources/server/cli.js");
    assert_eq!(c.args[1], "ui");
    assert_eq!(c.args[2], "--foreground");
    assert_eq!(c.args[3], "--port");
    assert_eq!(c.args[4], "3333");
    assert_eq!(
        c.node_path.as_deref(),
        Some("/opt/app/resources/server/node_modules")
    );
}

#[test]
fn production_script_is_inside_server_dir() {
    let c = resolve_server_command("/res", true, &vec![true, true, true]);
    assert!(c.args[0].starts_with("/res/server/"));
}

#[test]
fn development_command_uses_system_node() {
    let c = resolve_server_command("/opt/app/resources", false, &vec![false, true, false]);
    assert!(matches!(c.mode, ServerMode::Development));
    assert_eq!(c.program, "node");
    assert_eq!(c.args.len(), 5);
    assert_eq!(c.args[0], "../../cli.js");
    assert_eq!(c.args[1], "ui");
    assert_eq!(c.args[2], "--foreground");
    assert_eq!(c.args[3], "--port");
    assert_eq!(c.args[4], "3333");
    assert!(c.node_path.is_none());
}

#[test]
fn development_command_defaults_without_any_candidate() {
    let c = resolve_server_command("/anywhere", false, &vec![false, false, false]);
    assert_eq!(c.args[0], "../cli.js");
}
