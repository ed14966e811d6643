use wurstmineberg_systray::bridge::{bridge_args, bridge_start, bridge_step, BridgeAction, BridgeCommand, BridgeError, BridgePhase, CommandFailure, StepResult};
use wurstmineberg_systray::config::{make_true, Config};
use wurstmineberg_systray::launch::{after_spawn, bridge_profile, first_launcher, game_version, launch_command, ChainStep, Launcher, SpawnOutcome};
use wurstmineberg_systray::launcher::{apply_version_match, launcher_file_name, LauncherData, LauncherProfile};
use wurstmineberg_systray::poller::finish_cycle;
use wurstmineberg_systray::profile_text::{output_dir_line, profile_name_of};
use wurstmineberg_systray::state::{PollError, State, WorldStatus};

fn json(text: &str) -> serde_json::Value {
    serde_json::from_str(text).unwrap()
}

fn profile(version: &str) -> LauncherProfile {
    LauncherProfile {
        last_version_id: version.to_string(),
        extra: vec![("name".to_string(), json("\"Fabric\"")), ("icon".to_string(), json("{\"k\": [1, 2]}"))],
    }
}

fn data() -> LauncherData {
    LauncherData {
        profiles: vec![("fabric".to_string(), profile("1.20")), ("vanilla".to_string(), profile("1.19"))],
        extra: vec![("version".to_string(), json("3")), ("settings".to_string(), json("{\"x\": true}"))],
    }
}

fn worlds(version: Option<&str>) -> Vec<(String, WorldStatus)> {
    vec![("wurstmineberg".to_string(), WorldStatus { list: vec![], running: true, version: version.map(|v| v.to_string()) })]
}

fn follow_fabric() -> Vec<(String, String)> {
    vec![("fabric".to_string(), "wurstmineberg".to_string())]
}

#[test]
fn stale_profile_is_updated_and_rest_kept() {
    let before = data();
    let (after, modified) = apply_version_match(data(), &follow_fabric(), &worlds(Some("1.21"))).ok().unwrap();
    assert!(modified);
    assert_eq!(after.profiles[0].0, "fabric");
    assert_eq!(after.profiles[0].1.last_version_id, "1.21");
    assert_eq!(after.profiles[0].1.extra, before.profiles[0].1.extra);
    assert_eq!(after.profiles[1].1.last_version_id, "1.19");
    assert_eq!(after.profiles[1].1.extra, before.profiles[1].1.extra);
    assert_eq!(after.extra, before.extra);
}

#[test]
fn current_profile_needs_no_write() {
    let (after, modified) = apply_version_match(data(), &follow_fabric(), &worlds(Some("1.20"))).ok().unwrap();
    assert!(!modified);
    assert_eq!(after.profiles[0].1.last_version_id, "1.20");
    let (_, modified) = apply_version_match(data(), &follow_fabric(), &worlds(None)).ok().unwrap();
    assert!(!modified);
}

#[test]
fn unknown_profile_is_an_error() {
    let follow = vec![("missing".to_string(), "wurstmineberg".to_string())];
    match apply_version_match(data(), &follow, &worlds(Some("1.21"))) {
        Err(PollError::UnknownLauncherProfile(id)) => assert_eq!(id, "missing"),
        _ => panic!("expected an unknown-profile error"),
    }
}

#[test]
fn cycle_writes_only_when_modified() {
    let mut config = Config::default();
    config.version_match = follow_fabric();
    let fetched = Ok(State { people: vec![], worlds: worlds(Some("1.21")) });
    let outcome = finish_cycle(&config, fetched, Some(Ok(data())));
    assert!(outcome.keep_polling);
    assert_eq!(outcome.write.unwrap().profiles[0].1.last_version_id, "1.21");
    let fetched = Ok(State { people: vec![], worlds: worlds(Some("1.20")) });
    let outcome = finish_cycle(&config, fetched, Some(Ok(data())));
    assert!(outcome.keep_polling);
    assert!(outcome.write.is_none());
    let fetched = Ok(State { people: vec![], worlds: worlds(Some("1.20")) });
    let outcome = finish_cycle(&config, fetched, Some(Err(PollError::Io("not found".to_string()))));
    assert!(!outcome.keep_polling);
    assert!(matches!(outcome.publish, Err(PollError::Io(_))));
}

#[test]
fn store_launcher_file_is_preferred() {
    assert_eq!(launcher_file_name(true), "launcher_profiles_microsoft_store.json");
    assert_eq!(launcher_file_name(false), "launcher_profiles.json");
}

#[test]
fn config_defaults() {
    assert!(make_true());
    let c = Config::default();
    assert!(c.left_click_launch);
    assert!(!c.show_if_empty && !c.show_if_offline);
    assert!(c.version_match.is_empty() && c.ignored_players.is_empty());
    let c = c.with_show_if_empty(true);
    assert!(c.show_if_empty);
    assert!(c.with_show_if_empty(false).show_if_empty);
}

#[test]
fn version_override_wins() {
    let mut config = Config::default();
    let latest = Some(Ok(State { people: vec![], worlds: worlds(Some("1.21")) }));
    assert_eq!(game_version(&config, &latest).as_deref(), Some("1.21"));
    config.ferium.version_override = Some("1.20.4".to_string());
    assert_eq!(game_version(&config, &latest).as_deref(), Some("1.20.4"));
    config.ferium.version_override = None;
    assert_eq!(game_version(&config, &Some(Err(PollError::BaseDirs))), None);
    assert_eq!(game_version(&config, &None), None);
}

#[test]
fn bridge_needs_profile_and_version() {
    let mut config = Config::default();
    assert_eq!(bridge_profile(&config, &Some("1.21".to_string())), None);
    config.ferium.profiles = vec![("wurstmineberg".to_string(), "wmb".to_string())];
    assert_eq!(bridge_profile(&config, &Some("1.21".to_string())).as_deref(), Some("wmb"));
    assert_eq!(bridge_profile(&config, &None), None);
}

#[test]
fn fallback_reaches_shell_alias() {
    let config = Config::default();
    let mut l = first_launcher(&config);
    assert_eq!(l, Launcher::ModInstance);
    let outcomes = [SpawnOutcome::NotFound, SpawnOutcome::NotFound, SpawnOutcome::Spawned];
    let mut tried = vec![];
    for o in outcomes {
        tried.push(l);
        match after_spawn(l, o) {
            ChainStep::Fallback(n) => l = n,
            ChainStep::Launched(done) => {
                assert_eq!(done, Launcher::ShellAlias);
                break;
            }
            ChainStep::Fatal(_) => panic!("no error expected"),
        }
    }
    assert_eq!(tried, vec![Launcher::ModInstance, Launcher::LegacyPath, Launcher::ShellAlias]);
}

#[test]
fn present_launcher_ends_chain() {
    assert_eq!(after_spawn(Launcher::ModInstance, SpawnOutcome::Spawned), ChainStep::Launched(Launcher::ModInstance));
    assert_eq!(after_spawn(Launcher::ModInstance, SpawnOutcome::Failed), ChainStep::Fatal(Launcher::ModInstance));
    assert_eq!(after_spawn(Launcher::LegacyPath, SpawnOutcome::Failed), ChainStep::Fatal(Launcher::LegacyPath));
    assert_eq!(after_spawn(Launcher::ShellAlias, SpawnOutcome::NotFound), ChainStep::Fatal(Launcher::ShellAlias));
    assert_eq!(after_spawn(Launcher::Portablemc, SpawnOutcome::NotFound), ChainStep::Fatal(Launcher::Portablemc));
}

#[test]
fn login_selects_bootstrap() {
    let mut config = Config::default();
    config.portablemc.login = Some("me@example.com".to_string());
    assert_eq!(first_launcher(&config), Launcher::Portablemc);
    let cmd = launch_command(&config, Launcher::Portablemc, &Some("/games/wmb".to_string()), &Some("1.21".to_string()));
    assert_eq!(cmd.program, "python");
    assert_eq!(cmd.args, vec!["-m", "portablemc", "--work-dir", "/games/wmb", "start", "fabric:1.21", "--server=wurstmineberg.de", "--login", "me@example.com"]);
    let cmd = launch_command(&config, Launcher::Portablemc, &None, &None);
    assert_eq!(cmd.args, vec!["-m", "portablemc", "start", "fabric:", "--server=wurstmineberg.de", "--login", "me@example.com"]);
}

#[test]
fn launcher_commands() {
    let mut config = Config::default();
    let cmd = launch_command(&config, Launcher::ModInstance, &None, &None);
    assert_eq!(cmd.program, "prismlauncher");
    assert!(cmd.args.is_empty());
    config.prism_instance = Some("Wurstmineberg".to_string());
    assert_eq!(launch_command(&config, Launcher::ModInstance, &None, &None).args, vec!["--show", "Wurstmineberg"]);
    let cmd = launch_command(&config, Launcher::LegacyPath, &None, &None);
    assert_eq!(cmd.program, "C:\\Program Files (x86)\\Minecraft Launcher\\MinecraftLauncher.exe");
    let cmd = launch_command(&config, Launcher::ShellAlias, &None, &None);
    assert_eq!(cmd.program, "explorer");
    assert_eq!(cmd.args, vec!["shell:AppsFolder\\Microsoft.4297127D64EC6_8wekyb3d8bbwe!Minecraft"]);
}

#[test]
fn profile_status_line_parsing() {
    assert_eq!(profile_name_of(&"wmb-fabric *    Fabric 1.21".to_string()).as_deref(), Some("wmb-fabric"));
    assert_eq!(profile_name_of(&"no mark here".to_string()), None);
    assert_eq!(profile_name_of(&" *".to_string()).as_deref(), Some(""));
}

#[test]
fn output_directory_line_parsing() {
    let report = "Profile wmb\r\n        \r  Output directory:   /home/u/mods/wmb.jar\r\n  Mods: 3\n";
    assert_eq!(output_dir_line(&report.as_bytes().to_vec()).as_deref(), Some("/home/u/mods/wmb.jar"));
    assert_eq!(output_dir_line(&b"  Output directory:   /x\n".to_vec()), None);
    assert_eq!(output_dir_line(&Vec::new()), None);
}

#[test]
fn output_directory_skips_lines_that_are_not_text() {
    let mut report = vec![0xffu8, b'\n'];
    report.extend_from_slice(b"        \r  Output directory:   /games/wmb/mods/x\n");
    assert_eq!(output_dir_line(&report).as_deref(), Some("/games/wmb/mods/x"));
    let (_, res) = run_bridge(vec![ok("old *\n"), ok(""), StepResult::Succeeded(report), ok(""), ok(""), ok("")]);
    assert_eq!(res.unwrap().unwrap().as_deref(), Some("/games/wmb/mods"));
}

#[test]
fn bridge_command_lines() {
    let (args, name) = bridge_args(&BridgeCommand::ShowProfile);
    assert_eq!((args, name.as_str()), (vec!["profile".to_string()], "ferium profile"));
    let (args, name) = bridge_args(&BridgeCommand::SwitchProfile("wmb".to_string()));
    assert_eq!((args, name.as_str()), (vec!["profile".to_string(), "switch".to_string(), "wmb".to_string()], "ferium profile switch"));
    let (args, name) = bridge_args(&BridgeCommand::ConfigureVersion("1.21".to_string()));
    assert_eq!(args, vec!["profile", "configure", "--game-version", "1.21"]);
    assert_eq!(name, "ferium profile configure --game-version");
    let (args, name) = bridge_args(&BridgeCommand::Upgrade);
    assert_eq!((args, name.as_str()), (vec!["upgrade".to_string()], "ferium upgrade"));
}

#[test]
fn unknown_profile_stops_cycle_naming_it() {
    let mut config = Config::default();
    config.version_match = vec![("fabric".to_string(), "wurstmineberg".to_string()), ("gone".to_string(), "wurstmineberg".to_string())];
    let fetched = Ok(State { people: vec![], worlds: worlds(Some("1.21")) });
    let outcome = finish_cycle(&config, fetched, Some(Ok(data())));
    assert!(!outcome.keep_polling);
    assert!(outcome.write.is_none());
    match outcome.publish {
        Err(PollError::UnknownLauncherProfile(id)) => assert_eq!(id, "gone"),
        _ => panic!("expected an unknown-profile error"),
    }
}

fn fail(name: &str) -> StepResult {
    StepResult::Failed(CommandFailure { command: name.to_string(), detail: "exit status 1".to_string() })
}

fn ok(out: &str) -> StepResult {
    StepResult::Succeeded(out.as_bytes().to_vec())
}

/// Runs a switch with the given results, returning the commands issued and the result.
fn run_bridge(results: Vec<StepResult>) -> (Vec<String>, Option<Result<Option<String>, BridgeError>>) {
    let profile = "wmb".to_string();
    let version = "1.21".to_string();
    let (mut phase, cmd) = bridge_start();
    let mut issued = vec![describe(&cmd)];
    for r in results {
        match bridge_step(&profile, &version, phase, r) {
            BridgeAction::Run(next, cmd) => {
                issued.push(describe(&cmd));
                phase = next;
            }
            BridgeAction::Finish(res) => return (issued, Some(res)),
        }
    }
    (issued, None)
}

fn describe(cmd: &BridgeCommand) -> String {
    match cmd {
        BridgeCommand::ShowProfile => "profile".to_string(),
        BridgeCommand::SwitchProfile(p) => format!("switch {p}"),
        BridgeCommand::ConfigureVersion(v) => format!("configure {v}"),
        BridgeCommand::Upgrade => "upgrade".to_string(),
    }
}

const REPORT: &str = "        \r  Output directory:   /games/wmb/mods/x\n";

#[test]
fn bridge_full_run_restores_profile() {
    let (issued, res) = run_bridge(vec![ok("old *\n"), ok(""), ok(REPORT), ok(""), ok(""), ok("")]);
    assert_eq!(issued, vec!["profile", "switch wmb", "profile", "configure 1.21", "upgrade", "switch old"]);
    assert_eq!(res.unwrap().unwrap().as_deref(), Some("/games/wmb/mods"));
}

#[test]
fn bridge_restores_after_each_failure() {
    let cases = vec![
        vec![ok("old *\n"), fail("ferium profile switch"), ok("")],
        vec![ok("old *\n"), ok(""), fail("ferium profile"), ok("")],
        vec![ok("old *\n"), ok(""), ok(REPORT), fail("ferium profile configure --game-version"), ok("")],
        vec![ok("old *\n"), ok(""), ok(REPORT), ok(""), fail("ferium upgrade"), ok("")],
    ];
    for (n, results) in cases.into_iter().enumerate() {
        let failing = match &results[n + 1] {
            StepResult::Failed(f) => f.command.clone(),
            StepResult::Succeeded(_) => unreachable!(),
        };
        let (issued, res) = run_bridge(results);
        assert_eq!(issued.last().unwrap(), "switch old");
        match res.unwrap() {
            Err(BridgeError::Command(f)) => assert_eq!(f.command, failing),
            _ => panic!("expected the failing command"),
        }
    }
}

#[test]
fn bridge_restore_failure_is_its_own_error() {
    let (_, res) = run_bridge(vec![ok("old *\n"), ok(""), ok(REPORT), fail("ferium profile configure --game-version"), fail("ferium profile switch")]);
    match res.unwrap() {
        Err(BridgeError::Restore { failure, cause }) => {
            assert_eq!(failure.command, "ferium profile switch");
            assert_eq!(cause.unwrap().command, "ferium profile configure --game-version");
        }
        _ => panic!("expected a restore error"),
    }
}

#[test]
fn bridge_status_errors() {
    let (issued, res) = run_bridge(vec![ok("no mark\n")]);
    assert_eq!(issued, vec!["profile"]);
    assert!(matches!(res.unwrap(), Err(BridgeError::ProfileFormat)));
    let (_, res) = run_bridge(vec![StepResult::Succeeded(vec![0xff, 0xfe])]);
    assert!(matches!(res.unwrap(), Err(BridgeError::Utf8)));
    let (_, res) = run_bridge(vec![fail("ferium profile")]);
    assert!(matches!(res.unwrap(), Err(BridgeError::Command(_))));
}

#[test]
fn bridge_phase_carries_previous_profile() {
    let action = bridge_step(&"wmb".to_string(), &"1.21".to_string(), BridgePhase::Upgrading { previous: "old".to_string(), output_dir: None }, fail("ferium upgrade"));
    match action {
        BridgeAction::Run(BridgePhase::Restoring { previous, outcome }, BridgeCommand::SwitchProfile(back)) => {
            assert_eq!(previous, "old");
            assert_eq!(back, "old");
            assert!(outcome.is_err());
        }
        _ => panic!("expected a restore"),
    }
}
