use vstd::prelude::*;
use crate::config::Config;
use crate::keyed::{find_key, value_of};
use crate::state::{main_world, PollError, State, MAIN_WORLD};
use crate::text::push_text;

verus! {

/// The server that launched games join.
pub const SERVER_ADDRESS: &'static str = "wurstmineberg.de";

/// The legacy official launcher's executable.
pub const LEGACY_LAUNCHER_PATH: &'static str = "C:\\Program Files (x86)\\Minecraft Launcher\\MinecraftLauncher.exe";

/// The shell's name of the official launcher package.
pub const SHELL_ALIAS: &'static str = "shell:AppsFolder\\Microsoft.4297127D64EC6_8wekyb3d8bbwe!Minecraft";

/// The game version to launch: the settings' override, else the version
/// that the latest successful poll reports for the main world, else none.
pub open spec fn target_version(config: Config, latest: Option<Result<State, PollError>>) -> Option<Seq<char>> {
    match config.ferium.version_override {
        Some(v) => Some(v@),
        None => match latest {
            Some(Ok(s)) => match value_of(s.worlds@, MAIN_WORLD@) {
                Some(w) => match w.version {
                    Some(v) => Some(v@),
                    None => None,
                },
                None => None,
            },
            _ => None,
        },
    }
}

/// The game version to launch.
pub fn game_version(config: &Config, latest: &Option<Result<State, PollError>>) -> (r: Option<String>)
    ensures
        match r {
            Some(v) => target_version(*config, *latest) == Some(v@),
            None => target_version(*config, *latest) is None,
        },
{
    match &config.ferium.version_override {
        Some(v) => Some(v.clone()),
        None => match latest {
            Some(Ok(s)) => {
                let main = main_world();
                match find_key(&s.worlds, &main) {
                    Some(k) => match &s.worlds[k].1.version {
                        Some(v) => Some(v.clone()),
                        None => None,
                    },
                    None => None,
                }
            },
            _ => None,
        },
    }
}

/// The mod profile to switch to before launching: the one the settings map
/// the main world to, where a game version is known.
pub open spec fn bridge_profile_spec(config: Config, version: Option<Seq<char>>) -> Option<Seq<char>> {
    match value_of(config.ferium.profiles@, MAIN_WORLD@) {
        Some(p) => if version is Some { Some(p@) } else { None },
        None => None,
    }
}

/// The mod profile to switch to before launching, if any.
pub fn bridge_profile(config: &Config, version: &Option<String>) -> (r: Option<String>)
    ensures
        match r {
            Some(p) => bridge_profile_spec(*config, opt_view(*version)) == Some(p@),
            None => bridge_profile_spec(*config, opt_view(*version)) is None,
        },
{
    let main = main_world();
    match find_key(&config.ferium.profiles, &main) {
        Some(k) => if version.is_some() {
            Some(config.ferium.profiles[k].1.clone())
        } else {
            None
        },
        None => None,
    }
}

/// The text of an optional string.
pub open spec fn opt_view(s: Option<String>) -> Option<Seq<char>> {
    match s {
        Some(t) => Some(t@),
        None => None,
    }
}

/// A way to start the game.
#[derive(Debug, Clone, Copy, PartialEq, Eq, Structural)]
pub enum Launcher {
    /// The authenticated bootstrap process, used when a login is set.
    Portablemc,
    /// The mod-instance launcher.
    ModInstance,
    /// The legacy official launcher at its fixed path.
    LegacyPath,
    /// The official launcher package through the shell.
    ShellAlias,
}

/// The launcher tried first: the bootstrap process where a login is set,
/// else the mod-instance launcher.
pub open spec fn first_launcher_spec(config: Config) -> Launcher {
    if config.portablemc.login is Some { Launcher::Portablemc } else { Launcher::ModInstance }
}

/// The launcher tried first.
pub fn first_launcher(config: &Config) -> (r: Launcher)
    ensures
        r == first_launcher_spec(*config),
{
    if config.portablemc.login.is_some() { Launcher::Portablemc } else { Launcher::ModInstance }
}

/// The launcher tried when `l`'s executable is not found, if any.
pub open spec fn fallback_of(l: Launcher) -> Option<Launcher> {
    match l {
        Launcher::ModInstance => Some(Launcher::LegacyPath),
        Launcher::LegacyPath => Some(Launcher::ShellAlias),
        _ => None,
    }
}

/// What starting a launcher's process came to.
#[derive(Debug, Clone, Copy, PartialEq, Eq, Structural)]
pub enum SpawnOutcome {
    Spawned,
    /// The executable was not found.
    NotFound,
    /// Any other failure to start it.
    Failed,
}

/// Where the launch goes after one attempt.
#[derive(Debug, Clone, Copy, PartialEq, Eq, Structural)]
pub enum ChainStep {
    /// The launcher started.
    Launched(Launcher),
    /// Try this launcher next.
    Fallback(Launcher),
    /// The launch failed with this launcher's error.
    Fatal(Launcher),
}

/// The step after trying `l` with outcome `o`: only a missing executable
/// moves on to the next launcher.
pub open spec fn after_spawn_spec(l: Launcher, o: SpawnOutcome) -> ChainStep {
    match o {
        SpawnOutcome::Spawned => ChainStep::Launched(l),
        SpawnOutcome::NotFound => match fallback_of(l) {
            Some(n) => ChainStep::Fallback(n),
            None => ChainStep::Fatal(l),
        },
        SpawnOutcome::Failed => ChainStep::Fatal(l),
    }
}

/// The step after trying `l` with outcome `o`.
pub fn after_spawn(l: Launcher, o: SpawnOutcome) -> (r: ChainStep)
    ensures
        r == after_spawn_spec(l, o),
{
    match o {
        SpawnOutcome::Spawned => ChainStep::Launched(l),
        SpawnOutcome::NotFound => match l {
            Launcher::ModInstance => ChainStep::Fallback(Launcher::LegacyPath),
            Launcher::LegacyPath => ChainStep::Fallback(Launcher::ShellAlias),
            _ => ChainStep::Fatal(l),
        },
        SpawnOutcome::Failed => ChainStep::Fatal(l),
    }
}

/// How many launchers can still follow `l`.
pub open spec fn chain_rank(l: Launcher) -> nat {
    match l {
        Launcher::ModInstance => 2,
        Launcher::LegacyPath => 1,
        _ => 0,
    }
}

/// The launchers tried from `l` on when each one's attempt comes to
/// `outcome_of` of it, and the step that ends the chain.
pub open spec fn chain_from(l: Launcher, outcome_of: spec_fn(Launcher) -> SpawnOutcome) -> (Seq<Launcher>, ChainStep)
    decreases chain_rank(l),
{
    match after_spawn_spec(l, outcome_of(l)) {
        ChainStep::Fallback(n) => if chain_rank(n) < chain_rank(l) {
            let (rest, end) = chain_from(n, outcome_of);
            (seq![l] + rest, end)
        } else {
            (seq![l], ChainStep::Fatal(l))
        },
        end => (seq![l], end),
    }
}

/// The fallback chain moves on only past a missing executable; a launcher
/// that starts ends it before any later one is tried; and with the first
/// two missing and the shell alias present, all three are tried in order
/// and the launch succeeds through the alias.
pub proof fn lemma_fallback_chain(l: Launcher, o: SpawnOutcome, outcome_of: spec_fn(Launcher) -> SpawnOutcome)
    ensures
        after_spawn_spec(l, o) is Fallback ==> o == SpawnOutcome::NotFound,
        o == SpawnOutcome::Spawned ==> after_spawn_spec(l, o) == ChainStep::Launched(l),
        outcome_of(Launcher::ModInstance) == SpawnOutcome::Spawned ==> chain_from(Launcher::ModInstance, outcome_of)
            == (seq![Launcher::ModInstance], ChainStep::Launched(Launcher::ModInstance)),
        outcome_of(Launcher::ModInstance) == SpawnOutcome::NotFound
            && outcome_of(Launcher::LegacyPath) == SpawnOutcome::NotFound
            && outcome_of(Launcher::ShellAlias) == SpawnOutcome::Spawned
            ==> chain_from(Launcher::ModInstance, outcome_of) == (
                seq![Launcher::ModInstance, Launcher::LegacyPath, Launcher::ShellAlias],
                ChainStep::Launched(Launcher::ShellAlias),
            ),
{
    if outcome_of(Launcher::ModInstance) == SpawnOutcome::NotFound
        && outcome_of(Launcher::LegacyPath) == SpawnOutcome::NotFound
        && outcome_of(Launcher::ShellAlias) == SpawnOutcome::Spawned {
        assert(chain_from(Launcher::ShellAlias, outcome_of) == (seq![Launcher::ShellAlias], ChainStep::Launched(Launcher::ShellAlias)));
        assert(chain_from(Launcher::LegacyPath, outcome_of).0 =~= seq![Launcher::LegacyPath, Launcher::ShellAlias]);
        assert(chain_from(Launcher::ModInstance, outcome_of).0 =~= seq![Launcher::ModInstance, Launcher::LegacyPath, Launcher::ShellAlias]);
    }
}

/// A process to start: the program and its arguments.
#[derive(Debug, Clone)]
pub struct LaunchCommand {
    pub program: String,
    pub args: Vec<String>,
}

/// The texts of a list of strings.
pub open spec fn texts(v: Seq<String>) -> Seq<Seq<char>> {
    v.map_values(|s: String| s@)
}

/// The program that starts launcher `l`.
pub open spec fn launch_program(l: Launcher) -> Seq<char> {
    match l {
        Launcher::Portablemc => "python"@,
        Launcher::ModInstance => "prismlauncher"@,
        Launcher::LegacyPath => LEGACY_LAUNCHER_PATH@,
        Launcher::ShellAlias => "explorer"@,
    }
}

/// The arguments that start launcher `l`: the bootstrap process gets the
/// working directory (where a mod profile gave one), the game version, the
/// server and the login; the mod-instance launcher gets the instance to
/// show, where one is set; the shell gets the package alias.
pub open spec fn launch_args(
    config: Config,
    l: Launcher,
    work_dir: Option<Seq<char>>,
    version: Option<Seq<char>>,
) -> Seq<Seq<char>> {
    match l {
        Launcher::Portablemc => seq!["-m"@, "portablemc"@]
            + match work_dir {
                Some(d) => seq!["--work-dir"@, d],
                None => Seq::empty(),
            }
            + seq![
                "start"@,
                "fabric:"@ + match version {
                    Some(v) => v,
                    None => Seq::empty(),
                },
                "--server="@ + SERVER_ADDRESS@,
                "--login"@,
                match config.portablemc.login {
                    Some(x) => x@,
                    None => Seq::empty(),
                },
            ],
        Launcher::ModInstance => match config.prism_instance {
            Some(i) => seq!["--show"@, i@],
            None => Seq::empty(),
        },
        Launcher::LegacyPath => Seq::empty(),
        Launcher::ShellAlias => seq![SHELL_ALIAS@],
    }
}

/// The process that starts launcher `l`.
pub fn launch_command(
    config: &Config,
    l: Launcher,
    work_dir: &Option<String>,
    version: &Option<String>,
) -> (r: LaunchCommand)
    ensures
        r.program@ == launch_program(l),
        texts(r.args@) == launch_args(*config, l, opt_view(*work_dir), opt_view(*version)),
{
    let mut args: Vec<String> = Vec::new();
    match l {
        Launcher::Portablemc => {
            args.push(String::from_str("-m"));
            args.push(String::from_str("portablemc"));
            match work_dir {
                Some(d) => {
                    args.push(String::from_str("--work-dir"));
                    args.push(d.clone());
                },
                None => {},
            }
            args.push(String::from_str("start"));
            let mut game = String::from_str("fabric:");
            match version {
                Some(v) => push_text(&mut game, v.as_str()),
                None => {},
            }
            args.push(game);
            let mut server = String::from_str("--server=");
            push_text(&mut server, SERVER_ADDRESS);
            args.push(server);
            args.push(String::from_str("--login"));
            match &config.portablemc.login {
                Some(x) => args.push(x.clone()),
                None => args.push(String::new()),
            }
            assert(texts(args@) =~= launch_args(*config, l, opt_view(*work_dir), opt_view(*version)));
            LaunchCommand { program: String::from_str("python"), args }
        },
        Launcher::ModInstance => {
            match &config.prism_instance {
                Some(i) => {
                    args.push(String::from_str("--show"));
                    args.push(i.clone());
                },
                None => {},
            }
            assert(texts(args@) =~= launch_args(*config, l, opt_view(*work_dir), opt_view(*version)));
            LaunchCommand { program: String::from_str("prismlauncher"), args }
        },
        Launcher::LegacyPath => {
            assert(texts(args@) =~= launch_args(*config, l, opt_view(*work_dir), opt_view(*version)));
            LaunchCommand { program: String::from_str(LEGACY_LAUNCHER_PATH), args }
        },
        Launcher::ShellAlias => {
            args.push(String::from_str(SHELL_ALIAS));
            assert(texts(args@) =~= launch_args(*config, l, opt_view(*work_dir), opt_view(*version)));
            LaunchCommand { program: String::from_str("explorer"), args }
        },
    }
}

} // verus!
