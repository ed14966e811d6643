use vstd::prelude::*;
use crate::keyed::unique_keys;
use crate::people::Uid;

verus! {

/// The default of a setting that is on unless turned off.
pub fn make_true() -> (r: bool)
    ensures
        r,
{
    true
}

/// Settings of the mod-profile manager.
#[derive(Debug, Clone)]
pub struct FeriumConfig {
    /// Mod profile to use, by world name.
    pub profiles: Vec<(String, String)>,
    /// Game version to launch instead of the one the main world reports.
    pub version_override: Option<String>,
    /// Credential handed to the mod-profile manager.
    pub github_token: Option<String>,
}

/// Settings of the authenticated bootstrap launcher.
#[derive(Debug, Clone)]
pub struct PortablemcConfig {
    /// Account to log in with; when set, this launcher is used.
    pub login: Option<String>,
}

/// User settings.
#[derive(Debug, Clone)]
pub struct Config {
    /// Players never shown as online.
    pub ignored_players: Vec<Uid>,
    /// Whether a left click on the tray icon launches the game.
    pub left_click_launch: bool,
    pub ferium: FeriumConfig,
    pub portablemc: PortablemcConfig,
    /// Instance that the mod-instance launcher opens.
    pub prism_instance: Option<String>,
    /// Show the icon while the main world runs with nobody online.
    pub show_if_empty: bool,
    /// Show the icon while the main world is offline and nobody is online.
    pub show_if_offline: bool,
    /// World whose version each local launcher profile follows, by profile id.
    pub version_match: Vec<(String, String)>,
}

impl Config {
    /// The mod profiles and the followed worlds each hold a key once.
    pub open spec fn wf(&self) -> bool {
        unique_keys(self.ferium.profiles@) && unique_keys(self.version_match@)
    }

    /// Settings where the command line asked to show the icon while the
    /// main world is empty.
    pub fn with_show_if_empty(self, show_if_empty: bool) -> (r: Config)
        ensures
            r.show_if_empty == (self.show_if_empty || show_if_empty),
            r.ignored_players == self.ignored_players,
            r.left_click_launch == self.left_click_launch,
            r.ferium == self.ferium,
            r.portablemc == self.portablemc,
            r.prism_instance == self.prism_instance,
            r.show_if_offline == self.show_if_offline,
            r.version_match == self.version_match,
            self.wf() ==> r.wf(),
    {
        let mut config = self;
        if show_if_empty {
            config.show_if_empty = true;
        }
        config
    }
}

impl Default for Config {
    fn default() -> (r: Config)
        ensures
            r.ignored_players@.len() == 0,
            r.left_click_launch,
            r.ferium.profiles@.len() == 0,
            r.ferium.version_override is None,
            r.ferium.github_token is None,
            r.portablemc.login is None,
            r.prism_instance is None,
            !r.show_if_empty,
            !r.show_if_offline,
            r.version_match@.len() == 0,
            r.wf(),
    {
        Config {
            ignored_players: Vec::new(),
            left_click_launch: make_true(),
            ferium: FeriumConfig {
                profiles: Vec::new(),
                version_override: None,
                github_token: None,
            },
            portablemc: PortablemcConfig { login: None },
            prism_instance: None,
            show_if_empty: false,
            show_if_offline: false,
            version_match: Vec::new(),
        }
    }
}

} // verus!
