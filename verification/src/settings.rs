//! The desktop settings and the patch that a settings update applies to them.
use vstd::prelude::*;

verus! {

/// One environment variable that is handed to the Harness service.
#[derive(Clone, Debug, PartialEq, Eq)]
pub struct DshEnvironmentVariable {
    pub name: String,
    pub value: String,
}

/// The texts of a [`DshEnvironmentVariable`].
pub struct DshEnvironmentVariableView {
    pub name: Seq<char>,
    pub value: Seq<char>,
}

impl DeepView for DshEnvironmentVariable {
    type V = DshEnvironmentVariableView;

    open spec fn deep_view(&self) -> DshEnvironmentVariableView {
        DshEnvironmentVariableView { name: self.name@, value: self.value@ }
    }
}

/// The settings of the desktop application, as far as the commands speak of them. The store
/// may hold more.
#[derive(Clone, Debug, PartialEq, Eq)]
pub struct Setting {
    /// Port of the Harness service.
    pub port: u16,
    pub auto_start: bool,
    pub http_proxy: String,
    pub dsh_environment: Vec<DshEnvironmentVariable>,
    pub dsh_arguments: Vec<String>,
    /// Whether the command line integration (shim and PATH entry) is switched on.
    pub cli_link_enabled: bool,
    /// Whether the dependencies have been installed.
    pub installed: bool,
    /// Whether the guide for the preinstalled plugins is done with.
    pub preinstall_done: bool,
    /// Language of the interface, as the user chose it.
    pub language: String,
}

/// The values in a [`Setting`].
pub struct SettingView {
    pub port: u16,
    pub auto_start: bool,
    pub http_proxy: Seq<char>,
    pub dsh_environment: Seq<DshEnvironmentVariableView>,
    pub dsh_arguments: Seq<Seq<char>>,
    pub cli_link_enabled: bool,
    pub installed: bool,
    pub preinstall_done: bool,
    pub language: Seq<char>,
}

impl DeepView for Setting {
    type V = SettingView;

    open spec fn deep_view(&self) -> SettingView {
        SettingView {
            port: self.port,
            auto_start: self.auto_start,
            http_proxy: self.http_proxy@,
            dsh_environment: self.dsh_environment.deep_view(),
            dsh_arguments: self.dsh_arguments.deep_view(),
            cli_link_enabled: self.cli_link_enabled,
            installed: self.installed,
            preinstall_done: self.preinstall_done,
            language: self.language@,
        }
    }
}

/// What a settings update asks for: each value that is present replaces the one in force.
#[derive(Debug, PartialEq, Eq)]
pub struct SettingPatch {
    pub port: Option<u16>,
    pub auto_start: Option<bool>,
    pub http_proxy: Option<String>,
    pub dsh_environment: Option<Vec<DshEnvironmentVariable>>,
    pub dsh_arguments: Option<Vec<String>>,
    pub cli_link_enabled: Option<bool>,
}

/// The values in a [`SettingPatch`].
pub struct SettingPatchView {
    pub port: Option<u16>,
    pub auto_start: Option<bool>,
    pub http_proxy: Option<Seq<char>>,
    pub dsh_environment: Option<Seq<DshEnvironmentVariableView>>,
    pub dsh_arguments: Option<Seq<Seq<char>>>,
    pub cli_link_enabled: Option<bool>,
}

impl DeepView for SettingPatch {
    type V = SettingPatchView;

    open spec fn deep_view(&self) -> SettingPatchView {
        SettingPatchView {
            port: self.port,
            auto_start: self.auto_start,
            http_proxy: self.http_proxy.deep_view(),
            dsh_environment: self.dsh_environment.deep_view(),
            dsh_arguments: self.dsh_arguments.deep_view(),
            cli_link_enabled: self.cli_link_enabled,
        }
    }
}

/// `new_value` where it is present, else `old_value`.
pub open spec fn replaced<T>(old_value: T, new_value: Option<T>) -> T {
    match new_value {
        Some(value) => value,
        None => old_value,
    }
}

impl SettingView {
    /// These settings with `patch` applied; `proxy` is the normalized form of the proxy
    /// that the patch asks for.
    pub open spec fn patched(self, patch: SettingPatchView, proxy: Seq<char>) -> SettingView {
        SettingView {
            port: replaced(self.port, patch.port),
            auto_start: replaced(self.auto_start, patch.auto_start),
            http_proxy: if patch.http_proxy is Some {
                proxy
            } else {
                self.http_proxy
            },
            dsh_environment: replaced(self.dsh_environment, patch.dsh_environment),
            dsh_arguments: replaced(self.dsh_arguments, patch.dsh_arguments),
            cli_link_enabled: replaced(self.cli_link_enabled, patch.cli_link_enabled),
            ..self
        }
    }
}

} // verus!
