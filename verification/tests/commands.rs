//! The commands, run against a host that keeps its state in memory.
use harness_bridge::configure::{
    get_app_config, language_for, set_language, update_app_config, LanguageStage, ReadConfigStage,
    UpdateStage,
};
use harness_bridge::desktop::{
    file_manager, reveal_data_dir, reveal_in_folder, write_system_clipboard, ClipboardStage,
    DataDirStage, RevealStage,
};
use harness_bridge::host::{
    Component, DshPkgTag, Lang, LatestDshPkg, Level, Platform, Reply, Request, Status, Turn,
    UpdateCheck,
};
use harness_bridge::install::{
    dsh_up_to_date, install_dependencies, sync_cli_link, InstallStage, SyncStage,
};
use harness_bridge::logs::{
    clear_service_logs, failure_entry, read_service_logs, report_window_drag_injection_failure,
    try_read_service_logs, ClearLogStage, ReadLogStage, ReportStage, DEFAULT_LOG_BYTES,
};
use harness_bridge::preinstall::{
    install_preinstall_plugins, open_preinstall_repo, skip_preinstall_plugins, PluginStage,
    RepoStage, SkipStage,
};
use harness_bridge::service::{
    copy_service_url, get_runtime_info, open_in_browser, proxy_health_check, BrowserStage,
    CopyStage, HealthStage, RuntimeStage,
};
use harness_bridge::settings::{DshEnvironmentVariable, Setting, SettingPatch};
use harness_bridge::update_check::{check_dsh_update, CheckStage};

/// A host with all of its state in memory. An error text makes the request of that name
/// fail.
struct FakeHost {
    status: Status,
    node: bool,
    dsh: bool,
    pnpm: bool,
    latest: Result<(String, String), String>,
    commit: Option<String>,
    tag: Option<String>,
    version: Option<String>,
    tags: Result<Vec<(String, String)>, String>,
    verdict: UpdateCheck,
    setting: Setting,
    linked: bool,
    link_error: Option<String>,
    install_error: Option<String>,
    proxy_error: Option<String>,
    environment_error: Option<String>,
    arguments_error: Option<String>,
    plugin_error: Option<String>,
    port_during_plugins: Option<u16>,
    repo: Option<String>,
    health: Result<String, String>,
    open_error: Option<String>,
    opened: Vec<String>,
    clipboard: String,
    clipboard_error: Option<String>,
    reveal_error: Option<String>,
    data_dir_error: Option<String>,
    spawned: Vec<String>,
    log: Option<String>,
    log_error: Option<String>,
    log_has_parent: bool,
    log_dir_error: Option<String>,
    lang: Lang,
    journal: Vec<(Level, String)>,
    trace: Vec<String>,
}

fn text(s: &str) -> String {
    s.to_string()
}

fn setting() -> Setting {
    Setting {
        port: 8080,
        auto_start: false,
        http_proxy: text(""),
        dsh_environment: Vec::new(),
        dsh_arguments: Vec::new(),
        cli_link_enabled: false,
        installed: false,
        preinstall_done: false,
        language: text("zh-CN"),
    }
}

fn host() -> FakeHost {
    FakeHost {
        status: Status::Other,
        node: true,
        dsh: true,
        pnpm: true,
        latest: Ok((text("v2"), text("c2"))),
        commit: Some(text("c2")),
        tag: Some(text("v2")),
        version: Some(text("2.0")),
        tags: Ok(vec![(text("v1"), text("c1"))]),
        verdict: UpdateCheck::UpToDate,
        setting: setting(),
        linked: false,
        link_error: None,
        install_error: None,
        proxy_error: None,
        environment_error: None,
        arguments_error: None,
        plugin_error: None,
        port_during_plugins: None,
        repo: None,
        health: Ok(text("healthy")),
        open_error: None,
        opened: Vec::new(),
        clipboard: text(""),
        clipboard_error: None,
        reveal_error: None,
        data_dir_error: None,
        spawned: Vec::new(),
        log: None,
        log_error: None,
        log_has_parent: true,
        log_dir_error: None,
        lang: Lang::Zh,
        journal: Vec::new(),
        trace: Vec::new(),
    }
}

fn outcome(error: &Option<String>) -> Reply {
    match error {
        Some(message) => Reply::Outcome(Err(message.clone())),
        None => Reply::Outcome(Ok(())),
    }
}

impl FakeHost {
    fn perform(&mut self, request: Request<'_>) -> Reply {
        let label = format!("{:?}", request);
        let name: String = label.chars().take_while(|c| c.is_alphanumeric()).collect();
        self.trace.push(name);
        match request {
            Request::ReadStatus => Reply::Status(self.status),
            Request::MarkInstalling => {
                self.status = Status::Installing;
                Reply::Done
            }
            Request::EmitStatus => Reply::Done,
            Request::CheckInstalled(component) => Reply::Flag(match component {
                Component::Nodejs => self.node,
                Component::Dsh => self.dsh,
                Component::Pnpm => self.pnpm,
            }),
            Request::FetchLatest => Reply::Latest(match &self.latest {
                Ok((tag, commit)) => Ok(LatestDshPkg { tag: tag.clone(), commit: commit.clone() }),
                Err(message) => Err(message.clone()),
            }),
            Request::FetchTags => Reply::Tags(match &self.tags {
                Ok(tags) => Ok(tags
                    .iter()
                    .map(|(tag, commit)| DshPkgTag { tag: tag.clone(), commit: commit.clone() })
                    .collect()),
                Err(message) => Err(message.clone()),
            }),
            Request::ReadCommit => Reply::MaybeText(self.commit.clone()),
            Request::ReadTag => Reply::MaybeText(self.tag.clone()),
            Request::ReadVersion => Reply::MaybeText(self.version.clone()),
            Request::RecordCommit(commit) => {
                self.commit = Some(text(commit));
                Reply::Done
            }
            Request::RecordTag(tag) => {
                self.tag = Some(text(tag));
                Reply::Done
            }
            Request::ResolveUpdate { commit, tag, version, latest, tags } => {
                assert_eq!(commit, self.commit.as_deref());
                assert_eq!(tag, self.tag.as_deref());
                assert_eq!(version, self.version.as_deref());
                let (latest_tag, latest_commit) = self.latest.clone().unwrap();
                assert_eq!(latest.tag, latest_tag);
                assert_eq!(latest.commit, latest_commit);
                let expected = if tag.is_none() {
                    self.tags.clone().unwrap_or_default()
                } else {
                    Vec::new()
                };
                let given: Vec<(String, String)> =
                    tags.iter().map(|t| (t.tag.clone(), t.commit.clone())).collect();
                assert_eq!(given, expected);
                Reply::Verdict(self.verdict)
            }
            Request::RunInstall(latest) => {
                assert_eq!(self.status, Status::Installing);
                let known = self.latest.clone().ok();
                assert_eq!(latest.map(|l| (l.tag.clone(), l.commit.clone())), known);
                outcome(&self.install_error)
            }
            Request::ReadSetting => Reply::Setting(self.setting.clone()),
            Request::StoreSetting(setting) => {
                self.setting = setting.clone();
                Reply::Done
            }
            Request::EnsureCliLink => {
                self.linked = self.linked || self.link_error.is_none();
                outcome(&self.link_error)
            }
            Request::RemoveCliLink => {
                self.linked = self.linked && self.link_error.is_some();
                outcome(&self.link_error)
            }
            Request::NormalizeHttpProxy(proxy) => Reply::TextOutcome(match &self.proxy_error {
                Some(message) => Err(message.clone()),
                None => Ok(format!("http://{proxy}")),
            }),
            Request::ValidateEnvironment(_) => outcome(&self.environment_error),
            Request::ValidateArguments(_) => outcome(&self.arguments_error),
            Request::InstallPlugins(ids) => {
                assert_eq!(ids, &vec![text("a"), text("b")]);
                if let Some(port) = self.port_during_plugins {
                    self.setting.port = port;
                }
                outcome(&self.plugin_error)
            }
            Request::LookUpRepo(id) => {
                assert_eq!(id, "plugin");
                Reply::MaybeText(self.repo.clone())
            }
            Request::HealthCheck(port) => {
                assert_eq!(port, self.setting.port);
                Reply::TextOutcome(self.health.clone())
            }
            Request::ServiceUrl(port) => Reply::Text(format!("http://localhost:{port}")),
            Request::OpenUrl(url) => {
                self.opened.push(text(url));
                outcome(&self.open_error)
            }
            Request::WriteClipboard(content) => {
                if self.clipboard_error.is_none() {
                    self.clipboard = text(content);
                }
                outcome(&self.clipboard_error)
            }
            Request::RevealItem(path) => {
                assert_eq!(path, "/tmp/session.log");
                outcome(&self.reveal_error)
            }
            Request::LocateDataDir => outcome(&self.data_dir_error),
            Request::OpenDataDirWith(program) => {
                self.spawned.push(text(program));
                Reply::Outcome(Ok(()))
            }
            Request::LogHasParent => Reply::Flag(self.log_has_parent),
            Request::CreateLogDir => outcome(&self.log_dir_error),
            Request::AppendLog(line) => {
                if self.log_error.is_none() {
                    let mut log = self.log.take().unwrap_or_default();
                    log.push_str(line);
                    self.log = Some(log);
                }
                outcome(&self.log_error)
            }
            Request::LogExists => Reply::Flag(self.log.is_some()),
            Request::ReadLog => Reply::TextOutcome(match &self.log_error {
                Some(message) => Err(message.clone()),
                None => Ok(self.log.clone().unwrap()),
            }),
            Request::WriteLog(content) => {
                if self.log_error.is_none() {
                    self.log = Some(text(content));
                }
                outcome(&self.log_error)
            }
            Request::ApplyLanguage(lang) => {
                self.lang = lang;
                Reply::Done
            }
            Request::Log(level, entry) => {
                self.journal.push((level, entry));
                Reply::Done
            }
        }
    }

    fn journal(&self) -> Vec<(Level, &str)> {
        self.journal.iter().map(|(level, entry)| (*level, entry.as_str())).collect()
    }

    fn asked(&self, name: &str) -> usize {
        self.trace.iter().filter(|asked| asked.as_str() == name).count()
    }
}

fn run<S, O>(
    host: &mut FakeHost,
    start: S,
    request: for<'a> fn(&'a S) -> Request<'a>,
    step: fn(S, Reply) -> Turn<S, O, String>,
) -> Result<O, String> {
    let mut stage = start;
    loop {
        let reply = host.perform(request(&stage));
        match step(stage, reply) {
            Turn::Ask(next) => stage = next,
            Turn::Return(value) => return Ok(value),
            Turn::Fail(message) => return Err(message),
        }
    }
}

const RUNNING: (Level, &str) = (Level::Info, "Installation process already running, skipping");
const READY: (Level, &str) =
    (Level::Debug, "Dependencies already installed and up to date, skipping installation");
const MISSING: (Level, &str) =
    (Level::Debug, "Dependencies missing or outdated, starting installation process");
const INSTALLED: (Level, &str) = (Level::Debug, "Installation completed, marked as installed");
const UNLINKED: (Level, &str) = (Level::Warn, "cli link sync failed: no permission");

fn install(host: &mut FakeHost) -> Result<(), String> {
    run(host, InstallStage::ReadingStatus, InstallStage::request, install_dependencies)
}

fn check(host: &mut FakeHost) -> Result<Option<LatestDshPkg>, String> {
    run(host, CheckStage::ProbingDsh, CheckStage::request, check_dsh_update)
}

fn update(host: &mut FakeHost, patch: SettingPatch) -> Result<Setting, String> {
    run(host, UpdateStage::Reading(patch), UpdateStage::request, update_app_config)
}

fn no_patch() -> SettingPatch {
    SettingPatch {
        port: None,
        auto_start: None,
        http_proxy: None,
        dsh_environment: None,
        dsh_arguments: None,
        cli_link_enabled: None,
    }
}

fn full_patch() -> SettingPatch {
    SettingPatch {
        port: Some(9000),
        auto_start: Some(true),
        http_proxy: Some(text("proxy:1")),
        dsh_environment: Some(vec![DshEnvironmentVariable {
            name: text("KEY"),
            value: text("value"),
        }]),
        dsh_arguments: Some(vec![text("--verbose")]),
        cli_link_enabled: Some(true),
    }
}

#[test]
fn second_installation_is_skipped() {
    let mut host = host();
    host.status = Status::Installing;
    host.node = false;
    assert_eq!(install(&mut host), Ok(()));
    assert_eq!(host.trace, vec!["ReadStatus", "Log"]);
    assert_eq!(host.journal(), vec![RUNNING]);
    assert_eq!(host.setting, setting());
}

#[test]
fn ready_setup_only_marks_and_syncs() {
    let mut host = host();
    assert_eq!(install(&mut host), Ok(()));
    assert_eq!(
        host.trace,
        vec![
            "ReadStatus",
            "CheckInstalled",
            "CheckInstalled",
            "FetchLatest",
            "ReadCommit",
            "CheckInstalled",
            "Log",
            "ReadSetting",
            "StoreSetting",
            "ReadSetting",
            "RemoveCliLink",
        ]
    );
    assert!(host.setting.installed);
    host.trace.clear();
    assert_eq!(install(&mut host), Ok(()));
    assert_eq!(host.asked("StoreSetting"), 0);
    assert_eq!(host.asked("RunInstall"), 0);
    assert_eq!(host.asked("MarkInstalling"), 0);
    assert_eq!(host.asked("EmitStatus"), 0);
    assert_eq!(host.journal(), vec![READY, READY]);
}

#[test]
fn installation_is_marked_and_told_before_it_runs() {
    let mut host = host();
    host.pnpm = false;
    host.setting.cli_link_enabled = true;
    assert_eq!(install(&mut host), Ok(()));
    assert_eq!(
        host.trace,
        vec![
            "ReadStatus",
            "CheckInstalled",
            "CheckInstalled",
            "FetchLatest",
            "ReadCommit",
            "CheckInstalled",
            "Log",
            "MarkInstalling",
            "EmitStatus",
            "RunInstall",
            "Log",
            "ReadSetting",
            "StoreSetting",
            "ReadSetting",
            "EnsureCliLink",
        ]
    );
    assert!(host.linked);
    assert_eq!(host.journal(), vec![MISSING, INSTALLED]);
}

#[test]
fn missing_part_is_installed() {
    for missing in [Component::Nodejs, Component::Dsh, Component::Pnpm] {
        let mut host = host();
        match missing {
            Component::Nodejs => host.node = false,
            Component::Dsh => host.dsh = false,
            Component::Pnpm => host.pnpm = false,
        }
        host.setting.cli_link_enabled = true;
        assert_eq!(install(&mut host), Ok(()));
        assert_eq!(host.asked("RunInstall"), 1);
        assert!(host.trace.len() <= 15);
        assert_eq!(host.asked("ReadCommit"), if missing == Component::Dsh { 0 } else { 1 });
        assert!(host.setting.installed);
        assert!(host.linked);
        assert_eq!(host.status, Status::Installing);
    }
}

#[test]
fn outdated_commit_is_reinstalled() {
    let mut host = host();
    host.commit = Some(text("c1"));
    assert_eq!(install(&mut host), Ok(()));
    assert_eq!(host.asked("RunInstall"), 1);
    let mut host = self::host();
    host.commit = None;
    assert_eq!(install(&mut host), Ok(()));
    assert_eq!(host.asked("RunInstall"), 1);
}

#[test]
fn offline_start_keeps_the_local_installation() {
    let mut host = host();
    host.latest = Err(text("rate limited"));
    host.commit = None;
    assert_eq!(install(&mut host), Ok(()));
    assert_eq!(host.asked("RunInstall"), 0);
    assert_eq!(host.asked("ReadCommit"), 0);
    let warning = "Failed to check latest dsh release info, keeping local install: rate limited";
    assert_eq!(host.journal(), vec![(Level::Warn, warning), READY]);
    assert_eq!(&host.trace[3..6], ["FetchLatest", "Log", "CheckInstalled"]);
    host.dsh = false;
    host.journal.clear();
    assert_eq!(install(&mut host), Ok(()));
    assert_eq!(host.asked("RunInstall"), 1);
    assert_eq!(host.journal(), vec![(Level::Warn, warning), MISSING, INSTALLED]);
}

#[test]
fn failed_installation_stores_nothing() {
    let mut host = host();
    host.pnpm = false;
    host.install_error = Some(text("disk full"));
    assert_eq!(install(&mut host), Err(text("disk full")));
    assert_eq!(host.setting, setting());
    assert_eq!(host.asked("StoreSetting"), 0);
    assert_eq!(host.asked("EnsureCliLink"), 0);
    assert_eq!(host.asked("RemoveCliLink"), 0);
    assert_eq!(host.journal(), vec![MISSING]);
}

#[test]
fn failed_sync_leaves_one_warning() {
    let mut host = host();
    host.setting.installed = true;
    host.setting.cli_link_enabled = true;
    host.link_error = Some(text("no permission"));
    let synced = run(&mut host, SyncStage::Reading, SyncStage::request, sync_cli_link);
    assert_eq!(synced, Ok(()));
    assert_eq!(host.trace, vec!["ReadSetting", "EnsureCliLink", "Log"]);
    assert_eq!(host.journal(), vec![UNLINKED]);
    assert!(host.setting.cli_link_enabled);
    assert!(!host.linked);
    host.link_error = None;
    host.setting.cli_link_enabled = false;
    let synced = run(&mut host, SyncStage::Reading, SyncStage::request, sync_cli_link);
    assert_eq!(synced, Ok(()));
    assert_eq!(host.journal.len(), 1);
}

#[test]
fn failed_sync_does_not_fail_the_installation() {
    let mut host = host();
    host.node = false;
    host.link_error = Some(text("no permission"));
    assert_eq!(install(&mut host), Ok(()));
    assert!(host.setting.installed);
    assert_eq!(host.asked("RemoveCliLink"), 1);
    assert_eq!(host.trace.len(), 16);
    assert_eq!(host.journal(), vec![MISSING, INSTALLED, UNLINKED]);
}

#[test]
fn harness_is_current_by_commit() {
    let latest = Some(LatestDshPkg { tag: text("v2"), commit: text("c2") });
    assert!(dsh_up_to_date(true, &Some(text("c2")), &latest));
    assert!(!dsh_up_to_date(true, &Some(text("c1")), &latest));
    assert!(!dsh_up_to_date(true, &None, &latest));
    assert!(!dsh_up_to_date(false, &Some(text("c2")), &latest));
    assert!(dsh_up_to_date(true, &None, &None));
    assert!(!dsh_up_to_date(false, &None, &None));
}

#[test]
fn check_without_installation_offers_nothing() {
    let mut host = host();
    host.dsh = false;
    host.verdict = UpdateCheck::UpdateAvailable;
    assert_eq!(check(&mut host), Ok(None));
    assert_eq!(host.trace, vec!["CheckInstalled"]);
}

#[test]
fn check_hands_the_query_error_on() {
    let mut host = host();
    host.latest = Err(text("offline"));
    assert_eq!(check(&mut host), Err(text("offline")));
    assert!(host.journal.is_empty());
}

#[test]
fn check_follows_the_verdict() {
    let mut host = host();
    assert_eq!(check(&mut host), Ok(None));
    assert_eq!(host.asked("FetchTags"), 0);
    host.verdict = UpdateCheck::UpdateAvailable;
    let offered = check(&mut host).unwrap().unwrap();
    assert_eq!(offered, LatestDshPkg { tag: text("v2"), commit: text("c2") });
    assert_eq!(host.asked("RecordCommit"), 0);
    assert_eq!(host.asked("MarkInstalling"), 0);
    assert_eq!(host.asked("EmitStatus"), 0);
    assert!(host.journal.is_empty());
}

#[test]
fn check_asks_for_tags_where_the_record_has_none() {
    let mut host = host();
    host.tag = None;
    assert_eq!(check(&mut host), Ok(None));
    assert_eq!(host.asked("FetchTags"), 1);
    host.tags = Err(text("offline"));
    assert_eq!(check(&mut host), Ok(None));
    assert_eq!(host.asked("FetchTags"), 2);
}

#[test]
fn check_heals_a_stale_record() {
    let mut host = host();
    host.commit = Some(text("c1"));
    host.tag = None;
    host.verdict = UpdateCheck::HealUpToDate;
    assert_eq!(check(&mut host), Ok(None));
    assert_eq!(host.commit, Some(text("c2")));
    assert_eq!(host.tag, Some(text("v2")));
    let note =
        "Installed Harness files already at latest release, healing stale record: v2 (c2)";
    assert_eq!(host.journal(), vec![(Level::Info, note)]);
    assert_eq!(
        &host.trace[host.trace.len() - 4..],
        ["ResolveUpdate", "Log", "RecordCommit", "RecordTag"]
    );
    assert_eq!(install(&mut host), Ok(()));
    assert_eq!(host.asked("RunInstall"), 0);
}

#[test]
fn healed_record_is_passed_on_to_the_next_check() {
    let mut host = host();
    host.commit = Some(text("c1"));
    host.tag = None;
    host.verdict = UpdateCheck::HealUpToDate;
    assert_eq!(check(&mut host), Ok(None));
    assert_eq!(host.asked("FetchTags"), 1);
    host.trace.clear();
    host.verdict = UpdateCheck::UpToDate;
    assert_eq!(check(&mut host), Ok(None));
    assert_eq!(
        host.trace,
        vec![
            "CheckInstalled",
            "FetchLatest",
            "ReadCommit",
            "ReadTag",
            "ReadVersion",
            "ResolveUpdate",
        ]
    );
    assert_eq!(host.commit, Some(text("c2")));
    assert_eq!(host.tag, Some(text("v2")));
    host.verdict = UpdateCheck::HealUpToDate;
    assert_eq!(check(&mut host), Ok(None));
    assert_eq!(host.commit, Some(text("c2")));
    assert_eq!(host.tag, Some(text("v2")));
}

#[test]
fn update_applies_every_value() {
    let mut host = host();
    let stored = update(&mut host, full_patch()).unwrap();
    assert_eq!(
        stored,
        Setting {
            port: 9000,
            auto_start: true,
            http_proxy: text("http://proxy:1"),
            dsh_environment: vec![DshEnvironmentVariable {
                name: text("KEY"),
                value: text("value"),
            }],
            dsh_arguments: vec![text("--verbose")],
            cli_link_enabled: true,
            ..setting()
        }
    );
    assert_eq!(host.setting, stored);
    assert!(host.linked);
    assert_eq!(
        host.trace,
        vec![
            "ReadSetting",
            "NormalizeHttpProxy",
            "ValidateEnvironment",
            "ValidateArguments",
            "EnsureCliLink",
            "StoreSetting",
        ]
    );
    host.trace.clear();
    let read = run(&mut host, ReadConfigStage::Reading, ReadConfigStage::request, get_app_config);
    assert_eq!(read, Ok(stored.clone()));
    assert_eq!(host.trace, vec!["ReadSetting"]);
    assert_eq!(host.setting, stored);
}

#[test]
fn empty_update_changes_nothing() {
    let mut host = host();
    assert_eq!(update(&mut host, no_patch()), Ok(setting()));
    assert_eq!(host.setting, setting());
    assert_eq!(host.trace, vec!["ReadSetting", "StoreSetting"]);
}

#[test]
fn update_can_switch_the_link_off() {
    let mut host = host();
    host.linked = true;
    host.setting.cli_link_enabled = true;
    let patch = SettingPatch { cli_link_enabled: Some(false), ..no_patch() };
    assert!(!update(&mut host, patch).unwrap().cli_link_enabled);
    assert!(!host.linked);
    assert!(!host.setting.cli_link_enabled);
}

#[test]
fn zero_port_is_an_error() {
    let mut host = host();
    let patch = SettingPatch { port: Some(0), ..full_patch() };
    assert_eq!(update(&mut host, patch), Err(text("port must be a positive number")));
    assert_eq!(host.trace, vec!["ReadSetting"]);
    assert_eq!(host.setting, setting());
}

#[test]
fn refused_value_stores_nothing() {
    for refused in 0..4 {
        let mut host = host();
        let message = Some(text("refused"));
        match refused {
            0 => host.proxy_error = message,
            1 => host.environment_error = message,
            2 => host.arguments_error = message,
            _ => host.link_error = message,
        }
        assert_eq!(update(&mut host, full_patch()), Err(text("refused")));
        assert_eq!(host.setting, setting());
        assert_eq!(host.asked("StoreSetting"), 0);
        assert_eq!(host.trace.len(), refused + 2);
        assert!(host.journal.is_empty());
        let patch = SettingPatch { port: Some(9000), auto_start: Some(true), ..no_patch() };
        assert!(update(&mut host, patch).is_ok());
    }
}

#[test]
fn repeated_update_changes_nothing() {
    let mut host = host();
    let first = update(&mut host, full_patch()).unwrap();
    assert_eq!(update(&mut host, full_patch()), Ok(first));
    assert_eq!(host.setting.http_proxy, "http://proxy:1");
    assert!(host.linked);
}

#[test]
fn updates_of_different_values_merge() {
    let mut apart = host();
    let one = SettingPatch {
        auto_start: None,
        dsh_arguments: None,
        cli_link_enabled: None,
        ..full_patch()
    };
    let other = SettingPatch {
        port: None,
        http_proxy: None,
        dsh_environment: None,
        ..full_patch()
    };
    update(&mut apart, one).unwrap();
    let ended_apart = update(&mut apart, other).unwrap();
    let mut together = host();
    assert_eq!(update(&mut together, full_patch()), Ok(ended_apart));
    assert_eq!(together.setting, apart.setting);
    assert!(together.linked && apart.linked);
}

#[test]
fn updates_of_different_values_commute() {
    let one = || SettingPatch {
        port: Some(9000),
        http_proxy: Some(text("proxy:1")),
        cli_link_enabled: Some(true),
        ..no_patch()
    };
    let other = || SettingPatch {
        auto_start: Some(true),
        dsh_arguments: Some(vec![text("--verbose")]),
        ..no_patch()
    };
    let mut here = host();
    update(&mut here, one()).unwrap();
    let ended_here = update(&mut here, other()).unwrap();
    let mut there = host();
    update(&mut there, other()).unwrap();
    let ended_there = update(&mut there, one()).unwrap();
    assert_eq!(ended_here, ended_there);
    assert_eq!(here.setting, there.setting);
    assert!(here.linked && there.linked);
    assert_eq!(here.setting.port, 9000);
    assert!(here.setting.auto_start);
}

#[test]
fn language_is_stored_and_switched() {
    let mut host = host();
    let start = LanguageStage::Reading(text("en-US"));
    assert_eq!(run(&mut host, start, LanguageStage::request, set_language), Ok(()));
    assert_eq!(host.lang, Lang::En);
    assert_eq!(host.setting, Setting { language: text("en-US"), ..setting() });
    assert_eq!(host.trace, vec!["ReadSetting", "StoreSetting", "ApplyLanguage"]);
    assert_eq!(language_for(&text("en")), Lang::En);
    assert_eq!(language_for(&text("EN")), Lang::Zh);
    assert_eq!(language_for(&text("en-GB")), Lang::Zh);
    assert_eq!(language_for(&text("")), Lang::Zh);
}

#[test]
fn skipping_marks_the_guide_done() {
    let mut host = host();
    let skipped =
        run(&mut host, SkipStage::Reading, SkipStage::request, skip_preinstall_plugins);
    assert_eq!(skipped, Ok(()));
    assert_eq!(host.setting, Setting { preinstall_done: true, ..setting() });
}

#[test]
fn plugins_close_the_guide_only_on_success() {
    let ids = || PluginStage::Installing(vec![text("a"), text("b")]);
    let mut host = host();
    host.plugin_error = Some(text("cancelled"));
    let failed = run(&mut host, ids(), PluginStage::request, install_preinstall_plugins);
    assert_eq!(failed, Err(text("cancelled")));
    assert_eq!(host.setting, setting());
    host.plugin_error = None;
    let installed = run(&mut host, ids(), PluginStage::request, install_preinstall_plugins);
    assert_eq!(installed, Ok(()));
    assert_eq!(host.setting, Setting { preinstall_done: true, ..setting() });
}

#[test]
fn settings_changed_during_the_plugins_are_kept() {
    let mut host = host();
    host.port_during_plugins = Some(9000);
    let start = PluginStage::Installing(vec![text("a"), text("b")]);
    let installed = run(&mut host, start, PluginStage::request, install_preinstall_plugins);
    assert_eq!(installed, Ok(()));
    assert_eq!(host.setting, Setting { port: 9000, preinstall_done: true, ..setting() });
}

#[test]
fn only_listed_repositories_open() {
    let start = || RepoStage::LookingUp(text("plugin"));
    let mut host = host();
    let refused = run(&mut host, start(), RepoStage::request, open_preinstall_repo);
    assert_eq!(refused, Err(text("PREINSTALL_INVALID_ID: plugin")));
    assert!(host.opened.is_empty());
    host.repo = Some(text("https://example.org/plugin"));
    let opened = run(&mut host, start(), RepoStage::request, open_preinstall_repo);
    assert_eq!(opened, Ok(()));
    assert_eq!(host.opened, vec!["https://example.org/plugin"]);
    host.open_error = Some(text("no browser"));
    let failed = run(&mut host, start(), RepoStage::request, open_preinstall_repo);
    assert_eq!(failed, Err(text("no browser")));
}

#[test]
fn service_is_addressed_by_the_configured_port() {
    let mut host = host();
    let patch = SettingPatch { port: Some(9000), ..no_patch() };
    update(&mut host, patch).unwrap();
    let health = run(&mut host, HealthStage::Reading, HealthStage::request, proxy_health_check);
    assert_eq!(health, Ok(text("healthy")));
    host.health = Err(text("refused"));
    let health = run(&mut host, HealthStage::Reading, HealthStage::request, proxy_health_check);
    assert_eq!(health, Err(text("refused")));
    let info = run(&mut host, RuntimeStage::Reading, RuntimeStage::request, get_runtime_info);
    assert_eq!(info, Ok(9000));
    let opened = run(&mut host, BrowserStage::Reading, BrowserStage::request, open_in_browser);
    assert_eq!(opened, Ok(()));
    assert_eq!(host.opened, vec!["http://localhost:9000"]);
    host.open_error = Some(text("no browser"));
    let failed = run(&mut host, BrowserStage::Reading, BrowserStage::request, open_in_browser);
    assert_eq!(failed, Err(text("no browser")));
    let copied = run(&mut host, CopyStage::Reading, CopyStage::request, copy_service_url);
    assert_eq!(copied, Ok(()));
    assert_eq!(host.clipboard, "http://localhost:9000");
    assert_eq!(host.opened.last(), Some(&host.clipboard));
    host.clipboard_error = Some(text("busy"));
    let failed = run(&mut host, CopyStage::Reading, CopyStage::request, copy_service_url);
    assert_eq!(failed, Err(text("busy")));
}

#[test]
fn clipboard_failure_is_named() {
    let start = || ClipboardStage::Writing(text("copied"));
    let mut host = host();
    let written = run(&mut host, start(), ClipboardStage::request, write_system_clipboard);
    assert_eq!(written, Ok(()));
    assert_eq!(host.clipboard, "copied");
    host.clipboard_error = Some(text("busy"));
    let failed = run(&mut host, start(), ClipboardStage::request, write_system_clipboard);
    assert_eq!(failed, Err(text("CLIPBOARD_WRITE_FAILED: busy")));
}

#[test]
fn reveal_failure_is_named() {
    let start = || RevealStage::Revealing(text("/tmp/session.log"));
    let mut host = host();
    assert_eq!(run(&mut host, start(), RevealStage::request, reveal_in_folder), Ok(()));
    host.reveal_error = Some(text("gone"));
    let failed = run(&mut host, start(), RevealStage::request, reveal_in_folder);
    assert_eq!(failed, Err(text("REVEAL_FAILED: gone")));
}

#[test]
fn data_directory_opens_with_the_platform_program() {
    assert_eq!(file_manager(Platform::Windows), "explorer");
    assert_eq!(file_manager(Platform::MacOs), "open");
    assert_eq!(file_manager(Platform::Other), "xdg-open");
    let start = DataDirStage::Locating(Platform::MacOs);
    let mut host = host();
    assert_eq!(run(&mut host, start, DataDirStage::request, reveal_data_dir), Ok(()));
    assert_eq!(host.spawned, vec!["open"]);
    host.data_dir_error = Some(text("unknown"));
    let failed = run(&mut host, start, DataDirStage::request, reveal_data_dir);
    assert_eq!(failed, Err(text("unknown")));
    assert_eq!(host.spawned.len(), 1);
}

fn report(host: &mut FakeHost, detail: &str) -> Result<(), String> {
    run(
        host,
        ReportStage::Logging(text(detail)),
        ReportStage::request,
        report_window_drag_injection_failure,
    )
}

fn read(host: &mut FakeHost, max_bytes: Option<usize>) -> Result<String, String> {
    run(host, ReadLogStage::Checking(max_bytes), ReadLogStage::request, read_service_logs)
}

#[test]
fn report_is_one_line_at_the_end_of_the_log() {
    let mut host = host();
    host.log = Some(text("started\n"));
    assert_eq!(report(&mut host, "slot a\r\nslot b"), Ok(()));
    let line = "[desktop-window-drag] injection failed: slot a  slot b\n";
    assert_eq!(host.log, Some(format!("started\n{line}")));
    assert_eq!(read(&mut host, Some(line.len())), Ok(text(line)));
    assert_eq!(
        failure_entry("x\ny"),
        "[desktop-window-drag] injection failed: x y"
    );
}

#[test]
fn report_never_fails() {
    let entry = (Level::Error, text("[desktop-window-drag] injection failed: a"));
    let mut host = host();
    host.log_has_parent = false;
    assert_eq!(report(&mut host, "a"), Ok(()));
    assert_eq!(host.trace, vec!["Log", "LogHasParent"]);
    assert_eq!(host.journal, vec![entry.clone()]);
    host.log_has_parent = true;
    host.log_dir_error = Some(text("read only"));
    assert_eq!(report(&mut host, "a"), Ok(()));
    assert_eq!(host.asked("AppendLog"), 0);
    assert_eq!(host.journal, vec![entry.clone(); 2]);
    host.log_dir_error = None;
    host.log_error = Some(text("read only"));
    assert_eq!(report(&mut host, "a"), Ok(()));
    assert_eq!(host.log, None);
    assert_eq!(host.journal, vec![entry.clone(); 3]);
    host.log_error = None;
    host.trace.clear();
    assert_eq!(report(&mut host, "a"), Ok(()));
    assert_eq!(host.trace, vec!["Log", "LogHasParent", "CreateLogDir", "AppendLog"]);
    assert_eq!(host.log, Some(text("[desktop-window-drag] injection failed: a\n")));
    assert_eq!(host.journal, vec![entry; 4]);
}

#[test]
fn log_is_read_from_its_end() {
    let mut host = host();
    assert_eq!(read(&mut host, None), Ok(text("")));
    assert_eq!(host.trace, vec!["LogExists"]);
    host.log = Some(text("0123456789"));
    assert_eq!(read(&mut host, None), Ok(text("0123456789")));
    assert_eq!(read(&mut host, Some(10)), Ok(text("0123456789")));
    assert_eq!(read(&mut host, Some(3)), Ok(text("789")));
    assert_eq!(read(&mut host, Some(0)), Ok(text("")));
    host.log_error = Some(text("not UTF-8"));
    assert_eq!(read(&mut host, None), Err(text("not UTF-8")));
}

#[test]
fn log_is_read_up_to_the_default_limit() {
    let mut host = host();
    host.log = Some("x".repeat(DEFAULT_LOG_BYTES + 1));
    assert_eq!(DEFAULT_LOG_BYTES, 64 * 1024);
    assert_eq!(read(&mut host, None).unwrap().len(), 65536);
}

#[test]
fn cut_inside_a_character_is_told() {
    let reading = ReadLogStage::Reading(Some(4));
    let log = |s: &str| Reply::TextOutcome(Ok(text(s)));
    assert!(!reading.can_go_on(&log("日志")));
    assert!(ReadLogStage::Reading(Some(3)).can_go_on(&log("日志")));
    assert!(reading.can_go_on(&log("日")));
    assert!(reading.can_go_on(&Reply::TextOutcome(Err(text("gone")))));
    assert_eq!(
        read_service_logs(ReadLogStage::Reading(Some(3)), log("日志")),
        Turn::Return(text("志"))
    );
    assert_eq!(try_read_service_logs(reading, log("日志")), None);
    assert_eq!(
        try_read_service_logs(ReadLogStage::Reading(Some(3)), log("日志")),
        Some(Turn::Return(text("志")))
    );
    assert_eq!(
        try_read_service_logs(ReadLogStage::Checking(Some(4)), Reply::Flag(true)),
        Some(Turn::Ask(reading))
    );
    assert_eq!(
        try_read_service_logs(reading, Reply::TextOutcome(Err(text("gone")))),
        Some(Turn::Fail(text("gone")))
    );
}

#[test]
fn larger_limit_adds_older_text() {
    let mut host = host();
    host.log = Some(text("first\nsecond\nthird\n"));
    let mut last = text("");
    for limit in 0..30 {
        let longer = read(&mut host, Some(limit)).unwrap();
        assert!(longer.ends_with(&last));
        last = longer;
    }
    assert_eq!(Some(last), host.log);
}

#[test]
fn cleared_log_is_empty() {
    let mut host = host();
    host.log = Some(text("old"));
    let cleared =
        run(&mut host, ClearLogStage::Clearing, ClearLogStage::request, clear_service_logs);
    assert_eq!(cleared, Ok(()));
    assert_eq!(host.log, Some(text("")));
    assert_eq!(read(&mut host, None), Ok(text("")));
    host.log_error = Some(text("read only"));
    let failed =
        run(&mut host, ClearLogStage::Clearing, ClearLogStage::request, clear_service_logs);
    assert_eq!(failed, Err(text("read only")));
}

#[test]
fn reply_of_the_wrong_kind_repeats_the_request() {
    let turn = install_dependencies(InstallStage::ProbingNode, Reply::Done);
    assert_eq!(turn, Turn::Ask(InstallStage::ProbingNode));
    let turn = sync_cli_link(SyncStage::Linking(true), Reply::Flag(true));
    assert_eq!(turn, Turn::Ask(SyncStage::Linking(true)));
    let turn = skip_preinstall_plugins(SkipStage::Reading, Reply::Done);
    assert_eq!(turn, Turn::Ask(SkipStage::Reading));
}
