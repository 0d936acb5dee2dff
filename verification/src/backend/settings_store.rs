//! What the settings store writes and reads back: the connection fields
//! are fixed to the deployment's server, everything else is normalized.
//!
//! Reading and writing `gui_settings.json` is the caller's job; this module
//! holds the transformations applied around it.

use vstd::prelude::*;

use crate::backend::launch_options::{
    self, LaunchOptions, LaunchOptionsView, DEFAULT_AUTH_TYPE, DEFAULT_CLIENT_DATA_FILE,
    DEFAULT_EIP_AUTO_OPEN, DEFAULT_LOGIN_DOMAIN, DEFAULT_PORT, DEFAULT_PROTOCOL,
    DEFAULT_SECONDARY_DNS_SERVER, DEFAULT_SERVER,
};
use crate::backend::platform::TargetOs;
use crate::text;

verus! {

pub const SETTINGS_FILE_NAME: &'static str = "gui_settings.json";

/// The connection fields every stored setting is forced to.
pub open spec fn fixed_spec(o: LaunchOptionsView) -> LaunchOptionsView {
    LaunchOptionsView {
        protocol: DEFAULT_PROTOCOL@,
        server: DEFAULT_SERVER@,
        port: DEFAULT_PORT,
        secondary_dns_server: DEFAULT_SECONDARY_DNS_SERVER@,
        auth_type: DEFAULT_AUTH_TYPE@,
        login_domain: DEFAULT_LOGIN_DOMAIN@,
        client_data_file: DEFAULT_CLIENT_DATA_FILE@,
        ..o
    }
}

/// The settings of a fresh installation on `os`.
pub open spec fn default_spec(os: TargetOs) -> LaunchOptionsView {
    LaunchOptionsView {
        eip_auto_open: DEFAULT_EIP_AUTO_OPEN,
        tun_mode: true,
        proxybridge_processes: launch_options::default_processes_spec(os),
        ..fixed_spec(launch_options::normalize_spec(launch_options::empty_options()))
    }
}

/// What is written to disk for `o`.
pub open spec fn prepare_spec(o: LaunchOptionsView) -> LaunchOptionsView {
    fixed_spec(launch_options::normalize_spec(o))
}

/// What is read back from a parsed file: normalized, the fixed fields
/// forced, and the defaults for the two keys the file may lack.
pub open spec fn loaded_spec(
    o: LaunchOptionsView,
    has_eip_auto_open: bool,
    has_proxybridge_processes: bool,
    os: TargetOs,
) -> LaunchOptionsView {
    let p = prepare_spec(o);
    LaunchOptionsView {
        eip_auto_open: if has_eip_auto_open {
            p.eip_auto_open
        } else {
            DEFAULT_EIP_AUTO_OPEN
        },
        proxybridge_processes: if has_proxybridge_processes {
            p.proxybridge_processes
        } else {
            launch_options::default_processes_spec(os)
        },
        ..p
    }
}

/// Where the settings live: `gui_settings.json` in the application
/// directory. Reading and writing the file, under a lock, is the
/// application's part.
#[derive(Debug, Clone, PartialEq, Eq)]
pub struct UserSettingsStore {
    pub path: String,
}

impl UserSettingsStore {
    /// The store of the application directory `app_dir` on `os`.
    pub fn new(app_dir: &str, os: TargetOs) -> (r: Self)
        ensures
            r.path@ == crate::backend::paths::join_for(os, app_dir@, SETTINGS_FILE_NAME@),
    {
        UserSettingsStore { path: crate::backend::paths::join_under(os, app_dir, SETTINGS_FILE_NAME) }
    }
}

/// Forces the connection fields to the deployment's fixed values.
pub fn apply_fixed_defaults(options: LaunchOptions) -> (r: LaunchOptions)
    ensures
        r@ == fixed_spec(options@),
{
    let mut options = options;
    options.protocol = DEFAULT_PROTOCOL.to_owned();
    options.server = DEFAULT_SERVER.to_owned();
    options.port = DEFAULT_PORT;
    options.secondary_dns_server = DEFAULT_SECONDARY_DNS_SERVER.to_owned();
    options.auth_type = DEFAULT_AUTH_TYPE.to_owned();
    options.login_domain = DEFAULT_LOGIN_DOMAIN.to_owned();
    options.client_data_file = DEFAULT_CLIENT_DATA_FILE.to_owned();
    options
}

/// The settings of a fresh installation: normalized empty options with the
/// fixed connection fields, EIP auto-open and TUN mode on, and the
/// platform's default ProxyBridge process list.
pub fn default_launch_options(os: TargetOs) -> (r: LaunchOptions)
    ensures
        r@ == default_spec(os),
{
    let mut defaults = apply_fixed_defaults(
        launch_options::normalize_launch_options(LaunchOptions::default()),
    );
    defaults.eip_auto_open = DEFAULT_EIP_AUTO_OPEN;
    defaults.tun_mode = true;
    defaults.proxybridge_processes = launch_options::default_proxybridge_processes(os);
    defaults
}

/// What `save` writes: the options normalized, with the fixed fields.
pub fn prepare_for_save(options: LaunchOptions) -> (r: LaunchOptions)
    ensures
        r@ == prepare_spec(options@),
{
    apply_fixed_defaults(launch_options::normalize_launch_options(options))
}

/// What `load` returns for a parsed settings file: `options` normalized
/// with the fixed fields, EIP auto-open on when the file has no
/// `eipAutoOpen` key, and the platform default process list when it has no
/// `proxybridgeProcesses` key (an explicitly empty list is kept).
pub fn finish_loaded_settings(
    options: LaunchOptions,
    has_eip_auto_open: bool,
    has_proxybridge_processes: bool,
    os: TargetOs,
) -> (r: LaunchOptions)
    ensures
        r@ == loaded_spec(options@, has_eip_auto_open, has_proxybridge_processes, os),
{
    let mut options = prepare_for_save(options);
    if !has_eip_auto_open {
        options.eip_auto_open = DEFAULT_EIP_AUTO_OPEN;
    }
    if !has_proxybridge_processes {
        options.proxybridge_processes = launch_options::default_proxybridge_processes(os);
    }
    options
}

proof fn lemma_default_is_clean(d: Seq<char>)
    requires
        d.len() > 0,
        !text::is_white_space(d[0]),
        !text::is_white_space(d.last()),
    ensures
        forall|s: Seq<char>|
            launch_options::field_or(launch_options::field_or(s, d), d)
                == #[trigger] launch_options::field_or(s, d),
{
    text::lemma_trim_of_clean(d);
    assert forall|s: Seq<char>|
        launch_options::field_or(launch_options::field_or(s, d), d)
            == #[trigger] launch_options::field_or(s, d) by {
        text::lemma_trim_idempotent(s);
    }
}

proof fn lemma_normalize_list_idempotent(v: Seq<Seq<char>>)
    ensures
        launch_options::normalize_list_spec(launch_options::normalize_list_spec(v))
            == launch_options::normalize_list_spec(v),
    decreases v.len(),
{
    if v.len() > 0 {
        lemma_normalize_list_idempotent(v.drop_last());
        let rest = launch_options::normalize_list_spec(v.drop_last());
        let t = text::trim_seq(v.last());
        text::lemma_trim_idempotent(v.last());
        if t.len() > 0 {
            assert(rest.push(t).drop_last() =~= rest);
        }
    }
}

/// Saving and loading again gives back what was saved: a settings file
/// written from `prepare_for_save(o)` (which has every key) loads as
/// exactly those options, whatever `o` was.
pub proof fn lemma_save_then_load_round_trip(o: LaunchOptionsView, os: TargetOs)
    ensures
        loaded_spec(prepare_spec(o), true, true, os) == prepare_spec(o),
{
    let p = prepare_spec(o);
    reveal_strlit("127.0.0.1:1080");
    reveal_strlit("127.0.0.1:8888");
    lemma_default_is_clean(launch_options::DEFAULT_SOCKS_BIND@);
    lemma_default_is_clean(launch_options::DEFAULT_HTTP_BIND@);
    text::lemma_trim_idempotent(o.username);
    text::lemma_trim_idempotent(o.eip_browser_program);
    lemma_normalize_list_idempotent(o.eip_browser_args);
    lemma_normalize_list_idempotent(o.proxybridge_processes);
    match o.proxybridge_path {
        Some(s) => text::lemma_trim_idempotent(s),
        None => {},
    }
    assert(launch_options::field_or(p.socks_bind, launch_options::DEFAULT_SOCKS_BIND@)
        == p.socks_bind);
    assert(launch_options::field_or(p.http_bind, launch_options::DEFAULT_HTTP_BIND@)
        == p.http_bind);
}

/// Normalizing already normalized options changes none of their fields
/// but the protocol (whose lower-casing is `str::to_lowercase`, of which
/// nothing is stated here).
pub proof fn lemma_normalize_is_stable_except_protocol(o: LaunchOptionsView)
    ensures
        ({
            let n = launch_options::normalize_spec(o);
            let m = launch_options::normalize_spec(n);
            m == LaunchOptionsView { protocol: m.protocol, ..n }
        }),
{
    reveal_strlit("sslvpn.scmcc.com.cn");
    reveal_strlit("127.0.0.1:1080");
    reveal_strlit("127.0.0.1:8888");
    reveal_strlit("223.5.5.5");
    reveal_strlit("auth/psw");
    reveal_strlit("AD");
    reveal_strlit("client_data.json");
    lemma_default_is_clean(DEFAULT_SERVER@);
    lemma_default_is_clean(launch_options::DEFAULT_SOCKS_BIND@);
    lemma_default_is_clean(launch_options::DEFAULT_HTTP_BIND@);
    lemma_default_is_clean(DEFAULT_SECONDARY_DNS_SERVER@);
    lemma_default_is_clean(DEFAULT_AUTH_TYPE@);
    lemma_default_is_clean(DEFAULT_LOGIN_DOMAIN@);
    lemma_default_is_clean(DEFAULT_CLIENT_DATA_FILE@);
    text::lemma_trim_idempotent(o.username);
    text::lemma_trim_idempotent(o.eip_browser_program);
    lemma_normalize_list_idempotent(o.eip_browser_args);
    lemma_normalize_list_idempotent(o.proxybridge_processes);
    match o.proxybridge_path {
        Some(s) => text::lemma_trim_idempotent(s),
        None => {},
    }
    let n = launch_options::normalize_spec(o);
    assert(launch_options::field_or(n.server, DEFAULT_SERVER@) == n.server);
    assert(launch_options::field_or(n.socks_bind, launch_options::DEFAULT_SOCKS_BIND@) == n.socks_bind);
    assert(launch_options::field_or(n.http_bind, launch_options::DEFAULT_HTTP_BIND@) == n.http_bind);
    assert(launch_options::field_or(n.secondary_dns_server, DEFAULT_SECONDARY_DNS_SERVER@) == n.secondary_dns_server);
    assert(launch_options::field_or(n.auth_type, DEFAULT_AUTH_TYPE@) == n.auth_type);
    assert(launch_options::field_or(n.login_domain, DEFAULT_LOGIN_DOMAIN@) == n.login_domain);
    assert(launch_options::field_or(n.client_data_file, DEFAULT_CLIENT_DATA_FILE@) == n.client_data_file);
}

/// Normalizing is idempotent: normalizing normalized options changes
/// nothing. Stated for a protocol in ASCII (every protocol the client
/// accepts is), since of `str::to_lowercase` on other text nothing is
/// stated.
pub proof fn lemma_normalize_is_idempotent(o: LaunchOptionsView)
    requires
        text::is_ascii_seq(o.protocol),
    ensures
        launch_options::normalize_spec(launch_options::normalize_spec(o))
            == launch_options::normalize_spec(o),
{
    lemma_normalize_is_stable_except_protocol(o);
    let n = launch_options::normalize_spec(o);
    let t = text::trim_seq(o.protocol);
    text::lemma_trim_keeps_ascii(o.protocol);
    text::lemma_lower_case_ascii(t);
    let l = text::lower_case(t);
    if l.len() == 0 {
        reveal_strlit("atrust");
        lemma_default_is_clean(DEFAULT_PROTOCOL@);
        let d = DEFAULT_PROTOCOL@;
        assert(text::is_ascii_seq(d));
        text::lemma_lower_case_ascii(d);
        assert(text::ascii_lower_seq(d) =~= d);
        assert(launch_options::normalize_protocol_spec(d) == d);
    } else {
        text::lemma_trim_ends(o.protocol);
        text::lemma_trim_of_clean(l);
        assert(n.protocol == l);
        assert(launch_options::normalize_protocol_spec(l) == l);
    }
    assert(launch_options::normalize_spec(n) == LaunchOptionsView {
        protocol: n.protocol,
        ..n
    });
}

/// Whatever is saved carries the deployment's fixed connection fields.
pub proof fn lemma_saved_settings_are_pinned(o: LaunchOptionsView)
    ensures
        prepare_spec(o).protocol == DEFAULT_PROTOCOL@,
        prepare_spec(o).server == DEFAULT_SERVER@,
        prepare_spec(o).port == DEFAULT_PORT,
        prepare_spec(o).auth_type == DEFAULT_AUTH_TYPE@,
        prepare_spec(o).login_domain == DEFAULT_LOGIN_DOMAIN@,
        prepare_spec(o).client_data_file == DEFAULT_CLIENT_DATA_FILE@,
        prepare_spec(o).secondary_dns_server == DEFAULT_SECONDARY_DNS_SERVER@,
        prepare_spec(o).username == text::trim_seq(o.username),
        prepare_spec(o).password == o.password,
{
}

/// The fields a settings save names; a field left `None` was not named
/// and keeps its stored value.
pub struct SettingsPatch {
    pub protocol: Option<String>,
    pub server: Option<String>,
    pub port: Option<u16>,
    pub username: Option<String>,
    pub password: Option<String>,
    pub socks_bind: Option<String>,
    pub http_bind: Option<String>,
    pub secondary_dns_server: Option<String>,
    pub auth_type: Option<String>,
    pub login_domain: Option<String>,
    pub client_data_file: Option<String>,
    pub eip_auto_open: Option<bool>,
    pub eip_browser_program: Option<String>,
    pub eip_browser_args: Option<Vec<String>>,
    pub tun_mode: Option<bool>,
    pub debug_dump: Option<bool>,
    pub proxybridge_enabled: Option<bool>,
    pub proxybridge_processes: Option<Vec<String>>,
    pub proxybridge_path: Option<String>,
}

/// The value of a named string field, or the stored one.
pub open spec fn pick_str(p: Option<String>, stored: Seq<char>) -> Seq<char> {
    match p {
        Some(s) => s@,
        None => stored,
    }
}

/// The value of a named list field, or the stored one.
pub open spec fn pick_list(p: Option<Vec<String>>, stored: Seq<Seq<char>>) -> Seq<Seq<char>> {
    match p {
        Some(v) => v.deep_view(),
        None => stored,
    }
}

/// The value of a named plain field, or the stored one.
pub open spec fn pick<T>(p: Option<T>, stored: T) -> T {
    match p {
        Some(v) => v,
        None => stored,
    }
}

/// The stored settings with every field the patch names replaced.
pub open spec fn merge_spec(stored: LaunchOptionsView, p: SettingsPatch) -> LaunchOptionsView {
    LaunchOptionsView {
        protocol: pick_str(p.protocol, stored.protocol),
        server: pick_str(p.server, stored.server),
        port: pick(p.port, stored.port),
        username: pick_str(p.username, stored.username),
        password: pick_str(p.password, stored.password),
        socks_bind: pick_str(p.socks_bind, stored.socks_bind),
        http_bind: pick_str(p.http_bind, stored.http_bind),
        secondary_dns_server: pick_str(p.secondary_dns_server, stored.secondary_dns_server),
        auth_type: pick_str(p.auth_type, stored.auth_type),
        login_domain: pick_str(p.login_domain, stored.login_domain),
        client_data_file: pick_str(p.client_data_file, stored.client_data_file),
        eip_auto_open: pick(p.eip_auto_open, stored.eip_auto_open),
        eip_browser_program: pick_str(p.eip_browser_program, stored.eip_browser_program),
        eip_browser_args: pick_list(p.eip_browser_args, stored.eip_browser_args),
        tun_mode: pick(p.tun_mode, stored.tun_mode),
        debug_dump: pick(p.debug_dump, stored.debug_dump),
        proxybridge_enabled: pick(p.proxybridge_enabled, stored.proxybridge_enabled),
        proxybridge_processes: pick_list(p.proxybridge_processes, stored.proxybridge_processes),
        proxybridge_path: match p.proxybridge_path { Some(s) => Some(s@), None => stored.proxybridge_path },
    }
}

fn take_str(p: Option<String>, stored: String) -> (r: String)
    ensures
        r@ == pick_str(p, stored@),
{
    match p {
        Some(s) => s,
        None => stored,
    }
}

fn take_list(p: Option<Vec<String>>, stored: Vec<String>) -> (r: Vec<String>)
    ensures
        r.deep_view() == pick_list(p, stored.deep_view()),
{
    match p {
        Some(v) => v,
        None => stored,
    }
}

fn take<T>(p: Option<T>, stored: T) -> (r: T)
    ensures
        r == pick(p, stored),
{
    match p {
        Some(v) => v,
        None => stored,
    }
}

/// Merges a save into the stored settings: the fields the save names
/// replace the stored ones, the others are kept.
pub fn merge_settings(stored: LaunchOptions, patch: SettingsPatch) -> (r: LaunchOptions)
    ensures
        r@ == merge_spec(stored@, patch),
{
    let r = LaunchOptions {
        protocol: take_str(patch.protocol, stored.protocol),
        server: take_str(patch.server, stored.server),
        port: take(patch.port, stored.port),
        username: take_str(patch.username, stored.username),
        password: take_str(patch.password, stored.password),
        socks_bind: take_str(patch.socks_bind, stored.socks_bind),
        http_bind: take_str(patch.http_bind, stored.http_bind),
        secondary_dns_server: take_str(patch.secondary_dns_server, stored.secondary_dns_server),
        auth_type: take_str(patch.auth_type, stored.auth_type),
        login_domain: take_str(patch.login_domain, stored.login_domain),
        client_data_file: take_str(patch.client_data_file, stored.client_data_file),
        eip_auto_open: take(patch.eip_auto_open, stored.eip_auto_open),
        eip_browser_program: take_str(patch.eip_browser_program, stored.eip_browser_program),
        eip_browser_args: take_list(patch.eip_browser_args, stored.eip_browser_args),
        tun_mode: take(patch.tun_mode, stored.tun_mode),
        debug_dump: take(patch.debug_dump, stored.debug_dump),
        proxybridge_enabled: take(patch.proxybridge_enabled, stored.proxybridge_enabled),
        proxybridge_processes: take_list(patch.proxybridge_processes, stored.proxybridge_processes),
        proxybridge_path: match patch.proxybridge_path { Some(s) => Some(s), None => stored.proxybridge_path },
    };
    r
}

/// A save that names no field leaves the stored settings as they are, and
/// a named field always takes the saved value.
pub proof fn lemma_merge_replaces_only_named_fields(stored: LaunchOptionsView, p: SettingsPatch)
    ensures
        (p.protocol is None && p.server is None && p.port is None && p.username is None
            && p.password is None && p.socks_bind is None && p.http_bind is None
            && p.secondary_dns_server is None && p.auth_type is None && p.login_domain is None
            && p.client_data_file is None && p.eip_auto_open is None && p.eip_browser_program is None
            && p.eip_browser_args is None && p.tun_mode is None && p.debug_dump is None
            && p.proxybridge_enabled is None && p.proxybridge_processes is None
            && p.proxybridge_path is None) ==> merge_spec(stored, p) == stored,
        p.eip_browser_program matches Some(s) ==> merge_spec(stored, p).eip_browser_program == s@,
        p.password matches Some(s) ==> merge_spec(stored, p).password == s@,
        p.tun_mode matches Some(b) ==> merge_spec(stored, p).tun_mode == b,
{
}

} // verus!
