//! Launch options for the `zju-connect` core: normalization, validation and
//! the command line built from them.

use vstd::prelude::*;

use crate::backend::platform::TargetOs;
use crate::text;

verus! {

pub const DEFAULT_PROTOCOL: &'static str = "atrust";
pub const DEFAULT_SERVER: &'static str = "sslvpn.scmcc.com.cn";
pub const DEFAULT_PORT: u16 = 443;
pub const DEFAULT_SOCKS_BIND: &'static str = "127.0.0.1:1080";
pub const DEFAULT_HTTP_BIND: &'static str = "127.0.0.1:8888";
pub const DEFAULT_SECONDARY_DNS_SERVER: &'static str = "223.5.5.5";
pub const DEFAULT_AUTH_TYPE: &'static str = "auth/psw";
pub const DEFAULT_LOGIN_DOMAIN: &'static str = "AD";
pub const DEFAULT_CLIENT_DATA_FILE: &'static str = "client_data.json";
pub const DEFAULT_EIP_AUTO_OPEN: bool = true;

/// Protocols the core accepts.
pub const SUPPORTED_PROTOCOLS: [&'static str; 2] = ["atrust", "easyconnect"];

/// The process list ProxyBridge starts with: one RDP client per desktop OS
/// (the built-in Remote Desktop client on Windows, FreeRDP on Linux).
pub open spec fn default_processes_spec(os: TargetOs) -> Seq<Seq<char>> {
    match os {
        TargetOs::Windows | TargetOs::WindowsArm64 => seq!["mstsc.exe"@],
        TargetOs::Linux => seq!["xfreerdp"@],
        _ => Seq::empty(),
    }
}

/// Initial ProxyBridge process-list default for `os`.
pub fn default_proxybridge_processes(os: TargetOs) -> (r: Vec<String>)
    ensures
        r.deep_view() == default_processes_spec(os),
{
    let mut r: Vec<String> = Vec::new();
    match os {
        TargetOs::Windows | TargetOs::WindowsArm64 => r.push("mstsc.exe".to_owned()),
        TargetOs::Linux => r.push("xfreerdp".to_owned()),
        _ => {},
    }
    assert(r.deep_view() =~= default_processes_spec(os));
    r
}

/// The options a connection is started with.
#[derive(Debug, Clone, PartialEq, Eq)]
pub struct LaunchOptions {
    pub protocol: String,
    pub server: String,
    pub port: u16,
    pub username: String,
    pub password: String,
    pub socks_bind: String,
    pub http_bind: String,
    pub secondary_dns_server: String,
    pub auth_type: String,
    pub login_domain: String,
    pub client_data_file: String,
    pub eip_auto_open: bool,
    pub eip_browser_program: String,
    pub eip_browser_args: Vec<String>,
    pub tun_mode: bool,
    pub debug_dump: bool,
    pub proxybridge_enabled: bool,
    pub proxybridge_processes: Vec<String>,
    pub proxybridge_path: Option<String>,
}

/// The options as mathematical values.
pub struct LaunchOptionsView {
    pub protocol: Seq<char>,
    pub server: Seq<char>,
    pub port: u16,
    pub username: Seq<char>,
    pub password: Seq<char>,
    pub socks_bind: Seq<char>,
    pub http_bind: Seq<char>,
    pub secondary_dns_server: Seq<char>,
    pub auth_type: Seq<char>,
    pub login_domain: Seq<char>,
    pub client_data_file: Seq<char>,
    pub eip_auto_open: bool,
    pub eip_browser_program: Seq<char>,
    pub eip_browser_args: Seq<Seq<char>>,
    pub tun_mode: bool,
    pub debug_dump: bool,
    pub proxybridge_enabled: bool,
    pub proxybridge_processes: Seq<Seq<char>>,
    pub proxybridge_path: Option<Seq<char>>,
}

pub open spec fn opt_view(o: Option<String>) -> Option<Seq<char>> {
    match o {
        Some(s) => Some(s@),
        None => None,
    }
}

pub open spec fn opt_str_view(o: Option<&str>) -> Option<Seq<char>> {
    match o {
        Some(s) => Some(s@),
        None => None,
    }
}

impl View for LaunchOptions {
    type V = LaunchOptionsView;

    open spec fn view(&self) -> LaunchOptionsView {
        LaunchOptionsView {
            protocol: self.protocol@,
            server: self.server@,
            port: self.port,
            username: self.username@,
            password: self.password@,
            socks_bind: self.socks_bind@,
            http_bind: self.http_bind@,
            secondary_dns_server: self.secondary_dns_server@,
            auth_type: self.auth_type@,
            login_domain: self.login_domain@,
            client_data_file: self.client_data_file@,
            eip_auto_open: self.eip_auto_open,
            eip_browser_program: self.eip_browser_program@,
            eip_browser_args: self.eip_browser_args.deep_view(),
            tun_mode: self.tun_mode,
            debug_dump: self.debug_dump,
            proxybridge_enabled: self.proxybridge_enabled,
            proxybridge_processes: self.proxybridge_processes.deep_view(),
            proxybridge_path: opt_view(self.proxybridge_path),
        }
    }
}

/// All-empty options (every string empty, every flag off, port 0).
pub open spec fn empty_options() -> LaunchOptionsView {
    LaunchOptionsView {
        protocol: Seq::empty(),
        server: Seq::empty(),
        port: 0,
        username: Seq::empty(),
        password: Seq::empty(),
        socks_bind: Seq::empty(),
        http_bind: Seq::empty(),
        secondary_dns_server: Seq::empty(),
        auth_type: Seq::empty(),
        login_domain: Seq::empty(),
        client_data_file: Seq::empty(),
        eip_auto_open: false,
        eip_browser_program: Seq::empty(),
        eip_browser_args: Seq::empty(),
        tun_mode: false,
        debug_dump: false,
        proxybridge_enabled: false,
        proxybridge_processes: Seq::empty(),
        proxybridge_path: None,
    }
}

impl Default for LaunchOptions {
    fn default() -> (r: Self)
        ensures
            r@ == empty_options(),
    {
        let r = LaunchOptions {
            protocol: String::new(),
            server: String::new(),
            port: 0,
            username: String::new(),
            password: String::new(),
            socks_bind: String::new(),
            http_bind: String::new(),
            secondary_dns_server: String::new(),
            auth_type: String::new(),
            login_domain: String::new(),
            client_data_file: String::new(),
            eip_auto_open: false,
            eip_browser_program: String::new(),
            eip_browser_args: Vec::new(),
            tun_mode: false,
            debug_dump: false,
            proxybridge_enabled: false,
            proxybridge_processes: Vec::new(),
            proxybridge_path: None,
        };
        assert(r.eip_browser_args.deep_view() =~= Seq::<Seq<char>>::empty());
        assert(r.proxybridge_processes.deep_view() =~= Seq::<Seq<char>>::empty());
        r
    }
}

/// A copy of a list of strings.
pub fn copy_strings(v: &Vec<String>) -> (r: Vec<String>)
    ensures
        r.deep_view() == v.deep_view(),
{
    let mut r: Vec<String> = Vec::new();
    let mut i: usize = 0;
    while i < v.len()
        invariant
            i <= v@.len(),
            r.deep_view() == v.deep_view().take(i as int),
        decreases v.len() - i,
    {
        let c = v[i].clone();
        assert(c@ == v@[i as int]@);
        let ghost before = r.deep_view();
        r.push(c);
        assert(r.deep_view() =~= before.push(c@));
        assert(r.deep_view() =~= v.deep_view().take(i + 1));
        i = i + 1;
    }
    assert(v.deep_view().take(v@.len() as int) =~= v.deep_view());
    r
}

fn copy_opt_string(o: &Option<String>) -> (r: Option<String>)
    ensures
        opt_view(r) == opt_view(*o),
{
    match o {
        Some(s) => Some(s.clone()),
        None => None,
    }
}

impl LaunchOptions {
    /// A field-by-field copy.
    pub fn copy(&self) -> (r: Self)
        ensures
            r@ == self@,
    {
        LaunchOptions {
            protocol: self.protocol.clone(),
            server: self.server.clone(),
            port: self.port,
            username: self.username.clone(),
            password: self.password.clone(),
            socks_bind: self.socks_bind.clone(),
            http_bind: self.http_bind.clone(),
            secondary_dns_server: self.secondary_dns_server.clone(),
            auth_type: self.auth_type.clone(),
            login_domain: self.login_domain.clone(),
            client_data_file: self.client_data_file.clone(),
            eip_auto_open: self.eip_auto_open,
            eip_browser_program: self.eip_browser_program.clone(),
            eip_browser_args: copy_strings(&self.eip_browser_args),
            tun_mode: self.tun_mode,
            debug_dump: self.debug_dump,
            proxybridge_enabled: self.proxybridge_enabled,
            proxybridge_processes: copy_strings(&self.proxybridge_processes),
            proxybridge_path: copy_opt_string(&self.proxybridge_path),
        }
    }
}


// ── Normalization ─────────────────────────────────────────────────────

/// A trimmed field, or `default` when nothing is left.
pub open spec fn field_or(s: Seq<char>, default: Seq<char>) -> Seq<char> {
    let t = text::trim_seq(s);
    if t.len() == 0 {
        default
    } else {
        t
    }
}

/// Each entry trimmed, empty entries dropped, order kept.
pub open spec fn normalize_list_spec(v: Seq<Seq<char>>) -> Seq<Seq<char>>
    decreases v.len(),
{
    if v.len() == 0 {
        Seq::empty()
    } else {
        let rest = normalize_list_spec(v.drop_last());
        let t = text::trim_seq(v.last());
        if t.len() > 0 {
            rest.push(t)
        } else {
            rest
        }
    }
}

/// A trimmed optional path, absent when nothing is left.
pub open spec fn normalize_path_spec(p: Option<Seq<char>>) -> Option<Seq<char>> {
    match p {
        Some(s) => if text::trim_seq(s).len() > 0 {
            Some(text::trim_seq(s))
        } else {
            None
        },
        None => None,
    }
}

/// The protocol, trimmed and lower-cased, or the default when empty.
pub open spec fn normalize_protocol_spec(p: Seq<char>) -> Seq<char> {
    let t = text::lower_case(text::trim_seq(p));
    if t.len() == 0 {
        DEFAULT_PROTOCOL@
    } else {
        t
    }
}

/// What `normalize_launch_options` makes of `o`.
pub open spec fn normalize_spec(o: LaunchOptionsView) -> LaunchOptionsView {
    LaunchOptionsView {
        protocol: normalize_protocol_spec(o.protocol),
        server: field_or(o.server, DEFAULT_SERVER@),
        port: if o.port == 0 {
            DEFAULT_PORT
        } else {
            o.port
        },
        username: text::trim_seq(o.username),
        password: o.password,
        socks_bind: field_or(o.socks_bind, DEFAULT_SOCKS_BIND@),
        http_bind: field_or(o.http_bind, DEFAULT_HTTP_BIND@),
        secondary_dns_server: field_or(o.secondary_dns_server, DEFAULT_SECONDARY_DNS_SERVER@),
        auth_type: field_or(o.auth_type, DEFAULT_AUTH_TYPE@),
        login_domain: field_or(o.login_domain, DEFAULT_LOGIN_DOMAIN@),
        client_data_file: field_or(o.client_data_file, DEFAULT_CLIENT_DATA_FILE@),
        eip_auto_open: o.eip_auto_open,
        eip_browser_program: text::trim_seq(o.eip_browser_program),
        eip_browser_args: normalize_list_spec(o.eip_browser_args),
        tun_mode: o.tun_mode,
        debug_dump: o.debug_dump,
        proxybridge_enabled: o.proxybridge_enabled,
        proxybridge_processes: normalize_list_spec(o.proxybridge_processes),
        proxybridge_path: normalize_path_spec(o.proxybridge_path),
    }
}

fn trimmed_or(s: &String, default: &str) -> (r: String)
    ensures
        r@ == field_or(s@, default@),
{
    let t = text::trimmed_string(s.as_str());
    if t.as_str().is_empty() {
        default.to_owned()
    } else {
        t
    }
}

/// Trims every entry and drops the empty ones, keeping the order.
pub fn normalize_string_list(values: Vec<String>) -> (r: Vec<String>)
    ensures
        r.deep_view() == normalize_list_spec(values.deep_view()),
{
    let mut out: Vec<String> = Vec::new();
    let mut i: usize = 0;
    while i < values.len()
        invariant
            i <= values@.len(),
            out.deep_view() == normalize_list_spec(values.deep_view().take(i as int)),
        decreases values.len() - i,
    {
        let t = text::trimmed_string(values[i].as_str());
        let ghost prefix = values.deep_view().take(i + 1);
        assert(prefix.drop_last() =~= values.deep_view().take(i as int));
        assert(prefix.last() == values@[i as int]@);
        if !t.as_str().is_empty() {
            let ghost before = out.deep_view();
            out.push(t);
            assert(out.deep_view() =~= before.push(t@));
        }
        i = i + 1;
    }
    assert(values.deep_view().take(values@.len() as int) =~= values.deep_view());
    out
}

/// Trims every field, lower-cases the protocol, drops empty list entries
/// and an empty ProxyBridge path, and fills empty connection fields (and a
/// zero port) with their defaults. Username, password, browser program and
/// the flags are never defaulted.
pub fn normalize_launch_options(options: LaunchOptions) -> (r: LaunchOptions)
    ensures
        r@ == normalize_spec(options@),
{
    let trimmed_protocol = text::trim(options.protocol.as_str());
    let lowered = text::lower_case_string(trimmed_protocol);
    let protocol = if lowered.as_str().is_empty() {
        DEFAULT_PROTOCOL.to_owned()
    } else {
        lowered
    };
    let proxybridge_path = match &options.proxybridge_path {
        Some(p) => {
            let t = text::trimmed_string(p.as_str());
            if t.as_str().is_empty() {
                None
            } else {
                Some(t)
            }
        },
        None => None,
    };
    LaunchOptions {
        protocol,
        server: trimmed_or(&options.server, DEFAULT_SERVER),
        port: if options.port == 0 {
            DEFAULT_PORT
        } else {
            options.port
        },
        username: text::trimmed_string(options.username.as_str()),
        password: options.password,
        socks_bind: trimmed_or(&options.socks_bind, DEFAULT_SOCKS_BIND),
        http_bind: trimmed_or(&options.http_bind, DEFAULT_HTTP_BIND),
        secondary_dns_server: trimmed_or(
            &options.secondary_dns_server,
            DEFAULT_SECONDARY_DNS_SERVER,
        ),
        auth_type: trimmed_or(&options.auth_type, DEFAULT_AUTH_TYPE),
        login_domain: trimmed_or(&options.login_domain, DEFAULT_LOGIN_DOMAIN),
        client_data_file: trimmed_or(&options.client_data_file, DEFAULT_CLIENT_DATA_FILE),
        eip_auto_open: options.eip_auto_open,
        eip_browser_program: text::trimmed_string(options.eip_browser_program.as_str()),
        eip_browser_args: normalize_string_list(options.eip_browser_args),
        tun_mode: options.tun_mode,
        debug_dump: options.debug_dump,
        proxybridge_enabled: options.proxybridge_enabled,
        proxybridge_processes: normalize_string_list(options.proxybridge_processes),
        proxybridge_path,
    }
}

// ── Validation ────────────────────────────────────────────────────────

/// Why a set of options cannot be used.
#[derive(Debug, PartialEq, Eq, Clone)]
pub enum ValidationError {
    UnsupportedProtocol(String),
    EmptyServer,
    InvalidPort,
    EmptyUsername,
    EmptyPassword,
    EmptySocksBind,
    EmptyHttpBind,
    EmptySecondaryDnsServer,
    EmptyAuthType,
    EmptyLoginDomain,
    EmptyClientDataFile,
}

pub enum ValidationErrorView {
    UnsupportedProtocol(Seq<char>),
    EmptyServer,
    InvalidPort,
    EmptyUsername,
    EmptyPassword,
    EmptySocksBind,
    EmptyHttpBind,
    EmptySecondaryDnsServer,
    EmptyAuthType,
    EmptyLoginDomain,
    EmptyClientDataFile,
}

impl View for ValidationError {
    type V = ValidationErrorView;

    open spec fn view(&self) -> ValidationErrorView {
        match self {
            ValidationError::UnsupportedProtocol(p) => ValidationErrorView::UnsupportedProtocol(p@),
            ValidationError::EmptyServer => ValidationErrorView::EmptyServer,
            ValidationError::InvalidPort => ValidationErrorView::InvalidPort,
            ValidationError::EmptyUsername => ValidationErrorView::EmptyUsername,
            ValidationError::EmptyPassword => ValidationErrorView::EmptyPassword,
            ValidationError::EmptySocksBind => ValidationErrorView::EmptySocksBind,
            ValidationError::EmptyHttpBind => ValidationErrorView::EmptyHttpBind,
            ValidationError::EmptySecondaryDnsServer => ValidationErrorView::EmptySecondaryDnsServer,
            ValidationError::EmptyAuthType => ValidationErrorView::EmptyAuthType,
            ValidationError::EmptyLoginDomain => ValidationErrorView::EmptyLoginDomain,
            ValidationError::EmptyClientDataFile => ValidationErrorView::EmptyClientDataFile,
        }
    }
}

impl ValidationError {
    /// The human-readable description of the error.
    pub fn message(&self) -> (r: String)
        ensures
            r@ == validation_message(self@),
    {
        match self {
            ValidationError::UnsupportedProtocol(p) => {
                let mut m = "unsupported protocol: ".to_owned();
                text::append_str(&mut m, p.as_str());
                m
            },
            ValidationError::EmptyServer => "server cannot be empty".to_owned(),
            ValidationError::InvalidPort => "port must be between 1 and 65535".to_owned(),
            ValidationError::EmptyUsername => "username cannot be empty".to_owned(),
            ValidationError::EmptyPassword => "password cannot be empty".to_owned(),
            ValidationError::EmptySocksBind => "socks-bind cannot be empty".to_owned(),
            ValidationError::EmptyHttpBind => "http-bind cannot be empty".to_owned(),
            ValidationError::EmptySecondaryDnsServer => "secondary-dns-server cannot be empty".to_owned(),
            ValidationError::EmptyAuthType => "auth-type cannot be empty".to_owned(),
            ValidationError::EmptyLoginDomain => "login-domain cannot be empty".to_owned(),
            ValidationError::EmptyClientDataFile => "client-data-file cannot be empty".to_owned(),
        }
    }
}

/// The text of each validation error.
pub open spec fn validation_message(e: ValidationErrorView) -> Seq<char> {
    match e {
        ValidationErrorView::UnsupportedProtocol(p) => "unsupported protocol: "@ + p,
        ValidationErrorView::EmptyServer => "server cannot be empty"@,
        ValidationErrorView::InvalidPort => "port must be between 1 and 65535"@,
        ValidationErrorView::EmptyUsername => "username cannot be empty"@,
        ValidationErrorView::EmptyPassword => "password cannot be empty"@,
        ValidationErrorView::EmptySocksBind => "socks-bind cannot be empty"@,
        ValidationErrorView::EmptyHttpBind => "http-bind cannot be empty"@,
        ValidationErrorView::EmptySecondaryDnsServer => "secondary-dns-server cannot be empty"@,
        ValidationErrorView::EmptyAuthType => "auth-type cannot be empty"@,
        ValidationErrorView::EmptyLoginDomain => "login-domain cannot be empty"@,
        ValidationErrorView::EmptyClientDataFile => "client-data-file cannot be empty"@,
    }
}

/// The protocol is one of `SUPPORTED_PROTOCOLS`.
pub open spec fn is_supported_protocol(p: Seq<char>) -> bool {
    p == SUPPORTED_PROTOCOLS[0]@ || p == SUPPORTED_PROTOCOLS[1]@
}

/// The first failed check of `validate`, in the order it checks them.
pub open spec fn validate_spec(o: LaunchOptionsView) -> Option<ValidationErrorView> {
    if !is_supported_protocol(o.protocol) {
        Some(ValidationErrorView::UnsupportedProtocol(o.protocol))
    } else if o.server.len() == 0 {
        Some(ValidationErrorView::EmptyServer)
    } else if o.port == 0 {
        Some(ValidationErrorView::InvalidPort)
    } else if o.username.len() == 0 {
        Some(ValidationErrorView::EmptyUsername)
    } else if o.password.len() == 0 {
        Some(ValidationErrorView::EmptyPassword)
    } else if o.socks_bind.len() == 0 {
        Some(ValidationErrorView::EmptySocksBind)
    } else if o.http_bind.len() == 0 {
        Some(ValidationErrorView::EmptyHttpBind)
    } else if o.secondary_dns_server.len() == 0 {
        Some(ValidationErrorView::EmptySecondaryDnsServer)
    } else if o.auth_type.len() == 0 {
        Some(ValidationErrorView::EmptyAuthType)
    } else if o.login_domain.len() == 0 {
        Some(ValidationErrorView::EmptyLoginDomain)
    } else if o.client_data_file.len() == 0 {
        Some(ValidationErrorView::EmptyClientDataFile)
    } else {
        None
    }
}

// ── Command line ──────────────────────────────────────────────────────

/// The `zju-connect` arguments for `o`, with `captcha` as the graph-code
/// file when it is non-empty.
pub open spec fn build_args_spec(o: LaunchOptionsView, captcha: Seq<char>) -> Seq<Seq<char>> {
    let head = seq![
        "-protocol"@,
        o.protocol,
        "-server"@,
        o.server,
        "-port"@,
        text::decimal(o.port as nat),
        "-username"@,
        o.username,
        "-password"@,
        o.password,
        "-disable-zju-config"@,
        "-socks-bind"@,
        o.socks_bind,
        "-http-bind"@,
        o.http_bind,
        "-secondary-dns-server"@,
        o.secondary_dns_server,
        "-auth-type"@,
        o.auth_type,
        "-login-domain"@,
        o.login_domain,
        "-client-data-file"@,
        o.client_data_file,
    ];
    let graph = if captcha.len() > 0 {
        seq!["-graph-code-file"@, captcha]
    } else {
        Seq::empty()
    };
    let tun = if o.tun_mode {
        seq!["-tun-mode"@, "-add-route"@, "-dns-hijack"@, "-fake-ip"@]
    } else {
        Seq::empty()
    };
    let debug = if o.debug_dump {
        seq!["-debug-dump"@]
    } else {
        Seq::empty()
    };
    head + graph + tun + debug
}

/// Pushes a copy of `s`.
pub fn push_str(v: &mut Vec<String>, s: &str)
    ensures
        final(v).deep_view() == old(v).deep_view().push(s@),
{
    let ghost before = v.deep_view();
    let t = s.to_owned();
    v.push(t);
    assert(v.deep_view() =~= before.push(s@));
}

impl LaunchOptions {
    /// The first check that fails, in a fixed order: protocol, server,
    /// port, username, password, the two binds, DNS server, auth type,
    /// login domain, client data file.
    pub fn validate(&self) -> (r: Result<(), ValidationError>)
        ensures
            r is Ok <==> validate_spec(self@) is None,
            r matches Err(e) ==> validate_spec(self@) == Some(e@),
    {
        let p = self.protocol.as_str();
        if !(text::str_eq(p, SUPPORTED_PROTOCOLS[0]) || text::str_eq(p, SUPPORTED_PROTOCOLS[1])) {
            return Err(ValidationError::UnsupportedProtocol(self.protocol.clone()));
        }
        if self.server.as_str().is_empty() {
            return Err(ValidationError::EmptyServer);
        }
        if self.port == 0 {
            return Err(ValidationError::InvalidPort);
        }
        if self.username.as_str().is_empty() {
            return Err(ValidationError::EmptyUsername);
        }
        if self.password.as_str().is_empty() {
            return Err(ValidationError::EmptyPassword);
        }
        if self.socks_bind.as_str().is_empty() {
            return Err(ValidationError::EmptySocksBind);
        }
        if self.http_bind.as_str().is_empty() {
            return Err(ValidationError::EmptyHttpBind);
        }
        if self.secondary_dns_server.as_str().is_empty() {
            return Err(ValidationError::EmptySecondaryDnsServer);
        }
        if self.auth_type.as_str().is_empty() {
            return Err(ValidationError::EmptyAuthType);
        }
        if self.login_domain.as_str().is_empty() {
            return Err(ValidationError::EmptyLoginDomain);
        }
        if self.client_data_file.as_str().is_empty() {
            return Err(ValidationError::EmptyClientDataFile);
        }
        Ok(())
    }

    /// The `zju-connect` command line: the connection fields as flag/value
    /// pairs, then `-graph-code-file` when `captcha_path` is non-empty, the
    /// four TUN flags in TUN mode, and `-debug-dump` when requested.
    pub fn build_args(&self, captcha_path: &str) -> (r: Vec<String>)
        ensures
            r.deep_view() == build_args_spec(self@, captcha_path@),
    {
        let mut args: Vec<String> = Vec::new();
        push_str(&mut args, "-protocol");
        push_str(&mut args, self.protocol.as_str());
        push_str(&mut args, "-server");
        push_str(&mut args, self.server.as_str());
        push_str(&mut args, "-port");
        let port = text::decimal_string(self.port as u64);
        push_str(&mut args, port.as_str());
        push_str(&mut args, "-username");
        push_str(&mut args, self.username.as_str());
        push_str(&mut args, "-password");
        push_str(&mut args, self.password.as_str());
        push_str(&mut args, "-disable-zju-config");
        push_str(&mut args, "-socks-bind");
        push_str(&mut args, self.socks_bind.as_str());
        push_str(&mut args, "-http-bind");
        push_str(&mut args, self.http_bind.as_str());
        push_str(&mut args, "-secondary-dns-server");
        push_str(&mut args, self.secondary_dns_server.as_str());
        push_str(&mut args, "-auth-type");
        push_str(&mut args, self.auth_type.as_str());
        push_str(&mut args, "-login-domain");
        push_str(&mut args, self.login_domain.as_str());
        push_str(&mut args, "-client-data-file");
        push_str(&mut args, self.client_data_file.as_str());
        let ghost head = args.deep_view();
        if !captcha_path.is_empty() {
            push_str(&mut args, "-graph-code-file");
            push_str(&mut args, captcha_path);
        }
        let ghost with_graph = args.deep_view();
        if self.tun_mode {
            push_str(&mut args, "-tun-mode");
            push_str(&mut args, "-add-route");
            push_str(&mut args, "-dns-hijack");
            push_str(&mut args, "-fake-ip");
        }
        let ghost with_tun = args.deep_view();
        if self.debug_dump {
            push_str(&mut args, "-debug-dump");
        }
        proof {
            let o = self@;
            let spec_head = seq![
                "-protocol"@,
                o.protocol,
                "-server"@,
                o.server,
                "-port"@,
                text::decimal(o.port as nat),
                "-username"@,
                o.username,
                "-password"@,
                o.password,
                "-disable-zju-config"@,
                "-socks-bind"@,
                o.socks_bind,
                "-http-bind"@,
                o.http_bind,
                "-secondary-dns-server"@,
                o.secondary_dns_server,
                "-auth-type"@,
                o.auth_type,
                "-login-domain"@,
                o.login_domain,
                "-client-data-file"@,
                o.client_data_file,
            ];
            assert(head =~= spec_head);
        }
        assert(args.deep_view() =~= build_args_spec(self@, captcha_path@));
        args
    }
}


/// The debug flag only appends `-debug-dump`, whatever else is set (TUN
/// mode included): the arguments with it are those without it plus that
/// one flag at the end.
pub proof fn lemma_debug_dump_appends_its_flag(o: LaunchOptionsView, captcha: Seq<char>)
    ensures
        build_args_spec(LaunchOptionsView { debug_dump: true, ..o }, captcha) == build_args_spec(
            LaunchOptionsView { debug_dump: false, ..o },
            captcha,
        ).push("-debug-dump"@),
{
    let a = build_args_spec(LaunchOptionsView { debug_dump: true, ..o }, captcha);
    let b = build_args_spec(LaunchOptionsView { debug_dump: false, ..o }, captcha);
    assert(a =~= b.push("-debug-dump"@));
}

/// TUN mode only adds its four flags, whatever else is set (the debug flag
/// included): they come right before a trailing `-debug-dump`, or at the
/// end when there is none.
pub proof fn lemma_tun_mode_inserts_its_flags(o: LaunchOptionsView, captcha: Seq<char>)
    ensures
        ({
            let without = build_args_spec(LaunchOptionsView { tun_mode: false, ..o }, captcha);
            let with = build_args_spec(LaunchOptionsView { tun_mode: true, ..o }, captcha);
            let k = without.len() - (if o.debug_dump { 1int } else { 0int });
            with == without.take(k) + seq!["-tun-mode"@, "-add-route"@, "-dns-hijack"@, "-fake-ip"@]
                + without.skip(k)
        }),
{
    let without = build_args_spec(LaunchOptionsView { tun_mode: false, ..o }, captcha);
    let with = build_args_spec(LaunchOptionsView { tun_mode: true, ..o }, captcha);
    let k = without.len() - (if o.debug_dump { 1int } else { 0int });
    assert(with =~= without.take(k) + seq!["-tun-mode"@, "-add-route"@, "-dns-hijack"@, "-fake-ip"@]
        + without.skip(k));
}

} // verus!
