//! ProxyBridge integration: kernel-level per-process interception that
//! routes the listed processes through the core's SOCKS5 listener.
//!
//! The library decides when the integration is active and what the native
//! core is configured with (the proxy endpoint, one rule per process, the
//! platform switches); the application hands that plan to the native core.

use vstd::prelude::*;

use crate::backend::launch_options::LaunchOptions;
use crate::backend::platform::TargetOs;
use crate::text;

verus! {

/// `ProxyType` of the native core's C API: SOCKS5.
pub const PROXY_TYPE_SOCKS5: i32 = 1;

/// `RuleProtocol` of the native core's C API. Rules must cover UDP as well
/// as TCP: the core skips a TCP-only rule for UDP packets, which would send
/// the listed processes' DNS straight out.
pub const RULE_PROTOCOL_TCP: i32 = 0;

pub const RULE_PROTOCOL_UDP: i32 = 1;

pub const RULE_PROTOCOL_BOTH: i32 = 2;

/// `RuleAction` of the native core's C API: route through the proxy.
pub const RULE_ACTION_PROXY: i32 = 0;

/// Port used when the SOCKS bind address carries none.
pub const DEFAULT_SOCKS_PORT: u16 = 1080;

/// The platforms with a native ProxyBridge core: Linux and x86_64
/// Windows. There is none on macOS or Windows arm64.
pub open spec fn native_spec(os: TargetOs) -> bool {
    os == TargetOs::Windows || os == TargetOs::Linux
}

/// Whether `os` has a native ProxyBridge core.
pub fn proxybridge_native(os: TargetOs) -> (r: bool)
    ensures
        r == native_spec(os),
{
    match os {
        TargetOs::Windows | TargetOs::Linux => true,
        _ => false,
    }
}

/// Whether ProxyBridge should be active for `options` on `os`: enabled,
/// with at least one process, and not in TUN mode (TUN already routes
/// system-wide). Never on platforms without a native core.
pub fn is_active(options: &LaunchOptions, os: TargetOs) -> (r: bool)
    ensures
        r == (native_spec(os) && options@.proxybridge_enabled
            && options@.proxybridge_processes.len() > 0 && !options@.tun_mode),
{
    proxybridge_native(os) && options.proxybridge_enabled && options.proxybridge_processes.len() > 0
        && !options.tun_mode
}

/// Why ProxyBridge cannot run on `os`: the message of a build without a
/// native core (macOS, Windows arm64, other platforms). The platforms with
/// a core have no such message and get the generic one.
pub open spec fn unsupported_reason_spec(os: TargetOs) -> Seq<char> {
    match os {
        TargetOs::MacOs => "ProxyBridge is not supported on macOS"@,
        TargetOs::WindowsArm64 => "ProxyBridge is not available on Windows arm64: upstream ships no WinDivert build for it"@,
        _ => "ProxyBridge is not supported on this platform"@,
    }
}

/// Why ProxyBridge cannot be started on a build of `os` without a native
/// core.
pub fn unsupported_reason(os: TargetOs) -> (r: &'static str)
    ensures
        r@ == unsupported_reason_spec(os),
{
    match os {
        TargetOs::MacOs => "ProxyBridge is not supported on macOS",
        TargetOs::WindowsArm64 => "ProxyBridge is not available on Windows arm64: upstream ships no WinDivert build for it",
        _ => "ProxyBridge is not supported on this platform",
    }
}

/// The hint shown when ProxyBridge could not be started.
pub open spec fn install_hint_spec(os: TargetOs) -> Seq<char> {
    match os {
        TargetOs::Windows => "ProxyBridge is built into this binary; it needs the WinDivert driver, which is installed from the bundled copy when missing (and requires administrator rights). If that still fails, install WinDivert, or ProxyBridge which bundles it, from https://interceptsuite.com/download/proxybridge."@,
        TargetOs::Linux => "ProxyBridge is built into this binary. Starting it requires root and a kernel with NFQUEUE support (nfnetlink_queue)."@,
        _ => ""@,
    }
}

/// A platform-specific hint explaining why ProxyBridge could not be
/// started; empty where there is no native core.
pub fn install_hint(os: TargetOs) -> (r: &'static str)
    ensures
        r@ == install_hint_spec(os),
{
    match os {
        TargetOs::Windows => "ProxyBridge is built into this binary; it needs the WinDivert driver, which is installed from the bundled copy when missing (and requires administrator rights). If that still fails, install WinDivert, or ProxyBridge which bundles it, from https://interceptsuite.com/download/proxybridge.",
        TargetOs::Linux => "ProxyBridge is built into this binary. Starting it requires root and a kernel with NFQUEUE support (nfnetlink_queue).",
        _ => "",
    }
}

/// The ProxyBridge core library to load. Always `None`: the core is part
/// of the application binary, and a configured path no longer selects a
/// library.
pub fn find_proxybridge_library(user_path: Option<&str>, app_dir: &str) -> (r: Option<String>)
    ensures
        r is None,
{
    None
}

/// `host` with one pair of enclosing brackets removed (`[::1]` → `::1`).
pub open spec fn unbracket(host: Seq<char>) -> Seq<char> {
    if host.len() >= 2 && host[0] == '[' && host.last() == ']' {
        host.subrange(1, host.len() - 1)
    } else {
        host
    }
}

/// `(host, port)` of a `host:port` bind: split at the last colon when what
/// follows parses as a port, brackets removed from the host; otherwise the
/// whole bind with the default port.
pub open spec fn extract_host_port_spec(bind: Seq<char>) -> (Seq<char>, u16) {
    match text::last_index_of(bind, ':') {
        Some(i) => match text::parse_unsigned(bind.skip(i + 1), u16::MAX as nat) {
            Some(p) => (unbracket(bind.take(i)), p as u16),
            None => (bind, DEFAULT_SOCKS_PORT),
        },
        None => (bind, DEFAULT_SOCKS_PORT),
    }
}

/// Extracts `(host, port)` from a `host:port` or bare `host` string; the
/// port defaults to 1080.
pub fn extract_host_port(bind: &str) -> (r: (&str, u16))
    ensures
        (r.0@, r.1) == extract_host_port_spec(bind@),
{
    match text::rfind_char(bind, ':') {
        None => (bind, DEFAULT_SOCKS_PORT),
        Some(i) => {
            let n = bind.unicode_len();
            let port_str = bind.substring_char(i + 1, n);
            assert(port_str@ =~= bind@.skip(i + 1));
            match text::parse_unsigned_str(port_str, 65535) {
                None => (bind, DEFAULT_SOCKS_PORT),
                Some(p) => {
                    let host = bind.substring_char(0, i);
                    assert(host@ =~= bind@.take(i as int));
                    let hl = host.unicode_len();
                    if hl >= 2 && host.get_char(0) == '[' && host.get_char(hl - 1) == ']' {
                        (host.substring_char(1, hl - 1), p as u16)
                    } else {
                        (host, p as u16)
                    }
                },
            }
        },
    }
}

/// One interception rule: traffic of `process` to any host on `ports`
/// (`*` for all) goes through the proxy, TCP and UDP alike
/// (`RULE_PROTOCOL_BOTH`, `RULE_ACTION_PROXY`).
#[derive(Debug, Clone, PartialEq, Eq)]
pub struct BridgeRule {
    pub process: String,
    pub ports: String,
}

/// What the native core is configured with before interception starts.
#[derive(Debug, Clone, PartialEq, Eq)]
pub struct BridgePlan {
    /// SOCKS5 endpoint (no authentication).
    pub proxy_host: String,
    pub proxy_port: u16,
    /// One rule per listed process, in order.
    pub rules: Vec<BridgeRule>,
    /// Route the processes' DNS through the proxy too (the Linux core).
    pub dns_via_proxy: bool,
    /// Keep localhost traffic direct (the Windows core).
    pub localhost_direct: bool,
}

pub struct BridgePlanView {
    pub proxy_host: Seq<char>,
    pub proxy_port: u16,
    pub rules: Seq<(Seq<char>, Seq<char>)>,
    pub dns_via_proxy: bool,
    pub localhost_direct: bool,
}

/// Rules as `(process, ports)` pairs.
pub open spec fn rules_view(rs: Seq<BridgeRule>) -> Seq<(Seq<char>, Seq<char>)> {
    rs.map_values(|r: BridgeRule| (r.process@, r.ports@))
}

/// One all-ports rule per process.
pub open spec fn wildcard_rules(ps: Seq<Seq<char>>) -> Seq<(Seq<char>, Seq<char>)> {
    ps.map_values(|p: Seq<char>| (p, "*"@))
}

impl View for BridgePlan {
    type V = BridgePlanView;

    open spec fn view(&self) -> BridgePlanView {
        BridgePlanView {
            proxy_host: self.proxy_host@,
            proxy_port: self.proxy_port,
            rules: rules_view(self.rules@),
            dns_via_proxy: self.dns_via_proxy,
            localhost_direct: self.localhost_direct,
        }
    }
}

/// The first process name holding a NUL character (which a C string
/// cannot carry), if any.
pub open spec fn first_nul_name(ps: Seq<Seq<char>>) -> Option<Seq<char>>
    decreases ps.len(),
{
    if ps.len() == 0 {
        None
    } else if ps[0].contains('\0') {
        Some(ps[0])
    } else {
        first_nul_name(ps.drop_first())
    }
}

/// The configuration for `options` on `os`, or the error the start fails
/// with before touching a core: no core on this platform, or a proxy host
/// or process name holding a NUL character.
pub open spec fn bridge_plan_spec(o: crate::backend::launch_options::LaunchOptionsView, os: TargetOs) -> Result<BridgePlanView, Seq<char>> {
    let (host, port) = extract_host_port_spec(o.socks_bind);
    if !native_spec(os) {
        Err(unsupported_reason_spec(os))
    } else if host.contains('\0') {
        Err("invalid proxy host"@)
    } else {
        match first_nul_name(o.proxybridge_processes) {
            Some(p) => Err("invalid process name: "@ + p),
            None => Ok(
                BridgePlanView {
                    proxy_host: host,
                    proxy_port: port,
                    rules: wildcard_rules(o.proxybridge_processes),
                    dns_via_proxy: os == TargetOs::Linux,
                    localhost_direct: os == TargetOs::Windows,
                },
            ),
        }
    }
}

/// What `ProxyBridge` is configured with for `options` on `os`.
pub fn bridge_plan(options: &LaunchOptions, os: TargetOs) -> (r: Result<BridgePlan, String>)
    ensures
        match bridge_plan_spec(options@, os) {
            Ok(p) => r matches Ok(q) && q@ == p,
            Err(e) => r matches Err(m) && m@ == e,
        },
{
    if !proxybridge_native(os) {
        return Err(unsupported_reason(os).to_owned());
    }
    let (host, port) = extract_host_port(options.socks_bind.as_str());
    if text::contains_char(host, '\0') {
        return Err("invalid proxy host".to_owned());
    }
    let ghost ps = options@.proxybridge_processes;
    let mut rules: Vec<BridgeRule> = Vec::new();
    let mut i: usize = 0;
    assert(ps.skip(0) =~= ps);
    while i < options.proxybridge_processes.len()
        invariant
            i <= ps.len(),
            ps == options.proxybridge_processes.deep_view(),
            ps == options@.proxybridge_processes,
            native_spec(os),
            !extract_host_port_spec(options@.socks_bind).0.contains('\0'),
            first_nul_name(ps) == first_nul_name(ps.skip(i as int)),
            rules_view(rules@) == wildcard_rules(ps.take(i as int)),
        decreases ps.len() - i,
    {
        let name = options.proxybridge_processes[i].as_str();
        assert(name@ == ps[i as int]);
        assert(ps.skip(i as int)[0] == ps[i as int]);
        assert(ps.skip(i as int).drop_first() =~= ps.skip(i + 1));
        if text::contains_char(name, '\0') {
            let mut msg = String::new();
            text::append_str(&mut msg, "invalid process name: ");
            text::append_str(&mut msg, name);
            assert(msg@ =~= "invalid process name: "@ + name@);
            assert(first_nul_name(ps.skip(i as int)) == Some(ps[i as int]));
            return Err(msg);
        }
        let ghost before = rules@;
        assert(rules_view(before).len() == i);
        let rule = BridgeRule { process: name.to_owned(), ports: "*".to_owned() };
        rules.push(rule);
        assert(rules@ =~= before.push(rule));
        assert(rules@.len() == i + 1);
        assert(rules_view(rules@)[i as int] == (name@, "*"@));
        assert forall|k: int| 0 <= k < i + 1 implies #[trigger] rules_view(rules@)[k]
            == wildcard_rules(ps.take(i + 1))[k] by {
            if k < i {
                assert(rules_view(before)[k] == wildcard_rules(ps.take(i as int))[k]);
            }
        }
        assert(rules_view(rules@) =~= wildcard_rules(ps.take(i + 1)));
        i = i + 1;
    }
    assert(ps.skip(ps.len() as int) =~= Seq::<Seq<char>>::empty());
    assert(ps.take(ps.len() as int) =~= ps);
    let plan = BridgePlan {
        proxy_host: host.to_owned(),
        proxy_port: port,
        rules,
        dns_via_proxy: os == TargetOs::Linux,
        localhost_direct: os == TargetOs::Windows,
    };
    Ok(plan)
}

/// The outcome of starting interception, given whether the native start
/// call reported success.
pub fn bridge_start_result(started: bool) -> (r: Result<(), String>)
    ensures
        started ==> r is Ok,
        !started ==> (r matches Err(m) && m@
            == "ProxyBridge_Start returned false (is the kernel module/driver installed?)"@),
{
    if started {
        Ok(())
    } else {
        Err("ProxyBridge_Start returned false (is the kernel module/driver installed?)".to_owned())
    }
}

} // verus!
