//! Wireless networking: networks, interfaces, their states and modes, and
//! the `wifi` command.

use vstd::prelude::*;
use super::ExternalCommand;
use crate::shell::ShellError;
use crate::textutil::{parse_u8, parse_u8_spec, str_eq};

verus! {

/// A network found by a scan.
#[derive(Debug, Clone)]
pub struct WifiNetwork {
    pub ssid: String,
    pub bssid: String,
    pub frequency: u32,
    pub signal_strength: i32,
    pub security: WifiSecurity,
    pub channel: u8,
    pub encryption: String,
}

/// How a network is secured.
#[derive(Debug, Clone, Copy, PartialEq, Eq, Structural)]
pub enum WifiSecurity {
    Open,
    WEP,
    WPA,
    WPA2,
    WPA3,
    WPS,
    Enterprise,
}

/// A wireless interface.
#[derive(Debug, Clone)]
pub struct WifiInterface {
    pub name: String,
    pub mac_address: String,
    pub state: WifiState,
    pub connected_ssid: Option<String>,
    pub ip_address: Option<String>,
    pub tx_power: i32,
    pub frequency: u32,
    pub mode: WifiMode,
}

/// What an interface is doing.
#[derive(Debug, Clone, Copy, PartialEq, Eq, Structural)]
pub enum WifiState {
    Up,
    Down,
    Connected,
    Disconnected,
    Scanning,
    Connecting,
    Error,
}

/// The role of an interface.
#[derive(Debug, Clone, Copy, PartialEq, Eq, Structural)]
pub enum WifiMode {
    Managed,
    Monitor,
    AdHoc,
    Master,
    Repeater,
}

/// `wifi`: WiFi management.
pub struct WifiCommand;

impl ExternalCommand for WifiCommand {
    fn name(&self) -> (ret: &'static str)
        ensures
            ret@ == "wifi"@,
    {
        "wifi"
    }

    fn description(&self) -> (ret: &'static str)
        ensures
            ret@ == "Comprehensive WiFi management tool"@,
    {
        "Comprehensive WiFi management tool"
    }

    fn usage(&self) -> (ret: &'static str)
        ensures
            ret@ == "wifi [COMMAND] [OPTIONS]"@,
    {
        "wifi [COMMAND] [OPTIONS]"
    }
}

/// The characters of each argument.
pub open spec fn arg_views(args: Seq<String>) -> Seq<Seq<char>> {
    args.map_values(|a: String| a@)
}

/// The characters of an optional string.
pub open spec fn opt_view(o: Option<String>) -> Option<Seq<char>> {
    match o {
        Some(s) => Some(s@),
        None => None,
    }
}

/// The options of `wifi connect`.
pub struct ConnectConfig {
    pub ssid: String,
    pub password: Option<String>,
    pub interface: String,
    pub security_type: Option<String>,
    pub save_profile: bool,
}

/// The options of `wifi connect` as characters: SSID, password,
/// interface, security type, and whether the profile is saved.
pub open spec fn connect_view(c: ConnectConfig) -> (Seq<char>, Option<Seq<char>>, Seq<char>, Option<Seq<char>>, bool) {
    (c.ssid@, opt_view(c.password), c.interface@, opt_view(c.security_type), c.save_profile)
}

/// Reading the options of `wifi connect` from position `i` on, with `c`
/// read so far: each option that takes a value needs one, and an unknown
/// option is refused.
pub open spec fn connect_options(
    args: Seq<Seq<char>>,
    i: int,
    c: (Seq<char>, Option<Seq<char>>, Seq<char>, Option<Seq<char>>, bool),
) -> Result<(Seq<char>, Option<Seq<char>>, Seq<char>, Option<Seq<char>>, bool), Seq<char>>
    decreases args.len() - i,
{
    if i < 0 || i >= args.len() {
        Ok(c)
    } else if args[i] == "-p"@ || args[i] == "--password"@ {
        if i + 1 >= args.len() {
            Err("missing password"@)
        } else {
            connect_options(args, i + 2, (c.0, Some(args[i + 1]), c.2, c.3, c.4))
        }
    } else if args[i] == "-i"@ || args[i] == "--interface"@ {
        if i + 1 >= args.len() {
            Err("missing interface name"@)
        } else {
            connect_options(args, i + 2, (c.0, c.1, args[i + 1], c.3, c.4))
        }
    } else if args[i] == "-s"@ || args[i] == "--security"@ {
        if i + 1 >= args.len() {
            Err("missing security type"@)
        } else {
            connect_options(args, i + 2, (c.0, c.1, c.2, Some(args[i + 1]), c.4))
        }
    } else if args[i] == "--no-save"@ {
        connect_options(args, i + 1, (c.0, c.1, c.2, c.3, false))
    } else {
        Err("unknown option: "@ + args[i])
    }
}

/// The options of `wifi connect SSID [OPTION]...`: interface "wlan0", no
/// password or security type, and the profile saved, unless the options
/// say otherwise; or the message of the argument error.
pub open spec fn connect_spec(args: Seq<Seq<char>>) -> Result<
    (Seq<char>, Option<Seq<char>>, Seq<char>, Option<Seq<char>>, bool),
    Seq<char>,
> {
    if args.len() == 0 {
        Err("missing SSID"@)
    } else {
        connect_options(args, 1, (args[0], None, "wlan0"@, None, true))
    }
}

/// Reads the arguments of `wifi connect`.
pub fn parse_connect_args(args: &Vec<String>) -> (ret: Result<ConnectConfig, ShellError>)
    ensures
        match connect_spec(arg_views(args@)) {
            Ok(c) => ret matches Ok(cfg) && connect_view(cfg) == c,
            Err(m) => ret matches Err(ShellError::InvalidArgument(e)) && e@ == m,
        },
{
    let ghost av = arg_views(args@);
    if args.len() == 0 {
        return Err(ShellError::InvalidArgument(String::from_str("missing SSID")));
    }
    let mut cfg = ConnectConfig {
        ssid: args[0].clone(),
        password: None,
        interface: String::from_str("wlan0"),
        security_type: None,
        save_profile: true,
    };
    let mut i: usize = 1;
    while i < args.len()
        invariant
            av == arg_views(args@),
            1 <= i <= args.len(),
            connect_spec(av) == connect_options(av, i as int, connect_view(cfg)),
        decreases args.len() - i,
    {
        let a = args[i].as_str();
        assert(av[i as int] == a@);
        if str_eq(a, "-p") || str_eq(a, "--password") {
            if i + 1 >= args.len() {
                return Err(ShellError::InvalidArgument(String::from_str("missing password")));
            }
            assert(av[i + 1] == args@[i + 1]@);
            cfg.password = Some(args[i + 1].clone());
            i = i + 2;
        } else if str_eq(a, "-i") || str_eq(a, "--interface") {
            if i + 1 >= args.len() {
                return Err(ShellError::InvalidArgument(String::from_str("missing interface name")));
            }
            assert(av[i + 1] == args@[i + 1]@);
            cfg.interface = args[i + 1].clone();
            i = i + 2;
        } else if str_eq(a, "-s") || str_eq(a, "--security") {
            if i + 1 >= args.len() {
                return Err(ShellError::InvalidArgument(String::from_str("missing security type")));
            }
            assert(av[i + 1] == args@[i + 1]@);
            cfg.security_type = Some(args[i + 1].clone());
            i = i + 2;
        } else if str_eq(a, "--no-save") {
            cfg.save_profile = false;
            i = i + 1;
        } else {
            return Err(ShellError::InvalidArgument(String::from_str("unknown option: ").concat(a)));
        }
    }
    Ok(cfg)
}

/// The options of `wifi hotspot`.
pub struct HotspotConfig {
    pub ssid: String,
    pub password: Option<String>,
    pub interface: String,
    pub channel: u8,
    pub security: String,
}

/// The options of `wifi hotspot` as characters: SSID, password,
/// interface, channel and security type.
pub open spec fn hotspot_view(c: HotspotConfig) -> (Seq<char>, Option<Seq<char>>, Seq<char>, u8, Seq<char>) {
    (c.ssid@, opt_view(c.password), c.interface@, c.channel, c.security@)
}

/// Reading the options of `wifi hotspot` from position `i` on, with `c`
/// read so far: each option needs a value, the channel a number from 0 to
/// 255, and an unknown option is refused.
pub open spec fn hotspot_options(
    args: Seq<Seq<char>>,
    i: int,
    c: (Seq<char>, Option<Seq<char>>, Seq<char>, u8, Seq<char>),
) -> Result<(Seq<char>, Option<Seq<char>>, Seq<char>, u8, Seq<char>), Seq<char>>
    decreases args.len() - i,
{
    if i < 0 || i >= args.len() {
        Ok(c)
    } else if args[i] == "-s"@ || args[i] == "--ssid"@ {
        if i + 1 >= args.len() {
            Err("missing SSID"@)
        } else {
            hotspot_options(args, i + 2, (args[i + 1], c.1, c.2, c.3, c.4))
        }
    } else if args[i] == "-p"@ || args[i] == "--password"@ {
        if i + 1 >= args.len() {
            Err("missing password"@)
        } else {
            hotspot_options(args, i + 2, (c.0, Some(args[i + 1]), c.2, c.3, c.4))
        }
    } else if args[i] == "-i"@ || args[i] == "--interface"@ {
        if i + 1 >= args.len() {
            Err("missing interface name"@)
        } else {
            hotspot_options(args, i + 2, (c.0, c.1, args[i + 1], c.3, c.4))
        }
    } else if args[i] == "-c"@ || args[i] == "--channel"@ {
        if i + 1 >= args.len() {
            Err("missing channel number"@)
        } else {
            match parse_u8_spec(args[i + 1]) {
                Some(ch) => hotspot_options(args, i + 2, (c.0, c.1, c.2, ch, c.4)),
                None => Err("invalid channel number"@),
            }
        }
    } else if args[i] == "--security"@ {
        if i + 1 >= args.len() {
            Err("missing security type"@)
        } else {
            hotspot_options(args, i + 2, (c.0, c.1, c.2, c.3, args[i + 1]))
        }
    } else {
        Err("unknown option: "@ + args[i])
    }
}

/// The options of `wifi hotspot [OPTION]...`: SSID "RustixOS-Hotspot", no
/// password, interface "wlan0", channel 6 and security "WPA2", unless the
/// options say otherwise; or the message of the argument error.
pub open spec fn hotspot_spec(args: Seq<Seq<char>>) -> Result<
    (Seq<char>, Option<Seq<char>>, Seq<char>, u8, Seq<char>),
    Seq<char>,
> {
    hotspot_options(args, 0, ("RustixOS-Hotspot"@, None, "wlan0"@, 6u8, "WPA2"@))
}

/// Reads the arguments of `wifi hotspot`.
pub fn parse_hotspot_args(args: &Vec<String>) -> (ret: Result<HotspotConfig, ShellError>)
    ensures
        match hotspot_spec(arg_views(args@)) {
            Ok(c) => ret matches Ok(cfg) && hotspot_view(cfg) == c,
            Err(m) => ret matches Err(ShellError::InvalidArgument(e)) && e@ == m,
        },
{
    let ghost av = arg_views(args@);
    let mut cfg = HotspotConfig {
        ssid: String::from_str("RustixOS-Hotspot"),
        password: None,
        interface: String::from_str("wlan0"),
        channel: 6,
        security: String::from_str("WPA2"),
    };
    let mut i: usize = 0;
    while i < args.len()
        invariant
            av == arg_views(args@),
            i <= args.len(),
            hotspot_spec(av) == hotspot_options(av, i as int, hotspot_view(cfg)),
        decreases args.len() - i,
    {
        let a = args[i].as_str();
        assert(av[i as int] == a@);
        if str_eq(a, "-s") || str_eq(a, "--ssid") {
            if i + 1 >= args.len() {
                return Err(ShellError::InvalidArgument(String::from_str("missing SSID")));
            }
            assert(av[i + 1] == args@[i + 1]@);
            cfg.ssid = args[i + 1].clone();
            i = i + 2;
        } else if str_eq(a, "-p") || str_eq(a, "--password") {
            if i + 1 >= args.len() {
                return Err(ShellError::InvalidArgument(String::from_str("missing password")));
            }
            assert(av[i + 1] == args@[i + 1]@);
            cfg.password = Some(args[i + 1].clone());
            i = i + 2;
        } else if str_eq(a, "-i") || str_eq(a, "--interface") {
            if i + 1 >= args.len() {
                return Err(ShellError::InvalidArgument(String::from_str("missing interface name")));
            }
            assert(av[i + 1] == args@[i + 1]@);
            cfg.interface = args[i + 1].clone();
            i = i + 2;
        } else if str_eq(a, "-c") || str_eq(a, "--channel") {
            if i + 1 >= args.len() {
                return Err(ShellError::InvalidArgument(String::from_str("missing channel number")));
            }
            assert(av[i + 1] == args@[i + 1]@);
            match parse_u8(args[i + 1].as_str()) {
                Some(ch) => {
                    cfg.channel = ch;
                },
                None => {
                    return Err(ShellError::InvalidArgument(String::from_str("invalid channel number")));
                },
            }
            i = i + 2;
        } else if str_eq(a, "--security") {
            if i + 1 >= args.len() {
                return Err(ShellError::InvalidArgument(String::from_str("missing security type")));
            }
            assert(av[i + 1] == args@[i + 1]@);
            cfg.security = args[i + 1].clone();
            i = i + 2;
        } else {
            return Err(ShellError::InvalidArgument(String::from_str("unknown option: ").concat(a)));
        }
    }
    Ok(cfg)
}

/// How many of the networks are secured with `sec`.
pub open spec fn count_security(networks: Seq<WifiNetwork>, sec: WifiSecurity) -> nat
    decreases networks.len(),
{
    if networks.len() == 0 {
        0
    } else {
        count_security(networks.drop_last(), sec) + if networks.last().security == sec {
            1nat
        } else {
            0nat
        }
    }
}

/// At most as many networks have a security as there are networks.
proof fn lemma_count_security_le(networks: Seq<WifiNetwork>, sec: WifiSecurity)
    ensures
        count_security(networks, sec) <= networks.len(),
    decreases networks.len(),
{
    if networks.len() > 0 {
        lemma_count_security_le(networks.drop_last(), sec);
    }
}

/// The share of `count` among `total` networks, in whole percent, with an
/// empty scan counted as one network.
pub open spec fn percent_of(count: nat, total: nat) -> nat {
    (count * 100 / if total == 0 { 1 } else { total }) as nat
}

/// The counts of a security audit: the networks found, and how many are
/// open, WEP, WPA, WPA2, WPA3 or WPS, each with its share in percent.
#[derive(Debug, Clone, Copy, PartialEq, Eq)]
pub struct AuditSummary {
    pub total: usize,
    pub open: usize,
    pub wep: usize,
    pub wpa: usize,
    pub wpa2: usize,
    pub wpa3: usize,
    pub wps: usize,
    pub open_percent: usize,
    pub wep_percent: usize,
    pub wpa_percent: usize,
    pub wpa2_percent: usize,
    pub wpa3_percent: usize,
    pub wps_percent: usize,
}

/// The share in percent of `count` among `total`, an empty scan counted
/// as one network.
fn share(count: usize, total: usize) -> (ret: usize)
    requires
        count <= total,
        total * 100 <= usize::MAX,
    ensures
        ret == percent_of(count as nat, total as nat),
{
    let denom = if total == 0 { 1 } else { total };
    assert(count * 100 <= total * 100) by (nonlinear_arith)
        requires
            count <= total,
    ;
    (count * 100) / denom
}

/// Counts the networks of a scan by security, as the security audit
/// reports them.
pub fn audit_summary(networks: &Vec<WifiNetwork>) -> (ret: AuditSummary)
    requires
        networks.len() * 100 <= usize::MAX,
    ensures
        ret.total == networks.len(),
        ret.open == count_security(networks@, WifiSecurity::Open),
        ret.wep == count_security(networks@, WifiSecurity::WEP),
        ret.wpa == count_security(networks@, WifiSecurity::WPA),
        ret.wpa2 == count_security(networks@, WifiSecurity::WPA2),
        ret.wpa3 == count_security(networks@, WifiSecurity::WPA3),
        ret.wps == count_security(networks@, WifiSecurity::WPS),
        ret.open_percent == percent_of(ret.open as nat, ret.total as nat),
        ret.wep_percent == percent_of(ret.wep as nat, ret.total as nat),
        ret.wpa_percent == percent_of(ret.wpa as nat, ret.total as nat),
        ret.wpa2_percent == percent_of(ret.wpa2 as nat, ret.total as nat),
        ret.wpa3_percent == percent_of(ret.wpa3 as nat, ret.total as nat),
        ret.wps_percent == percent_of(ret.wps as nat, ret.total as nat),
{
    let mut open: usize = 0;
    let mut wep: usize = 0;
    let mut wpa: usize = 0;
    let mut wpa2: usize = 0;
    let mut wpa3: usize = 0;
    let mut wps: usize = 0;
    let mut i: usize = 0;
    while i < networks.len()
        invariant
            i <= networks.len(),
            open == count_security(networks@.take(i as int), WifiSecurity::Open),
            wep == count_security(networks@.take(i as int), WifiSecurity::WEP),
            wpa == count_security(networks@.take(i as int), WifiSecurity::WPA),
            wpa2 == count_security(networks@.take(i as int), WifiSecurity::WPA2),
            wpa3 == count_security(networks@.take(i as int), WifiSecurity::WPA3),
            wps == count_security(networks@.take(i as int), WifiSecurity::WPS),
        decreases networks.len() - i,
    {
        let ghost before = networks@.take(i as int);
        let ghost after = networks@.take(i + 1);
        assert(after.drop_last() =~= before);
        assert(after.last() == networks@[i as int]);
        proof {
            lemma_count_security_le(before, WifiSecurity::Open);
            lemma_count_security_le(before, WifiSecurity::WEP);
            lemma_count_security_le(before, WifiSecurity::WPA);
            lemma_count_security_le(before, WifiSecurity::WPA2);
            lemma_count_security_le(before, WifiSecurity::WPA3);
            lemma_count_security_le(before, WifiSecurity::WPS);
        }
        match networks[i].security {
            WifiSecurity::Open => open = open + 1,
            WifiSecurity::WEP => wep = wep + 1,
            WifiSecurity::WPA => wpa = wpa + 1,
            WifiSecurity::WPA2 => wpa2 = wpa2 + 1,
            WifiSecurity::WPA3 => wpa3 = wpa3 + 1,
            WifiSecurity::WPS => wps = wps + 1,
            _ => {},
        }
        i = i + 1;
    }
    let total = networks.len();
    assert(networks@.take(total as int) =~= networks@);
    proof {
        lemma_count_security_le(networks@, WifiSecurity::Open);
        lemma_count_security_le(networks@, WifiSecurity::WEP);
        lemma_count_security_le(networks@, WifiSecurity::WPA);
        lemma_count_security_le(networks@, WifiSecurity::WPA2);
        lemma_count_security_le(networks@, WifiSecurity::WPA3);
        lemma_count_security_le(networks@, WifiSecurity::WPS);
    }
    AuditSummary {
        total,
        open,
        wep,
        wpa,
        wpa2,
        wpa3,
        wps,
        open_percent: share(open, total),
        wep_percent: share(wep, total),
        wpa_percent: share(wpa, total),
        wpa2_percent: share(wpa2, total),
        wpa3_percent: share(wpa3, total),
        wps_percent: share(wps, total),
    }
}

/// Whether `wifi hotspot` must ask for a password: none was given and the
/// hotspot is not open.
pub fn needs_password_prompt(password: &Option<String>, security: &str) -> (ret: bool)
    ensures
        ret == (password is None && security@ != "OPEN"@),
{
    password.is_none() && !str_eq(security, "OPEN")
}

/// A recommendation of the security audit, with the number of networks it
/// is about.
#[derive(Debug, Clone, Copy, PartialEq, Eq, Structural)]
pub enum AuditNote {
    OpenNetworks(usize),
    WepNetworks(usize),
    WpsEnabled(usize),
    Wpa3Available(usize),
}

/// The recommendations, in the order the audit gives them: open, WEP and
/// WPS networks to avoid, then WPA3 networks to prefer, each when there
/// is at least one.
pub open spec fn audit_notes_spec(a: AuditSummary) -> Seq<AuditNote> {
    let s1 = if a.open > 0 { seq![AuditNote::OpenNetworks(a.open)] } else { Seq::empty() };
    let s2 = if a.wep > 0 { seq![AuditNote::WepNetworks(a.wep)] } else { Seq::empty() };
    let s3 = if a.wps > 0 { seq![AuditNote::WpsEnabled(a.wps)] } else { Seq::empty() };
    let s4 = if a.wpa3 > 0 { seq![AuditNote::Wpa3Available(a.wpa3)] } else { Seq::empty() };
    s1 + s2 + s3 + s4
}

/// The recommendations of a security audit.
pub fn audit_notes(a: &AuditSummary) -> (ret: Vec<AuditNote>)
    ensures
        ret@ == audit_notes_spec(*a),
{
    let mut notes: Vec<AuditNote> = Vec::new();
    if a.open > 0 {
        notes.push(AuditNote::OpenNetworks(a.open));
    }
    if a.wep > 0 {
        notes.push(AuditNote::WepNetworks(a.wep));
    }
    if a.wps > 0 {
        notes.push(AuditNote::WpsEnabled(a.wps));
    }
    if a.wpa3 > 0 {
        notes.push(AuditNote::Wpa3Available(a.wpa3));
    }
    assert(notes@ =~= audit_notes_spec(*a));
    notes
}

} // verus!
