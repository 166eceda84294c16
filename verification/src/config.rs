//! Configuration: the settings file's fields and defaults, the run mode,
//! the path of the file, and the addresses the program listens on.

use vstd::prelude::*;
use vstd::string::StrSliceExecFns;
use vstd::string::StringExecFns;

verus! {

/// Whether both strings hold the same characters.
fn str_equal(a: &str, b: &str) -> (r: bool)
    ensures
        r == (a@ == b@),
{
    let n = a.unicode_len();
    if n != b.unicode_len() {
        return false;
    }
    for i in 0..n
        invariant
            n == a@.len(),
            n == b@.len(),
            forall|j: int| 0 <= j < i ==> a@[j] == b@[j],
    {
        if a.get_char(i) != b.get_char(i) {
            return false;
        }
    }
    assert(a@ =~= b@);
    true
}

/// Port on which players connect to the VPS.
pub fn default_game_port() -> (p: u16)
    ensures
        p == 25565,
{
    25565
}

/// Port on which the home client reaches the VPS (control and data).
pub fn default_tunnel_port() -> (p: u16)
    ensures
        p == 9000,
{
    9000
}

/// Where the home client finds the VPS.
pub fn default_vps_address() -> (a: String)
    ensures
        a@ == "127.0.0.1:9000"@,
{
    String::from_str("127.0.0.1:9000")
}

/// Where the home client finds the Minecraft server.
pub fn default_mc_address() -> (a: String)
    ensures
        a@ == "127.0.0.1:25565"@,
{
    String::from_str("127.0.0.1:25565")
}

/// Seconds the home client waits before it connects again.
pub fn default_reconnect_delay() -> (d: u64)
    ensures
        d == 3,
{
    3
}

/// Port of the dashboard's HTTP API.
pub fn default_web_port() -> (p: u16)
    ensures
        p == 3001,
{
    3001
}

/// Which side of the tunnel this process runs.
#[derive(PartialEq, Eq, Structural, Clone, Copy, Debug)]
pub enum Mode {
    /// The public server: accepts players and the home client.
    Vps,
    /// The home machine next to the Minecraft server.
    Client,
}

/// The mode a setting names: `"vps"` or `"client"`, nothing else.
pub open spec fn mode_of(name: Seq<char>) -> Option<Mode> {
    if name == "vps"@ {
        Some(Mode::Vps)
    } else if name == "client"@ {
        Some(Mode::Client)
    } else {
        None
    }
}

/// Reads the `mode` setting; any value but `"vps"` and `"client"` is refused.
pub fn parse_mode(name: &str) -> (m: Option<Mode>)
    ensures
        m == mode_of(name@),
{
    if str_equal(name, "vps") {
        Some(Mode::Vps)
    } else if str_equal(name, "client") {
        Some(Mode::Client)
    } else {
        None
    }
}

/// Only the VPS serves the dashboard API.
pub fn starts_web_server(mode: Mode) -> (b: bool)
    ensures
        b == (mode == Mode::Vps),
{
    match mode {
        Mode::Vps => true,
        Mode::Client => false,
    }
}

/// The settings file's contents.
pub struct Config {
    /// `"vps"` or `"client"`.
    pub mode: String,
    pub game_port: u16,
    pub tunnel_port: u16,
    pub vps_address: String,
    pub minecraft_address: String,
    pub reconnect_delay_secs: u64,
    /// How many failed attempts in a row the client makes before it gives
    /// up; 0 means it never gives up.
    pub max_reconnect_attempts: u32,
    pub web_port: u16,
}

impl Config {
    /// A configuration for `mode` with every other setting at its default.
    pub fn new(mode: String) -> (c: Config)
        ensures
            c.mode@ == mode@,
            c.game_port == 25565,
            c.tunnel_port == 9000,
            c.vps_address@ == "127.0.0.1:9000"@,
            c.minecraft_address@ == "127.0.0.1:25565"@,
            c.reconnect_delay_secs == 3,
            c.max_reconnect_attempts == 0,
            c.web_port == 3001,
    {
        Config {
            mode,
            game_port: default_game_port(),
            tunnel_port: default_tunnel_port(),
            vps_address: default_vps_address(),
            minecraft_address: default_mc_address(),
            reconnect_delay_secs: default_reconnect_delay(),
            max_reconnect_attempts: 0,
            web_port: default_web_port(),
        }
    }

    /// The run mode the configuration selects, if it names one.
    pub fn run_mode(&self) -> (m: Option<Mode>)
        ensures
            m == mode_of(self.mode@),
    {
        parse_mode(self.mode.as_str())
    }
}

/// The settings file used when the command line names none.
pub open spec fn default_config_path() -> Seq<char> {
    "config.toml"@
}

/// The settings file: the first argument after the program's name, else
/// `config.toml`.
pub fn config_path(args: &Vec<String>) -> (p: String)
    ensures
        p@ == (if args@.len() > 1 { args@[1]@ } else { default_config_path() }),
{
    if args.len() > 1 {
        args[1].clone()
    } else {
        String::from_str("config.toml")
    }
}

/// Why the settings could not be loaded.
pub enum ConfigError {
    /// The file at `path` could not be read, for `reason`.
    Read { path: String, reason: String },
    /// The file at `path` is not valid settings, for `reason`.
    Parse { path: String, reason: String },
}

/// The text shown when the settings cannot be loaded.
pub open spec fn config_error_text(e: ConfigError) -> Seq<char> {
    match e {
        ConfigError::Read { path, reason } => "Не удалось прочитать конфиг '"@ + path@ + "': "@
            + reason@ + "\n💡 Подсказка: скопируйте config.example.toml в config.toml\n💡 Или укажите путь: ./mc-tunnel /path/to/config.toml"@,
        ConfigError::Parse { path, reason } => "Ошибка парсинга конфига '"@ + path@ + "': "@
            + reason@ + "\n💡 Проверьте синтаксис TOML-файла"@,
    }
}

impl ConfigError {
    /// The message that explains the error and how to mend it.
    pub fn message(&self) -> (m: String)
        ensures
            m@ == config_error_text(*self),
    {
        match self {
            ConfigError::Read { path, reason } => {
                let m = String::from_str("Не удалось прочитать конфиг '");
                let m = m.concat(path.as_str());
                let m = m.concat("': ");
                let m = m.concat(reason.as_str());
                let m = m.concat(
                    "\n💡 Подсказка: скопируйте config.example.toml в config.toml\n💡 Или укажите путь: ./mc-tunnel /path/to/config.toml",
                );
                m
            },
            ConfigError::Parse { path, reason } => {
                let m = String::from_str("Ошибка парсинга конфига '");
                let m = m.concat(path.as_str());
                let m = m.concat("': ");
                let m = m.concat(reason.as_str());
                let m = m.concat("\n💡 Проверьте синтаксис TOML-файла");
                m
            },
        }
    }
}

/// The decimal digit `d` (0 to 9) as a character.
pub open spec fn digit_char(d: int) -> char {
    seq!['0', '1', '2', '3', '4', '5', '6', '7', '8', '9'][d]
}

/// The decimal numeral of `n`, without leading zeros.
pub open spec fn decimal(n: nat) -> Seq<char>
    decreases n,
{
    if n < 10 {
        seq![digit_char(n as int)]
    } else {
        decimal(n / 10).push(digit_char((n % 10) as int))
    }
}

/// The one-character string of the digit `d`.
fn digit_str(d: u64) -> (s: &'static str)
    requires
        d < 10,
    ensures
        s@ == seq![digit_char(d as int)],
{
    proof {
        reveal_strlit("0");
        reveal_strlit("1");
        reveal_strlit("2");
        reveal_strlit("3");
        reveal_strlit("4");
        reveal_strlit("5");
        reveal_strlit("6");
        reveal_strlit("7");
        reveal_strlit("8");
        reveal_strlit("9");
    }
    let s = if d == 0 {
        "0"
    } else if d == 1 {
        "1"
    } else if d == 2 {
        "2"
    } else if d == 3 {
        "3"
    } else if d == 4 {
        "4"
    } else if d == 5 {
        "5"
    } else if d == 6 {
        "6"
    } else if d == 7 {
        "7"
    } else if d == 8 {
        "8"
    } else {
        "9"
    };
    assert(s@ =~= seq![digit_char(d as int)]);
    s
}

/// Appends the decimal numeral of `n` to `s`.
fn push_decimal(s: &mut String, n: u64)
    ensures
        final(s)@ == old(s)@ + decimal(n as nat),
    decreases n,
{
    if n >= 10 {
        push_decimal(s, n / 10);
    }
    s.append(digit_str(n % 10));
    assert(s@ =~= old(s)@ + decimal(n as nat));
}

/// The address a listener binds to: every interface, on `port`.
pub fn listen_address(port: u16) -> (a: String)
    ensures
        a@ == "0.0.0.0:"@ + decimal(port as nat),
{
    let mut a = String::from_str("0.0.0.0:");
    push_decimal(&mut a, port as u64);
    a
}

/// The name under which a player's bridge is logged.
pub fn player_label(ip: &str) -> (l: String)
    ensures
        l@ == "player:"@ + ip@,
{
    String::from_str("player:").concat(ip)
}

} // verus!
