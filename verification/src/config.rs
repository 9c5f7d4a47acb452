//! Saved connection profiles and where they are kept.  Reading and writing
//! the profiles file is done by the program around the library; these are
//! the values it holds.
use vstd::prelude::*;
use std::collections::HashMap;
use crate::app::{AppState, NewlineMode, ViewMode, rx_newline_from_word, rx_newline_of, tx_newline_from_word, tx_newline_of, view_mode_from_word, view_mode_of};
use crate::macros::{Macro, MacroStep};
use crate::serial::SerialConfig;

verus! {

/// `dirs::home_dir()`, as text: the user's home directory, where there is
/// one.  It depends on the machine and the environment, so nothing is
/// promised of it.
#[verifier::external_body]
fn user_home_dir() -> Option<String> {
    dirs::home_dir().map(|p| p.to_string_lossy().into_owned())
}

/// What `std::path::Path::join` makes of a directory and a name: a function
/// of the two.
pub uninterp spec fn joined_path(dir: Seq<char>, name: Seq<char>) -> Seq<char>;

/// `Path::new(dir).join(name)`, as text.  The result is named by
/// `joined_path`; how the separator is placed is the platform's rule and is
/// left unsaid.
#[verifier::external_body]
fn path_join(dir: &str, name: &str) -> (p: String)
    ensures
        p@ == joined_path(dir@, name@),
{
    std::path::Path::new(dir).join(name).to_string_lossy().into_owned()
}

/// The directory the console's settings live under: `.config` in the home
/// directory `home`, or the current directory (".") when there is none.
pub open spec fn base_dir(home: Option<String>) -> Seq<char> {
    match home {
        Some(h) => joined_path(h@, ".config"@),
        None => "."@,
    }
}

/// The console's own configuration directory: `easy_console` in
/// `base_dir(home)`.
pub fn config_dir_in(home: Option<String>) -> (d: String)
    ensures
        d@ == joined_path(base_dir(home), "easy_console"@),
{
    match home {
        Some(h) => {
            let base = path_join(h.as_str(), ".config");
            path_join(base.as_str(), "easy_console")
        },
        None => path_join(".", "easy_console"),
    }
}

/// The console's configuration directory, `~/.config/easy_console` (see
/// `config_dir_in`; the home directory is the user's).
pub fn config_dir() -> (d: String)
    ensures
        exists|home: Option<String>| d@ == joined_path(base_dir(home), "easy_console"@),
{
    let home = user_home_dir();
    let d = config_dir_in(home);
    assert(d@ == joined_path(base_dir(home), "easy_console"@));
    d
}

/// The profiles file, `profiles.toml`, in the configuration directory for
/// the home directory `home` (see `config_dir_in`).
pub fn profiles_path_in(home: Option<String>) -> (p: String)
    ensures
        p@ == joined_path(joined_path(base_dir(home), "easy_console"@), "profiles.toml"@),
{
    let d = config_dir_in(home);
    path_join(d.as_str(), "profiles.toml")
}

/// The profiles file, `~/.config/easy_console/profiles.toml` (see
/// `profiles_path_in`; the home directory is the user's).
pub fn profiles_path() -> (p: String)
    ensures
        exists|home: Option<String>|
            p@ == joined_path(joined_path(base_dir(home), "easy_console"@), "profiles.toml"@),
{
    let home = user_home_dir();
    let p = profiles_path_in(home);
    assert(p@ == joined_path(joined_path(base_dir(home), "easy_console"@), "profiles.toml"@));
    p
}

/// One step of a macro as written in a profile.
#[derive(Debug, Clone)]
pub struct MacroStepConfig {
    pub send: String,
    pub delay_ms: u64,
}

/// A macro as written in a profile.
#[derive(Debug, Clone)]
pub struct MacroConfig {
    pub name: String,
    pub steps: Vec<MacroStepConfig>,
}

/// A profile: each setting it gives overrides the console's.
#[derive(Debug, Clone)]
pub struct Profile {
    pub port: Option<String>,
    pub baud_rate: Option<u32>,
    pub data_bits: Option<u8>,
    pub parity: Option<String>,
    pub stop_bits: Option<u8>,
    pub flow_control: Option<String>,
    pub tx_newline: Option<String>,
    pub rx_newline: Option<String>,
    pub timestamp: Option<bool>,
    pub timestamp_precision: Option<String>,
    pub local_echo: Option<bool>,
    pub scroll_buffer: Option<usize>,
    pub log_format: Option<String>,
    pub view_mode: Option<String>,
    pub dtr_init: Option<bool>,
    pub rts_init: Option<bool>,
    pub macros: Option<Vec<MacroConfig>>,
}

impl Default for Profile {
    fn default() -> (p: Self)
        ensures
            p.port is None,
            p.baud_rate == Some(115200u32),
            p.data_bits == Some(8u8),
            p.parity matches Some(s) && s@ == "none"@,
            p.stop_bits == Some(1u8),
            p.flow_control matches Some(s) && s@ == "none"@,
            p.tx_newline matches Some(s) && s@ == "crlf"@,
            p.rx_newline matches Some(s) && s@ == "auto"@,
            p.timestamp == Some(true),
            p.timestamp_precision matches Some(s) && s@ == "ms"@,
            p.local_echo == Some(true),
            p.scroll_buffer == Some(10000usize),
            p.log_format matches Some(s) && s@ == "text"@,
            p.view_mode matches Some(s) && s@ == "ascii"@,
            p.dtr_init == Some(false),
            p.rts_init == Some(false),
            p.macros is None,
    {
        Profile {
            port: None,
            baud_rate: Some(115200),
            data_bits: Some(8),
            parity: Some("none".to_owned()),
            stop_bits: Some(1),
            flow_control: Some("none".to_owned()),
            tx_newline: Some("crlf".to_owned()),
            rx_newline: Some("auto".to_owned()),
            timestamp: Some(true),
            timestamp_precision: Some("ms".to_owned()),
            local_echo: Some(true),
            scroll_buffer: Some(10000),
            log_format: Some("text".to_owned()),
            view_mode: Some("ascii".to_owned()),
            dtr_init: Some(false),
            rts_init: Some(false),
            macros: None,
        }
    }
}

/// The profiles file: profiles by name.
#[derive(Debug, Clone)]
pub struct Profiles {
    pub profiles: HashMap<String, Profile>,
}

impl Default for Profiles {
    fn default() -> (p: Self)
        ensures
            p.profiles@ == Map::<String, Profile>::empty(),
    {
        Profiles { profiles: HashMap::new() }
    }
}

/// A profile's macros, name for name and step for step.
pub open spec fn macros_match(ms: Seq<Macro>, cs: Seq<MacroConfig>) -> bool {
    &&& ms.len() == cs.len()
    &&& forall|i: int|
        0 <= i < ms.len() ==> {
            &&& (#[trigger] ms[i]).name@ == cs[i].name@
            &&& ms[i].steps@.len() == cs[i].steps@.len()
            &&& forall|j: int|
                0 <= j < ms[i].steps@.len() ==> (#[trigger] ms[i].steps@[j]).send@
                    == cs[i].steps@[j].send@ && ms[i].steps@[j].delay_ms == cs[i].steps@[j].delay_ms
        }
}

/// The console's macros made from a profile's.
pub fn macros_from_config(configs: &Vec<MacroConfig>) -> (ms: Vec<Macro>)
    ensures
        macros_match(ms@, configs@),
{
    let mut ms: Vec<Macro> = Vec::new();
    let mut i: usize = 0;
    while i < configs.len()
        invariant
            i <= configs@.len(),
            macros_match(ms@, configs@.take(i as int)),
        decreases configs.len() - i,
    {
        let c = &configs[i];
        let mut steps: Vec<MacroStep> = Vec::new();
        let mut j: usize = 0;
        while j < c.steps.len()
            invariant
                j <= c.steps@.len(),
                steps@.len() == j,
                forall|k: int|
                    0 <= k < j ==> (#[trigger] steps@[k]).send@ == c.steps@[k].send@
                        && steps@[k].delay_ms == c.steps@[k].delay_ms,
            decreases c.steps.len() - j,
        {
            steps.push(MacroStep { send: c.steps[j].send.clone(), delay_ms: c.steps[j].delay_ms });
            j += 1;
        }
        let ghost before = ms@;
        ms.push(Macro { name: c.name.clone(), steps });
        i += 1;
        proof {
            let t = configs@.take(i as int);
            assert forall|k: int| 0 <= k < ms@.len() implies {
                &&& (#[trigger] ms@[k]).name@ == t[k].name@
                &&& ms@[k].steps@.len() == t[k].steps@.len()
                &&& forall|j2: int|
                    0 <= j2 < ms@[k].steps@.len() ==> (#[trigger] ms@[k].steps@[j2]).send@
                        == t[k].steps@[j2].send@ && ms@[k].steps@[j2].delay_ms
                        == t[k].steps@[j2].delay_ms
            } by {
                if k < i - 1 {
                    assert(ms@[k] == before[k]);
                    assert(t[k] == configs@.take(i - 1)[k]);
                }
            }
        }
    }
    assert(configs@.take(configs@.len() as int) =~= configs@);
    ms
}

/// The port settings of a profile applied to `config`.
fn apply_profile_line_settings(config: &mut SerialConfig, profile: &Profile)
    ensures
        final(config).baud_rate == (match profile.baud_rate {
            Some(b) => b,
            None => old(config).baud_rate,
        }),
        final(config).data_bits == (match profile.data_bits {
            Some(b) => b,
            None => old(config).data_bits,
        }),
        final(config).parity == (match profile.parity {
            Some(p) => p,
            None => old(config).parity,
        }),
        final(config).stop_bits == (match profile.stop_bits {
            Some(b) => b,
            None => old(config).stop_bits,
        }),
        final(config).flow_control == (match profile.flow_control {
            Some(f) => f,
            None => old(config).flow_control,
        }),
        final(config).dtr == (match profile.dtr_init {
            Some(d) => d,
            None => old(config).dtr,
        }),
        final(config).rts == (match profile.rts_init {
            Some(r) => r,
            None => old(config).rts,
        }),
        final(config).timeout_ms == old(config).timeout_ms,
{
    if let Some(baud) = profile.baud_rate {
        config.baud_rate = baud;
    }
    if let Some(data_bits) = profile.data_bits {
        config.data_bits = data_bits;
    }
    if let Some(parity) = &profile.parity {
        config.parity = parity.clone();
    }
    if let Some(stop_bits) = profile.stop_bits {
        config.stop_bits = stop_bits;
    }
    if let Some(flow) = &profile.flow_control {
        config.flow_control = flow.clone();
    }
    if let Some(dtr) = profile.dtr_init {
        config.dtr = dtr;
    }
    if let Some(rts) = profile.rts_init {
        config.rts = rts;
    }
}

/// The port a profile names, or the current one.
fn chosen_port(word: &Option<String>, current: Option<String>) -> (p: Option<String>)
    ensures
        p == (match *word {
            Some(w) => Some(w),
            None => current,
        }),
{
    match word {
        Some(w) => Some(w.clone()),
        None => current,
    }
}

/// The send newline a profile names, or the current one.
fn chosen_tx_newline(word: &Option<String>, current: NewlineMode) -> (m: NewlineMode)
    ensures
        m == (match *word {
            Some(w) => tx_newline_of(w@),
            None => current,
        }),
{
    match word {
        Some(w) => tx_newline_from_word(w.as_str()),
        None => current,
    }
}

/// The receive newline a profile names, or the current one.
fn chosen_rx_newline(word: &Option<String>, current: NewlineMode) -> (m: NewlineMode)
    ensures
        m == (match *word {
            Some(w) => rx_newline_of(w@),
            None => current,
        }),
{
    match word {
        Some(w) => rx_newline_from_word(w.as_str()),
        None => current,
    }
}

/// The view a profile names, or the current one.
fn chosen_view_mode(word: &Option<String>, current: ViewMode) -> (v: ViewMode)
    ensures
        v == (match *word {
            Some(w) => view_mode_of(w@),
            None => current,
        }),
{
    match word {
        Some(w) => view_mode_from_word(w.as_str()),
        None => current,
    }
}

impl AppState {
    /// Applies a profile: every setting it gives replaces the console's
    /// (newlines and view named by words, see `tx_newline_of`,
    /// `rx_newline_of`, `view_mode_of`); the log format and timestamp
    /// precision it names are not applied.
    pub fn apply_profile(&mut self, profile: &Profile)
        ensures
            final(self).port_path == (match profile.port {
                Some(p) => Some(p),
                None => old(self).port_path,
            }),
            final(self).serial_config.baud_rate == (match profile.baud_rate {
                Some(b) => b,
                None => old(self).serial_config.baud_rate,
            }),
            final(self).serial_config.data_bits == (match profile.data_bits {
                Some(b) => b,
                None => old(self).serial_config.data_bits,
            }),
            final(self).serial_config.parity == (match profile.parity {
                Some(p) => p,
                None => old(self).serial_config.parity,
            }),
            final(self).serial_config.stop_bits == (match profile.stop_bits {
                Some(b) => b,
                None => old(self).serial_config.stop_bits,
            }),
            final(self).serial_config.flow_control == (match profile.flow_control {
                Some(f) => f,
                None => old(self).serial_config.flow_control,
            }),
            final(self).tx_newline == (match profile.tx_newline {
                Some(w) => tx_newline_of(w@),
                None => old(self).tx_newline,
            }),
            final(self).rx_newline == (match profile.rx_newline {
                Some(w) => rx_newline_of(w@),
                None => old(self).rx_newline,
            }),
            final(self).local_echo == (match profile.local_echo {
                Some(e) => e,
                None => old(self).local_echo,
            }),
            final(self).scroll_buffer_size == (match profile.scroll_buffer {
                Some(n) => n,
                None => old(self).scroll_buffer_size,
            }),
            final(self).show_timestamp == (match profile.timestamp {
                Some(t) => t,
                None => old(self).show_timestamp,
            }),
            final(self).serial_config.dtr == (match profile.dtr_init {
                Some(d) => d,
                None => old(self).serial_config.dtr,
            }),
            final(self).serial_config.rts == (match profile.rts_init {
                Some(r) => r,
                None => old(self).serial_config.rts,
            }),
            final(self).view_mode == (match profile.view_mode {
                Some(w) => view_mode_of(w@),
                None => old(self).view_mode,
            }),
            final(self).serial_config.timeout_ms == old(self).serial_config.timeout_ms,
            match profile.macros {
                Some(cs) => macros_match(final(self).macros@, cs@),
                None => final(self).macros == old(self).macros,
            },
            *final(self) == (AppState {
                port_path: final(self).port_path,
                serial_config: final(self).serial_config,
                tx_newline: final(self).tx_newline,
                rx_newline: final(self).rx_newline,
                local_echo: final(self).local_echo,
                scroll_buffer_size: final(self).scroll_buffer_size,
                show_timestamp: final(self).show_timestamp,
                view_mode: final(self).view_mode,
                macros: final(self).macros,
                ..*old(self)
            }),
    {
        let previous_port = self.port_path.take();
        self.port_path = chosen_port(&profile.port, previous_port);
        apply_profile_line_settings(&mut self.serial_config, profile);
        self.tx_newline = chosen_tx_newline(&profile.tx_newline, self.tx_newline);
        self.rx_newline = chosen_rx_newline(&profile.rx_newline, self.rx_newline);
        self.view_mode = chosen_view_mode(&profile.view_mode, self.view_mode);
        self.local_echo = profile.local_echo.unwrap_or(self.local_echo);
        self.scroll_buffer_size = profile.scroll_buffer.unwrap_or(self.scroll_buffer_size);
        self.show_timestamp = profile.timestamp.unwrap_or(self.show_timestamp);
        let macros = match &profile.macros {
            Some(ms) => Some(macros_from_config(ms)),
            None => None,
        };
        self.replace_macros(macros);
    }

    /// Replaces the macros when new ones are given.
    fn replace_macros(&mut self, macros: Option<Vec<Macro>>)
        ensures
            *final(self) == (AppState {
                macros: match macros {
                    Some(ms) => ms,
                    None => old(self).macros,
                },
                ..*old(self)
            }),
    {
        if let Some(ms) = macros {
            self.macros = ms;
        }
    }
}

} // verus!
