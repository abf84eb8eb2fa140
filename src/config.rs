use vstd::prelude::*;
use crate::nowplaying::DisplayPreferences;
use crate::number::{decimal_chars, digits_value, parse_u64, parses_as_u64, push_decimal_text, unsigned_part};
use crate::text::{contains_spec, str_contains};

verus! {

/// Resolved settings of the service.
#[derive(Clone)]
pub struct Config {
    pub nowplaying_path: String,
    pub display_artist: bool,
    pub display_album: bool,
    pub display_title: bool,
    pub sleep_duration_ms: u64,
    pub port: String,
    pub web_files_text: Vec<String>,
    pub public: bool,
}

/// The paths served as static files unless the settings name others.
pub open spec fn default_web_files() -> Seq<Seq<char>> {
    seq!["/nowplaying.html"@, "/nowplaying.css"@, "/nowplaying.js"@]
}

/// Views of the strings in a vector.
pub open spec fn string_views(v: Seq<String>) -> Seq<Seq<char>> {
    v.map_values(|s: String| s@)
}

impl Config {
    /// The default settings, with the status file placed in `work_directory`.
    pub fn new(work_directory: &str) -> (r: Config)
        ensures
            r.nowplaying_path@ == work_directory@ + "now_playing.txt"@,
            r.display_artist && r.display_album && r.display_title,
            r.sleep_duration_ms == 1000,
            r.port@ == "9500"@,
            string_views(r.web_files_text@) == default_web_files(),
            !r.public,
    {
        let mut nowplaying_path = String::from_str(work_directory);
        nowplaying_path.append("now_playing.txt");
        let mut web_files_text: Vec<String> = Vec::new();
        web_files_text.push(String::from_str("/nowplaying.html"));
        web_files_text.push(String::from_str("/nowplaying.css"));
        web_files_text.push(String::from_str("/nowplaying.js"));
        proof {
            assert(string_views(web_files_text@) =~= default_web_files());
        }
        Config {
            nowplaying_path,
            display_artist: true,
            display_album: true,
            display_title: true,
            sleep_duration_ms: 1000,
            port: String::from_str("9500"),
            web_files_text,
            public: false,
        }
    }

    /// The display preferences these settings select.
    pub fn preferences(&self) -> (r: DisplayPreferences)
        ensures
            r.show_artist == self.display_artist,
            r.show_album == self.display_album,
            r.show_title == self.display_title,
    {
        DisplayPreferences {
            show_artist: self.display_artist,
            show_album: self.display_album,
            show_title: self.display_title,
        }
    }
}

/// The abstract value of the settings.
pub struct ConfigState {
    pub nowplaying_path: Seq<char>,
    pub display_artist: bool,
    pub display_album: bool,
    pub display_title: bool,
    pub sleep_duration_ms: u64,
    pub port: Seq<char>,
    pub web_files: Seq<Seq<char>>,
    pub public: bool,
}

impl View for Config {
    type V = ConfigState;

    open spec fn view(&self) -> ConfigState {
        ConfigState {
            nowplaying_path: self.nowplaying_path@,
            display_artist: self.display_artist,
            display_album: self.display_album,
            display_title: self.display_title,
            sleep_duration_ms: self.sleep_duration_ms,
            port: self.port@,
            web_files: string_views(self.web_files_text@),
            public: self.public,
        }
    }
}

/// One `name = value` entry of a settings file.
pub struct ConfigAttribute {
    pub name: String,
    pub value: String,
}

/// A named group of entries of a settings file.
pub struct ConfigGroup {
    pub name: String,
    pub attributes: Vec<ConfigAttribute>,
}

/// Why a settings file was refused.
#[derive(Debug, Clone, Copy, PartialEq, Eq, Structural)]
pub enum ConfigError {
    /// A display switch is neither `true` nor `false`.
    NotABool,
    /// The interval is not the text of a 64-bit unsigned number.
    NotANumber,
}

pub open spec fn attribute_views(v: Seq<ConfigAttribute>) -> Seq<(Seq<char>, Seq<char>)> {
    v.map_values(|a: ConfigAttribute| (a.name@, a.value@))
}

pub open spec fn group_views(v: Seq<ConfigGroup>) -> Seq<(Seq<char>, Seq<(Seq<char>, Seq<char>)>)> {
    v.map_values(|g: ConfigGroup| (g.name@, attribute_views(g.attributes@)))
}

/// The value of the first entry named `key`, if any.
pub open spec fn lookup(attrs: Seq<(Seq<char>, Seq<char>)>, key: Seq<char>) -> Option<Seq<char>>
    decreases attrs.len(),
{
    if attrs.len() == 0 {
        None
    } else if attrs[0].0 == key {
        Some(attrs[0].1)
    } else {
        lookup(attrs.subrange(1, attrs.len() as int), key)
    }
}

/// A display switch after reading the entry `key`: unchanged when absent,
/// the switch's value when it reads `true` or `false`, else an error.
pub open spec fn switch_after(current: bool, attrs: Seq<(Seq<char>, Seq<char>)>, key: Seq<char>) -> Result<bool, ConfigError> {
    match lookup(attrs, key) {
        None => Ok(current),
        Some(v) => if v == "true"@ {
            Ok(true)
        } else if v == "false"@ {
            Ok(false)
        } else {
            Err(ConfigError::NotABool)
        },
    }
}

/// The interval after reading its entry.
pub open spec fn interval_after(current: u64, attrs: Seq<(Seq<char>, Seq<char>)>) -> Result<u64, ConfigError> {
    match lookup(attrs, "sleep_duration"@) {
        None => Ok(current),
        Some(v) => if parses_as_u64(v) {
            Ok(digits_value(unsigned_part(v)) as u64)
        } else {
            Err(ConfigError::NotANumber)
        },
    }
}

/// The settings after reading the `general` group's entries. The switches
/// are read before the interval, so a bad switch is the error reported.
pub open spec fn general_after(c: ConfigState, attrs: Seq<(Seq<char>, Seq<char>)>) -> Result<ConfigState, ConfigError> {
    let path = match lookup(attrs, "nowplaying_path"@) {
        Some(v) => v,
        None => c.nowplaying_path,
    };
    let artist = switch_after(c.display_artist, attrs, "display_artist"@);
    let album = switch_after(c.display_album, attrs, "display_album"@);
    let title = switch_after(c.display_title, attrs, "display_title"@);
    let interval = interval_after(c.sleep_duration_ms, attrs);
    if artist is Err || album is Err || title is Err {
        Err(ConfigError::NotABool)
    } else if interval is Err {
        Err(ConfigError::NotANumber)
    } else {
        Ok(ConfigState {
            nowplaying_path: path,
            display_artist: artist->Ok_0,
            display_album: album->Ok_0,
            display_title: title->Ok_0,
            sleep_duration_ms: interval->Ok_0,
            ..c
        })
    }
}

/// The values of the entries whose name holds `web_file`, in order.
pub open spec fn web_file_values(attrs: Seq<(Seq<char>, Seq<char>)>) -> Seq<Seq<char>>
    decreases attrs.len(),
{
    if attrs.len() == 0 {
        Seq::empty()
    } else if contains_spec(attrs.last().0, "web_file"@) {
        web_file_values(attrs.drop_last()).push(attrs.last().1)
    } else {
        web_file_values(attrs.drop_last())
    }
}

/// The static paths after reading a `web_files` group: the listed paths
/// replace the defaults, and add to paths that an earlier group listed.
pub open spec fn web_files_after(current: Seq<Seq<char>>, defaults: Seq<Seq<char>>, attrs: Seq<(Seq<char>, Seq<char>)>) -> Seq<Seq<char>> {
    (if current == defaults { Seq::empty() } else { current }) + web_file_values(attrs)
}

/// The settings after reading one group; groups of other names are ignored.
pub open spec fn group_after(c: ConfigState, defaults: Seq<Seq<char>>, g: (Seq<char>, Seq<(Seq<char>, Seq<char>)>)) -> Result<ConfigState, ConfigError> {
    if g.0 == "general"@ {
        general_after(c, g.1)
    } else if g.0 == "web_files"@ {
        Ok(ConfigState { web_files: web_files_after(c.web_files, defaults, g.1), ..c })
    } else {
        Ok(c)
    }
}

/// The settings after reading the groups in order, from the defaults `d`.
pub open spec fn groups_after(d: ConfigState, groups: Seq<(Seq<char>, Seq<(Seq<char>, Seq<char>)>)>) -> Result<ConfigState, ConfigError>
    decreases groups.len(),
{
    if groups.len() == 0 {
        Ok(d)
    } else {
        match groups_after(d, groups.drop_last()) {
            Err(e) => Err(e),
            Ok(c) => group_after(c, d.web_files, groups.last()),
        }
    }
}

proof fn lemma_views_push(v: Seq<String>, x: String)
    ensures
        string_views(v.push(x)) == string_views(v).push(x@),
{
    assert(string_views(v.push(x)) =~= string_views(v).push(x@));
}

fn copy_strings(v: &Vec<String>) -> (r: Vec<String>)
    ensures
        string_views(r@) == string_views(v@),
{
    let mut out: Vec<String> = Vec::new();
    let mut i: usize = 0;
    while i < v.len()
        invariant
            i <= v@.len(),
            string_views(out@) =~= string_views(v@.subrange(0, i as int)),
        decreases v@.len() - i,
    {
        let item = v[i].clone();
        assert(item@ == v@[i as int]@);
        proof {
            lemma_views_push(out@, item);
            lemma_views_push(v@.subrange(0, i as int), v@[i as int]);
        }
        out.push(item);
        assert(v@.subrange(0, i + 1) =~= v@.subrange(0, i as int).push(v@[i as int]));
        i = i + 1;
        proof {
            assert(string_views(out@) =~= string_views(v@.subrange(0, i as int)));
        }
    }
    proof {
        assert(v@.subrange(0, i as int) =~= v@);
    }
    out
}

fn same_strings(a: &Vec<String>, b: &Vec<String>) -> (r: bool)
    ensures
        r == (string_views(a@) == string_views(b@)),
{
    if a.len() != b.len() {
        proof {
            assert(string_views(a@).len() != string_views(b@).len());
        }
        return false;
    }
    let mut i: usize = 0;
    while i < a.len()
        invariant
            a@.len() == b@.len(),
            i <= a@.len(),
            forall|k: int| 0 <= k < i ==> a@[k]@ == b@[k]@,
        decreases a@.len() - i,
    {
        if a[i] != b[i] {
            proof {
                assert(string_views(a@)[i as int] != string_views(b@)[i as int]);
            }
            return false;
        }
        i = i + 1;
    }
    proof {
        assert(string_views(a@) =~= string_views(b@));
    }
    true
}

/// The value of the first attribute named `key`.
fn find_attribute(attrs: &Vec<ConfigAttribute>, key: &str) -> (r: Option<String>)
    ensures
        match r {
            Some(v) => lookup(attribute_views(attrs@), key@) == Some(v@),
            None => lookup(attribute_views(attrs@), key@) is None,
        },
{
    let mut i: usize = 0;
    let k = String::from_str(key);
    assert(attribute_views(attrs@).subrange(0, attrs@.len() as int) =~= attribute_views(attrs@));
    while i < attrs.len()
        invariant
            i <= attrs@.len(),
            k@ == key@,
            lookup(attribute_views(attrs@), key@) == lookup(attribute_views(attrs@).subrange(i as int, attrs@.len() as int), key@),
        decreases attrs@.len() - i,
    {
        let ghost rest = attribute_views(attrs@).subrange(i as int, attrs@.len() as int);
        assert(rest[0] == (attrs@[i as int].name@, attrs@[i as int].value@));
        if attrs[i].name == k {
            return Some(attrs[i].value.clone());
        }
        proof {
            assert(rest.subrange(1, rest.len() as int) =~= attribute_views(attrs@).subrange(i + 1, attrs@.len() as int));
        }
        i = i + 1;
    }
    None
}

fn read_switch(current: bool, attrs: &Vec<ConfigAttribute>, key: &str) -> (r: Result<bool, ConfigError>)
    ensures
        r == switch_after(current, attribute_views(attrs@), key@),
{
    match find_attribute(attrs, key) {
        None => Ok(current),
        Some(v) => {
            let t = String::from_str("true");
            let f = String::from_str("false");
            if v == t {
                Ok(true)
            } else if v == f {
                Ok(false)
            } else {
                Err(ConfigError::NotABool)
            }
        },
    }
}

fn read_interval(current: u64, attrs: &Vec<ConfigAttribute>) -> (r: Result<u64, ConfigError>)
    ensures
        r == interval_after(current, attribute_views(attrs@)),
{
    match find_attribute(attrs, "sleep_duration") {
        None => Ok(current),
        Some(v) => match parse_u64(v.as_str()) {
            Some(n) => Ok(n),
            None => Err(ConfigError::NotANumber),
        },
    }
}

fn apply_general(c: &mut Config, attrs: &Vec<ConfigAttribute>) -> (r: Result<(), ConfigError>)
    ensures
        match general_after(old(c)@, attribute_views(attrs@)) {
            Ok(s) => r is Ok && final(c)@ == s,
            Err(e) => r == Err::<(), ConfigError>(e),
        },
{
    let path = find_attribute(attrs, "nowplaying_path");
    let artist = read_switch(c.display_artist, attrs, "display_artist");
    let album = read_switch(c.display_album, attrs, "display_album");
    let title = read_switch(c.display_title, attrs, "display_title");
    let interval = read_interval(c.sleep_duration_ms, attrs);
    match (artist, album, title) {
        (Ok(a), Ok(al), Ok(t)) => {
            match interval {
                Ok(i) => {
                    match path {
                        Some(p) => {
                            c.nowplaying_path = p;
                        },
                        None => {},
                    }
                    c.display_artist = a;
                    c.display_album = al;
                    c.display_title = t;
                    c.sleep_duration_ms = i;
                    Ok(())
                },
                Err(e) => Err(e),
            }
        },
        _ => Err(ConfigError::NotABool),
    }
}

fn apply_web_files(c: &mut Config, defaults: &Vec<String>, attrs: &Vec<ConfigAttribute>)
    ensures
        final(c)@ == (ConfigState {
            web_files: web_files_after(old(c)@.web_files, string_views(defaults@), attribute_views(attrs@)),
            ..old(c)@
        }),
{
    if same_strings(&c.web_files_text, defaults) {
        c.web_files_text = Vec::new();
        proof {
            assert(string_views(c.web_files_text@) =~= Seq::<Seq<char>>::empty());
        }
    }
    let ghost base = string_views(c.web_files_text@);
    assert(attribute_views(attrs@.subrange(0, 0)) =~= Seq::empty());
    let mut i: usize = 0;
    while i < attrs.len()
        invariant
            i <= attrs@.len(),
            string_views(c.web_files_text@) == base + web_file_values(attribute_views(attrs@.subrange(0, i as int))),
            base == (if old(c)@.web_files == string_views(defaults@) { Seq::empty() } else { old(c)@.web_files }),
            c@ == (ConfigState { web_files: string_views(c.web_files_text@), ..old(c)@ }),
        decreases attrs@.len() - i,
    {
        let ghost prev = attribute_views(attrs@.subrange(0, i as int));
        proof {
            assert(attribute_views(attrs@.subrange(0, i + 1)).drop_last() =~= prev);
        }
        proof {
            assert(attribute_views(attrs@.subrange(0, i + 1)).last() == (attrs@[i as int].name@, attrs@[i as int].value@));
        }
        if str_contains(attrs[i].name.as_str(), "web_file") {
            let value = attrs[i].value.clone();
            assert(value@ == attrs@[i as int].value@);
            proof {
                lemma_views_push(c.web_files_text@, value);
            }
            c.web_files_text.push(value);
        }
        i = i + 1;
        proof {
            assert(string_views(c.web_files_text@) =~= base + web_file_values(attribute_views(attrs@.subrange(0, i as int))));
        }
    }
    proof {
        assert(attrs@.subrange(0, i as int) =~= attrs@);
    }
}

proof fn lemma_error_persists(d: ConfigState, gs: Seq<(Seq<char>, Seq<(Seq<char>, Seq<char>)>)>, k: int)
    requires
        0 <= k <= gs.len(),
        groups_after(d, gs.subrange(0, k)) is Err,
    ensures
        groups_after(d, gs) == groups_after(d, gs.subrange(0, k)),
    decreases gs.len() - k,
{
    if gs.len() == k {
        assert(gs.subrange(0, k) =~= gs);
    } else {
        assert(gs.drop_last().subrange(0, k) =~= gs.subrange(0, k));
        lemma_error_persists(d, gs.drop_last(), k);
    }
}

impl Config {
    /// The settings after reading the groups of a settings file in order,
    /// starting from `default_config`.
    pub fn read_config(default_config: &Config, groups: &Vec<ConfigGroup>) -> (r: Result<Config, ConfigError>)
        ensures
            match groups_after(default_config@, group_views(groups@)) {
                Ok(s) => r matches Ok(c) && c@ == s,
                Err(e) => r matches Err(x) && x == e,
            },
    {
        let mut config = Config {
            nowplaying_path: default_config.nowplaying_path.clone(),
            display_artist: default_config.display_artist,
            display_album: default_config.display_album,
            display_title: default_config.display_title,
            sleep_duration_ms: default_config.sleep_duration_ms,
            port: default_config.port.clone(),
            web_files_text: copy_strings(&default_config.web_files_text),
            public: default_config.public,
        };
        let general = String::from_str("general");
        let web_files = String::from_str("web_files");
        let mut i: usize = 0;
        while i < groups.len()
            invariant
                i <= groups@.len(),
                general@ == "general"@,
                web_files@ == "web_files"@,
                groups_after(default_config@, group_views(groups@.subrange(0, i as int))) == Ok::<ConfigState, ConfigError>(config@),
            decreases groups@.len() - i,
        {
            proof {
                assert(group_views(groups@.subrange(0, i + 1)).drop_last() =~= group_views(groups@.subrange(0, i as int)));
            }
            if groups[i].name == general {
                match apply_general(&mut config, &groups[i].attributes) {
                    Ok(()) => {},
                    Err(e) => {
                        proof {
                            assert(group_views(groups@.subrange(0, i + 1)).last() == group_views(groups@)[i as int]);
                            lemma_error_persists(default_config@, group_views(groups@), i + 1);
                            assert(group_views(groups@).subrange(0, i + 1) =~= group_views(groups@.subrange(0, i + 1)));
                        }
                        return Err(e);
                    },
                }
            } else if groups[i].name == web_files {
                apply_web_files(&mut config, &default_config.web_files_text, &groups[i].attributes);
            }
            i = i + 1;
        }
        proof {
            assert(groups@.subrange(0, i as int) =~= groups@);
        }
        Ok(config)
    }
}

/// The text of a switch.
pub open spec fn bool_text(b: bool) -> Seq<char> {
    if b { "true"@ } else { "false"@ }
}

/// The entries of a `web_files` group listing `files`: `web_file0`, `web_file1`, ...
pub open spec fn web_file_entries(files: Seq<Seq<char>>) -> Seq<(Seq<char>, Seq<char>)> {
    Seq::new(files.len(), |i: int| ("web_file"@ + decimal_chars(i as nat), files[i]))
}

/// The groups of a settings file that records `c`.
pub open spec fn config_groups_spec(c: ConfigState) -> Seq<(Seq<char>, Seq<(Seq<char>, Seq<char>)>)> {
    seq![
        ("general"@, seq![
            ("nowplaying_path"@, c.nowplaying_path),
            ("display_artist"@, bool_text(c.display_artist)),
            ("display_album"@, bool_text(c.display_album)),
            ("display_title"@, bool_text(c.display_title)),
            ("sleep_duration"@, decimal_chars(c.sleep_duration_ms as nat)),
            ("port"@, c.port),
            ("public"@, bool_text(c.public)),
        ]),
        ("web_files"@, web_file_entries(c.web_files)),
    ]
}

fn attribute(name: &str, value: String) -> (r: ConfigAttribute)
    ensures
        r.name@ == name@,
        r.value@ == value@,
{
    ConfigAttribute { name: String::from_str(name), value }
}

fn bool_string(b: bool) -> (r: String)
    ensures
        r@ == bool_text(b),
{
    if b {
        String::from_str("true")
    } else {
        String::from_str("false")
    }
}

impl Config {
    /// The groups of a settings file that records these settings, as written
    /// when no settings file exists yet.
    pub fn default_config_groups(&self) -> (r: Vec<ConfigGroup>)
        ensures
            group_views(r@) == config_groups_spec(self@),
    {
        let mut general: Vec<ConfigAttribute> = Vec::new();
        general.push(attribute("nowplaying_path", self.nowplaying_path.clone()));
        general.push(attribute("display_artist", bool_string(self.display_artist)));
        general.push(attribute("display_album", bool_string(self.display_album)));
        general.push(attribute("display_title", bool_string(self.display_title)));
        let mut interval = String::new();
        push_decimal_text(&mut interval, self.sleep_duration_ms);
        general.push(attribute("sleep_duration", interval));
        general.push(attribute("port", self.port.clone()));
        general.push(attribute("public", bool_string(self.public)));
        let mut web: Vec<ConfigAttribute> = Vec::new();
        let mut i: usize = 0;
        while i < self.web_files_text.len()
            invariant
                i <= self.web_files_text@.len(),
                attribute_views(web@) =~= web_file_entries(self@.web_files).subrange(0, i as int),
            decreases self.web_files_text@.len() - i,
        {
            let mut name = String::from_str("web_file");
            push_decimal_text(&mut name, i as u64);
            let value = self.web_files_text[i].clone();
            let a = ConfigAttribute { name, value };
            proof {
                assert(a.value@ == self@.web_files[i as int]);
                assert(a.name@ == web_file_entries(self@.web_files)[i as int].0);
                assert(attribute_views(web@.push(a)) =~= attribute_views(web@).push((a.name@, a.value@)));
            }
            web.push(a);
            i = i + 1;
            proof {
                assert(attribute_views(web@) =~= web_file_entries(self@.web_files).subrange(0, i as int));
            }
        }
        let mut groups: Vec<ConfigGroup> = Vec::new();
        groups.push(ConfigGroup { name: String::from_str("general"), attributes: general });
        groups.push(ConfigGroup { name: String::from_str("web_files"), attributes: web });
        proof {
            assert(attribute_views(general@) =~= config_groups_spec(self@)[0].1);
            assert(attribute_views(web@) =~= web_file_entries(self@.web_files));
            assert(group_views(groups@) =~= config_groups_spec(self@));
        }
        groups
    }
}

} // verus!
