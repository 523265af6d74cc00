//! Bootstrapping the configuration files and editing the settings by answers
//! given at a prompt.
use vstd::prelude::*;
use vstd::string::*;
use crate::properties::{
    PropertiesView, ServerProperties, default_properties, properties_text,
};
use crate::text::{chars_of, chars_equal, parse_unsigned, parse_unsigned_exec, trim, trimmed};

verus! {

/// One entry of `permissions.json`.
pub struct Permission {
    pub permission: String,
    pub xuid: String,
}

/// One entry of `allowlist.json`.
pub struct AllowlistEntry {
    pub name: String,
    pub xuid: String,
    pub ignores_player_limit: bool,
}

/// The files a start needs in the working directory.
#[derive(Clone, Copy, Debug, PartialEq, Eq, Structural)]
pub enum ConfigFile {
    Properties,
    Permissions,
    /// The copy of the permissions kept under `config/default`.
    DefaultPermissions,
    Allowlist,
}

impl ConfigFile {
    /// The file's path relative to the working directory, `/`-separated.
    pub fn path(&self) -> &'static str {
        match self {
            ConfigFile::Properties => "server.properties",
            ConfigFile::Permissions => "permissions.json",
            ConfigFile::DefaultPermissions => "config/default/permissions.json",
            ConfigFile::Allowlist => "allowlist.json",
        }
    }
}

/// The settings written beyond the editable ones when a start finds
/// `server.properties` missing.
pub open spec fn extra_settings() -> Seq<char> {
    "content-log-file-enabled=false\ncompression-threshold=1\nserver-authoritative-movement=server-auth\nplayer-movement-score-threshold=20\nplayer-movement-action-direction-threshold=0.85\nplayer-movement-distance-threshold=0.3\nplayer-movement-duration-threshold-in-ms=500\ncorrect-player-movement=false\nserver-authoritative-block-breaking=false\n"@
}

/// What a start writes into a required file that it finds missing.
pub open spec fn seed_text(f: ConfigFile) -> Seq<char> {
    match f {
        ConfigFile::Properties => properties_text(default_properties()) + extra_settings(),
        _ => "[]"@,
    }
}

/// The contents of a fresh configuration.
pub struct InitialConfigs {
    /// The text of `server.properties`.
    pub properties: String,
    /// The entries of both permission files.
    pub permissions: Vec<Permission>,
    pub allowlist: Vec<AllowlistEntry>,
}

/// A setting that can be edited at the prompt, in the order they are asked.
#[derive(Clone, Copy, Debug, PartialEq, Eq, Structural)]
pub enum ConfigField {
    ServerName,
    ServerPort,
    Gamemode,
    Difficulty,
    AllowCheats,
    MaxPlayers,
    OnlineMode,
    WhiteList,
}

pub open spec fn field_label(f: ConfigField) -> Seq<char> {
    match f {
        ConfigField::ServerName => "Nome do Servidor"@,
        ConfigField::ServerPort => "Porta do Servidor"@,
        ConfigField::Gamemode => "Modo de Jogo"@,
        ConfigField::Difficulty => "Dificuldade"@,
        ConfigField::AllowCheats => "Permitir Cheats"@,
        ConfigField::MaxPlayers => "Máximo de Jogadores"@,
        ConfigField::OnlineMode => "Modo Online"@,
        ConfigField::WhiteList => "Usar Whitelist"@,
    }
}

impl ConfigField {
    /// The label shown at the prompt, also named in the error for a bad number.
    pub fn label(&self) -> (r: &'static str)
        ensures
            r@ == field_label(*self),
    {
        match self {
            ConfigField::ServerName => "Nome do Servidor",
            ConfigField::ServerPort => "Porta do Servidor",
            ConfigField::Gamemode => "Modo de Jogo",
            ConfigField::Difficulty => "Dificuldade",
            ConfigField::AllowCheats => "Permitir Cheats",
            ConfigField::MaxPlayers => "Máximo de Jogadores",
            ConfigField::OnlineMode => "Modo Online",
            ConfigField::WhiteList => "Usar Whitelist",
        }
    }
}

/// The answer to a text prompt: the trimmed input, or `current` if it is empty.
pub open spec fn text_answer(input: Seq<char>, current: Seq<char>) -> Seq<char> {
    if trim(input).len() == 0 {
        current
    } else {
        trim(input)
    }
}

pub open spec fn gamemode_options() -> Seq<Seq<char>> {
    seq!["survival"@, "creative"@, "adventure"@]
}

pub open spec fn difficulty_options() -> Seq<Seq<char>> {
    seq!["peaceful"@, "easy"@, "normal"@, "hard"@]
}

/// The answer to a choice prompt: the trimmed input if it is one of
/// `options`, else `current`.
pub open spec fn option_answer(input: Seq<char>, current: Seq<char>, options: Seq<Seq<char>>) -> Seq<
    char,
> {
    if trim(input).len() != 0 && options.contains(trim(input)) {
        trim(input)
    } else {
        current
    }
}

/// The answer to a number prompt: `current` for an empty input, else the
/// number the trimmed input holds, or nothing where it holds none.
pub open spec fn number_answer(input: Seq<char>, current: nat, max: nat) -> Option<nat> {
    if trim(input).len() == 0 {
        Some(current)
    } else {
        parse_unsigned(trim(input), max)
    }
}

/// The answer to a yes/no prompt, from the input already trimmed and
/// lower-cased: yes in Portuguese or English, no likewise, else `current`.
pub open spec fn bool_answer(folded: Seq<char>, current: bool) -> bool {
    if folded == "s"@ || folded == "sim"@ || folded == "y"@ || folded == "yes"@ {
        true
    } else if folded == "n"@ || folded == "não"@ || folded == "nao"@ || folded == "no"@ {
        false
    } else {
        current
    }
}

/// What `str::to_lowercase` gives for `s`.
pub uninterp spec fn lower_of(s: Seq<char>) -> Seq<char>;

/// Relies on `str::to_lowercase`: the result depends on the characters alone.
#[verifier::external_body]
fn lowercase(s: &str) -> (r: String)
    ensures
        r@ == lower_of(s@),
{
    s.to_lowercase()
}

/// The settings `p` after `input` was given at the prompt for `f`; nothing
/// where a number was asked for and none was given.
pub open spec fn answered(p: PropertiesView, f: ConfigField, input: Seq<char>) -> Option<
    PropertiesView,
> {
    match f {
        ConfigField::ServerName => Some(
            PropertiesView { server_name: text_answer(input, p.server_name), ..p },
        ),
        ConfigField::ServerPort => match number_answer(input, p.server_port as nat, 65535) {
            Some(n) => Some(PropertiesView { server_port: n as u16, ..p }),
            None => None,
        },
        ConfigField::Gamemode => Some(
            PropertiesView { gamemode: option_answer(input, p.gamemode, gamemode_options()), ..p },
        ),
        ConfigField::Difficulty => Some(
            PropertiesView {
                difficulty: option_answer(input, p.difficulty, difficulty_options()),
                ..p
            },
        ),
        ConfigField::AllowCheats => Some(
            PropertiesView {
                allow_cheats: bool_answer(lower_of(trim(input)), p.allow_cheats),
                ..p
            },
        ),
        ConfigField::MaxPlayers => match number_answer(input, p.max_players as nat, 4294967295) {
            Some(n) => Some(PropertiesView { max_players: n as u32, ..p }),
            None => None,
        },
        ConfigField::OnlineMode => Some(
            PropertiesView { online_mode: bool_answer(lower_of(trim(input)), p.online_mode), ..p },
        ),
        ConfigField::WhiteList => Some(
            PropertiesView { white_list: bool_answer(lower_of(trim(input)), p.white_list), ..p },
        ),
    }
}

/// The answer to a yes/no prompt from the trimmed, lower-cased input.
pub fn bool_answer_exec(folded: &str, current: bool) -> (r: bool)
    ensures
        r == bool_answer(folded@, current),
{
    let v = chars_of(folded);
    if chars_equal(&v, "s") || chars_equal(&v, "sim") || chars_equal(&v, "y") || chars_equal(
        &v,
        "yes",
    ) {
        true
    } else if chars_equal(&v, "n") || chars_equal(&v, "não") || chars_equal(&v, "nao")
        || chars_equal(&v, "no") {
        false
    } else {
        current
    }
}

fn option_answer_exec(input: &str, current: &String, options: &Vec<&str>) -> (r: String)
    ensures
        r@ == option_answer(
            input@,
            current@,
            options@.map_values(|o: &str| o@),
        ),
{
    let t = trimmed(input);
    let ghost opts = options@.map_values(|o: &str| o@);
    if t.as_str().is_empty() {
        return current.clone();
    }
    let tv = chars_of(t.as_str());
    let mut k: usize = 0;
    while k < options.len()
        invariant
            tv@ == trim(input@),
            t@ == trim(input@),
            opts == options@.map_values(|o: &str| o@),
            trim(input@).len() != 0,
            k <= options.len(),
            forall|j: int| 0 <= j < k ==> opts[j] != trim(input@),
        decreases options.len() - k,
    {
        if chars_equal(&tv, options[k]) {
            assert(opts[k as int] == trim(input@));
            return t;
        }
        k += 1;
    }
    assert(!opts.contains(trim(input@)));
    current.clone()
}

fn number_answer_exec(input: &str, current: u32, max: u32) -> (r: Option<u32>)
    requires
        current <= max,
    ensures
        r matches Some(n) ==> number_answer(input@, current as nat, max as nat) == Some(n as nat),
        r is None ==> number_answer(input@, current as nat, max as nat) is None,
{
    let t = trimmed(input);
    if t.as_str().is_empty() {
        return Some(current);
    }
    let tv = chars_of(t.as_str());
    parse_unsigned_exec(&tv, max)
}

/// The configuration files of the server in a working directory.
pub struct ConfigManager {
    work_dir: String,
}

impl ConfigManager {
    pub closed spec fn work_dir_spec(&self) -> Seq<char> {
        self.work_dir@
    }

    pub fn new(work_dir: String) -> (r: ConfigManager)
        ensures
            r.work_dir_spec() == work_dir@,
    {
        ConfigManager { work_dir }
    }

    pub fn work_dir(&self) -> (r: &str)
        ensures
            r@ == self.work_dir_spec(),
    {
        self.work_dir.as_str()
    }

    /// The contents of a fresh configuration: the default settings, and
    /// empty permission and allow lists.
    pub fn initialize_configs(&self) -> (r: InitialConfigs)
        ensures
            r.properties@ == properties_text(default_properties()),
            r.permissions@ == Seq::<Permission>::empty(),
            r.allowlist@ == Seq::<AllowlistEntry>::empty(),
    {
        let d = ServerProperties::defaults();
        let r = InitialConfigs {
            properties: d.to_text(),
            permissions: Vec::new(),
            allowlist: Vec::new(),
        };
        assert(r.permissions@ =~= Seq::<Permission>::empty());
        assert(r.allowlist@ =~= Seq::<AllowlistEntry>::empty());
        r
    }

    /// The text of `server.properties` for `props`.
    pub fn properties_to_string(&self, props: &ServerProperties) -> (r: Result<String, String>)
        ensures
            r matches Ok(s) && s@ == properties_text(props@),
    {
        Ok(props.to_text())
    }

    /// The required files that a start seeds when missing, in the order it checks them.
    pub fn required_files(&self) -> (r: Vec<ConfigFile>)
        ensures
            r@ == seq![ConfigFile::Allowlist, ConfigFile::Permissions, ConfigFile::Properties],
    {
        let r = vec![ConfigFile::Allowlist, ConfigFile::Permissions, ConfigFile::Properties];
        assert(r@ =~= seq![ConfigFile::Allowlist, ConfigFile::Permissions, ConfigFile::Properties]);
        r
    }

    /// What a start writes into `file` when it finds it missing.
    pub fn seed_content(&self, file: ConfigFile) -> (r: String)
        ensures
            r@ == seed_text(file),
    {
        match file {
            ConfigFile::Properties => {
                let mut s = ServerProperties::defaults().to_text();
                s.append(
                    "content-log-file-enabled=false\ncompression-threshold=1\nserver-authoritative-movement=server-auth\nplayer-movement-score-threshold=20\nplayer-movement-action-direction-threshold=0.85\nplayer-movement-distance-threshold=0.3\nplayer-movement-duration-threshold-in-ms=500\ncorrect-player-movement=false\nserver-authoritative-block-breaking=false\n",
                );
                s
            },
            _ => String::from_str("[]"),
        }
    }

    /// The settings asked for at the prompt, in order.
    pub fn prompted_fields(&self) -> (r: Vec<ConfigField>)
        ensures
            r@ == seq![
                ConfigField::ServerName,
                ConfigField::ServerPort,
                ConfigField::Gamemode,
                ConfigField::Difficulty,
                ConfigField::AllowCheats,
                ConfigField::MaxPlayers,
                ConfigField::OnlineMode,
                ConfigField::WhiteList,
            ],
    {
        let r = vec![
            ConfigField::ServerName,
            ConfigField::ServerPort,
            ConfigField::Gamemode,
            ConfigField::Difficulty,
            ConfigField::AllowCheats,
            ConfigField::MaxPlayers,
            ConfigField::OnlineMode,
            ConfigField::WhiteList,
        ];
        assert(r@ =~= seq![
            ConfigField::ServerName,
            ConfigField::ServerPort,
            ConfigField::Gamemode,
            ConfigField::Difficulty,
            ConfigField::AllowCheats,
            ConfigField::MaxPlayers,
            ConfigField::OnlineMode,
            ConfigField::WhiteList,
        ]);
        r
    }

    /// Takes `input`, the line given at the prompt for `field`. A number
    /// prompt that gets no number is an error naming the field, and the
    /// settings stay as they were.
    pub fn configure_server(&self, props: &mut ServerProperties, field: ConfigField, input: &str) -> (r: Result<(), String>)
        ensures
            answered(old(props)@, field, input@) matches Some(q) ==> r is Ok && final(props)@ == q,
            answered(old(props)@, field, input@) is None ==> final(props)@ == old(props)@ && (r matches Err(m) && m@ == "Valor inválido para "@ + field_label(field)),
    {
        match field {
            ConfigField::ServerName => {
                let t = trimmed(input);
                if !t.as_str().is_empty() {
                    props.server_name = t;
                }
            },
            ConfigField::ServerPort => match number_answer_exec(input, props.server_port as u32, 65535) {
                Some(n) => {
                    props.server_port = n as u16;
                },
                None => {
                    let mut m = String::from_str("Valor inválido para ");
                    m.append(field.label());
                    return Err(m);
                },
            },
            ConfigField::Gamemode => {
                let opts: Vec<&str> = vec!["survival", "creative", "adventure"];
                assert(opts@.map_values(|o: &str| o@) =~= gamemode_options());
                props.gamemode = option_answer_exec(input, &props.gamemode, &opts);
            },
            ConfigField::Difficulty => {
                let opts: Vec<&str> = vec!["peaceful", "easy", "normal", "hard"];
                assert(opts@.map_values(|o: &str| o@) =~= difficulty_options());
                props.difficulty = option_answer_exec(input, &props.difficulty, &opts);
            },
            ConfigField::AllowCheats => {
                let f = lowercase(trimmed(input).as_str());
                props.allow_cheats = bool_answer_exec(f.as_str(), props.allow_cheats);
            },
            ConfigField::MaxPlayers => match number_answer_exec(input, props.max_players, 4294967295) {
                Some(n) => {
                    props.max_players = n;
                },
                None => {
                    let mut m = String::from_str("Valor inválido para ");
                    m.append(field.label());
                    return Err(m);
                },
            },
            ConfigField::OnlineMode => {
                let f = lowercase(trimmed(input).as_str());
                props.online_mode = bool_answer_exec(f.as_str(), props.online_mode);
            },
            ConfigField::WhiteList => {
                let f = lowercase(trimmed(input).as_str());
                props.white_list = bool_answer_exec(f.as_str(), props.white_list);
            },
        }
        Ok(())
    }
}

} // verus!
