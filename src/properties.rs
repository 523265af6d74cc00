//! The server's configuration files: `server.properties`, the permission
//! lists, and what a fresh installation holds.
use vstd::prelude::*;
use vstd::string::*;
use crate::text::{
    bool_text, chars_equal, chars_of, decimal, find_char, find_from, parse_bool, parse_bool_exec,
    parse_unsigned, parse_unsigned_exec, push_bool, push_decimal, slice_chars, split_on,
};

verus! {

/// The settings kept in `server.properties`.
pub struct ServerProperties {
    pub server_name: String,
    pub server_port: u16,
    pub gamemode: String,
    pub difficulty: String,
    pub allow_cheats: bool,
    pub max_players: u32,
    pub online_mode: bool,
    pub white_list: bool,
    pub view_distance: u32,
    pub tick_distance: u32,
    pub player_idle_timeout: u32,
    pub max_threads: u32,
    pub default_player_permission_level: String,
    pub texturepack_required: bool,
}

/// The abstract value of [`ServerProperties`].
pub struct PropertiesView {
    pub server_name: Seq<char>,
    pub server_port: u16,
    pub gamemode: Seq<char>,
    pub difficulty: Seq<char>,
    pub allow_cheats: bool,
    pub max_players: u32,
    pub online_mode: bool,
    pub white_list: bool,
    pub view_distance: u32,
    pub tick_distance: u32,
    pub player_idle_timeout: u32,
    pub max_threads: u32,
    pub default_player_permission_level: Seq<char>,
    pub texturepack_required: bool,
}

impl View for ServerProperties {
    type V = PropertiesView;

    open spec fn view(&self) -> PropertiesView {
        PropertiesView {
            server_name: self.server_name@,
            server_port: self.server_port,
            gamemode: self.gamemode@,
            difficulty: self.difficulty@,
            allow_cheats: self.allow_cheats,
            max_players: self.max_players,
            online_mode: self.online_mode,
            white_list: self.white_list,
            view_distance: self.view_distance,
            tick_distance: self.tick_distance,
            player_idle_timeout: self.player_idle_timeout,
            max_threads: self.max_threads,
            default_player_permission_level: self.default_player_permission_level@,
            texturepack_required: self.texturepack_required,
        }
    }
}

/// The settings of a fresh installation.
pub open spec fn default_properties() -> PropertiesView {
    PropertiesView {
        server_name: "Dedicated Server"@,
        server_port: 19132,
        gamemode: "survival"@,
        difficulty: "normal"@,
        allow_cheats: false,
        max_players: 10,
        online_mode: true,
        white_list: false,
        view_distance: 32,
        tick_distance: 4,
        player_idle_timeout: 30,
        max_threads: 8,
        default_player_permission_level: "member"@,
        texturepack_required: false,
    }
}

/// The text of `server.properties`: one `key=value` line per setting, in a fixed order.
pub open spec fn properties_text(p: PropertiesView) -> Seq<char> {
    "server-name="@ + p.server_name + "\n"@
        + "server-port="@ + decimal(p.server_port as nat) + "\n"@
        + "gamemode="@ + p.gamemode + "\n"@
        + "difficulty="@ + p.difficulty + "\n"@
        + "allow-cheats="@ + bool_text(p.allow_cheats) + "\n"@
        + "max-players="@ + decimal(p.max_players as nat) + "\n"@
        + "online-mode="@ + bool_text(p.online_mode) + "\n"@
        + "white-list="@ + bool_text(p.white_list) + "\n"@
        + "view-distance="@ + decimal(p.view_distance as nat) + "\n"@
        + "tick-distance="@ + decimal(p.tick_distance as nat) + "\n"@
        + "player-idle-timeout="@ + decimal(p.player_idle_timeout as nat) + "\n"@
        + "max-threads="@ + decimal(p.max_threads as nat) + "\n"@
        + "default-player-permission-level="@ + p.default_player_permission_level + "\n"@
        + "texturepack-required="@ + bool_text(p.texturepack_required) + "\n"@
}

/// The number in `value`, or `d` where it is not one.
pub open spec fn number_or(value: Seq<char>, max: nat, d: nat) -> nat {
    match parse_unsigned(value, max) {
        Some(n) => n,
        None => d,
    }
}

/// The boolean in `value`, or `d` where it is not one.
pub open spec fn bool_or(value: Seq<char>, d: bool) -> bool {
    match parse_bool(value) {
        Some(b) => b,
        None => d,
    }
}

/// `p` with the setting `key` read from `value`. A number or boolean that
/// does not parse gives that setting's fresh-installation value; an unknown
/// key changes nothing.
pub open spec fn apply_setting(p: PropertiesView, key: Seq<char>, value: Seq<char>) -> PropertiesView {
    if key == "server-name"@ {
        PropertiesView { server_name: value, ..p }
    } else if key == "server-port"@ {
        PropertiesView { server_port: number_or(value, 65535, 19132) as u16, ..p }
    } else if key == "gamemode"@ {
        PropertiesView { gamemode: value, ..p }
    } else if key == "difficulty"@ {
        PropertiesView { difficulty: value, ..p }
    } else if key == "allow-cheats"@ {
        PropertiesView { allow_cheats: bool_or(value, false), ..p }
    } else if key == "max-players"@ {
        PropertiesView { max_players: number_or(value, 4294967295, 10) as u32, ..p }
    } else if key == "online-mode"@ {
        PropertiesView { online_mode: bool_or(value, true), ..p }
    } else if key == "white-list"@ {
        PropertiesView { white_list: bool_or(value, false), ..p }
    } else if key == "view-distance"@ {
        PropertiesView { view_distance: number_or(value, 4294967295, 32) as u32, ..p }
    } else if key == "tick-distance"@ {
        PropertiesView { tick_distance: number_or(value, 4294967295, 4) as u32, ..p }
    } else if key == "player-idle-timeout"@ {
        PropertiesView { player_idle_timeout: number_or(value, 4294967295, 30) as u32, ..p }
    } else if key == "max-threads"@ {
        PropertiesView { max_threads: number_or(value, 4294967295, 8) as u32, ..p }
    } else if key == "default-player-permission-level"@ {
        PropertiesView { default_player_permission_level: value, ..p }
    } else if key == "texturepack-required"@ {
        PropertiesView { texturepack_required: bool_or(value, false), ..p }
    } else {
        p
    }
}

/// `p` after one line of `server.properties`: a line `key=value` (split at
/// the first `=`) sets `key`; a line without `=` changes nothing.
pub open spec fn apply_line(p: PropertiesView, line: Seq<char>) -> PropertiesView {
    match find_from(line, seq!['='], 0) {
        Some(i) => apply_setting(p, line.subrange(0, i), line.subrange(i + 1, line.len() as int)),
        None => p,
    }
}

pub open spec fn apply_lines(p: PropertiesView, lines: Seq<Seq<char>>) -> PropertiesView
    decreases lines.len(),
{
    if lines.len() == 0 {
        p
    } else {
        apply_line(apply_lines(p, lines.drop_last()), lines.last())
    }
}

/// A line as `BufRead::lines` yields it: without the `\r` of a `\r\n` ending.
pub open spec fn strip_cr(l: Seq<char>) -> Seq<char> {
    if l.len() > 0 && l.last() == '\r' {
        l.drop_last()
    } else {
        l
    }
}

/// The settings that the text of `server.properties` holds, starting from
/// the fresh-installation values and reading its lines in order.
pub open spec fn parse_properties(text: Seq<char>) -> PropertiesView {
    let ps = split_on(text, '\n');
    apply_line(
        apply_lines(default_properties(), ps.drop_last().map_values(|l: Seq<char>| strip_cr(l))),
        ps.last(),
    )
}

impl ServerProperties {
    /// The settings of a fresh installation.
    pub fn defaults() -> (r: ServerProperties)
        ensures
            r@ == default_properties(),
    {
        ServerProperties {
            server_name: String::from_str("Dedicated Server"),
            server_port: 19132,
            gamemode: String::from_str("survival"),
            difficulty: String::from_str("normal"),
            allow_cheats: false,
            max_players: 10,
            online_mode: true,
            white_list: false,
            view_distance: 32,
            tick_distance: 4,
            player_idle_timeout: 30,
            max_threads: 8,
            default_player_permission_level: String::from_str("member"),
            texturepack_required: false,
        }
    }

    /// The text of `server.properties` for these settings.
    pub fn to_text(&self) -> (r: String)
        ensures
            r@ == properties_text(self@),
    {
        let mut s = String::from_str("server-name=");
        s.append(self.server_name.as_str());
        s.append("\n");
        s.append("server-port=");
        push_decimal(&mut s, self.server_port as u64);
        s.append("\n");
        s.append("gamemode=");
        s.append(self.gamemode.as_str());
        s.append("\n");
        s.append("difficulty=");
        s.append(self.difficulty.as_str());
        s.append("\n");
        s.append("allow-cheats=");
        push_bool(&mut s, self.allow_cheats);
        s.append("\n");
        s.append("max-players=");
        push_decimal(&mut s, self.max_players as u64);
        s.append("\n");
        s.append("online-mode=");
        push_bool(&mut s, self.online_mode);
        s.append("\n");
        s.append("white-list=");
        push_bool(&mut s, self.white_list);
        s.append("\n");
        s.append("view-distance=");
        push_decimal(&mut s, self.view_distance as u64);
        s.append("\n");
        s.append("tick-distance=");
        push_decimal(&mut s, self.tick_distance as u64);
        s.append("\n");
        s.append("player-idle-timeout=");
        push_decimal(&mut s, self.player_idle_timeout as u64);
        s.append("\n");
        s.append("max-threads=");
        push_decimal(&mut s, self.max_threads as u64);
        s.append("\n");
        s.append("default-player-permission-level=");
        s.append(self.default_player_permission_level.as_str());
        s.append("\n");
        s.append("texturepack-required=");
        push_bool(&mut s, self.texturepack_required);
        s.append("\n");
        s
    }

    /// Applies the line `t[a..b]` of `text`.
    fn apply_line_exec(&mut self, text: &str, t: &Vec<char>, a: usize, b: usize)
        requires
            t@ == text@,
            a <= b <= t.len(),
        ensures
            final(self)@ == apply_line(old(self)@, t@.subrange(a as int, b as int)),
    {
        let line = slice_chars(t, a, b);
        let i = match find_char(&line, '=', 0) {
            Some(i) => i,
            None => {
                return ;
            },
        };
        let key = slice_chars(&line, 0, i);
        let value = slice_chars(&line, i + 1, line.len());
        assert(value@ =~= t@.subrange(a + i + 1, b as int));
        if chars_equal(&key, "server-name") {
            self.server_name = String::from_str(text.substring_char(a + i + 1, b));
        } else if chars_equal(&key, "server-port") {
            self.server_port = match parse_unsigned_exec(&value, 65535) { Some(v) => v as u16, None => 19132 };
        } else if chars_equal(&key, "gamemode") {
            self.gamemode = String::from_str(text.substring_char(a + i + 1, b));
        } else if chars_equal(&key, "difficulty") {
            self.difficulty = String::from_str(text.substring_char(a + i + 1, b));
        } else if chars_equal(&key, "allow-cheats") {
            self.allow_cheats = match parse_bool_exec(&value) { Some(v) => v, None => false };
        } else if chars_equal(&key, "max-players") {
            self.max_players = match parse_unsigned_exec(&value, 4294967295) { Some(v) => v, None => 10 };
        } else if chars_equal(&key, "online-mode") {
            self.online_mode = match parse_bool_exec(&value) { Some(v) => v, None => true };
        } else if chars_equal(&key, "white-list") {
            self.white_list = match parse_bool_exec(&value) { Some(v) => v, None => false };
        } else if chars_equal(&key, "view-distance") {
            self.view_distance = match parse_unsigned_exec(&value, 4294967295) { Some(v) => v, None => 32 };
        } else if chars_equal(&key, "tick-distance") {
            self.tick_distance = match parse_unsigned_exec(&value, 4294967295) { Some(v) => v, None => 4 };
        } else if chars_equal(&key, "player-idle-timeout") {
            self.player_idle_timeout = match parse_unsigned_exec(&value, 4294967295) { Some(v) => v, None => 30 };
        } else if chars_equal(&key, "max-threads") {
            self.max_threads = match parse_unsigned_exec(&value, 4294967295) { Some(v) => v, None => 8 };
        } else if chars_equal(&key, "default-player-permission-level") {
            self.default_player_permission_level = String::from_str(text.substring_char(a + i + 1, b));
        } else if chars_equal(&key, "texturepack-required") {
            self.texturepack_required = match parse_bool_exec(&value) { Some(v) => v, None => false };
        }
    }
}

/// Reads the text of `server.properties`.
pub fn parse_server_properties(text: &str) -> (r: ServerProperties)
    ensures
        r@ == parse_properties(text@),
{
    let t = chars_of(text);
    let mut props = ServerProperties::defaults();
    let ghost mut lines: Seq<Seq<char>> = Seq::empty();
    let mut start: usize = 0;
    let mut i: usize = 0;
    assert(t@.subrange(0, 0) =~= Seq::<char>::empty());
    assert(split_on(t@.subrange(0, 0), '\n') =~= lines.push(t@.subrange(0, 0)));
    assert(lines.map_values(|l: Seq<char>| strip_cr(l)) =~= Seq::<Seq<char>>::empty());
    while i < t.len()
        invariant
            t@ == text@,
            start <= i <= t.len(),
            split_on(t@.subrange(0, i as int), '\n') == lines.push(t@.subrange(start as int, i as int)),
            props@ == apply_lines(default_properties(), lines.map_values(|l: Seq<char>| strip_cr(l))),
        decreases t.len() - i,
    {
        let ghost line = t@.subrange(start as int, i as int);
        assert(t@.subrange(0, i + 1).drop_last() =~= t@.subrange(0, i as int));
        if t[i] == '\n' {
            let e = if i > start && t[i - 1] == '\r' {
                i - 1
            } else {
                i
            };
            assert(t@.subrange(start as int, e as int) =~= strip_cr(line));
            props.apply_line_exec(text, &t, start, e);
            proof {
                let ls = lines.push(line).map_values(|l: Seq<char>| strip_cr(l));
                assert(ls =~= lines.map_values(|l: Seq<char>| strip_cr(l)).push(strip_cr(line)));
                assert(ls.drop_last() =~= lines.map_values(|l: Seq<char>| strip_cr(l)));
                lines = lines.push(line);
                assert(t@.subrange(i + 1, i + 1) =~= Seq::<char>::empty());
            }
            start = i + 1;
        } else {
            proof {
                assert(t@.subrange(start as int, i + 1) =~= line.push(t@[i as int]));
                assert(lines.push(line).update(lines.len() as int, line.push(t@[i as int]))
                    =~= lines.push(t@.subrange(start as int, i + 1)));
            }
        }
        i += 1;
    }
    props.apply_line_exec(text, &t, start, i);
    proof {
        let line = t@.subrange(start as int, i as int);
        assert(t@.subrange(0, i as int) =~= t@);
        assert(lines.push(line).drop_last() =~= lines);
    }
    props
}

} // verus!
