use bedrock_manager::config::bool_answer_exec;
use bedrock_manager::{parse_server_properties, ConfigField, ConfigFile, ConfigManager, ServerProperties};

const DEFAULT_TEXT: &str = "server-name=Dedicated Server\nserver-port=19132\ngamemode=survival\ndifficulty=normal\nallow-cheats=false\nmax-players=10\nonline-mode=true\nwhite-list=false\nview-distance=32\ntick-distance=4\nplayer-idle-timeout=30\nmax-threads=8\ndefault-player-permission-level=member\ntexturepack-required=false\n";

fn manager() -> ConfigManager {
    ConfigManager::new("server".to_string())
}

#[test]
fn default_properties_text() {
    let text = manager().properties_to_string(&ServerProperties::defaults());
    assert_eq!(text, Ok(DEFAULT_TEXT.to_string()));
}

#[test]
fn initial_configs_hold_defaults() {
    let init = manager().initialize_configs();
    assert_eq!(init.properties, DEFAULT_TEXT);
    assert!(init.permissions.is_empty());
    assert!(init.allowlist.is_empty());
    assert_eq!(manager().work_dir(), "server");
}

#[test]
fn seeded_files() {
    let m = manager();
    let files = m.required_files();
    assert_eq!(files, vec![ConfigFile::Allowlist, ConfigFile::Permissions, ConfigFile::Properties]);
    assert_eq!(m.seed_content(ConfigFile::Allowlist), "[]");
    assert_eq!(m.seed_content(ConfigFile::Permissions), "[]");
    let props = m.seed_content(ConfigFile::Properties);
    assert!(props.starts_with(DEFAULT_TEXT));
    assert!(props.ends_with("server-authoritative-block-breaking=false\n"));
    assert_eq!(ConfigFile::DefaultPermissions.path(), "config/default/permissions.json");
}

#[test]
fn parse_round_trips_defaults() {
    let p = parse_server_properties(DEFAULT_TEXT);
    assert_eq!(p.to_text(), DEFAULT_TEXT);
}

#[test]
fn parse_reads_settings() {
    let text = "server-name=My World\r\nserver-port=25565\r\nmax-players=+40\nallow-cheats=true\nlevel-name=ignored\n# comment\nwhite-list=yes\ngamemode=creative=x\nview-distance=12";
    let p = parse_server_properties(text);
    assert_eq!(p.server_name, "My World");
    assert_eq!(p.server_port, 25565);
    assert_eq!(p.max_players, 40);
    assert!(p.allow_cheats);
    assert!(!p.white_list);
    assert_eq!(p.gamemode, "creative=x");
    assert_eq!(p.view_distance, 12);
    assert_eq!(p.difficulty, "normal");
}

#[test]
fn parse_bad_numbers_fall_back() {
    let p = parse_server_properties("server-port=70000\nmax-players=-3\ntick-distance=\nmax-threads=12a\nonline-mode=TRUE\n");
    assert_eq!(p.server_port, 19132);
    assert_eq!(p.max_players, 10);
    assert_eq!(p.tick_distance, 4);
    assert_eq!(p.max_threads, 8);
    assert!(p.online_mode);
}

#[test]
fn prompt_fields_in_order() {
    assert_eq!(
        manager().prompted_fields(),
        vec![
            ConfigField::ServerName,
            ConfigField::ServerPort,
            ConfigField::Gamemode,
            ConfigField::Difficulty,
            ConfigField::AllowCheats,
            ConfigField::MaxPlayers,
            ConfigField::OnlineMode,
            ConfigField::WhiteList,
        ]
    );
}

#[test]
fn text_and_option_answers() {
    let m = manager();
    let mut p = ServerProperties::defaults();
    assert_eq!(m.configure_server(&mut p, ConfigField::ServerName, "  Castle  \n"), Ok(()));
    assert_eq!(p.server_name, "Castle");
    assert_eq!(m.configure_server(&mut p, ConfigField::ServerName, "   \n"), Ok(()));
    assert_eq!(p.server_name, "Castle");
    assert_eq!(m.configure_server(&mut p, ConfigField::Gamemode, "creative\n"), Ok(()));
    assert_eq!(p.gamemode, "creative");
    assert_eq!(m.configure_server(&mut p, ConfigField::Gamemode, "spectator\n"), Ok(()));
    assert_eq!(p.gamemode, "creative");
    assert_eq!(m.configure_server(&mut p, ConfigField::Difficulty, " hard "), Ok(()));
    assert_eq!(p.difficulty, "hard");
}

#[test]
fn number_answers() {
    let m = manager();
    let mut p = ServerProperties::defaults();
    assert_eq!(m.configure_server(&mut p, ConfigField::ServerPort, "19133\n"), Ok(()));
    assert_eq!(p.server_port, 19133);
    assert_eq!(m.configure_server(&mut p, ConfigField::ServerPort, "\n"), Ok(()));
    assert_eq!(p.server_port, 19133);
    assert_eq!(
        m.configure_server(&mut p, ConfigField::ServerPort, "port\n"),
        Err("Valor inválido para Porta do Servidor".to_string())
    );
    assert_eq!(p.server_port, 19133);
    assert_eq!(
        m.configure_server(&mut p, ConfigField::MaxPlayers, "4294967296"),
        Err("Valor inválido para Máximo de Jogadores".to_string())
    );
    assert_eq!(m.configure_server(&mut p, ConfigField::MaxPlayers, "20"), Ok(()));
    assert_eq!(p.max_players, 20);
}

#[test]
fn yes_no_answers_ignore_case() {
    let m = manager();
    let mut p = ServerProperties::defaults();
    assert_eq!(m.configure_server(&mut p, ConfigField::AllowCheats, " SIM \n"), Ok(()));
    assert!(p.allow_cheats);
    assert_eq!(m.configure_server(&mut p, ConfigField::OnlineMode, "NÃO"), Ok(()));
    assert!(!p.online_mode);
    assert_eq!(m.configure_server(&mut p, ConfigField::WhiteList, "Yes"), Ok(()));
    assert!(p.white_list);
    assert_eq!(m.configure_server(&mut p, ConfigField::WhiteList, "maybe"), Ok(()));
    assert!(p.white_list);
    assert_eq!(m.configure_server(&mut p, ConfigField::WhiteList, ""), Ok(()));
    assert!(p.white_list);
}

#[test]
fn folded_yes_no_words() {
    assert!(bool_answer_exec("sim", false));
    assert!(bool_answer_exec("y", false));
    assert!(!bool_answer_exec("não", true));
    assert!(!bool_answer_exec("nao", true));
    assert!(!bool_answer_exec("no", true));
    assert!(bool_answer_exec("", true));
    assert!(!bool_answer_exec("SIM", false));
}
