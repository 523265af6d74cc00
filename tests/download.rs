use bedrock_manager::Config;

#[test]
fn config_work_dir() {
    assert_eq!(Config::new().work_dir(), "server");
}

#[test]
fn link_found_in_page() {
    let html = "<a href=\"https://www.minecraft.net/bedrockdedicatedserver/bin-linux/bedrock-server-1.21.60.10.zip\" class=\"btn\">";
    assert_eq!(
        Config::new().extract_download_url(html, "linux"),
        Some("https://www.minecraft.net/bedrockdedicatedserver/bin-linux/bedrock-server-1.21.60.10.zip".to_string())
    );
    let win = "x https://www.minecraft.net/bedrockdedicatedserver/bin-win/a.zip\" y";
    assert_eq!(
        Config::new().extract_download_url(win, "windows"),
        Some("https://www.minecraft.net/bedrockdedicatedserver/bin-win/a.zip".to_string())
    );
}

#[test]
fn link_missing_uses_known_release() {
    assert_eq!(
        Config::new().extract_download_url("<html></html>", "windows"),
        Some("https://www.minecraft.net/bedrockdedicatedserver/bin-win/bedrock-server-1.21.51.02.zip".to_string())
    );
    let unterminated = "https://www.minecraft.net/bedrockdedicatedserver/bin-linux/x.zip";
    assert_eq!(
        Config::new().extract_download_url(unterminated, "linux"),
        Some("https://www.minecraft.net/bedrockdedicatedserver/bin-linux/bedrock-server-1.21.51.02.zip".to_string())
    );
}

#[test]
fn unsupported_system_has_no_link() {
    assert_eq!(Config::new().extract_download_url("anything", "macos"), None);
}

#[test]
fn file_name_of_url() {
    assert_eq!(
        Config::download_file_name("https://example.com/bin/bedrock-server-1.2.zip"),
        "bedrock-server-1.2.zip"
    );
    assert_eq!(Config::download_file_name("plain"), "plain");
    assert_eq!(Config::download_file_name("https://example.com/dir/"), "");
}

#[test]
fn user_agent_text() {
    assert_eq!(
        Config::user_agent(1234),
        "Mozilla/5.0 (Windows NT 10.0; Win64; x64) AppleWebKit/537.36 (KHTML, like Gecko) Chrome/90.0.1234.212 Safari/537.36"
    );
}

#[test]
fn random_user_agent_in_range() {
    let prefix = "Mozilla/5.0 (Windows NT 10.0; Win64; x64) AppleWebKit/537.36 (KHTML, like Gecko) Chrome/90.0.";
    for _ in 0..50 {
        let ua = Config::new().random_user_agent();
        let rest = ua.strip_prefix(prefix).unwrap();
        let n: u32 = rest.strip_suffix(".212 Safari/537.36").unwrap().parse().unwrap();
        assert!((1..5000).contains(&n));
    }
}

#[test]
fn archive_directory_entries() {
    assert!(Config::entry_is_directory("bin/"));
    assert!(!Config::entry_is_directory("bin/bedrock_server"));
    assert!(!Config::entry_is_directory(""));
}
