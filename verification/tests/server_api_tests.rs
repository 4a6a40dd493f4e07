use playout::server_api::{
    bearer_token, get_configs_folder_path, get_playlist_file_path, is_default_playlist,
    playlist_name_from_file_name, sanitize_requested_path, TokenClaims,
};
use playout::server_config::{Auth, Media, NodeConfig};

fn config() -> NodeConfig {
    NodeConfig {
        media: Media { folder: "/media".to_string() },
        auth: Auth {
            password_hash: String::new(),
            jwt_secret: String::new(),
            jwt_maxage: 3600,
            jwt_expires_in: "60m".to_string(),
        },
    }
}

#[test]
fn configs_folder_is_cfg_under_media_root() {
    assert_eq!(get_configs_folder_path(&config()), "/media/cfg");
}

#[test]
fn default_playlist_path() {
    assert_eq!(
        get_playlist_file_path(&config(), "default".to_string()),
        "/media/cfg/playlist.toml"
    );
}

#[test]
fn named_playlist_path() {
    assert_eq!(
        get_playlist_file_path(&config(), "node1".to_string()),
        "/media/cfg/playlist_node1.toml"
    );
}

#[test]
fn named_playlist_path_strips_dots() {
    assert_eq!(
        get_playlist_file_path(&config(), "a.b.c".to_string()),
        "/media/cfg/playlist_abc.toml"
    );
    assert_eq!(
        get_playlist_file_path(&config(), "no.dots.here".to_string()),
        "/media/cfg/playlist_nodotshere.toml"
    );
}

#[test]
fn default_name_recognised() {
    assert!(is_default_playlist(&"default".to_string()));
    assert!(!is_default_playlist(&"node1".to_string()));
}

#[test]
fn playlist_name_extraction() {
    assert_eq!(
        playlist_name_from_file_name("playlist_node1.toml"),
        Some("node1".to_string())
    );
    assert_eq!(
        playlist_name_from_file_name("playlist_shop_floor.toml"),
        Some("shop_floor".to_string())
    );
    // The separator before the extension may be any character, and the
    // name itself may hold dots.
    assert_eq!(
        playlist_name_from_file_name("playlist_a.b.toml"),
        Some("a.b".to_string())
    );
    // The default document and unrelated names yield nothing.
    assert_eq!(playlist_name_from_file_name("playlist.toml"), None);
    assert_eq!(playlist_name_from_file_name("notes.txt"), None);
    assert_eq!(playlist_name_from_file_name("playlist_.toml"), None);
}

#[test]
fn sanitize_collapses_parent_steps() {
    assert_eq!(sanitize_requested_path(&"../x".to_string()), "./x");
    assert_eq!(sanitize_requested_path(&"a..b".to_string()), "a.b");
    assert_eq!(sanitize_requested_path(&"....".to_string()), "..");
    assert_eq!(sanitize_requested_path(&"music/sub".to_string()), "music/sub");
    assert_eq!(sanitize_requested_path(&"".to_string()), "");
}

#[test]
fn bearer_token_extraction() {
    assert_eq!(
        bearer_token("Bearer abc.def.ghi"),
        Some("abc.def.ghi".to_string())
    );
    assert_eq!(bearer_token("Basic abc"), None);
    assert_eq!(bearer_token(""), None);
}

#[test]
fn token_claims_expire_an_hour_after_issue() {
    let c = TokenClaims::for_issue_time(1_700_000_000);
    assert_eq!(c.iat, 1_700_000_000);
    assert_eq!(c.exp, 1_700_000_000 + 3600);
}

#[test]
fn playlist_name_extraction_is_unanchored() {
    // The marker may sit anywhere in the file name; extraction starts at
    // its first occurrence.
    assert_eq!(
        playlist_name_from_file_name("old_playlist_node2.toml"),
        Some("node2".to_string())
    );
}
