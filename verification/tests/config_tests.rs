use mc_tunnel::config::{
    config_path, default_game_port, default_mc_address, default_reconnect_delay,
    default_tunnel_port, default_vps_address, default_web_port, listen_address, parse_mode,
    player_label, starts_web_server, Config, ConfigError, Mode,
};

#[test]
fn defaults() {
    assert_eq!(default_game_port(), 25565);
    assert_eq!(default_tunnel_port(), 9000);
    assert_eq!(default_vps_address(), "127.0.0.1:9000");
    assert_eq!(default_mc_address(), "127.0.0.1:25565");
    assert_eq!(default_reconnect_delay(), 3);
    assert_eq!(default_web_port(), 3001);
}

#[test]
fn config_with_defaults() {
    let c = Config::new("client".to_string());
    assert_eq!(c.mode, "client");
    assert_eq!(c.game_port, 25565);
    assert_eq!(c.tunnel_port, 9000);
    assert_eq!(c.vps_address, "127.0.0.1:9000");
    assert_eq!(c.minecraft_address, "127.0.0.1:25565");
    assert_eq!(c.reconnect_delay_secs, 3);
    assert_eq!(c.max_reconnect_attempts, 0);
    assert_eq!(c.web_port, 3001);
    assert_eq!(c.run_mode(), Some(Mode::Client));
}

#[test]
fn modes() {
    assert_eq!(parse_mode("vps"), Some(Mode::Vps));
    assert_eq!(parse_mode("client"), Some(Mode::Client));
    assert_eq!(parse_mode("VPS"), None);
    assert_eq!(parse_mode("server"), None);
    assert_eq!(parse_mode(""), None);
    assert_eq!(Config::new("relay".to_string()).run_mode(), None);
}

#[test]
fn only_vps_serves_dashboard() {
    assert!(starts_web_server(Mode::Vps));
    assert!(!starts_web_server(Mode::Client));
}

#[test]
fn config_path_from_arguments() {
    let none = vec!["mc-tunnel".to_string()];
    assert_eq!(config_path(&none), "config.toml");
    let given = vec!["mc-tunnel".to_string(), "/etc/mc-tunnel/production.toml".to_string()];
    assert_eq!(config_path(&given), "/etc/mc-tunnel/production.toml");
    let extra = vec!["mc-tunnel".to_string(), "a.toml".to_string(), "b.toml".to_string()];
    assert_eq!(config_path(&extra), "a.toml");
    assert_eq!(config_path(&Vec::new()), "config.toml");
}

#[test]
fn listen_addresses() {
    assert_eq!(listen_address(25565), "0.0.0.0:25565");
    assert_eq!(listen_address(9000), "0.0.0.0:9000");
    assert_eq!(listen_address(3001), "0.0.0.0:3001");
    assert_eq!(listen_address(0), "0.0.0.0:0");
    assert_eq!(listen_address(7), "0.0.0.0:7");
    assert_eq!(listen_address(65535), "0.0.0.0:65535");
}

#[test]
fn player_labels() {
    assert_eq!(player_label("192.168.1.50"), "player:192.168.1.50");
}

#[test]
fn read_error_message() {
    let e = ConfigError::Read { path: "config.toml".to_string(), reason: "not found".to_string() };
    assert_eq!(
        e.message(),
        "Не удалось прочитать конфиг 'config.toml': not found\n\
         💡 Подсказка: скопируйте config.example.toml в config.toml\n\
         💡 Или укажите путь: ./mc-tunnel /path/to/config.toml"
    );
}

#[test]
fn parse_error_message() {
    let e = ConfigError::Parse { path: "c.toml".to_string(), reason: "bad key".to_string() };
    assert_eq!(
        e.message(),
        "Ошибка парсинга конфига 'c.toml': bad key\n💡 Проверьте синтаксис TOML-файла"
    );
}
