use linkup_cli::services::cloudflared::{config_path, credentials_path, tunnel_config};

#[test]
fn test_create_config_yml_output_path_and_content() {
    let tmp = "/tmp/linkup-test-cf-config";
    let config = tunnel_config("test-tunnel-id", 9080, tmp);

    assert_eq!(config_path(tmp), "/tmp/linkup-test-cf-config/cloudflared-config.yml");
    assert!(config.url.contains("http://localhost:9080"), "should contain correct port");
    assert!(config.tunnel.contains("test-tunnel-id"), "should contain tunnel ID");
    let creds_path = credentials_path(tmp);
    assert_eq!(creds_path, "/tmp/linkup-test-cf-config/cloudflared-creds.json");
    assert!(config.credentials_file.contains(&creds_path), "credentials-file should point to LINKUP_HOME");
}

#[test]
fn tunnel_config_values() {
    let config = tunnel_config("abc", 80, "/home/me/.linkup/");
    assert_eq!(config.url, "http://localhost:80");
    assert_eq!(config.tunnel, "abc");
    assert_eq!(config.credentials_file, "/home/me/.linkup/cloudflared-creds.json");
}
