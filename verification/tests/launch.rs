use skima_sidecar::launch::{data_file, LaunchSpec, DEFAULT_PORT};

#[test]
fn launch_spec_for_default_port() {
    let spec = LaunchSpec::new("/data".to_string(), "/data/app.db".to_string(), 11420);
    assert_eq!(spec.program(), "skima-server");
    assert_eq!(spec.args(), vec!["--db-path", "/data/app.db", "--port", "11420"]);
    assert_eq!(spec.working_dir(), "/data");
    assert_eq!(spec.data_path(), "/data/app.db");
    assert_eq!(spec.port(), 11420);
}

#[test]
fn launch_args_render_any_port() {
    let low = LaunchSpec::new(String::new(), String::new(), 0);
    assert_eq!(low.args(), vec!["--db-path", "", "--port", "0"]);
    let high = LaunchSpec::new("d".to_string(), "d/f".to_string(), 65535);
    assert_eq!(high.args(), vec!["--db-path", "d/f", "--port", "65535"]);
}

#[test]
fn default_port_and_data_file() {
    assert_eq!(DEFAULT_PORT, 11420);
    assert_eq!(data_file(), "skima.db");
}
