use vidsave_core::cli::{apply_cli, Cli};
use vidsave_core::config::Settings;

#[test]
fn command_line_output_dir_overrides_the_setting() {
    let mut settings = Settings { output_dir: "/configured".into(), ..Settings::default() };
    apply_cli(&mut settings, &Cli { url: None, output_dir: None });
    assert_eq!(settings.output_dir, "/configured");
    apply_cli(&mut settings, &Cli { url: None, output_dir: Some("/tmp/run".into()) });
    assert_eq!(settings.output_dir, "/tmp/run");
}
