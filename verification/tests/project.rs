use easy_paper::project::{
    default_min_interval, default_outdir, default_true, ProjectConfig, Step, StoredConfig,
};

#[test]
fn defaults_of_the_fields() {
    assert!(default_true());
    assert_eq!(default_outdir(), "out");
    assert_eq!(default_min_interval(), 600);
}

#[test]
fn default_config_is_the_documented_one() {
    let c = ProjectConfig::default();
    assert_eq!(c.version, 1);
    assert_eq!(c.name, "My Paper");
    assert_eq!(c.main, "main.tex");
    assert_eq!(c.engine.engine_type, "tectonic");
    assert!(c.engine.args.is_empty());
    assert!(c.compile.synctex);
    assert!(!c.compile.shell_escape);
    assert_eq!(c.compile.outdir, "out");
    assert_eq!(c.compile.min_interval_ms, 600);
}

#[test]
fn load_without_stored_config_gives_the_default() {
    let c = ProjectConfig::load(StoredConfig::Missing).unwrap();
    assert_eq!(c.version, 1);
    assert_eq!(c.engine.engine_type, "tectonic");
    assert_eq!(c.compile.outdir, "out");
    assert!(c.compile.synctex);
    assert!(!c.compile.shell_escape);
    assert_eq!(c.compile.min_interval_ms, 600);
    assert_eq!(c.name, "My Paper");
    assert_eq!(c.main, "main.tex");
    assert!(c.engine.args.is_empty());
}

#[test]
fn load_reports_an_unreadable_file() {
    let r = ProjectConfig::load(StoredConfig::Unreadable("permission denied".to_string()));
    assert_eq!(r.unwrap_err(), "Failed to read project config: permission denied");
}

#[test]
fn load_reports_a_malformed_file() {
    let r = ProjectConfig::load(StoredConfig::Malformed("missing field `version`".to_string()));
    assert_eq!(r.unwrap_err(), "Failed to parse project config: missing field `version`");
}

fn sample() -> ProjectConfig {
    let mut c = ProjectConfig::default();
    c.version = 3;
    c.name = "Thesis".to_string();
    c.main = "thesis.tex".to_string();
    c.engine.engine_type = "latexmk".to_string();
    c.engine.args = vec!["-xelatex".to_string(), "-silent".to_string()];
    c.compile.synctex = false;
    c.compile.shell_escape = true;
    c.compile.outdir = "build".to_string();
    c.compile.min_interval_ms = 1200;
    c
}

#[test]
fn load_gives_back_what_was_parsed() {
    let c = ProjectConfig::load(StoredConfig::Parsed(sample())).unwrap();
    assert_eq!(c.version, 3);
    assert_eq!(c.name, "Thesis");
    assert_eq!(c.main, "thesis.tex");
    assert_eq!(c.engine.engine_type, "latexmk");
    assert_eq!(c.engine.args, vec!["-xelatex", "-silent"]);
    assert!(!c.compile.synctex);
    assert!(c.compile.shell_escape);
    assert_eq!(c.compile.outdir, "build");
    assert_eq!(c.compile.min_interval_ms, 1200);
}

#[test]
fn duplicate_copies_every_field() {
    let c = sample().duplicate();
    assert_eq!(c.version, 3);
    assert_eq!(c.name, "Thesis");
    assert_eq!(c.main, "thesis.tex");
    assert_eq!(c.engine.engine_type, "latexmk");
    assert_eq!(c.engine.args, vec!["-xelatex", "-silent"]);
    assert!(!c.compile.synctex);
    assert!(c.compile.shell_escape);
    assert_eq!(c.compile.outdir, "build");
    assert_eq!(c.compile.min_interval_ms, 1200);
}

#[test]
fn save_creates_the_directory_then_writes_the_file() {
    let steps = sample().save("/home/me/paper");
    assert_eq!(steps.len(), 2);
    match &steps[0] {
        Step::CreateDir { path, failure } => {
            assert_eq!(path, "/home/me/paper/.easypaper");
            assert_eq!(failure, "Failed to create .easypaper directory: ");
        }
        _ => panic!("the first step creates the directory"),
    }
    match &steps[1] {
        Step::WriteConfig { path, config, serialize_failure, write_failure } => {
            assert_eq!(path, "/home/me/paper/.easypaper/project.yml");
            assert_eq!(config.name, "Thesis");
            assert_eq!(config.engine.args, vec!["-xelatex", "-silent"]);
            assert_eq!(config.compile.min_interval_ms, 1200);
            assert_eq!(serialize_failure, "Failed to serialize project config: ");
            assert_eq!(write_failure, "Failed to write project config: ");
        }
        _ => panic!("the second step writes the configuration"),
    }
}

#[test]
fn saved_config_loads_as_itself() {
    let steps = sample().save("p");
    let stored = match &steps[1] {
        Step::WriteConfig { config, .. } => StoredConfig::Parsed(config.clone()),
        _ => panic!("the second step writes the configuration"),
    };
    let c = ProjectConfig::load(stored).unwrap();
    assert_eq!(c.version, 3);
    assert_eq!(c.name, "Thesis");
    assert_eq!(c.main, "thesis.tex");
    assert_eq!(c.engine.engine_type, "latexmk");
    assert_eq!(c.engine.args, vec!["-xelatex", "-silent"]);
    assert!(!c.compile.synctex);
    assert!(c.compile.shell_escape);
    assert_eq!(c.compile.outdir, "build");
    assert_eq!(c.compile.min_interval_ms, 1200);
}

#[test]
fn step_reports_its_failure() {
    let steps = sample().save("p");
    assert_eq!(steps[0].failed("disk full"), "Failed to create .easypaper directory: disk full");
    assert_eq!(steps[1].failed("disk full"), "Failed to write project config: disk full");
    assert_eq!(steps[0].serialize_failed("x"), None);
    assert_eq!(
        steps[1].serialize_failed("bad value"),
        Some("Failed to serialize project config: bad value".to_string())
    );
}

#[test]
fn step_within_a_context() {
    let steps = sample().save("p");
    let a = steps[0].within("Outer: ");
    let b = steps[1].within("Outer: ");
    assert_eq!(a.failed("e"), "Outer: Failed to create .easypaper directory: e");
    assert_eq!(b.failed("e"), "Outer: Failed to write project config: e");
    assert_eq!(
        b.serialize_failed("e"),
        Some("Outer: Failed to serialize project config: e".to_string())
    );
    match (&a, &b) {
        (Step::CreateDir { path, .. }, Step::WriteConfig { path: file, config, .. }) => {
            assert_eq!(path, "p/.easypaper");
            assert_eq!(file, "p/.easypaper/project.yml");
            assert_eq!(config.name, "Thesis");
        }
        _ => panic!("the kinds of steps stay"),
    }
}
