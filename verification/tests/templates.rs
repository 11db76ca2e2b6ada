use easy_paper::command::ProcessOutput;
use easy_paper::project::{Step, StoredConfig};
use easy_paper::svc_build::{build_compile, build_response, Engine};
use easy_paper::svc_template::{
    template_apply, template_get_content, template_list, ACM_TEMPLATE, ARTICLE_TEMPLATE,
    BIB_TEMPLATE, GITIGNORE, IEEE_TEMPLATE,
};

#[test]
fn catalog_lists_three_templates() {
    let r = template_list();
    assert!(r.ok);
    assert_eq!(r.error, None);
    let t = r.data.unwrap();
    assert_eq!(t.len(), 3);
    assert_eq!(t[0].id, "article");
    assert_eq!(t[0].name, "Article");
    assert_eq!(t[0].description, "Basic LaTeX article template");
    assert_eq!(t[0].author.as_deref(), Some("LaTeX"));
    assert_eq!(t[1].id, "ieeetran");
    assert_eq!(t[1].name, "IEEE Conference");
    assert_eq!(t[1].description, "IEEE conference paper template");
    assert_eq!(t[1].author.as_deref(), Some("IEEE"));
    assert_eq!(t[2].id, "acmart");
    assert_eq!(t[2].name, "ACM Article");
    assert_eq!(t[2].description, "ACM conference/journal template");
    assert_eq!(t[2].author.as_deref(), Some("ACM"));
}

#[test]
fn content_of_each_template() {
    assert_eq!(template_get_content("article").data.as_deref(), Some(ARTICLE_TEMPLATE));
    assert_eq!(template_get_content("ieeetran").data.as_deref(), Some(IEEE_TEMPLATE));
    assert_eq!(template_get_content("acmart").data.as_deref(), Some(ACM_TEMPLATE));
    assert!(ARTICLE_TEMPLATE.starts_with("\\documentclass{article}\n"));
    assert!(IEEE_TEMPLATE.starts_with("\\documentclass[conference]{IEEEtran}\n"));
    assert!(ACM_TEMPLATE.starts_with("\\documentclass[sigconf]{acmart}\n"));
    assert!(ARTICLE_TEMPLATE.ends_with("\\end{document}\n"));
}

#[test]
fn every_listed_template_has_content() {
    for t in template_list().data.unwrap() {
        let r = template_get_content(&t.id);
        assert!(r.ok);
        assert!(r.data.is_some());
    }
}

#[test]
fn content_of_an_unknown_template() {
    let r = template_get_content("book");
    assert!(!r.ok);
    assert!(r.data.is_none());
    assert_eq!(r.error.as_deref(), Some("Unknown template: book"));
    assert_eq!(template_get_content("Article").error.as_deref(), Some("Unknown template: Article"));
    assert_eq!(template_get_content("").error.as_deref(), Some("Unknown template: "));
}

#[test]
fn apply_with_unknown_template_takes_no_step() {
    let r = template_apply("/p", "book", "My Paper");
    assert_eq!(r.unwrap_err(), "Unknown template: book");
}

fn dir(step: &Step) -> (&str, &str) {
    match step {
        Step::CreateDir { path, failure } => (path.as_str(), failure.as_str()),
        _ => panic!("expected a directory"),
    }
}

fn file(step: &Step) -> (&str, &str, &str) {
    match step {
        Step::WriteFile { path, content, failure } => {
            (path.as_str(), content.as_str(), failure.as_str())
        }
        _ => panic!("expected a file"),
    }
}

#[test]
fn apply_lays_the_project_out_in_order() {
    let steps = template_apply("/p", "ieeetran", "Thesis").unwrap();
    assert_eq!(steps.len(), 10);
    assert_eq!(dir(&steps[0]), ("/p", "Failed to create project directory: "));
    assert_eq!(file(&steps[1]), ("/p/main.tex", IEEE_TEMPLATE, "Failed to write main.tex: "));
    assert_eq!(file(&steps[2]), ("/p/refs.bib", BIB_TEMPLATE, "Failed to write refs.bib: "));
    assert_eq!(dir(&steps[3]), ("/p/figures", "Failed to create figures directory: "));
    assert_eq!(dir(&steps[4]), ("/p/sections", "Failed to create sections directory: "));
    assert_eq!(dir(&steps[5]), ("/p/.easypaper", "Failed to create .easypaper directory: "));
    assert_eq!(
        dir(&steps[6]),
        ("/p/.easypaper", "Failed to save project config: Failed to create .easypaper directory: ")
    );
    match &steps[7] {
        Step::WriteConfig { path, config, serialize_failure, write_failure } => {
            assert_eq!(path, "/p/.easypaper/project.yml");
            assert_eq!(config.version, 1);
            assert_eq!(config.name, "Thesis");
            assert_eq!(config.main, "main.tex");
            assert_eq!(config.engine.engine_type, "tectonic");
            assert!(config.engine.args.is_empty());
            assert!(config.compile.synctex);
            assert!(!config.compile.shell_escape);
            assert_eq!(config.compile.outdir, "out");
            assert_eq!(config.compile.min_interval_ms, 600);
            assert_eq!(
                serialize_failure,
                "Failed to save project config: Failed to serialize project config: "
            );
            assert_eq!(
                write_failure,
                "Failed to save project config: Failed to write project config: "
            );
        }
        _ => panic!("expected the configuration"),
    }
    assert_eq!(dir(&steps[8]), ("/p/out", "Failed to create output directory: "));
    assert_eq!(file(&steps[9]), ("/p/.gitignore", GITIGNORE, "Failed to write .gitignore: "));
}

#[test]
fn fixed_files_of_a_new_project() {
    assert!(BIB_TEMPLATE.starts_with("@article{example2024,\n"));
    assert!(BIB_TEMPLATE.ends_with("pages={1--10}\n}\n"));
    assert!(GITIGNORE.starts_with("# Output files\nout/\n*.pdf\n"));
    assert!(GITIGNORE.ends_with(".easypaper/cache/\n"));
}

#[test]
fn new_article_builds_with_tectonic() {
    let steps = template_apply("/tmp/paper", "article", "My Paper").unwrap();
    assert_eq!(file(&steps[1]).1, ARTICLE_TEMPLATE);
    let stored = match &steps[7] {
        Step::WriteConfig { config, .. } => StoredConfig::Parsed(config.clone()),
        _ => panic!("expected the configuration"),
    };
    let plan = build_compile("/tmp/paper", stored).unwrap();
    assert_eq!(plan.engine, Engine::Tectonic);
    assert_eq!(plan.out_dir, dir(&steps[8]).0);
    let ran = ProcessOutput { success: true, stdout: String::new(), stderr: String::new() };
    let r = build_response(Ok(plan.finish(&ran, true, false, None, 40)));
    assert!(r.ok);
    let result = r.data.unwrap();
    assert!(result.success);
    assert_eq!(result.pdf_path.as_deref(), Some("/tmp/paper/out/main.pdf"));
    assert!(result.errors.is_empty());
    assert!(result.warnings.is_empty());
    assert_eq!(result.log_path, None);
}
