//! The templates that a new project can start from, and the steps that lay a
//! new project out.
use crate::path::{join, join_path};
use crate::project::{
    default_config,
    save_steps,
    step_views,
    ProjectConfig,
    ProjectConfigView,
    Step,
    StepView,
};
use crate::svc_file::ApiResponse;
use crate::text::{joined, option_view, same_text};
use vstd::prelude::*;

verus! {

/// A template that a new project can start from.
#[derive(Debug, Clone)]
pub struct Template {
    pub id: String,
    pub name: String,
    pub description: String,
    pub author: Option<String>,
}

/// What a [`Template`] holds.
pub struct TemplateView {
    pub id: Seq<char>,
    pub name: Seq<char>,
    pub description: Seq<char>,
    pub author: Option<Seq<char>>,
}

impl View for Template {
    type V = TemplateView;

    open spec fn view(&self) -> TemplateView {
        TemplateView {
            id: self.id@,
            name: self.name@,
            description: self.description@,
            author: option_view(self.author),
        }
    }
}

/// The views of the templates held in `v`.
pub open spec fn template_views(v: Seq<Template>) -> Seq<TemplateView> {
    v.map_values(|t: Template| t@)
}

pub const ARTICLE_TEMPLATE: &'static str = r#"\documentclass{article}
\usepackage[utf8]{inputenc}
\usepackage{amsmath}
\usepackage{graphicx}

\title{Your Paper Title}
\author{Your Name}
\date{\today}

\begin{document}

\maketitle

\begin{abstract}
Your abstract goes here.
\end{abstract}

\section{Introduction}
Write your introduction here.

\section{Related Work}
Discuss related work.

\section{Methodology}
Describe your methodology.

\section{Results}
Present your results.

\section{Conclusion}
Conclude your paper.

\bibliographystyle{plain}
\bibliography{refs}

\end{document}
"#;

pub const IEEE_TEMPLATE: &'static str = r#"\documentclass[conference]{IEEEtran}
\usepackage{cite}
\usepackage{amsmath,amssymb,amsfonts}
\usepackage{algorithmic}
\usepackage{graphicx}
\usepackage{textcomp}

\begin{document}

\title{Conference Paper Title}

\author{\IEEEauthorblockN{Author Name}
\IEEEauthorblockA{\textit{Dept. of Computer Science} \\
\textit{University Name}\\
City, Country \\
email@university.edu}}

\maketitle

\begin{abstract}
This document is a template for IEEE conference papers.
\end{abstract}

\begin{IEEEkeywords}
keyword1, keyword2, keyword3
\end{IEEEkeywords}

\section{Introduction}
Write your introduction here.

\section{Related Work}
Discuss related work.

\section{Proposed Method}
Describe your method.

\section{Experimental Results}
Present your results.

\section{Conclusion}
Conclude your paper.

\bibliographystyle{IEEEtran}
\bibliography{refs}

\end{document}
"#;

pub const ACM_TEMPLATE: &'static str = r#"\documentclass[sigconf]{acmart}

\begin{document}

\title{Your Paper Title}

\author{Author Name}
\affiliation{%
  \institution{University Name}
  \city{City}
  \country{Country}
}
\email{email@university.edu}

\begin{abstract}
Your abstract goes here.
\end{abstract}

\keywords{keyword1, keyword2, keyword3}

\maketitle

\section{Introduction}
Write your introduction here.

\section{Related Work}
Discuss related work.

\section{Approach}
Describe your approach.

\section{Evaluation}
Present your evaluation.

\section{Conclusion}
Conclude your paper.

\bibliographystyle{ACM-Reference-Format}
\bibliography{refs}

\end{document}
"#;

pub const BIB_TEMPLATE: &'static str = r#"@article{example2024,
  title={Example Paper Title},
  author={Author, First and Author, Second},
  journal={Journal Name},
  year={2024},
  volume={1},
  number={1},
  pages={1--10}
}
"#;

pub const GITIGNORE: &'static str = r#"# Output files
out/
*.pdf
*.aux
*.log
*.synctex.gz
*.fdb_latexmk
*.fls
*.toc
*.bbl
*.blg

# OS files
.DS_Store
Thumbs.db

# Editor files
*.swp
*.swo
*~

# EasyPaper cache
.easypaper/cache/
"#;

/// The catalog of templates.
pub open spec fn catalog() -> Seq<TemplateView> {
    seq![
        TemplateView {
            id: "article"@,
            name: "Article"@,
            description: "Basic LaTeX article template"@,
            author: Some("LaTeX"@),
        },
        TemplateView {
            id: "ieeetran"@,
            name: "IEEE Conference"@,
            description: "IEEE conference paper template"@,
            author: Some("IEEE"@),
        },
        TemplateView {
            id: "acmart"@,
            name: "ACM Article"@,
            description: "ACM conference/journal template"@,
            author: Some("ACM"@),
        },
    ]
}

/// The document that the template `id` starts a project with, if there is
/// such a template.
pub open spec fn template_body(id: Seq<char>) -> Option<Seq<char>> {
    if id == "article"@ {
        Some(ARTICLE_TEMPLATE@)
    } else if id == "ieeetran"@ {
        Some(IEEE_TEMPLATE@)
    } else if id == "acmart"@ {
        Some(ACM_TEMPLATE@)
    } else {
        None
    }
}

/// The report that there is no template `id`.
pub open spec fn unknown_template(id: Seq<char>) -> Seq<char> {
    "Unknown template: "@ + id
}

fn entry(id: &str, name: &str, description: &str, author: &str) -> (t: Template)
    ensures
        t@ == (TemplateView {
            id: id@,
            name: name@,
            description: description@,
            author: Some(author@),
        }),
{
    Template {
        id: String::from_str(id),
        name: String::from_str(name),
        description: String::from_str(description),
        author: Some(String::from_str(author)),
    }
}

/// The catalog of templates.
pub fn template_list() -> (r: ApiResponse<Vec<Template>>)
    ensures
        r.well_formed(),
        r.data matches Some(templates) && template_views(templates@) == catalog() && r.ok
            && r.error is None,
{
    let mut templates: Vec<Template> = Vec::new();
    templates.push(entry("article", "Article", "Basic LaTeX article template", "LaTeX"));
    templates.push(entry("ieeetran", "IEEE Conference", "IEEE conference paper template", "IEEE"));
    templates.push(entry("acmart", "ACM Article", "ACM conference/journal template", "ACM"));
    assert(template_views(templates@) =~= catalog());
    ApiResponse::success(templates)
}

/// The document of the template `id`.
fn body_of(id: &str) -> (r: Option<&'static str>)
    ensures
        match template_body(id@) {
            Some(body) => r matches Some(b) && b@ == body,
            None => r is None,
        },
{
    if same_text(id, "article") {
        Some(ARTICLE_TEMPLATE)
    } else if same_text(id, "ieeetran") {
        Some(IEEE_TEMPLATE)
    } else if same_text(id, "acmart") {
        Some(ACM_TEMPLATE)
    } else {
        None
    }
}

/// The document that the template `template_id` starts a project with.
pub fn template_get_content(template_id: &str) -> (r: ApiResponse<String>)
    ensures
        r.well_formed(),
        match template_body(template_id@) {
            Some(body) => r.data matches Some(content) && content@ == body && r.ok
                && r.error is None,
            None => r.failed_with(unknown_template(template_id@)),
        },
{
    match body_of(template_id) {
        Some(body) => ApiResponse::success(String::from_str(body)),
        None => ApiResponse::error(joined("Unknown template: ", template_id)),
    }
}

/// The configuration that a new project named `name` starts with.
pub open spec fn scaffold_config(name: Seq<char>) -> ProjectConfigView {
    ProjectConfigView {
        version: 1,
        name,
        main: "main.tex"@,
        engine: default_config().engine,
        compile: default_config().compile,
    }
}

/// The step that creates the directory `name` below `project_dir`.
pub open spec fn make_dir(project_dir: Seq<char>, name: Seq<char>, failure: Seq<char>) -> StepView {
    StepView::CreateDir { path: join(project_dir, name), failure }
}

/// The step that writes `content` to the file `name` below `project_dir`.
pub open spec fn make_file(
    project_dir: Seq<char>,
    name: Seq<char>,
    content: Seq<char>,
    failure: Seq<char>,
) -> StepView {
    StepView::WriteFile { path: join(project_dir, name), content, failure }
}

/// The steps that lay out a new project in `project_dir`, to be taken in
/// this order up to the first that fails: the project directory, the entry
/// file with the document `body`, the bibliography, the directories for
/// figures and sections, the configuration directory and the configuration,
/// the output directory, and the list of files to leave out of version
/// control.
pub open spec fn scaffold_steps(
    project_dir: Seq<char>,
    body: Seq<char>,
    project_name: Seq<char>,
) -> Seq<StepView> {
    seq![
        StepView::CreateDir {
            path: project_dir,
            failure: "Failed to create project directory: "@,
        },
        make_file(project_dir, "main.tex"@, body, "Failed to write main.tex: "@),
        make_file(project_dir, "refs.bib"@, BIB_TEMPLATE@, "Failed to write refs.bib: "@),
        make_dir(project_dir, "figures"@, "Failed to create figures directory: "@),
        make_dir(project_dir, "sections"@, "Failed to create sections directory: "@),
        make_dir(project_dir, ".easypaper"@, "Failed to create .easypaper directory: "@),
    ] + save_steps(scaffold_config(project_name), project_dir).map_values(
        |s: StepView| s.within("Failed to save project config: "@),
    ) + seq![
        make_dir(project_dir, "out"@, "Failed to create output directory: "@),
        make_file(project_dir, ".gitignore"@, GITIGNORE@, "Failed to write .gitignore: "@),
    ]
}

fn dir_step(project_dir: &str, name: &str, failure: &str) -> (s: Step)
    ensures
        s@ == make_dir(project_dir@, name@, failure@),
{
    Step::CreateDir { path: join_path(project_dir, name), failure: String::from_str(failure) }
}

fn file_step(project_dir: &str, name: &str, content: &str, failure: &str) -> (s: Step)
    ensures
        s@ == make_file(project_dir@, name@, content@, failure@),
{
    Step::WriteFile {
        path: join_path(project_dir, name),
        content: String::from_str(content),
        failure: String::from_str(failure),
    }
}

/// What laying out a new project comes to: the report that there is no such
/// template, with no step to take, or the steps to take.
pub open spec fn scaffold_request(
    project_dir: Seq<char>,
    template_id: Seq<char>,
    project_name: Seq<char>,
) -> Result<Seq<StepView>, Seq<char>> {
    match template_body(template_id) {
        None => Err(unknown_template(template_id)),
        Some(body) => Ok(scaffold_steps(project_dir, body, project_name)),
    }
}

/// The steps that lay out a new project named `project_name` in
/// `project_dir` from the template `template_id`. For an unknown template
/// there is no step: nothing is created.
pub fn template_apply(project_dir: &str, template_id: &str, project_name: &str) -> (r: Result<
    Vec<Step>,
    String,
>)
    ensures
        match scaffold_request(project_dir@, template_id@, project_name@) {
            Ok(steps) => r matches Ok(s) && step_views(s@) == steps,
            Err(report) => r matches Err(m) && m@ == report,
        },
{
    let body = match body_of(template_id) {
        Some(body) => body,
        None => {
            return Err(joined("Unknown template: ", template_id));
        },
    };
    let mut steps: Vec<Step> = Vec::new();
    steps.push(
        Step::CreateDir {
            path: String::from_str(project_dir),
            failure: String::from_str("Failed to create project directory: "),
        },
    );
    steps.push(file_step(project_dir, "main.tex", body, "Failed to write main.tex: "));
    steps.push(file_step(project_dir, "refs.bib", BIB_TEMPLATE, "Failed to write refs.bib: "));
    steps.push(dir_step(project_dir, "figures", "Failed to create figures directory: "));
    steps.push(dir_step(project_dir, "sections", "Failed to create sections directory: "));
    steps.push(dir_step(project_dir, ".easypaper", "Failed to create .easypaper directory: "));
    let defaults = ProjectConfig::default();
    let config = ProjectConfig {
        version: 1,
        name: String::from_str(project_name),
        main: String::from_str("main.tex"),
        engine: defaults.engine,
        compile: defaults.compile,
    };
    assert(config@ == scaffold_config(project_name@));
    let saving = config.save(project_dir);
    assert(saving@.len() == 2) by {
        assert(step_views(saving@).len() == 2);
    }
    let ghost saved = save_steps(scaffold_config(project_name@), project_dir@);
    assert(saved[0] == saving@[0]@ && saved[1] == saving@[1]@) by {
        assert(step_views(saving@)[0] == saving@[0]@);
        assert(step_views(saving@)[1] == saving@[1]@);
    }
    steps.push(saving[0].within("Failed to save project config: "));
    steps.push(saving[1].within("Failed to save project config: "));
    steps.push(dir_step(project_dir, "out", "Failed to create output directory: "));
    steps.push(file_step(project_dir, ".gitignore", GITIGNORE, "Failed to write .gitignore: "));
    assert(step_views(steps@) =~= scaffold_steps(project_dir@, body@, project_name@));
    Ok(steps)
}

// ---------------------------------------------------------------------------
// Laws
// ---------------------------------------------------------------------------
/// The templates that have a document are those of the catalog.
pub proof fn lemma_catalog_has_bodies(id: Seq<char>)
    ensures
        template_body(id) is Some <==> exists|i: int|
            0 <= i < catalog().len() && #[trigger] catalog()[i].id == id,
{
    if template_body(id) is Some {
        if id == "article"@ {
            assert(catalog()[0].id == id);
        } else if id == "ieeetran"@ {
            assert(catalog()[1].id == id);
        } else {
            assert(catalog()[2].id == id);
        }
    }
}

/// Laying out a project from a template that does not exist takes no step,
/// whatever the directory and the name.
pub proof fn lemma_unknown_template_takes_no_step(
    project_dir: Seq<char>,
    template_id: Seq<char>,
    project_name: Seq<char>,
)
    requires
        template_body(template_id) is None,
    ensures
        scaffold_request(project_dir, template_id, project_name) == Err::<
            Seq<StepView>,
            Seq<char>,
        >(unknown_template(template_id)),
{
}

} // verus!
