use md2pdf::outcome::ConversionResult;
use md2pdf::pipeline::{Action, ConversionRequest, Event, Pipeline};
use md2pdf::render::render_markdown;
use md2pdf::theme::Theme;

fn fresh(source: &str, dest: &str, theme: Theme) -> Pipeline {
    Pipeline::new(
        ConversionRequest {
            source: String::from(source),
            dest: String::from(dest),
            theme,
        },
        String::from("/tmp/scratch-0001.html"),
    )
}

const SAMPLE_MD: &str = "# Title\n\nSome *text* with a [link](https://example.org).\n\n```\nlet x = 1;\n```\n\n| a | b |\n|---|---|\n| 1 | 2 |\n";

/// Drives an attempt up to the point where the renderer is about to run,
/// with every filesystem step succeeding.
fn drive_to_renderer(p: &mut Pipeline, md: &str) {
    assert_eq!(p.step(Event::Start), Action::CheckSource);
    assert_eq!(
        p.step(Event::SourceStatus { exists: true, is_file: true }),
        Action::ReadSource
    );
    assert_eq!(
        p.step(Event::ReadOutcome(Ok(String::from(md)))),
        Action::WriteScratch
    );
    assert_eq!(p.step(Event::WriteOutcome(Ok(()))), Action::PrepareDestDir);
    assert_eq!(p.step(Event::DirOutcome(Ok(()))), Action::RunRenderer);
}

#[test]
fn empty_paths_fail_invalid_input_at_once() {
    let mut p = fresh("", "out.pdf", Theme::GitHubLight);
    assert_eq!(p.step(Event::Start), Action::Report);
    assert_eq!(p.outcome, Some(ConversionResult::InvalidInput));

    let mut q = fresh("notes.md", "", Theme::GitHubLight);
    assert_eq!(q.step(Event::Start), Action::Report);
    assert_eq!(q.outcome, Some(ConversionResult::InvalidInput));
}

#[test]
fn missing_source_reports_not_found() {
    let mut p = fresh("gone.md", "out.pdf", Theme::GitHubLight);
    assert_eq!(p.step(Event::Start), Action::CheckSource);
    assert_eq!(
        p.step(Event::SourceStatus { exists: false, is_file: false }),
        Action::Report
    );
    assert_eq!(p.outcome, Some(ConversionResult::SourceNotFound));
}

#[test]
fn directory_source_reports_not_a_file() {
    let mut p = fresh("some/dir", "out.pdf", Theme::GitHubLight);
    assert_eq!(p.step(Event::Start), Action::CheckSource);
    assert_eq!(
        p.step(Event::SourceStatus { exists: true, is_file: false }),
        Action::Report
    );
    assert_eq!(p.outcome, Some(ConversionResult::SourceNotAFile));
}

#[test]
fn read_failure_reports_read_error() {
    let mut p = fresh("notes.md", "out.pdf", Theme::GitHubLight);
    p.step(Event::Start);
    p.step(Event::SourceStatus { exists: true, is_file: true });
    assert_eq!(
        p.step(Event::ReadOutcome(Err(String::from("permission denied")))),
        Action::Report
    );
    assert_eq!(
        p.outcome,
        Some(ConversionResult::ReadError(String::from("permission denied")))
    );
    assert!(!p.scratch_live);
}

#[test]
fn scratch_write_failure_skips_subprocess() {
    let mut p = fresh("notes.md", "out.pdf", Theme::GitHubLight);
    p.step(Event::Start);
    p.step(Event::SourceStatus { exists: true, is_file: true });
    p.step(Event::ReadOutcome(Ok(String::from(SAMPLE_MD))));
    // The write failed, so there is no scratch file and nothing to clean up:
    // the attempt reports at once, with no renderer action in between.
    assert_eq!(
        p.step(Event::WriteOutcome(Err(String::from("disk full")))),
        Action::Report
    );
    assert_eq!(
        p.outcome,
        Some(ConversionResult::ScratchWriteError(String::from("disk full")))
    );
    assert!(!p.scratch_live);
}

#[test]
fn dest_dir_failure_cleans_scratch_first() {
    let mut p = fresh("notes.md", "out/of/reach.pdf", Theme::GitHubLight);
    p.step(Event::Start);
    p.step(Event::SourceStatus { exists: true, is_file: true });
    p.step(Event::ReadOutcome(Ok(String::from(SAMPLE_MD))));
    p.step(Event::WriteOutcome(Ok(())));
    assert_eq!(
        p.step(Event::DirOutcome(Err(String::from("read-only")))),
        Action::RemoveScratch
    );
    assert_eq!(p.step(Event::Removed), Action::Report);
    assert_eq!(
        p.outcome,
        Some(ConversionResult::DestDirError(String::from("read-only")))
    );
    assert!(!p.scratch_live);
}

#[test]
fn absent_renderer_reports_launcher_error_and_no_scratch_left() {
    let mut p = fresh("notes.md", "out.pdf", Theme::GitHubLight);
    drive_to_renderer(&mut p, SAMPLE_MD);
    assert_eq!(
        p.step(Event::LaunchFailed(String::from("No such file or directory"))),
        Action::RemoveScratch
    );
    assert_eq!(p.step(Event::Removed), Action::Report);
    assert_eq!(
        p.outcome,
        Some(ConversionResult::LauncherError(String::from(
            "No such file or directory"
        )))
    );
    assert!(!p.scratch_live);
}

#[test]
fn nonzero_exit_reports_render_error_verbatim() {
    let mut p = fresh("notes.md", "out.pdf", Theme::GitHubLight);
    drive_to_renderer(&mut p, SAMPLE_MD);
    assert_eq!(
        p.step(Event::Exited {
            success: false,
            stdout: String::from("loading page"),
            stderr: String::from("exit code 1"),
        }),
        Action::RemoveScratch
    );
    assert_eq!(p.step(Event::Removed), Action::Report);
    let outcome = p.outcome.clone().unwrap();
    assert_eq!(
        outcome,
        ConversionResult::RenderError {
            stderr: String::from("exit code 1"),
            stdout: String::from("loading page"),
        }
    );
    assert_eq!(
        outcome.status_message("notes.md"),
        "Conversion failed. Stderr: exit code 1\nStdout: loading page"
    );
    assert!(!p.scratch_live);
}

#[test]
fn successful_run_reports_success_after_cleanup() {
    let mut p = fresh("notes.md", "out.pdf", Theme::GitHubLight);
    drive_to_renderer(&mut p, SAMPLE_MD);
    assert_eq!(
        p.step(Event::Exited {
            success: true,
            stdout: String::new(),
            stderr: String::new(),
        }),
        Action::RemoveScratch
    );
    assert_eq!(p.step(Event::Removed), Action::Report);
    assert_eq!(p.outcome, Some(ConversionResult::Success));
    assert!(!p.scratch_live);
    assert_eq!(
        p.outcome.unwrap().status_message("notes.md"),
        "Conversion successful!"
    );
}

#[test]
fn document_holds_rendered_markdown_structures() {
    let mut p = fresh("notes.md", "out.pdf", Theme::GitHubLight);
    p.step(Event::Start);
    p.step(Event::SourceStatus { exists: true, is_file: true });
    p.step(Event::ReadOutcome(Ok(String::from(SAMPLE_MD))));
    let doc = p.document.clone();
    assert!(doc.contains("<h1>"));
    assert!(doc.contains("<pre><code>"));
    assert!(doc.contains("<table>"));
    assert!(doc.contains("<a href=\"https://example.org\""));
    // The raw Markdown markers must be gone from the rendered body.
    assert!(!doc.contains("# Title"));
    assert!(!doc.contains("[link]("));
}

#[test]
fn renderer_output_is_not_the_input() {
    let html = render_markdown("# Hi\n");
    assert!(html.contains("<h1>Hi</h1>"));
    assert!(!html.contains("# Hi"));
}

#[test]
fn theme_switch_changes_only_style_block() {
    let mut light = fresh("notes.md", "out.pdf", Theme::GitHubLight);
    light.step(Event::Start);
    light.step(Event::SourceStatus { exists: true, is_file: true });
    light.step(Event::ReadOutcome(Ok(String::from(SAMPLE_MD))));

    let mut dark = fresh("notes.md", "out.pdf", Theme::GitHubDark);
    dark.step(Event::Start);
    dark.step(Event::SourceStatus { exists: true, is_file: true });
    dark.step(Event::ReadOutcome(Ok(String::from(SAMPLE_MD))));

    let light_css = Theme::GitHubLight.stylesheet();
    let dark_css = Theme::GitHubDark.stylesheet();
    let li = light.document.find(light_css).expect("light css embedded");
    let di = dark.document.find(dark_css).expect("dark css embedded");
    // Same shell before the style content, and the same document - body
    // fragment first of all - after it.
    assert_eq!(&light.document[..li], &dark.document[..di]);
    assert_eq!(
        &light.document[li + light_css.len()..],
        &dark.document[di + dark_css.len()..]
    );
    assert_ne!(light.document, dark.document);
}

#[test]
fn well_formed_and_accepts_guard_the_loop() {
    let mut p = fresh("notes.md", "out.pdf", Theme::GitHubLight);
    assert!(p.well_formed());
    assert!(p.accepts(&Event::Start));
    assert!(!p.accepts(&Event::Removed));
    p.step(Event::Start);
    assert!(p.well_formed());
    assert!(!p.accepts(&Event::Start));
    assert!(p.accepts(&Event::SourceStatus { exists: false, is_file: false }));
    p.step(Event::SourceStatus { exists: false, is_file: false });
    assert!(p.well_formed());
    // A finished attempt takes no further event.
    assert!(!p.accepts(&Event::Start));
}
