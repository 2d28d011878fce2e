//! The caller-owned state around the pipeline: the two path fields, the
//! status line, the selected theme and the stylesheet it resolves to. The
//! pipeline itself is stateless and re-entrant; this is the only state that
//! outlives one conversion attempt.

use vstd::prelude::*;

use crate::paths::derive_pdf_path;
use crate::paths::pdf_path_of;
use crate::theme::css_of;
use crate::theme::Theme;

verus! {

/// The converter's caller-owned state.
pub struct App {
    /// The Markdown source path.
    pub md_path: String,
    /// The PDF destination path.
    pub pdf_path: String,
    /// The status line of the last attempt, or `Idle`.
    pub status: String,
    /// The currently selected theme.
    pub current_theme: Theme,
    /// The stylesheet `current_theme` resolves to, kept in step by
    /// `update_active_css`.
    pub markdown_css: String,
}

/// The state is well-formed when the held stylesheet is the one the selected
/// theme resolves to.
pub open spec fn css_in_step(a: App) -> bool {
    a.markdown_css@ == css_of(a.current_theme)
}

impl Default for App {
    /// The initial state: empty paths, an idle status, the light theme and
    /// its stylesheet.
    fn default() -> (a: App)
        ensures
            a.md_path@.len() == 0,
            a.pdf_path@.len() == 0,
            a.status@ == "Idle"@,
            a.current_theme == Theme::GitHubLight,
            css_in_step(a),
    {
        let mut a = App {
            md_path: String::new(),
            pdf_path: String::new(),
            status: String::from_str("Idle"),
            current_theme: Theme::GitHubLight,
            markdown_css: String::new(),
        };
        a.update_active_css();
        a
    }
}

impl App {
    /// Updates the `markdown_css` field to the stylesheet the selected
    /// theme resolves to; nothing else changes.
    pub fn update_active_css(&mut self)
        ensures
            css_in_step(*final(self)),
            final(self).markdown_css@ == css_of(old(self).current_theme),
            final(self).md_path == old(self).md_path,
            final(self).pdf_path == old(self).pdf_path,
            final(self).status == old(self).status,
            final(self).current_theme == old(self).current_theme,
    {
        self.markdown_css = String::from_str(self.current_theme.stylesheet());
    }

    /// Derives the destination path from the source path, as `pdf_path_of`
    /// describes: the source's parent directory part, the file stem, and a
    /// `.pdf` extension. When the source has no file stem the previous
    /// destination is left untouched. Nothing else changes.
    pub fn update_pdf_path_from_md(&mut self)
        ensures
            match pdf_path_of(old(self).md_path@) {
                Some(p) => final(self).pdf_path@ == p,
                None => final(self).pdf_path == old(self).pdf_path,
            },
            final(self).md_path == old(self).md_path,
            final(self).status == old(self).status,
            final(self).current_theme == old(self).current_theme,
            final(self).markdown_css == old(self).markdown_css,
    {
        let derived = derive_pdf_path(self.md_path.as_str());
        match derived {
            Some(p) => {
                self.pdf_path = p;
            },
            None => {},
        }
    }
}

} // verus!
