//! The closed set of CSS themes bundled with the converter. Each theme maps
//! to one display name and one immutable stylesheet; the set is fixed at
//! build time and never extended at runtime.

use vstd::prelude::*;

verus! {

/// One of the bundled CSS themes.
#[derive(Debug, PartialEq, Eq, Clone, Copy, Structural)]
pub enum Theme {
    GitHubLight,
    GitHubDark,
    GitHubAuto,
}

/// The display name of a theme.
pub open spec fn display_name_of(t: Theme) -> Seq<char> {
    match t {
        Theme::GitHubLight => "GitHub Light"@,
        Theme::GitHubDark => "GitHub Dark"@,
        Theme::GitHubAuto => "GitHub Auto"@,
    }
}

/// The stylesheet text of the light theme.
pub open spec fn light_css() -> Seq<char> {
    "body { font-family: sans-serif; color: #1f2328; background-color: #ffffff; margin: 2em auto; max-width: 50em; } pre { background-color: #f6f8fa; padding: 1em; overflow: auto; } code { font-family: monospace; } table { border-collapse: collapse; } th, td { border: 1px solid #d1d9e0; padding: 0.4em; } a { color: #0969da; } blockquote { color: #59636e; border-left: 0.25em solid #d1d9e0; padding-left: 1em; }"@
}

/// The stylesheet text of the dark theme.
pub open spec fn dark_css() -> Seq<char> {
    "body { font-family: sans-serif; color: #f0f6fc; background-color: #0d1117; margin: 2em auto; max-width: 50em; } pre { background-color: #151b23; padding: 1em; overflow: auto; } code { font-family: monospace; } table { border-collapse: collapse; } th, td { border: 1px solid #3d444d; padding: 0.4em; } a { color: #4493f8; } blockquote { color: #9198a1; border-left: 0.25em solid #3d444d; padding-left: 1em; }"@
}

/// The stylesheet text of the theme that follows the viewer's colour-scheme
/// preference.
pub open spec fn auto_css() -> Seq<char> {
    "body { font-family: sans-serif; color: #1f2328; background-color: #ffffff; margin: 2em auto; max-width: 50em; } pre { background-color: #f6f8fa; padding: 1em; overflow: auto; } code { font-family: monospace; } table { border-collapse: collapse; } th, td { border: 1px solid #d1d9e0; padding: 0.4em; } a { color: #0969da; } blockquote { color: #59636e; border-left: 0.25em solid #d1d9e0; padding-left: 1em; } @media (prefers-color-scheme: dark) { body { color: #f0f6fc; background-color: #0d1117; } pre { background-color: #151b23; } th, td { border-color: #3d444d; } a { color: #4493f8; } blockquote { color: #9198a1; border-left-color: #3d444d; } }"@
}

/// The stylesheet text a theme resolves to.
pub open spec fn css_of(t: Theme) -> Seq<char> {
    match t {
        Theme::GitHubLight => light_css(),
        Theme::GitHubDark => dark_css(),
        Theme::GitHubAuto => auto_css(),
    }
}

impl Theme {
    /// Returns the display name for the theme.
    pub fn name(&self) -> (r: &'static str)
        ensures
            r@ == display_name_of(*self),
    {
        match self {
            Theme::GitHubLight => "GitHub Light",
            Theme::GitHubDark => "GitHub Dark",
            Theme::GitHubAuto => "GitHub Auto",
        }
    }

    /// Returns all available themes, each exactly once.
    pub fn all() -> (r: Vec<Theme>)
        ensures
            r@ == seq![Theme::GitHubLight, Theme::GitHubDark, Theme::GitHubAuto],
    {
        let mut v: Vec<Theme> = Vec::new();
        v.push(Theme::GitHubLight);
        v.push(Theme::GitHubDark);
        v.push(Theme::GitHubAuto);
        proof {
            assert(v@ =~= seq![Theme::GitHubLight, Theme::GitHubDark, Theme::GitHubAuto]);
        }
        v
    }

    /// Resolves the theme to its stylesheet text; total over the closed set,
    /// no error path.
    pub fn stylesheet(&self) -> (r: &'static str)
        ensures
            r@ == css_of(*self),
    {
        match self {
            Theme::GitHubLight => "body { font-family: sans-serif; color: #1f2328; background-color: #ffffff; margin: 2em auto; max-width: 50em; } pre { background-color: #f6f8fa; padding: 1em; overflow: auto; } code { font-family: monospace; } table { border-collapse: collapse; } th, td { border: 1px solid #d1d9e0; padding: 0.4em; } a { color: #0969da; } blockquote { color: #59636e; border-left: 0.25em solid #d1d9e0; padding-left: 1em; }",
            Theme::GitHubDark => "body { font-family: sans-serif; color: #f0f6fc; background-color: #0d1117; margin: 2em auto; max-width: 50em; } pre { background-color: #151b23; padding: 1em; overflow: auto; } code { font-family: monospace; } table { border-collapse: collapse; } th, td { border: 1px solid #3d444d; padding: 0.4em; } a { color: #4493f8; } blockquote { color: #9198a1; border-left: 0.25em solid #3d444d; padding-left: 1em; }",
            Theme::GitHubAuto => "body { font-family: sans-serif; color: #1f2328; background-color: #ffffff; margin: 2em auto; max-width: 50em; } pre { background-color: #f6f8fa; padding: 1em; overflow: auto; } code { font-family: monospace; } table { border-collapse: collapse; } th, td { border: 1px solid #d1d9e0; padding: 0.4em; } a { color: #0969da; } blockquote { color: #59636e; border-left: 0.25em solid #d1d9e0; padding-left: 1em; } @media (prefers-color-scheme: dark) { body { color: #f0f6fc; background-color: #0d1117; } pre { background-color: #151b23; } th, td { border-color: #3d444d; } a { color: #4493f8; } blockquote { color: #9198a1; border-left-color: #3d444d; } }",
        }
    }
}

} // verus!
