use vstd::prelude::*;
use crate::theme::{lower_of, spec_selection};
use crate::theme::{css_for, select_stylesheet, spec_css};
use crate::settings::{spec_resolve, SettingsSnapshot};
use crate::ui::{activated, build_activation_ui, Ui};

verus! {

/// Why one stylesheet-load pass cannot proceed. Both conditions are fatal by
/// design: the caller aborts with a diagnostic, with no retry and no fallback.
#[derive(Clone, Copy, PartialEq, Eq, Structural, Debug)]
pub enum ThemeError {
    /// No default display could be obtained.
    NoDisplay,
    /// The theme-name lookup returned nothing although settings exist.
    NoThemeName,
}

/// What one stylesheet-load pass must decide, given whether a default display
/// exists and what the theme-name lookup returned: the stylesheet text to
/// install, or the fatal error to abort with. A missing display is reported
/// first.
pub open spec fn spec_css_plan(
    display_available: bool,
    theme_name: Option<Seq<char>>,
    prefer_dark: bool,
) -> Result<Seq<char>, ThemeError> {
    if !display_available {
        Err(ThemeError::NoDisplay)
    } else {
        match theme_name {
            None => Err(ThemeError::NoThemeName),
            Some(n) => Ok(spec_css(spec_selection(lower_of(n), prefer_dark))),
        }
    }
}

/// The view of the theme-name lookup's result.
pub open spec fn name_view(theme_name: Option<&str>) -> Option<Seq<char>> {
    match theme_name {
        None => None,
        Some(n) => Some(n@),
    }
}

/// One stylesheet-load pass. The caller reports whether a default display
/// exists and what the theme-name lookup returned; the result follows
/// `spec_css_plan` exactly.
pub fn plan_css_load(display_available: bool, theme_name: Option<&str>, prefer_dark: bool) -> (r:
    Result<&'static str, ThemeError>)
    ensures
        r is Ok <==> spec_css_plan(display_available, name_view(theme_name), prefer_dark) is Ok,
        r matches Ok(c) ==> c@ == spec_css_plan(
            display_available,
            name_view(theme_name),
            prefer_dark,
        )->Ok_0,
        r matches Err(e) ==> Err::<Seq<char>, ThemeError>(e) == spec_css_plan(
            display_available,
            name_view(theme_name),
            prefer_dark,
        ),
{
    if !display_available {
        return Err(ThemeError::NoDisplay);
    }
    match theme_name {
        None => Err(ThemeError::NoThemeName),
        Some(name) => Ok(css_for(select_stylesheet(name, prefer_dark))),
    }
}

/// The stylesheet text that a settings snapshot resolves to.
pub fn resolve_css(s: &SettingsSnapshot) -> (r: &'static str)
    ensures
        r@ == spec_css(spec_resolve(*s)),
{
    css_for(s.resolve())
}

/// The activation pass. The stylesheet-load decision is made only when a
/// settings object exists (its absence is no error: theme setup is skipped);
/// the single window is built regardless.
pub fn plan_activation(
    settings_present: bool,
    display_available: bool,
    theme_name: Option<&str>,
    prefer_dark: bool,
) -> (r: (Option<Result<&'static str, ThemeError>>, Ui))
    ensures
        !settings_present ==> r.0 is None,
        settings_present ==> (r.0 matches Some(p) && (p is Ok <==> spec_css_plan(
            display_available,
            name_view(theme_name),
            prefer_dark,
        ) is Ok)),
        settings_present ==> (r.0 matches Some(p) && (p matches Ok(c) ==> c@ == spec_css_plan(
            display_available,
            name_view(theme_name),
            prefer_dark,
        )->Ok_0)),
        settings_present ==> (r.0 matches Some(p) && (p matches Err(e) ==> Err::<
            Seq<char>,
            ThemeError,
        >(e) == spec_css_plan(display_available, name_view(theme_name), prefer_dark))),
        activated(r.1),
{
    let plan = if settings_present {
        Some(plan_css_load(display_available, theme_name, prefer_dark))
    } else {
        None
    };
    (plan, build_activation_ui())
}

} // verus!
