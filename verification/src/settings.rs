use vstd::prelude::*;
use crate::theme::{lower_of, spec_selection, Stylesheet};
use crate::theme::select_stylesheet;

verus! {

/// A transient snapshot of the two observed desktop settings: the free-form
/// theme name and the boolean dark preference. It is read anew on every
/// notification and never stored.
pub struct SettingsSnapshot {
    pub theme_name: String,
    pub prefer_dark: bool,
}

/// A change notification for one of the two observed settings.
pub enum SettingChange {
    ThemeName(String),
    PreferDark(bool),
}

/// The stylesheet that a snapshot resolves to.
pub open spec fn spec_resolve(s: SettingsSnapshot) -> Stylesheet {
    spec_selection(lower_of(s.theme_name@), s.prefer_dark)
}

impl SettingsSnapshot {
    /// The snapshot after one settings-change notification: the named setting
    /// takes the new value, the other keeps its old one.
    pub open spec fn spec_apply(self, c: SettingChange) -> SettingsSnapshot {
        match c {
            SettingChange::ThemeName(n) => (SettingsSnapshot { theme_name: n, ..self }),
            SettingChange::PreferDark(d) => (SettingsSnapshot { prefer_dark: d, ..self }),
        }
    }

    /// Apply one settings-change notification to the snapshot.
    pub fn apply(self, c: SettingChange) -> (r: SettingsSnapshot)
        ensures
            r == self.spec_apply(c),
    {
        match c {
            SettingChange::ThemeName(n) => (SettingsSnapshot { theme_name: n, prefer_dark: self.prefer_dark }),
            SettingChange::PreferDark(d) => (SettingsSnapshot { theme_name: self.theme_name, prefer_dark: d }),
        }
    }

    /// The handler shared by both subscriptions: re-evaluate the whole rule
    /// from the current snapshot, whichever setting triggered it.
    pub fn resolve(&self) -> (r: Stylesheet)
        ensures
            r == spec_resolve(*self),
    {
        select_stylesheet(self.theme_name.as_str(), self.prefer_dark)
    }
}

/// The two subscriptions are order-independent: after both settings have been
/// updated, the resolved stylesheet is the same whichever notification came
/// first, because the rule is re-evaluated from the final snapshot rather than
/// incrementally.
pub proof fn lemma_order_independent(s: SettingsSnapshot, name: String, dark: bool)
    ensures
        spec_resolve(
            s.spec_apply(SettingChange::ThemeName(name)).spec_apply(SettingChange::PreferDark(dark)),
        ) == spec_resolve(
            s.spec_apply(SettingChange::PreferDark(dark)).spec_apply(SettingChange::ThemeName(name)),
        ),
{
}

} // verus!
