use vstd::prelude::*;

verus! {

/// Which of the two embedded stylesheets is active.
#[derive(Clone, Copy, PartialEq, Eq, Structural, Debug)]
pub enum Stylesheet {
    Light,
    Dark,
}

/// The characters that `str::to_lowercase` produces for the characters `s`.
pub uninterp spec fn lower_of(s: Seq<char>) -> Seq<char>;

/// Relies on str::to_lowercase: the result depends on the input characters alone.
#[verifier::external_body]
fn lowercase_chars(s: &str) -> (r: Vec<char>)
    ensures
        r@ == lower_of(s@),
{
    s.to_lowercase().chars().collect()
}

/// The four characters that mark a dark theme name.
pub open spec fn dark_marker() -> Seq<char> {
    seq!['d', 'a', 'r', 'k']
}

/// `s` contains "dark" as a contiguous run of characters.
pub open spec fn contains_dark(s: Seq<char>) -> bool {
    exists|i: int| 0 <= i && i + 4 <= s.len() && #[trigger] s.subrange(i, i + 4) == dark_marker()
}

/// Whether the given characters contain the marker "dark".
pub fn chars_contain_dark(cs: &Vec<char>) -> (r: bool)
    ensures
        r == contains_dark(cs@),
{
    if cs.len() < 4 {
        return false;
    }
    let last: usize = cs.len() - 4;
    let mut i: usize = 0;
    while i <= last
        invariant
            last == cs@.len() - 4,
            cs@.len() <= usize::MAX,
            i <= last + 1,
            forall|j: int| 0 <= j < i ==> #[trigger] cs@.subrange(j, j + 4) != dark_marker(),
        decreases last + 1 - i,
    {
        if cs[i] == 'd' && cs[i + 1] == 'a' && cs[i + 2] == 'r' && cs[i + 3] == 'k' {
            proof {
                assert(cs@.subrange(i as int, i as int + 4) =~= dark_marker());
            }
            return true;
        }
        proof {
            let sub = cs@.subrange(i as int, i as int + 4);
            assert(sub[0] == cs@[i as int]);
            assert(sub[1] == cs@[i as int + 1]);
            assert(sub[2] == cs@[i as int + 2]);
            assert(sub[3] == cs@[i as int + 3]);
            assert(sub != dark_marker());
        }
        i = i + 1;
    }
    false
}

/// The stylesheet chosen for already case-folded theme-name characters and the
/// dark-preference flag: dark when the flag is set or the name contains "dark".
pub open spec fn spec_selection(theme_lower: Seq<char>, prefer_dark: bool) -> Stylesheet {
    if prefer_dark || contains_dark(theme_lower) {
        Stylesheet::Dark
    } else {
        Stylesheet::Light
    }
}

/// Select a stylesheet from characters that are already case-folded.
pub fn select_from_lower(lower: &Vec<char>, prefer_dark: bool) -> (r: Stylesheet)
    ensures
        r == spec_selection(lower@, prefer_dark),
{
    if prefer_dark || chars_contain_dark(lower) {
        Stylesheet::Dark
    } else {
        Stylesheet::Light
    }
}

/// Select a stylesheet from the raw theme name and the dark-preference flag.
pub fn select_stylesheet(theme_name: &str, prefer_dark: bool) -> (r: Stylesheet)
    ensures
        r == spec_selection(lower_of(theme_name@), prefer_dark),
{
    let lower = lowercase_chars(theme_name);
    select_from_lower(&lower, prefer_dark)
}

/// The text of the embedded stylesheet for each variant.
pub open spec fn spec_css(s: Stylesheet) -> Seq<char> {
    match s {
        Stylesheet::Light => "window { background-color: #fafafa; color: #2e3436; }"@,
        Stylesheet::Dark => "window { background-color: #242424; color: #f6f5f4; }"@,
    }
}

/// The embedded stylesheet text for a selection.
pub fn css_for(s: Stylesheet) -> (r: &'static str)
    ensures
        r@ == spec_css(s),
{
    match s {
        Stylesheet::Light => "window { background-color: #fafafa; color: #2e3436; }",
        Stylesheet::Dark => "window { background-color: #242424; color: #f6f5f4; }",
    }
}

/// The selection rule in full: the dark stylesheet is selected exactly when
/// the dark preference is set or the case-folded theme name contains "dark",
/// and the light stylesheet is selected otherwise.
pub proof fn lemma_selection_rule(theme_lower: Seq<char>, prefer_dark: bool)
    ensures
        (prefer_dark || contains_dark(theme_lower)) <==> spec_selection(theme_lower, prefer_dark)
            == Stylesheet::Dark,
        !(prefer_dark || contains_dark(theme_lower)) <==> spec_selection(theme_lower, prefer_dark)
            == Stylesheet::Light,
{
}

/// Selection is a pure function of the two inputs: equal inputs always give
/// equal selections, however many times the rule is re-evaluated.
pub proof fn lemma_selection_deterministic(a: Seq<char>, b: Seq<char>, p: bool, q: bool)
    requires
        a == b,
        p == q,
    ensures
        spec_selection(a, p) == spec_selection(b, q),
{
}

} // verus!
