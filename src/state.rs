use vstd::prelude::*;

verus! {

/// The shared application record: the current theme and the window title.
pub struct AppState {
    pub theme: String,
    pub window_title: String,
}

/// The mathematical value of an [`AppState`].
pub struct AppStateView {
    pub theme: Seq<char>,
    pub window_title: Seq<char>,
}

impl View for AppState {
    type V = AppStateView;

    open spec fn view(&self) -> AppStateView {
        AppStateView { theme: self.theme@, window_title: self.window_title@ }
    }
}

/// The state after the theme is replaced by `t`; the title is kept.
pub open spec fn with_theme(s: AppStateView, t: Seq<char>) -> AppStateView {
    AppStateView { theme: t, window_title: s.window_title }
}

impl AppState {
    /// The state a shell starts with: a dark theme and the product's name as title.
    pub fn new() -> (r: AppState)
        ensures
            r@.theme == "dark"@,
            r@.window_title == "Cetiprobe"@,
    {
        AppState { theme: String::from_str("dark"), window_title: String::from_str("Cetiprobe") }
    }

    /// The window title.
    pub fn window_title(&self) -> (r: String)
        ensures
            r@ == self@.window_title,
    {
        self.window_title.clone()
    }
}

/// Replaces the theme. It always succeeds.
pub fn set_theme(theme: &str, state: &mut AppState) -> (r: Result<(), String>)
    ensures
        r is Ok,
        final(state)@ == with_theme(old(state)@, theme@),
{
    state.theme = theme.to_owned();
    Ok(())
}

/// The current theme.
pub fn get_theme(state: &AppState) -> (r: String)
    ensures
        r@ == state@.theme,
{
    state.theme.clone()
}

/// Reading the theme back after setting it gives the value that was set,
/// whatever the state was before, and the title is left as it was.
pub proof fn lemma_get_after_set(s: AppStateView, t: Seq<char>)
    ensures
        with_theme(s, t).theme == t,
        with_theme(s, t).window_title == s.window_title,
{
}

} // verus!
