use vstd::prelude::*;

verus! {

/// The navigation panel: a bordered frame labelled "Menu" listing the
/// application's entries. The entries are shown only; none can be selected.
pub struct MenuPanel {
    pub title: String,
    pub is_focused: bool,
}

impl MenuPanel {
    /// The label centred on the panel's bottom border.
    pub fn label() -> (r: String)
        ensures
            r@ == "Menu"@,
    {
        String::from_str("Menu")
    }

    /// The entries listed inside the frame, top to bottom.
    pub fn entries() -> (r: Vec<String>)
        ensures
            r@.len() == 4,
            r@[0]@ == "Login"@,
            r@[1]@ == "View Projects"@,
            r@[2]@ == "Settings"@,
            r@[3]@ == "Exit"@,
    {
        let mut r: Vec<String> = Vec::new();
        r.push(String::from_str("Login"));
        r.push(String::from_str("View Projects"));
        r.push(String::from_str("Settings"));
        r.push(String::from_str("Exit"));
        r
    }
}

impl Default for MenuPanel {
    fn default() -> (r: Self)
        ensures
            r.title@ == Seq::<char>::empty(),
            !r.is_focused,
    {
        MenuPanel { title: String::new(), is_focused: false }
    }
}

/// The activity panel: a bordered frame labelled "Actions" holding one line of
/// text, which reports a failed log action when there was one.
pub struct LoggingPanel {
    pub title: String,
    pub is_focused: bool,
    pub log_failed: bool,
}

impl LoggingPanel {
    /// The label centred on the panel's bottom border.
    pub fn label() -> (r: String)
        ensures
            r@ == "Actions"@,
    {
        String::from_str("Actions")
    }

    /// The line shown inside the frame.
    pub fn message(&self) -> (r: String)
        ensures
            self.log_failed ==> r@ == "The log action failed; press L to try again"@,
            !self.log_failed ==> r@ == "This is some test test for my layout"@,
    {
        if self.log_failed {
            String::from_str("The log action failed; press L to try again")
        } else {
            String::from_str("This is some test test for my layout")
        }
    }
}

impl Default for LoggingPanel {
    fn default() -> (r: Self)
        ensures
            r.title@ == Seq::<char>::empty(),
            !r.is_focused,
            !r.log_failed,
    {
        LoggingPanel { title: String::new(), is_focused: false, log_failed: false }
    }
}

} // verus!
