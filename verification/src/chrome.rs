//! Descriptions of the window frame around the card list: the window
//! itself, the top navigation bar, and the date/search bar.
//!
//! Each builder returns plain strings and sizes with an exact contract, so
//! the GUI shell only instantiates widgets and never invents any text.

use vstd::prelude::*;

verus! {

/// The application window's identity and geometry.
pub struct WindowView {
    /// The title shown in the header bar.
    pub title: String,
    /// The toolkit application identifier.
    pub application_id: String,
    /// The window's initial width in pixels.
    pub default_width: i32,
    /// The window's initial height in pixels.
    pub default_height: i32,
}

/// Whether `r` is the dashboard's window description.
pub open spec fn window_view_spec(r: WindowView) -> bool {
    &&& r.title@ == "Omma"@
    &&& r.application_id@ == "com.omma.IncubatorApp"@
    &&& r.default_width == 1200
    &&& r.default_height == 900
}

/// Describes the application window.
pub fn window_view() -> (r: WindowView)
    ensures
        window_view_spec(r),
{
    WindowView {
        title: "Omma".to_owned(),
        application_id: "com.omma.IncubatorApp".to_owned(),
        default_width: 1200,
        default_height: 900,
    }
}

/// The top navigation bar: logo, breadcrumb trail, and action buttons.
pub struct NavView {
    /// Where the logo image is looked for on disk; a blank picture stands
    /// in when the file cannot be read.
    pub logo_path: String,
    /// The width the logo is scaled to, in pixels.
    pub logo_width: i32,
    /// The height the logo is scaled to, in pixels.
    pub logo_height: i32,
    /// The breadcrumb button labels, left to right.
    pub breadcrumbs: Vec<String>,
    /// The separator label between breadcrumb buttons.
    pub crumb_separator: String,
    /// The label of the harvest action button.
    pub harvest_label: String,
    /// The icon name of the list-view button.
    pub list_icon: String,
    /// The icon name of the grid-view button.
    pub grid_icon: String,
}

/// Whether `r` is the dashboard's navigation-bar description.
pub open spec fn top_navigation_spec(r: NavView) -> bool {
    &&& r.logo_path@ == "/Users/dongyiuwu/SoftwareDevelopment/omma-linux/logo_full.png"@
    &&& r.logo_width == 140
    &&& r.logo_height == 36
    &&& r.breadcrumbs@.len() == 3
    &&& r.breadcrumbs@[0]@ == "Summerberry ▾"@
    &&& r.breadcrumbs@[1]@ == "Groves Farm ▾"@
    &&& r.breadcrumbs@[2]@ == "Summerberry ▾"@
    &&& r.crumb_separator@ == "/"@
    &&& r.harvest_label@ == "Harvest"@
    &&& r.list_icon@ == "view-list-symbolic"@
    &&& r.grid_icon@ == "view-grid-symbolic"@
}

/// Describes the top navigation bar.
pub fn top_navigation() -> (r: NavView)
    ensures
        top_navigation_spec(r),
{
    let mut crumbs: Vec<String> = Vec::new();
    crumbs.push("Summerberry ▾".to_owned());
    crumbs.push("Groves Farm ▾".to_owned());
    crumbs.push("Summerberry ▾".to_owned());
    NavView {
        logo_path: "/Users/dongyiuwu/SoftwareDevelopment/omma-linux/logo_full.png".to_owned(),
        logo_width: 140,
        logo_height: 36,
        breadcrumbs: crumbs,
        crumb_separator: "/".to_owned(),
        harvest_label: "Harvest".to_owned(),
        list_icon: "view-list-symbolic".to_owned(),
        grid_icon: "view-grid-symbolic".to_owned(),
    }
}

/// The date/search bar: date navigation, a search field, and a button
/// that jumps back to the current day.
pub struct DateSearchView {
    /// The icon name of the previous-day button.
    pub prev_icon: String,
    /// The label of the date button.
    pub date_label: String,
    /// The icon name of the next-day button.
    pub next_icon: String,
    /// The placeholder text of the search field.
    pub search_placeholder: String,
    /// The label of the today button.
    pub today_label: String,
}

/// Whether `r` is the dashboard's date/search-bar description.
pub open spec fn date_search_section_spec(r: DateSearchView) -> bool {
    &&& r.prev_icon@ == "go-previous-symbolic"@
    &&& r.date_label@ == "Oct 16, 2025"@
    &&& r.next_icon@ == "go-next-symbolic"@
    &&& r.search_placeholder@ == "Search incubators..."@
    &&& r.today_label@ == "Today"@
}

/// Describes the date/search bar.
pub fn date_search_section() -> (r: DateSearchView)
    ensures
        date_search_section_spec(r),
{
    DateSearchView {
        prev_icon: "go-previous-symbolic".to_owned(),
        date_label: "Oct 16, 2025".to_owned(),
        next_icon: "go-next-symbolic".to_owned(),
        search_placeholder: "Search incubators...".to_owned(),
        today_label: "Today".to_owned(),
    }
}

} // verus!
