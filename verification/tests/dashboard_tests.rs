use omma_dashboard::dashboard::{dashboard, default_cards};
use omma_dashboard::model::{Species, Status};
use omma_dashboard::style::stylesheet;
use omma_dashboard::view::card_view;

#[test]
fn ten_cards() {
    let cards = default_cards();
    assert_eq!(cards.len(), 10);
}

#[test]
fn card_names_in_order() {
    let cards = default_cards();
    let names: Vec<&str> = cards.iter().map(|c| c.name.as_str()).collect();
    assert_eq!(
        names,
        vec![
            "Incubator Z",
            "Incubator AJ",
            "Incubator B",
            "Incubator C",
            "Incubator D",
            "Incubator E",
            "Incubator F",
            "Incubator G",
            "Incubator H",
            "Incubator I",
        ]
    );
}

#[test]
fn card_populations_and_ids() {
    let cards = default_cards();
    let pops: Vec<u32> = cards.iter().map(|c| c.population).collect();
    assert_eq!(pops, vec![0, 0, 150, 75, 0, 200, 120, 0, 180, 90]);
    assert_eq!(cards[0].id, "b0b18929...");
    assert_eq!(cards[9].id, "c5e92b7d...");
}

#[test]
fn first_card_data() {
    let cards = default_cards();
    let z = &cards[0];
    assert_eq!(z.name, "Incubator Z");
    assert_eq!(z.species, Species::Orius);
    assert_eq!(z.status, Status::Empty);
    assert_eq!(z.steps_done, 1);
    assert_eq!(z.steps_total, 2);
    assert_eq!(z.tasks.len(), 2);
    assert_eq!(z.tasks[0].label, "Harvest Adults");
    assert!(z.tasks[0].done);
    assert!(z.tasks[0].cancelled);
    assert_eq!(z.tasks[1].label, "Feed Insects");
    assert!(!z.tasks[1].done);
    assert!(z.tasks[1].cancelled);
}

#[test]
fn full_card_with_three_tasks_keeps_its_own_progress() {
    // Incubator B shows a 2/2 progress badge although only one of its
    // three tasks is checked: the badge comes from the card's step
    // counts, not from the checklist.
    let cards = default_cards();
    let b = &cards[2];
    assert_eq!(b.name, "Incubator B");
    assert_eq!(b.tasks.len(), 3);
    assert_eq!(b.tasks.iter().filter(|t| t.done).count(), 1);
    let view = card_view(b);
    assert_eq!(view.progress_badge, "2/2");
    assert_eq!(view.task_rows.len(), 3);
}

#[test]
fn window_chrome() {
    let d = dashboard();
    assert_eq!(d.window.title, "Omma");
    assert_eq!(d.window.application_id, "com.omma.IncubatorApp");
    assert_eq!(d.window.default_width, 1200);
    assert_eq!(d.window.default_height, 900);
}

#[test]
fn navigation_bar() {
    let d = dashboard();
    assert_eq!(
        d.nav.breadcrumbs,
        vec!["Summerberry ▾", "Groves Farm ▾", "Summerberry ▾"]
    );
    assert_eq!(d.nav.crumb_separator, "/");
    assert_eq!(d.nav.harvest_label, "Harvest");
    assert_eq!(d.nav.list_icon, "view-list-symbolic");
    assert_eq!(d.nav.grid_icon, "view-grid-symbolic");
    assert_eq!(d.nav.logo_width, 140);
    assert_eq!(d.nav.logo_height, 36);
    assert!(d.nav.logo_path.ends_with("logo_full.png"));
}

#[test]
fn date_search_bar() {
    let d = dashboard();
    assert_eq!(d.date_search.prev_icon, "go-previous-symbolic");
    assert_eq!(d.date_search.date_label, "Oct 16, 2025");
    assert_eq!(d.date_search.next_icon, "go-next-symbolic");
    assert_eq!(d.date_search.search_placeholder, "Search incubators...");
    assert_eq!(d.date_search.today_label, "Today");
}

#[test]
fn dashboard_cards_match_the_data() {
    let d = dashboard();
    assert_eq!(d.cards.len(), 10);
    assert_eq!(d.cards[0].title, "Incubator Z");
    assert_eq!(d.cards[0].species_badge, "Orius");
    assert_eq!(d.cards[0].status_badge, "Empty");
    assert_eq!(d.cards[0].progress_badge, "1/2");
    assert_eq!(d.cards[0].population_text, "Population: 0");
    assert_eq!(d.cards[0].id_text, "ID: b0b18929...");
    assert_eq!(d.cards[0].task_rows.len(), 2);
    assert!(d.cards[0].task_rows[0].dim_label);
    assert_eq!(d.cards[5].title, "Incubator E");
    assert_eq!(d.cards[5].progress_badge, "3/3");
    assert_eq!(d.cards[5].population_text, "Population: 200");
    assert_eq!(d.cards[5].task_rows.len(), 3);
    assert!(d.cards[5].task_rows.iter().all(|r| r.checked));
}

#[test]
fn stylesheet_defines_the_palette_and_classes() {
    let css = stylesheet();
    assert!(css.contains("@define-color omma_green #10b981;"));
    assert!(css.contains("@define-color omma_purple #a855f7;"));
    assert!(css.contains(".card {"));
    assert!(css.contains(".badge.purple {"));
    assert!(css.contains(".badge.dim {"));
    assert!(css.contains(".suggested-action {"));
    assert!(css.contains(".omma-progress trough {"));
    assert!(css.contains(".dim-label {"));
    assert!(css.contains(".title-3 {"));
}
