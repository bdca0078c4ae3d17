use omma_dashboard::model::{Card, Species, Status, Task};
use omma_dashboard::view::{cancelled_badge_label, card_view, task_row_view};

fn sample_task(label: &str, done: bool, cancelled: bool) -> Task {
    Task { label: label.to_string(), done, cancelled }
}

#[test]
fn species_badge_texts() {
    assert_eq!(Species::Orius.label(), "Orius");
    assert_eq!(Species::Macrolophus.label(), "Macrolophus");
    assert_eq!(Species::Nesidiocoris.label(), "Nesidiocoris");
}

#[test]
fn status_badge_texts() {
    assert_eq!(Status::Empty.label(), "Empty");
    assert_eq!(Status::Half.label(), "Half");
    assert_eq!(Status::Full.label(), "Full");
}

#[test]
fn plain_task_row() {
    let row = task_row_view(&sample_task("Feed Insects", true, false));
    assert_eq!(row.label, "Feed Insects");
    assert!(row.checked);
    assert!(!row.dim_label);
    assert!(!row.cancelled_badge);
    assert_eq!(row.menu_icon, "view-more-symbolic");
}

#[test]
fn cancelled_task_row_is_dimmed_and_badged() {
    let row = task_row_view(&sample_task("Harvest Adults", false, true));
    assert_eq!(row.label, "Harvest Adults");
    assert!(!row.checked);
    assert!(row.dim_label);
    assert!(row.cancelled_badge);
}

#[test]
fn cancelled_badge_text() {
    assert_eq!(cancelled_badge_label(), "CANCELLED");
}

#[test]
fn card_view_fields() {
    let card = Card {
        name: "Incubator Q".to_string(),
        species: Species::Macrolophus,
        status: Status::Half,
        steps_done: 1,
        steps_total: 3,
        tasks: vec![
            sample_task("Harvest Adults", true, false),
            sample_task("Clean Tank", false, true),
        ],
        population: 64,
        id: "deadbeef...".to_string(),
    };
    let view = card_view(&card);
    assert_eq!(view.title, "Incubator Q");
    assert_eq!(view.species_badge, "Macrolophus");
    assert_eq!(view.status_badge, "Half");
    assert_eq!(view.progress_badge, "1/3");
    assert_eq!(view.population_text, "Population: 64");
    assert_eq!(view.id_text, "ID: deadbeef...");
    assert_eq!(view.task_rows.len(), 2);
    assert_eq!(view.task_rows[0].label, "Harvest Adults");
    assert!(view.task_rows[0].checked);
    assert!(!view.task_rows[0].cancelled_badge);
    assert_eq!(view.task_rows[1].label, "Clean Tank");
    assert!(!view.task_rows[1].checked);
    assert!(view.task_rows[1].dim_label);
    assert!(view.task_rows[1].cancelled_badge);
}

#[test]
fn card_text_methods() {
    let card = Card {
        name: "Incubator R".to_string(),
        species: Species::Orius,
        status: Status::Empty,
        steps_done: 0,
        steps_total: 2,
        tasks: vec![],
        population: 0,
        id: "c0ffee12...".to_string(),
    };
    assert_eq!(card.progress_text(), "0/2");
    assert_eq!(card.population_text(), "Population: 0");
    assert_eq!(card.id_text(), "ID: c0ffee12...");
    let view = card_view(&card);
    assert_eq!(view.task_rows.len(), 0);
}
