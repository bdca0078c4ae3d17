//! Widget descriptions for one incubator card.
//!
//! [`card_view`] and [`task_row_view`] compute, as plain strings and flags,
//! exactly what the GUI shell puts into each card's widget tree: the title
//! label, the three badges, one row per task, and the footer labels. Their
//! contracts tie every field to the card's data, so the shell has nothing
//! left to decide.

use vstd::prelude::*;
use crate::model::{spec_species_label, spec_status_label, Card, Task, TaskV};
use crate::text::{spec_id_label, spec_population_label, spec_progress_label};

verus! {

/// The description of one task row: a checkbox, a caption, an optional
/// cancellation badge, and a menu button.
pub struct TaskRowView {
    /// The caption beside the checkbox.
    pub label: String,
    /// Whether the checkbox starts checked.
    pub checked: bool,
    /// Whether the caption is styled as dimmed.
    pub dim_label: bool,
    /// Whether a cancellation badge stands beside the caption.
    pub cancelled_badge: bool,
    /// The icon name of the row's menu button.
    pub menu_icon: String,
}

/// The text of the badge shown on cancelled task rows.
pub fn cancelled_badge_label() -> (r: &'static str)
    ensures
        r@ == "CANCELLED"@,
{
    "CANCELLED"
}

/// Whether the row `r` displays the task `t`: same caption and checkbox
/// state, with the caption dimmed and the cancellation badge present
/// exactly when the task is cancelled.
pub open spec fn task_row_matches(r: TaskRowView, t: TaskV) -> bool {
    &&& r.label@ == t.label
    &&& r.checked == t.done
    &&& r.dim_label == t.cancelled
    &&& r.cancelled_badge == t.cancelled
    &&& r.menu_icon@ == "view-more-symbolic"@
}

/// Describes the row that displays the task `t`.
pub fn task_row_view(t: &Task) -> (r: TaskRowView)
    ensures
        task_row_matches(r, t@),
{
    TaskRowView {
        label: t.label.clone(),
        checked: t.done,
        dim_label: t.cancelled,
        cancelled_badge: t.cancelled,
        menu_icon: "view-more-symbolic".to_owned(),
    }
}

/// The description of one incubator card: the header labels, one row per
/// task, and the footer labels.
pub struct CardView {
    /// The card's title.
    pub title: String,
    /// The purple species badge.
    pub species_badge: String,
    /// The dim fill-status badge.
    pub status_badge: String,
    /// The progress badge, for example `1/2`.
    pub progress_badge: String,
    /// One row per task, in the card's order.
    pub task_rows: Vec<TaskRowView>,
    /// The footer's population line.
    pub population_text: String,
    /// The footer's identifier line.
    pub id_text: String,
}

/// Whether the view `v` displays the card `c`: every label is the one the
/// card's data prescribes, and the rows display the card's tasks in order.
pub open spec fn card_view_matches(v: CardView, c: crate::model::CardV) -> bool {
    &&& v.title@ == c.name
    &&& v.species_badge@ == spec_species_label(c.species)
    &&& v.status_badge@ == spec_status_label(c.status)
    &&& v.progress_badge@ == spec_progress_label(c.steps_done as nat, c.steps_total as nat)
    &&& v.task_rows@.len() == c.tasks.len()
    &&& forall|i: int|
        0 <= i < c.tasks.len() ==> task_row_matches(#[trigger] v.task_rows@[i], c.tasks[i])
    &&& v.population_text@ == spec_population_label(c.population as nat)
    &&& v.id_text@ == spec_id_label(c.id)
}

/// Describes the card widget tree for `c`.
pub fn card_view(c: &Card) -> (v: CardView)
    ensures
        card_view_matches(v, c@),
{
    let mut rows: Vec<TaskRowView> = Vec::new();
    let mut k: usize = 0;
    while k < c.tasks.len()
        invariant
            k <= c.tasks.len(),
            rows@.len() == k,
            forall|i: int| 0 <= i < k ==> task_row_matches(#[trigger] rows@[i], c.tasks@[i]@),
        decreases c.tasks.len() - k,
    {
        let row = task_row_view(&c.tasks[k]);
        rows.push(row);
        k += 1;
    }
    CardView {
        title: c.name.clone(),
        species_badge: c.species.label().to_owned(),
        status_badge: c.status.label().to_owned(),
        progress_badge: c.progress_text(),
        task_rows: rows,
        population_text: c.population_text(),
        id_text: c.id_text(),
    }
}

} // verus!
