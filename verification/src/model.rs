//! The data shown on the dashboard: incubator cards and their task lists.
//!
//! A [`Card`] holds, as plain values, everything one incubator card
//! displays: its name, the species and fill status shown as badges, the
//! step counts behind the progress badge, the task checklist, the
//! population count and the identifier text. Views ([`CardV`], [`TaskV`])
//! give each type a mathematical model for contracts.

use vstd::prelude::*;
use crate::text::{spec_id_label, spec_population_label, spec_progress_label};
use crate::text::{id_label, population_label, progress_label};

verus! {

/// The insect species an incubator is breeding, shown as a purple badge.
#[derive(Clone, Copy, PartialEq, Eq, Structural, Debug)]
pub enum Species {
    Orius,
    Macrolophus,
    Nesidiocoris,
}

/// The badge text for each species.
pub open spec fn spec_species_label(s: Species) -> Seq<char> {
    match s {
        Species::Orius => "Orius"@,
        Species::Macrolophus => "Macrolophus"@,
        Species::Nesidiocoris => "Nesidiocoris"@,
    }
}

impl Species {
    /// The badge text for this species.
    pub fn label(&self) -> (r: &'static str)
        ensures
            r@ == spec_species_label(*self),
    {
        match self {
            Species::Orius => "Orius",
            Species::Macrolophus => "Macrolophus",
            Species::Nesidiocoris => "Nesidiocoris",
        }
    }
}

/// How full an incubator is, shown as a dim badge.
#[derive(Clone, Copy, PartialEq, Eq, Structural, Debug)]
pub enum Status {
    Empty,
    Half,
    Full,
}

/// The badge text for each status.
pub open spec fn spec_status_label(s: Status) -> Seq<char> {
    match s {
        Status::Empty => "Empty"@,
        Status::Half => "Half"@,
        Status::Full => "Full"@,
    }
}

impl Status {
    /// The badge text for this status.
    pub fn label(&self) -> (r: &'static str)
        ensures
            r@ == spec_status_label(*self),
    {
        match self {
            Status::Empty => "Empty",
            Status::Half => "Half",
            Status::Full => "Full",
        }
    }
}

/// One entry of a card's task checklist.
pub struct Task {
    /// The task's caption.
    pub label: String,
    /// Whether the task's checkbox starts checked.
    pub done: bool,
    /// Whether the task is cancelled: its caption is dimmed and a
    /// cancellation badge appears beside it.
    pub cancelled: bool,
}

/// The mathematical model of a [`Task`].
#[verifier::ext_equal]
pub struct TaskV {
    pub label: Seq<char>,
    pub done: bool,
    pub cancelled: bool,
}

impl View for Task {
    type V = TaskV;

    open spec fn view(&self) -> TaskV {
        TaskV { label: self.label@, done: self.done, cancelled: self.cancelled }
    }
}

/// One incubator card of the dashboard.
pub struct Card {
    /// The card's title.
    pub name: String,
    /// The species badge.
    pub species: Species,
    /// The fill-status badge.
    pub status: Status,
    /// Steps already completed, the numerator of the progress badge.
    pub steps_done: u32,
    /// Total steps, the denominator of the progress badge.
    pub steps_total: u32,
    /// The task checklist.
    pub tasks: Vec<Task>,
    /// The incubator's population count.
    pub population: u32,
    /// The shortened identifier shown in the footer.
    pub id: String,
}

/// The mathematical model of a [`Card`].
#[verifier::ext_equal]
pub struct CardV {
    pub name: Seq<char>,
    pub species: Species,
    pub status: Status,
    pub steps_done: u32,
    pub steps_total: u32,
    pub tasks: Seq<TaskV>,
    pub population: u32,
    pub id: Seq<char>,
}

impl View for Card {
    type V = CardV;

    open spec fn view(&self) -> CardV {
        CardV {
            name: self.name@,
            species: self.species,
            status: self.status,
            steps_done: self.steps_done,
            steps_total: self.steps_total,
            tasks: self.tasks@.map_values(|t: Task| t@),
            population: self.population,
            id: self.id@,
        }
    }
}

impl CardV {
    /// A card is well formed when its progress counts make sense:
    /// no more steps are done than there are steps.
    pub open spec fn wf(self) -> bool {
        self.steps_done <= self.steps_total
    }
}

impl Card {
    /// A card is well formed when its progress counts make sense:
    /// no more steps are done than there are steps.
    pub open spec fn wf(&self) -> bool {
        self@.wf()
    }

    /// The text of this card's progress badge, for example `1/2`.
    pub fn progress_text(&self) -> (r: String)
        ensures
            r@ == spec_progress_label(self.steps_done as nat, self.steps_total as nat),
    {
        progress_label(self.steps_done, self.steps_total)
    }

    /// The text of this card's population line, for example `Population: 150`.
    pub fn population_text(&self) -> (r: String)
        ensures
            r@ == spec_population_label(self.population as nat),
    {
        population_label(self.population)
    }

    /// The text of this card's identifier line, for example `ID: b0b18929...`.
    pub fn id_text(&self) -> (r: String)
        ensures
            r@ == spec_id_label(self.id@),
    {
        id_label(self.id.as_str())
    }
}

} // verus!
