//! The dashboard itself: the fixed set of ten incubator cards and the
//! description of the whole window built from them.
//!
//! [`dashboard_cards`] is the mathematical statement of the card data;
//! [`default_cards`] is proved to return exactly that data, and
//! [`dashboard`] is proved to describe a window whose chrome and cards
//! display it.

use vstd::prelude::*;
use crate::chrome::{date_search_section, top_navigation, window_view};
use crate::chrome::{date_search_section_spec, top_navigation_spec, window_view_spec};
use crate::chrome::{DateSearchView, NavView, WindowView};
use crate::model::{Card, CardV, Species, Status, Task, TaskV};
use crate::view::{card_view, card_view_matches, CardView};

verus! {

/// The card list each `Seq<Card>` is measured against: the views of its
/// elements, in order.
pub open spec fn cards_view(s: Seq<Card>) -> Seq<CardV> {
    s.map_values(|c: Card| c@)
}

/// The data of the ten cards the dashboard shows, in display order.
pub open spec fn dashboard_cards() -> Seq<CardV> {
    seq![
        CardV {
            name: "Incubator Z"@,
            species: Species::Orius,
            status: Status::Empty,
            steps_done: 1,
            steps_total: 2,
            tasks: seq![
                TaskV { label: "Harvest Adults"@, done: true, cancelled: true },
                TaskV { label: "Feed Insects"@, done: false, cancelled: true },
            ],
            population: 0,
            id: "b0b18929..."@,
        },
        CardV {
            name: "Incubator AJ"@,
            species: Species::Orius,
            status: Status::Empty,
            steps_done: 1,
            steps_total: 2,
            tasks: seq![
                TaskV { label: "Harvest Adults"@, done: true, cancelled: true },
                TaskV { label: "Feed Insects"@, done: false, cancelled: true },
            ],
            population: 0,
            id: "d9f39c5c..."@,
        },
        CardV {
            name: "Incubator B"@,
            species: Species::Macrolophus,
            status: Status::Full,
            steps_done: 2,
            steps_total: 2,
            tasks: seq![
                TaskV { label: "Harvest Adults"@, done: false, cancelled: false },
                TaskV { label: "Feed Insects"@, done: true, cancelled: false },
                TaskV { label: "Clean Tank"@, done: false, cancelled: false },
            ],
            population: 150,
            id: "a3b42d1e..."@,
        },
        CardV {
            name: "Incubator C"@,
            species: Species::Orius,
            status: Status::Half,
            steps_done: 1,
            steps_total: 2,
            tasks: seq![
                TaskV { label: "Harvest Adults"@, done: true, cancelled: false },
                TaskV { label: "Check Temperature"@, done: false, cancelled: false },
            ],
            population: 75,
            id: "c8e91f2a..."@,
        },
        CardV {
            name: "Incubator D"@,
            species: Species::Nesidiocoris,
            status: Status::Empty,
            steps_done: 0,
            steps_total: 3,
            tasks: seq![
                TaskV { label: "Harvest Adults"@, done: false, cancelled: true },
                TaskV { label: "Feed Insects"@, done: false, cancelled: false },
                TaskV { label: "Water Change"@, done: false, cancelled: false },
            ],
            population: 0,
            id: "f1d84c7b..."@,
        },
        CardV {
            name: "Incubator E"@,
            species: Species::Orius,
            status: Status::Full,
            steps_done: 3,
            steps_total: 3,
            tasks: seq![
                TaskV { label: "Harvest Adults"@, done: true, cancelled: false },
                TaskV { label: "Feed Insects"@, done: true, cancelled: false },
                TaskV { label: "Clean Tank"@, done: true, cancelled: false },
            ],
            population: 200,
            id: "b7a39d8e..."@,
        },
        CardV {
            name: "Incubator F"@,
            species: Species::Macrolophus,
            status: Status::Half,
            steps_done: 2,
            steps_total: 3,
            tasks: seq![
                TaskV { label: "Harvest Adults"@, done: true, cancelled: false },
                TaskV { label: "Feed Insects"@, done: true, cancelled: false },
                TaskV { label: "Monitor Growth"@, done: false, cancelled: false },
            ],
            population: 120,
            id: "d4c28f1a..."@,
        },
        CardV {
            name: "Incubator G"@,
            species: Species::Orius,
            status: Status::Empty,
            steps_done: 0,
            steps_total: 2,
            tasks: seq![
                TaskV { label: "Harvest Adults"@, done: false, cancelled: true },
                TaskV { label: "Feed Insects"@, done: false, cancelled: true },
            ],
            population: 0,
            id: "e9b17a3c..."@,
        },
        CardV {
            name: "Incubator H"@,
            species: Species::Nesidiocoris,
            status: Status::Full,
            steps_done: 2,
            steps_total: 2,
            tasks: seq![
                TaskV { label: "Harvest Adults"@, done: true, cancelled: false },
                TaskV { label: "Feed Insects"@, done: true, cancelled: false },
            ],
            population: 180,
            id: "a2f64d8b..."@,
        },
        CardV {
            name: "Incubator I"@,
            species: Species::Orius,
            status: Status::Half,
            steps_done: 1,
            steps_total: 2,
            tasks: seq![
                TaskV { label: "Harvest Adults"@, done: false, cancelled: false },
                TaskV { label: "Feed Insects"@, done: true, cancelled: false },
            ],
            population: 90,
            id: "c5e92b7d..."@,
        },
    ]
}

/// Builds one checklist task.
fn task(label: &str, done: bool, cancelled: bool) -> (t: Task)
    ensures
        t@ == (TaskV { label: label@, done: done, cancelled: cancelled }),
{
    Task { label: label.to_owned(), done: done, cancelled: cancelled }
}

/// Builds a two-task checklist.
fn tasks2(a: Task, b: Task) -> (v: Vec<Task>)
    ensures
        v@.map_values(|t: Task| t@) == seq![a@, b@],
{
    let mut v: Vec<Task> = Vec::new();
    let ghost av = a@;
    let ghost bv = b@;
    v.push(a);
    v.push(b);
    proof {
        assert(v@.map_values(|t: Task| t@) =~= seq![av, bv]);
    }
    v
}

/// Builds a three-task checklist.
fn tasks3(a: Task, b: Task, c: Task) -> (v: Vec<Task>)
    ensures
        v@.map_values(|t: Task| t@) == seq![a@, b@, c@],
{
    let mut v: Vec<Task> = Vec::new();
    let ghost av = a@;
    let ghost bv = b@;
    let ghost cv = c@;
    v.push(a);
    v.push(b);
    v.push(c);
    proof {
        assert(v@.map_values(|t: Task| t@) =~= seq![av, bv, cv]);
    }
    v
}

/// Builds one card from its literal data.
fn card(
    name: &str,
    species: Species,
    status: Status,
    steps_done: u32,
    steps_total: u32,
    tasks: Vec<Task>,
    population: u32,
    id: &str,
) -> (c: Card)
    ensures
        c@ == (CardV {
            name: name@,
            species: species,
            status: status,
            steps_done: steps_done,
            steps_total: steps_total,
            tasks: tasks@.map_values(|t: Task| t@),
            population: population,
            id: id@,
        }),
{
    let c = Card {
        name: name.to_owned(),
        species: species,
        status: status,
        steps_done: steps_done,
        steps_total: steps_total,
        tasks: tasks,
        population: population,
        id: id.to_owned(),
    };
    proof {
        assert(c@ =~~= (CardV {
            name: name@,
            species: species,
            status: status,
            steps_done: steps_done,
            steps_total: steps_total,
            tasks: c.tasks@.map_values(|t: Task| t@),
            population: population,
            id: id@,
        }));
    }
    c
}

/// Returns the ten cards of the dashboard, exactly the data that
/// [`dashboard_cards`] states.
pub fn default_cards() -> (r: Vec<Card>)
    ensures
        cards_view(r@) == dashboard_cards(),
{
    let mut r: Vec<Card> = Vec::new();
    let c0 = card(
        "Incubator Z", Species::Orius, Status::Empty, 1, 2,
        tasks2(task("Harvest Adults", true, true), task("Feed Insects", false, true)),
        0, "b0b18929...",
    );
    let c1 = card(
        "Incubator AJ", Species::Orius, Status::Empty, 1, 2,
        tasks2(task("Harvest Adults", true, true), task("Feed Insects", false, true)),
        0, "d9f39c5c...",
    );
    let c2 = card(
        "Incubator B", Species::Macrolophus, Status::Full, 2, 2,
        tasks3(
            task("Harvest Adults", false, false),
            task("Feed Insects", true, false),
            task("Clean Tank", false, false),
        ),
        150, "a3b42d1e...",
    );
    let c3 = card(
        "Incubator C", Species::Orius, Status::Half, 1, 2,
        tasks2(task("Harvest Adults", true, false), task("Check Temperature", false, false)),
        75, "c8e91f2a...",
    );
    let c4 = card(
        "Incubator D", Species::Nesidiocoris, Status::Empty, 0, 3,
        tasks3(
            task("Harvest Adults", false, true),
            task("Feed Insects", false, false),
            task("Water Change", false, false),
        ),
        0, "f1d84c7b...",
    );
    let c5 = card(
        "Incubator E", Species::Orius, Status::Full, 3, 3,
        tasks3(
            task("Harvest Adults", true, false),
            task("Feed Insects", true, false),
            task("Clean Tank", true, false),
        ),
        200, "b7a39d8e...",
    );
    let c6 = card(
        "Incubator F", Species::Macrolophus, Status::Half, 2, 3,
        tasks3(
            task("Harvest Adults", true, false),
            task("Feed Insects", true, false),
            task("Monitor Growth", false, false),
        ),
        120, "d4c28f1a...",
    );
    let c7 = card(
        "Incubator G", Species::Orius, Status::Empty, 0, 2,
        tasks2(task("Harvest Adults", false, true), task("Feed Insects", false, true)),
        0, "e9b17a3c...",
    );
    let c8 = card(
        "Incubator H", Species::Nesidiocoris, Status::Full, 2, 2,
        tasks2(task("Harvest Adults", true, false), task("Feed Insects", true, false)),
        180, "a2f64d8b...",
    );
    let c9 = card(
        "Incubator I", Species::Orius, Status::Half, 1, 2,
        tasks2(task("Harvest Adults", false, false), task("Feed Insects", true, false)),
        90, "c5e92b7d...",
    );
    proof {
        assert(c0@ =~~= dashboard_cards()[0]);
        assert(c1@ =~~= dashboard_cards()[1]);
        assert(c2@ =~~= dashboard_cards()[2]);
        assert(c3@ =~~= dashboard_cards()[3]);
        assert(c4@ =~~= dashboard_cards()[4]);
        assert(c5@ =~~= dashboard_cards()[5]);
        assert(c6@ =~~= dashboard_cards()[6]);
        assert(c7@ =~~= dashboard_cards()[7]);
        assert(c8@ =~~= dashboard_cards()[8]);
        assert(c9@ =~~= dashboard_cards()[9]);
    }
    r.push(c0);
    r.push(c1);
    r.push(c2);
    r.push(c3);
    r.push(c4);
    r.push(c5);
    r.push(c6);
    r.push(c7);
    r.push(c8);
    r.push(c9);
    proof {
        assert(cards_view(r@) =~= dashboard_cards());
    }
    r
}

/// The dashboard data has exactly ten cards, and every one of them is
/// well formed: none claims more completed steps than it has steps.
pub proof fn lemma_dashboard_cards_wf()
    ensures
        dashboard_cards().len() == 10,
        forall|i: int|
            0 <= i < dashboard_cards().len() ==> (#[trigger] dashboard_cards()[i]).wf(),
{
    assert forall|i: int|
        0 <= i < dashboard_cards().len() implies (#[trigger] dashboard_cards()[i]).wf() by {
        assert(dashboard_cards()[i].steps_done <= dashboard_cards()[i].steps_total);
    }
}

/// The description of the whole dashboard window.
pub struct DashboardView {
    /// The window's identity and geometry.
    pub window: WindowView,
    /// The top navigation bar.
    pub nav: NavView,
    /// The date/search bar.
    pub date_search: DateSearchView,
    /// One description per incubator card, in display order.
    pub cards: Vec<CardView>,
}

/// Describes the dashboard window: the fixed chrome, and one card view
/// per entry of [`dashboard_cards`], displaying exactly that data.
pub fn dashboard() -> (r: DashboardView)
    ensures
        window_view_spec(r.window),
        top_navigation_spec(r.nav),
        date_search_section_spec(r.date_search),
        r.cards@.len() == dashboard_cards().len(),
        forall|i: int|
            0 <= i < dashboard_cards().len() ==> card_view_matches(
                #[trigger] r.cards@[i],
                dashboard_cards()[i],
            ),
{
    let cards = default_cards();
    let mut views: Vec<CardView> = Vec::new();
    let mut k: usize = 0;
    while k < cards.len()
        invariant
            k <= cards.len(),
            views@.len() == k,
            cards_view(cards@) == dashboard_cards(),
            forall|i: int|
                0 <= i < k ==> card_view_matches(#[trigger] views@[i], dashboard_cards()[i]),
        decreases cards.len() - k,
    {
        proof {
            assert(cards@[k as int]@ == cards_view(cards@)[k as int]);
        }
        let v = card_view(&cards[k]);
        views.push(v);
        k += 1;
    }
    proof {
        assert(cards@.len() == cards_view(cards@).len());
    }
    DashboardView {
        window: window_view(),
        nav: top_navigation(),
        date_search: date_search_section(),
        cards: views,
    }
}

} // verus!
