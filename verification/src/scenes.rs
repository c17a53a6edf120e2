//! Manager for the scenes of a lamp: the list of their names, and how the
//! list is found.
//!
//! The list is kept in a snapshot file. Only where no snapshot can be read
//! is the lamp asked, and its answer written to the snapshot. Reading,
//! asking and writing are the caller's work: a `SceneCatalog` says which of
//! them comes next.

use crate::common::{joined, GetSig, Lamp};
use crate::json::{names_of_text, parse_names};
use crate::nanoleaf::Nanoleaf;
use vstd::prelude::*;

verus! {

/// The names of the scenes that a lamp knows.
#[derive(Debug)]
pub struct SceneList {
    pub names: Vec<String>,
}

/// Why no list of scenes was found.
#[derive(Clone, Copy, Debug, PartialEq, Eq, Structural)]
pub enum SceneError {
    /// The lamp's answer is no list of names.
    BadReply,
    /// There is no snapshot, and no lamp to ask.
    NoLight,
    /// Something was reported that the catalog had not asked for.
    OutOfTurn,
}

impl View for SceneList {
    type V = Seq<Seq<char>>;

    open spec fn view(&self) -> Seq<Seq<char>> {
        self.names.deep_view()
    }
}

impl SceneList {
    /// A list without names.
    pub fn new() -> (list: SceneList)
        ensures
            list@ == Seq::<Seq<char>>::empty(),
    {
        let names = Vec::new();
        SceneList { names }
    }

    /// The list that a lamp's answer to `GetSig::Scene` holds.
    pub fn from_scene(reply: &str) -> (list: Result<SceneList, SceneError>)
        ensures
            match names_of_text(reply@) {
                Some(names) => list matches Ok(found) && found@ == names,
                None => list matches Err(SceneError::BadReply),
            },
    {
        match parse_names(reply) {
            Ok(names) => Ok(SceneList { names }),
            Err(_) => Err(SceneError::BadReply),
        }
    }
}

/// A lamp that keeps scenes and tells their names.
pub trait Scene: Lamp {
    /// The address of the GET request that reads the list of scenes from
    /// the API; the answer is read by `SceneList::from_scene`.
    fn get_scenes(&self) -> (url: String)
        ensures
            url@ == joined(self.addr_spec(), "effects/effectsList"@),
    {
        let signal = GetSig::Scene;
        self.get(signal)
    }
}

impl Scene for Nanoleaf {
}

/// Where a search for the list of scenes stands.
#[derive(Clone, Copy, Debug, PartialEq, Eq, Structural)]
pub enum CatalogState {
    /// Nothing was done yet.
    Start,
    /// The snapshot is being read.
    AwaitSnapshot,
    /// The lamp was asked.
    AwaitReply,
    /// The snapshot is being written.
    AwaitWrite,
    /// The search is over.
    Done,
}

/// What the caller reports to the catalog.
#[derive(Clone, Debug)]
pub enum CatalogEvent {
    /// The search begins.
    Begin,
    /// The snapshot was read: it held this list, or could not be read.
    Snapshot(Option<SceneList>),
    /// The lamp gave this answer.
    Reply(String),
    /// The snapshot was written.
    Written,
}

/// What the catalog asks the caller to do next.
#[derive(Clone, Debug)]
pub enum CatalogAction {
    /// Read the snapshot, and report what it held.
    ReadSnapshot,
    /// Ask the lamp with a GET request to this address, and report its
    /// answer.
    Query(String),
    /// Write this list to the snapshot, and report when that is done.
    WriteSnapshot(SceneList),
    /// The search is over: this is the list.
    Finish(SceneList),
    /// The search is over: there is no list.
    Fail(SceneError),
}

/// The view of a `CatalogEvent`.
pub enum EventView {
    Begin,
    Snapshot(Option<Seq<Seq<char>>>),
    Reply(Seq<char>),
    Written,
}

/// The view of a `CatalogAction`.
pub enum ActionView {
    ReadSnapshot,
    Query(Seq<char>),
    WriteSnapshot(Seq<Seq<char>>),
    Finish(Seq<Seq<char>>),
    Fail(SceneError),
}

/// The view of a `SceneCatalog`.
pub struct CatalogView {
    /// Where the search stands.
    pub state: CatalogState,
    /// The address at which the lamp answers, where there is a lamp.
    pub url: Option<Seq<char>>,
    /// The list that the lamp gave, while it is being written.
    pub found: Seq<Seq<char>>,
}

impl View for CatalogEvent {
    type V = EventView;

    open spec fn view(&self) -> EventView {
        match *self {
            CatalogEvent::Begin => EventView::Begin,
            CatalogEvent::Snapshot(Some(list)) => EventView::Snapshot(Some(list@)),
            CatalogEvent::Snapshot(None) => EventView::Snapshot(None),
            CatalogEvent::Reply(text) => EventView::Reply(text@),
            CatalogEvent::Written => EventView::Written,
        }
    }
}

impl View for CatalogAction {
    type V = ActionView;

    open spec fn view(&self) -> ActionView {
        match *self {
            CatalogAction::ReadSnapshot => ActionView::ReadSnapshot,
            CatalogAction::Query(url) => ActionView::Query(url@),
            CatalogAction::WriteSnapshot(list) => ActionView::WriteSnapshot(list@),
            CatalogAction::Finish(list) => ActionView::Finish(list@),
            CatalogAction::Fail(e) => ActionView::Fail(e),
        }
    }
}

/// The catalog after an event that ends the search.
pub open spec fn ended(catalog: CatalogView) -> CatalogView {
    CatalogView { state: CatalogState::Done, url: catalog.url, found: catalog.found }
}

/// The catalog in another state.
pub open spec fn moved(catalog: CatalogView, state: CatalogState) -> CatalogView {
    CatalogView { state, url: catalog.url, found: catalog.found }
}

/// What the catalog does on an event: the state it goes to, and what it
/// asks for.
///
/// A snapshot that could be read ends the search with its list. Without
/// one the lamp is asked, if there is a lamp; its answer is written to the
/// snapshot, and once that is done the search ends with the answer's list.
pub open spec fn step_spec(catalog: CatalogView, event: EventView) -> (CatalogView, ActionView) {
    match (catalog.state, event) {
        (CatalogState::Start, EventView::Begin) => (
            moved(catalog, CatalogState::AwaitSnapshot),
            ActionView::ReadSnapshot,
        ),
        (CatalogState::AwaitSnapshot, EventView::Snapshot(Some(names))) => (
            ended(catalog),
            ActionView::Finish(names),
        ),
        (CatalogState::AwaitSnapshot, EventView::Snapshot(None)) => match catalog.url {
            Some(url) => (moved(catalog, CatalogState::AwaitReply), ActionView::Query(url)),
            None => (ended(catalog), ActionView::Fail(SceneError::NoLight)),
        },
        (CatalogState::AwaitReply, EventView::Reply(text)) => match names_of_text(text) {
            Some(names) => (
                CatalogView { state: CatalogState::AwaitWrite, url: catalog.url, found: names },
                ActionView::WriteSnapshot(names),
            ),
            None => (ended(catalog), ActionView::Fail(SceneError::BadReply)),
        },
        (CatalogState::AwaitWrite, EventView::Written) => (
            ended(catalog),
            ActionView::Finish(catalog.found),
        ),
        _ => (ended(catalog), ActionView::Fail(SceneError::OutOfTurn)),
    }
}

/// What the catalog asks for, in order, when the events are reported to it
/// one after the other.
pub open spec fn run(catalog: CatalogView, events: Seq<EventView>) -> Seq<ActionView>
    decreases events.len(),
{
    if events.len() == 0 {
        Seq::empty()
    } else {
        seq![step_spec(catalog, events[0]).1] + run(
            step_spec(catalog, events[0]).0,
            events.drop_first(),
        )
    }
}

/// The catalog at the start of a search, for a lamp that answers at `url`.
pub open spec fn start(url: Option<Seq<char>>) -> CatalogView {
    CatalogView { state: CatalogState::Start, url, found: Seq::empty() }
}

/// A search for the list of scenes.
#[derive(Clone, Debug)]
pub struct SceneCatalog {
    state: CatalogState,
    url: Option<String>,
    found: SceneList,
}

impl View for SceneCatalog {
    type V = CatalogView;

    closed spec fn view(&self) -> CatalogView {
        CatalogView {
            state: self.state,
            url: match self.url {
                Some(url) => Some(url@),
                None => None,
            },
            found: self.found@,
        }
    }
}

impl SceneCatalog {
    /// A search that asks `light`, where one is given, if there is no
    /// snapshot.
    pub fn new<S: Scene>(light: Option<&S>) -> (catalog: SceneCatalog)
        ensures
            catalog@ == start(
                match light {
                    Some(lamp) => Some(joined(lamp.addr_spec(), "effects/effectsList"@)),
                    None => None,
                },
            ),
    {
        let url = match light {
            Some(lamp) => Some(lamp.get_scenes()),
            None => None,
        };
        SceneCatalog { state: CatalogState::Start, url, found: SceneList::new() }
    }

    /// Takes an event, and says what to do next.
    pub fn step(&mut self, event: CatalogEvent) -> (action: CatalogAction)
        ensures
            (final(self)@, action@) == step_spec(old(self)@, event@),
    {
        let state = self.state;
        self.state = CatalogState::Done;
        match (state, event) {
            (CatalogState::Start, CatalogEvent::Begin) => {
                self.state = CatalogState::AwaitSnapshot;
                CatalogAction::ReadSnapshot
            },
            (CatalogState::AwaitSnapshot, CatalogEvent::Snapshot(Some(list))) => {
                CatalogAction::Finish(list)
            },
            (CatalogState::AwaitSnapshot, CatalogEvent::Snapshot(None)) => {
                match &self.url {
                    Some(url) => {
                        let url = url.clone();
                        self.state = CatalogState::AwaitReply;
                        CatalogAction::Query(url)
                    },
                    None => CatalogAction::Fail(SceneError::NoLight),
                }
            },
            (CatalogState::AwaitReply, CatalogEvent::Reply(text)) => {
                match SceneList::from_scene(text.as_str()) {
                    Ok(list) => {
                        let copy = list.clone();
                        self.found = list;
                        self.state = CatalogState::AwaitWrite;
                        CatalogAction::WriteSnapshot(copy)
                    },
                    Err(e) => CatalogAction::Fail(e),
                }
            },
            (CatalogState::AwaitWrite, CatalogEvent::Written) => {
                CatalogAction::Finish(self.found.clone())
            },
            _ => CatalogAction::Fail(SceneError::OutOfTurn),
        }
    }
}

impl Clone for SceneList {
    fn clone(&self) -> (copy: SceneList)
        ensures
            copy@ == self@,
    {
        let mut names: Vec<String> = Vec::new();
        let mut i: usize = 0;
        while i < self.names.len()
            invariant
                i <= self.names.len(),
                names.len() == i,
                forall|k: int| 0 <= k < i ==> names[k]@ == self.names[k]@,
            decreases self.names.len() - i,
        {
            names.push(self.names[i].clone());
            i = i + 1;
        }
        let copy = SceneList { names };
        assert(copy@ =~= self@);
        copy
    }
}

/// With a snapshot that can be read, the search reads it and ends with
/// its list: the lamp is not asked and nothing is written, so every search
/// on the same snapshot gives the same list.
pub proof fn lemma_snapshot_found(url: Option<Seq<char>>, names: Seq<Seq<char>>)
    ensures
        run(start(url), seq![EventView::Begin, EventView::Snapshot(Some(names))]) == seq![
            ActionView::ReadSnapshot,
            ActionView::Finish(names),
        ],
{
    let events = seq![EventView::Begin, EventView::Snapshot(Some(names))];
    let after = step_spec(start(url), events[0]).0;
    assert(events.drop_first() =~= seq![EventView::Snapshot(Some(names))]);
    assert(events.drop_first().drop_first() =~= Seq::<EventView>::empty());
    let done = step_spec(after, EventView::Snapshot(Some(names))).0;
    assert(run(done, events.drop_first().drop_first()) =~= Seq::<ActionView>::empty());
    assert(run(after, events.drop_first()) =~= seq![ActionView::Finish(names)]);
    assert(run(start(url), events) =~= seq![
        ActionView::ReadSnapshot,
        ActionView::Finish(names),
    ]);
}

/// Without a snapshot that can be read, the search asks the lamp once,
/// then writes the list that the lamp gave once, then ends with that list.
pub proof fn lemma_snapshot_missing(url: Seq<char>, reply: Seq<char>)
    ensures
        names_of_text(reply) matches Some(names) ==> run(
            start(Some(url)),
            seq![
                EventView::Begin,
                EventView::Snapshot(None),
                EventView::Reply(reply),
                EventView::Written,
            ],
        ) == seq![
            ActionView::ReadSnapshot,
            ActionView::Query(url),
            ActionView::WriteSnapshot(names),
            ActionView::Finish(names),
        ],
        names_of_text(reply) is None ==> run(
            start(Some(url)),
            seq![EventView::Begin, EventView::Snapshot(None), EventView::Reply(reply)],
        ) == seq![
            ActionView::ReadSnapshot,
            ActionView::Query(url),
            ActionView::Fail(SceneError::BadReply),
        ],
{
    let c0 = start(Some(url));
    if let Some(names) = names_of_text(reply) {
        let e0 = seq![
            EventView::Begin,
            EventView::Snapshot(None),
            EventView::Reply(reply),
            EventView::Written,
        ];
        let e1 = e0.drop_first();
        let e2 = e1.drop_first();
        let e3 = e2.drop_first();
        let e4 = e3.drop_first();
        assert(e1 =~= seq![
            EventView::Snapshot(None),
            EventView::Reply(reply),
            EventView::Written,
        ]);
        assert(e2 =~= seq![EventView::Reply(reply), EventView::Written]);
        assert(e3 =~= seq![EventView::Written]);
        assert(e4 =~= Seq::<EventView>::empty());
        let c1 = step_spec(c0, e0[0]).0;
        let c2 = step_spec(c1, e1[0]).0;
        let c3 = step_spec(c2, e2[0]).0;
        let c4 = step_spec(c3, e3[0]).0;
        assert(run(c4, e4) =~= Seq::<ActionView>::empty());
        assert(run(c3, e3) =~= seq![ActionView::Finish(names)]);
        assert(run(c2, e2) =~= seq![
            ActionView::WriteSnapshot(names),
            ActionView::Finish(names),
        ]);
        assert(run(c1, e1) =~= seq![
            ActionView::Query(url),
            ActionView::WriteSnapshot(names),
            ActionView::Finish(names),
        ]);
        assert(run(c0, e0) =~= seq![
            ActionView::ReadSnapshot,
            ActionView::Query(url),
            ActionView::WriteSnapshot(names),
            ActionView::Finish(names),
        ]);
    } else {
        let e0 = seq![EventView::Begin, EventView::Snapshot(None), EventView::Reply(reply)];
        let e1 = e0.drop_first();
        let e2 = e1.drop_first();
        let e3 = e2.drop_first();
        assert(e1 =~= seq![EventView::Snapshot(None), EventView::Reply(reply)]);
        assert(e2 =~= seq![EventView::Reply(reply)]);
        assert(e3 =~= Seq::<EventView>::empty());
        let c1 = step_spec(c0, e0[0]).0;
        let c2 = step_spec(c1, e1[0]).0;
        let c3 = step_spec(c2, e2[0]).0;
        assert(run(c3, e3) =~= Seq::<ActionView>::empty());
        assert(run(c2, e2) =~= seq![ActionView::Fail(SceneError::BadReply)]);
        assert(run(c1, e1) =~= seq![
            ActionView::Query(url),
            ActionView::Fail(SceneError::BadReply),
        ]);
        assert(run(c0, e0) =~= seq![
            ActionView::ReadSnapshot,
            ActionView::Query(url),
            ActionView::Fail(SceneError::BadReply),
        ]);
    }
}

} // verus!
