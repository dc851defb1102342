//! Discovery: the site identifiers that a listing page names, oldest first,
//! and the walk over them that skips what is stored, routes what lacks its
//! photo to the backfill, and harvests the rest.
//!
//! Pages are fetched elsewhere. A `Walker` says which page is wanted next;
//! whoever drives it fetches the page, builds the record and hands back how
//! that went.

use crate::error::Error;
use crate::filter::{Blacklist, Updatelist};
use crate::inmate::record::{Record, RecordModel, SCOTT_COUNTY_INMATE_TRAVERSAL_ROOT};
use crate::markup::{attribute_values, attributes};
use vstd::prelude::*;

verus! {

/// Selects the links to the records of a listing page.
pub const LISTING_SELECTOR: &'static str = ".inmates-table tr td a[href]";

/// Selects the links to the listings of the last days.
pub const DAY_SELECTOR: &'static str = "li.dayselection a";

/// The attribute that holds the target of a link.
pub const LINK_ATTRIBUTE: &'static str = "href";

/// The values of a list that are present, in order.
pub open spec fn present(values: Seq<Option<Seq<char>>>) -> Seq<Seq<char>>
    decreases values.len(),
{
    if values.len() == 0 {
        Seq::<Seq<char>>::empty()
    } else {
        match values.last() {
            Some(value) => present(values.drop_last()).push(value),
            None => present(values.drop_last()),
        }
    }
}

/// The first two of a list, or all of it if it has fewer.
pub open spec fn first_two(values: Seq<Option<Seq<char>>>) -> Seq<Option<Seq<char>>> {
    if values.len() <= 2 {
        values
    } else {
        values.take(2)
    }
}

/// The address of the listing of one day, given its address relative to the
/// root of the roster.
pub open spec fn day_url(relative: Seq<char>) -> Seq<char> {
    SCOTT_COUNTY_INMATE_TRAVERSAL_ROOT@ + relative
}

/// Keeps the values that are present.
fn keep_present(values: &Vec<Option<String>>, upto: usize) -> (kept: Vec<String>)
    requires
        upto <= values.len(),
    ensures
        kept.deep_view() == present(values.deep_view().take(upto as int)),
{
    let mut kept: Vec<String> = Vec::new();
    let mut i: usize = 0;
    let ghost all = values.deep_view();
    assert(all.take(0) =~= Seq::<Option<Seq<char>>>::empty());
    assert(kept.deep_view() =~= Seq::<Seq<char>>::empty());
    while i < upto
        invariant
            i <= upto <= values.len(),
            all == values.deep_view(),
            kept.deep_view() == present(all.take(i as int)),
        decreases upto - i,
    {
        proof {
            let next = all.take(i + 1);
            assert(next.drop_last() =~= all.take(i as int));
            assert(next.last() == values@[i as int].deep_view());
        }
        let ghost before = kept.deep_view();
        match &values[i] {
            Some(value) => {
                kept.push(value.clone());
                assert(kept.deep_view() =~= before.push(value@));
            },
            None => {},
        }
        i += 1;
    }
    kept
}

/// Turns a list of texts around.
fn reversed(items: &Vec<String>) -> (turned: Vec<String>)
    ensures
        turned.deep_view() == items.deep_view().reverse(),
{
    let mut turned: Vec<String> = Vec::new();
    let mut i: usize = items.len();
    while i > 0
        invariant
            i <= items.len(),
            turned.len() == items.len() - i,
            forall|k: int|
                0 <= k < turned.len() ==> (#[trigger] turned@[k])@ == items@[items.len() - 1 - k]@,
        decreases i,
    {
        i -= 1;
        turned.push(items[i].clone());
    }
    assert(turned.deep_view() =~= items.deep_view().reverse());
    turned
}

/// The site identifiers that a listing page names, in the order of the page,
/// which is newest first. An unusable selector is a `ParseError`.
pub fn inmate_sysids(listing_html: &str) -> (r: Result<Vec<String>, Error>)
    ensures
        match attribute_values(listing_html@, LISTING_SELECTOR@, LINK_ATTRIBUTE@) {
            None => r is Err && r->Err_0 is ParseError,
            Some(links) => r is Ok && r->Ok_0.deep_view() == present(links),
        },
{
    match attributes(listing_html, LISTING_SELECTOR, LINK_ATTRIBUTE) {
        Err(_) => Err(Error::ParseError),
        Ok(links) => Ok(sysids_of_links(&links)),
    }
}

/// The site identifiers among the link targets of a listing page, in the
/// order of the page.
pub fn sysids_of_links(links: &Vec<Option<String>>) -> (sys_ids: Vec<String>)
    ensures
        sys_ids.deep_view() == present(links.deep_view()),
{
    assert(links.deep_view().take(links.len() as int) =~= links.deep_view());
    keep_present(links, links.len())
}

/// The site identifiers that a listing page names, oldest first: the page
/// lists the newest first, so its order is turned around, and records are
/// then met in the order in which they were made. An unusable selector is a
/// `ParseError`.
pub fn inmate_sysids_old_to_new(listing_html: &str) -> (r: Result<Vec<String>, Error>)
    ensures
        match attribute_values(listing_html@, LISTING_SELECTOR@, LINK_ATTRIBUTE@) {
            None => r is Err && r->Err_0 is ParseError,
            Some(links) => r is Ok && r->Ok_0.deep_view() == present(links).reverse(),
        },
{
    match inmate_sysids(listing_html) {
        Err(_) => Err(Error::ParseError),
        Ok(newest_first) => Ok(reversed(&newest_first)),
    }
}

/// The relative addresses of the listings of the last two days, the older
/// day first, as the front page of the roster links them. An unusable
/// selector is a `ParseError`.
pub fn get_relative_listings_urls_for_last_two_days(front_html: &str) -> (r: Result<
    Vec<String>,
    Error,
>)
    ensures
        match attribute_values(front_html@, DAY_SELECTOR@, LINK_ATTRIBUTE@) {
            None => r is Err && r->Err_0 is ParseError,
            Some(links) => r is Ok && r->Ok_0.deep_view() == present(first_two(links)).reverse(),
        },
{
    match attributes(front_html, DAY_SELECTOR, LINK_ATTRIBUTE) {
        Err(_) => Err(Error::ParseError),
        Ok(links) => Ok(last_two_days_of_links(&links)),
    }
}

/// The relative addresses of the listings of the last two days, the older
/// day first, given the targets of the day links of the front page, newest
/// day first.
pub fn last_two_days_of_links(links: &Vec<Option<String>>) -> (urls: Vec<String>)
    ensures
        urls.deep_view() == present(first_two(links.deep_view())).reverse(),
{
    let upto = if links.len() <= 2 {
        links.len()
    } else {
        2
    };
    assert(links.deep_view().take(links.len() as int) =~= links.deep_view());
    let newest_first = keep_present(links, upto);
    reversed(&newest_first)
}

/// The address of the listing of one day.
pub fn listing_url(relative: &str) -> (url: String)
    ensures
        url@ == day_url(relative@),
{
    let mut url = SCOTT_COUNTY_INMATE_TRAVERSAL_ROOT.to_string();
    url.append(relative);
    url
}

/// What is done about a site identifier that a listing names.
#[derive(Debug, Clone, Copy, PartialEq, Eq, Structural)]
pub enum Route {
    /// It is fully stored: its page is not fetched.
    Skip,
    /// It is stored without its photo, in the row of this identity: its
    /// page is fetched for the photo alone.
    Backfill(i32),
    /// It is not stored: its page is fetched and its record persisted.
    Harvest,
}

/// What is done about a site identifier, given the two lists of the filter.
pub open spec fn route_of(
    sys_id: Seq<char>,
    blacklist: Set<Seq<char>>,
    updatelist: Map<Seq<char>, i32>,
) -> Route {
    if blacklist.contains(sys_id) {
        Route::Skip
    } else if updatelist.dom().contains(sys_id) {
        Route::Backfill(updatelist[sys_id])
    } else {
        Route::Harvest
    }
}

/// Decides what is done about a site identifier.
pub fn route(sys_id: &str, blacklist: &Blacklist, updatelist: &Updatelist) -> (r: Route)
    ensures
        r == route_of(sys_id@, blacklist@, updatelist@),
{
    if blacklist.contains(sys_id) {
        Route::Skip
    } else {
        match updatelist.get(sys_id) {
            Some(id) => Route::Backfill(id),
            None => Route::Harvest,
        }
    }
}

/// What a walk is waiting for.
#[derive(Debug, Clone, Copy, PartialEq, Eq, Structural)]
pub enum WalkPhase {
    /// The record of the candidate at the current position.
    Fetching,
    /// The end of the pause between two fetches.
    Pausing,
    /// Nothing: the walk is over.
    Done,
}

/// What is to be done next on a walk.
#[derive(Debug)]
pub enum WalkAction {
    /// Fetch the page of this candidate and build its record.
    Fetch { sys_id: String, route: Route },
    /// Wait for the delay that is kept between two fetches.
    Pause,
    /// Nothing is left to do.
    Done,
}

/// What a `WalkAction` is, with its text as a sequence of characters.
pub ghost enum WalkActionModel {
    Fetch { sys_id: Seq<char>, route: Route },
    Pause,
    Done,
}

impl View for WalkAction {
    type V = WalkActionModel;

    open spec fn view(&self) -> WalkActionModel {
        match self {
            WalkAction::Fetch { sys_id, route } => WalkActionModel::Fetch {
                sys_id: sys_id@,
                route: *route,
            },
            WalkAction::Pause => WalkActionModel::Pause,
            WalkAction::Done => WalkActionModel::Done,
        }
    }
}

/// What happened to the last action of a walk.
#[derive(Debug)]
pub enum WalkEvent {
    /// The page was fetched and the record built, or either failed.
    Fetched(Result<Record, Error>),
    /// The pause is over.
    Paused,
}

/// What a `WalkEvent` is: a fetch that gave a record or none, or the end of
/// a pause.
pub ghost enum WalkEventModel {
    Fetched(Option<RecordModel>),
    Paused,
}

impl View for WalkEvent {
    type V = WalkEventModel;

    open spec fn view(&self) -> WalkEventModel {
        match self {
            WalkEvent::Fetched(Ok(record)) => WalkEventModel::Fetched(Some(record@)),
            WalkEvent::Fetched(Err(_)) => WalkEventModel::Fetched(None),
            WalkEvent::Paused => WalkEventModel::Paused,
        }
    }
}

/// The state of a walk.
pub ghost struct WalkerModel {
    /// The candidates, in the order in which they are met.
    pub sys_ids: Seq<Seq<char>>,
    /// The site identifiers that are skipped.
    pub blacklist: Set<Seq<char>>,
    /// The site identifiers that only lack their photo, with their rows.
    pub updatelist: Map<Seq<char>, i32>,
    /// Whether the walk ends after the first candidate that was tried.
    pub stop_early: bool,
    /// What is awaited.
    pub phase: WalkPhase,
    /// The position of the candidate that is tried, or tried next.
    pub position: nat,
    /// The records to persist, in the order in which they were built.
    pub new_records: Seq<RecordModel>,
    /// The records that bring a photo for a stored row, with that row.
    pub update_records: Seq<(i32, RecordModel)>,
}

/// Goes on with the first candidate from a position on that is not skipped,
/// or ends the walk if there is none.
pub open spec fn seek(m: WalkerModel, from: nat) -> (WalkerModel, WalkActionModel)
    decreases m.sys_ids.len() - from,
{
    if from >= m.sys_ids.len() {
        (WalkerModel { phase: WalkPhase::Done, position: from, ..m }, WalkActionModel::Done)
    } else if m.blacklist.contains(m.sys_ids[from as int]) {
        seek(m, from + 1)
    } else {
        (
            WalkerModel { phase: WalkPhase::Fetching, position: from, ..m },
            WalkActionModel::Fetch {
                sys_id: m.sys_ids[from as int],
                route: route_of(m.sys_ids[from as int], m.blacklist, m.updatelist),
            },
        )
    }
}

/// A walk with the record of the current candidate put where it belongs:
/// with the records that bring a photo, if the candidate only lacks its
/// photo, and with the records to persist otherwise.
pub open spec fn with_record(m: WalkerModel, record: RecordModel) -> WalkerModel {
    if m.position < m.sys_ids.len() && !m.blacklist.contains(m.sys_ids[m.position as int])
        && m.updatelist.dom().contains(m.sys_ids[m.position as int]) {
        WalkerModel {
            update_records: m.update_records.push(
                (m.updatelist[m.sys_ids[m.position as int]], record),
            ),
            ..m
        }
    } else {
        WalkerModel { new_records: m.new_records.push(record), ..m }
    }
}

/// The state in which a walk starts, and its first action.
pub open spec fn start(
    sys_ids: Seq<Seq<char>>,
    blacklist: Set<Seq<char>>,
    updatelist: Map<Seq<char>, i32>,
    stop_early: bool,
) -> (WalkerModel, WalkActionModel) {
    seek(
        WalkerModel {
            sys_ids,
            blacklist,
            updatelist,
            stop_early,
            phase: WalkPhase::Pausing,
            position: 0,
            new_records: Seq::empty(),
            update_records: Seq::empty(),
        },
        0,
    )
}

/// What follows from an event: the next state and the next action.
///
/// A candidate that could not be fetched or built is passed over like one
/// that could: the walk goes on with the next candidate. Where the walk is
/// to stop early, it ends after the first candidate that was tried. An event
/// that was not awaited changes nothing, and the awaited action is asked for
/// again.
pub open spec fn walk_step(m: WalkerModel, event: WalkEventModel) -> (WalkerModel, WalkActionModel) {
    match m.phase {
        WalkPhase::Fetching => match event {
            WalkEventModel::Fetched(outcome) => {
                let kept = match outcome {
                    Some(record) => with_record(m, record),
                    None => m,
                };
                let moved = WalkerModel {
                    position: if m.position < m.sys_ids.len() {
                        m.position + 1
                    } else {
                        m.position
                    },
                    ..kept
                };
                if m.stop_early {
                    (WalkerModel { phase: WalkPhase::Done, ..moved }, WalkActionModel::Done)
                } else {
                    (WalkerModel { phase: WalkPhase::Pausing, ..moved }, WalkActionModel::Pause)
                }
            },
            WalkEventModel::Paused => seek(m, m.position),
        },
        WalkPhase::Pausing => match event {
            WalkEventModel::Paused => seek(m, m.position),
            WalkEventModel::Fetched(_) => (m, WalkActionModel::Pause),
        },
        WalkPhase::Done => (m, WalkActionModel::Done),
    }
}

/// The views of a list of records.
pub open spec fn record_models(records: Seq<Record>) -> Seq<RecordModel> {
    Seq::new(records.len(), |i: int| records[i]@)
}

/// The views of a list of records that each bring a photo for a row.
pub open spec fn update_models(records: Seq<(i32, Record)>) -> Seq<(i32, RecordModel)> {
    Seq::new(records.len(), |i: int| (records[i].0, records[i].1@))
}

/// A walk over the candidates of a listing.
pub struct Walker {
    sys_ids: Vec<String>,
    blacklist: Blacklist,
    updatelist: Updatelist,
    stop_early: bool,
    phase: WalkPhase,
    position: usize,
    new_records: Vec<Record>,
    update_records: Vec<(i32, Record)>,
}

impl View for Walker {
    type V = WalkerModel;

    closed spec fn view(&self) -> WalkerModel {
        WalkerModel {
            sys_ids: self.sys_ids.deep_view(),
            blacklist: self.blacklist@,
            updatelist: self.updatelist@,
            stop_early: self.stop_early,
            phase: self.phase,
            position: self.position as nat,
            new_records: record_models(self.new_records@),
            update_records: update_models(self.update_records@),
        }
    }
}

impl Walker {
    /// Starts a walk over candidates that are given oldest first.
    /// `stop_early` ends the walk after the first candidate that was tried.
    pub fn new(
        sys_ids: Vec<String>,
        blacklist: Blacklist,
        updatelist: Updatelist,
        stop_early: bool,
    ) -> (started: (Walker, WalkAction))
        ensures
            (started.0@, started.1@) == start(
                sys_ids.deep_view(),
                blacklist@,
                updatelist@,
                stop_early,
            ),
    {
        let mut walker = Walker {
            sys_ids,
            blacklist,
            updatelist,
            stop_early,
            phase: WalkPhase::Pausing,
            position: 0,
            new_records: Vec::new(),
            update_records: Vec::new(),
        };
        assert(walker@.new_records =~= Seq::<RecordModel>::empty());
        assert(walker@.update_records =~= Seq::<(i32, RecordModel)>::empty());
        let action = walker.seek(0);
        (walker, action)
    }

    /// Starts a walk over the candidates that a listing page names. A page
    /// that cannot be read for candidates is a `NetworkError`: without
    /// candidates there is no walk.
    pub fn from_listing(
        listing_html: &str,
        blacklist: Blacklist,
        updatelist: Updatelist,
        stop_early: bool,
    ) -> (r: Result<(Walker, WalkAction), Error>)
        ensures
            match attribute_values(listing_html@, LISTING_SELECTOR@, LINK_ATTRIBUTE@) {
                None => r is Err && r->Err_0 is NetworkError,
                Some(links) => r is Ok && (r->Ok_0.0@, r->Ok_0.1@) == start(
                    present(links).reverse(),
                    blacklist@,
                    updatelist@,
                    stop_early,
                ),
            },
    {
        match inmate_sysids_old_to_new(listing_html) {
            Err(_) => Err(Error::NetworkError),
            Ok(sys_ids) => Ok(Walker::new(sys_ids, blacklist, updatelist, stop_early)),
        }
    }

    /// Goes on with the first candidate from a position on that is not
    /// skipped, or ends the walk.
    fn seek(&mut self, from: usize) -> (action: WalkAction)
        ensures
            (final(self)@, action@) == seek(old(self)@, from as nat),
    {
        let mut i: usize = from;
        while i < self.sys_ids.len()
            invariant
                *self == *old(self),
                from <= i,
                seek(self@, from as nat) == seek(self@, i as nat),
            decreases self.sys_ids.len() - i,
        {
            if !self.blacklist.contains(self.sys_ids[i].as_str()) {
                let sys_id = self.sys_ids[i].clone();
                let route = route(sys_id.as_str(), &self.blacklist, &self.updatelist);
                self.phase = WalkPhase::Fetching;
                self.position = i;
                return WalkAction::Fetch { sys_id, route };
            }
            i += 1;
        }
        self.phase = WalkPhase::Done;
        self.position = i;
        WalkAction::Done
    }

    /// Puts the record of the current candidate where it belongs.
    fn keep(&mut self, record: Record)
        ensures
            final(self)@ == with_record(old(self)@, record@),
    {
        let ghost before_new = record_models(self.new_records@);
        let ghost before_update = update_models(self.update_records@);
        let wanted = if self.position < self.sys_ids.len() {
            route(self.sys_ids[self.position].as_str(), &self.blacklist, &self.updatelist)
        } else {
            Route::Harvest
        };
        match wanted {
            Route::Backfill(id) => {
                self.update_records.push((id, record));
                assert(update_models(self.update_records@) =~= before_update.push((id, record@)));
            },
            _ => {
                self.new_records.push(record);
                assert(record_models(self.new_records@) =~= before_new.push(record@));
            },
        }
    }

    /// Takes what happened to the last action and says what is to be done
    /// next.
    pub fn advance(&mut self, event: WalkEvent) -> (action: WalkAction)
        ensures
            (final(self)@, action@) == walk_step(old(self)@, event@),
    {
        match self.phase {
            WalkPhase::Fetching => match event {
                WalkEvent::Fetched(outcome) => {
                    match outcome {
                        Ok(record) => {
                            self.keep(record);
                        },
                        Err(_) => {},
                    }
                    if self.position < self.sys_ids.len() {
                        self.position = self.position + 1;
                    }
                    if self.stop_early {
                        self.phase = WalkPhase::Done;
                        WalkAction::Done
                    } else {
                        self.phase = WalkPhase::Pausing;
                        WalkAction::Pause
                    }
                },
                WalkEvent::Paused => self.seek(self.position),
            },
            WalkPhase::Pausing => match event {
                WalkEvent::Paused => self.seek(self.position),
                WalkEvent::Fetched(_) => WalkAction::Pause,
            },
            WalkPhase::Done => WalkAction::Done,
        }
    }

    /// Whether the walk is over.
    pub fn is_done(&self) -> (done: bool)
        ensures
            done == (self@.phase == WalkPhase::Done),
    {
        match self.phase {
            WalkPhase::Done => true,
            _ => false,
        }
    }

    /// Hands out what the walk gathered: the records to persist, and the
    /// records that bring a photo for a stored row, each with that row.
    pub fn into_records(self) -> (gathered: (Vec<Record>, Vec<(i32, Record)>))
        ensures
            record_models(gathered.0@) == self@.new_records,
            update_models(gathered.1@) == self@.update_records,
    {
        (self.new_records, self.update_records)
    }
}

/// Starts the harvest of every record that a listing page names, oldest
/// first, with nothing skipped. A page that cannot be read for candidates is
/// a `NetworkError`.
pub fn fetch_records(listing_html: &str, stop_early: bool) -> (r: Result<
    (Walker, WalkAction),
    Error,
>)
    ensures
        match attribute_values(listing_html@, LISTING_SELECTOR@, LINK_ATTRIBUTE@) {
            None => r is Err && r->Err_0 is NetworkError,
            Some(links) => r is Ok && (r->Ok_0.0@, r->Ok_0.1@) == start(
                present(links).reverse(),
                Set::<Seq<char>>::empty(),
                Map::<Seq<char>, i32>::empty(),
                stop_early,
            ),
        },
{
    Walker::from_listing(listing_html, Blacklist::new(), Updatelist::new(), stop_early)
}

/// Starts the harvest of the records that a listing page names, oldest
/// first, by the two lists of the filter: what is fully stored is skipped,
/// and what only lacks its photo is fetched for the backfill of its row. A
/// page that cannot be read for candidates is a `NetworkError`.
pub fn fetch_records_filtered(
    listing_html: &str,
    blacklist: Blacklist,
    updatelist: Updatelist,
    stop_early: bool,
) -> (r: Result<(Walker, WalkAction), Error>)
    ensures
        match attribute_values(listing_html@, LISTING_SELECTOR@, LINK_ATTRIBUTE@) {
            None => r is Err && r->Err_0 is NetworkError,
            Some(links) => r is Ok && (r->Ok_0.0@, r->Ok_0.1@) == start(
                present(links).reverse(),
                blacklist@,
                updatelist@,
                stop_early,
            ),
        },
{
    Walker::from_listing(listing_html, blacklist, updatelist, stop_early)
}

/// The candidates from a position on that are not skipped, in order.
pub open spec fn candidates_from(
    sys_ids: Seq<Seq<char>>,
    blacklist: Set<Seq<char>>,
    from: nat,
) -> Seq<Seq<char>>
    decreases sys_ids.len() - from,
{
    if from >= sys_ids.len() {
        Seq::<Seq<char>>::empty()
    } else if blacklist.contains(sys_ids[from as int]) {
        candidates_from(sys_ids, blacklist, from + 1)
    } else {
        seq![sys_ids[from as int]] + candidates_from(sys_ids, blacklist, from + 1)
    }
}

/// The first `n` items of a list, or all of it if it has fewer.
pub open spec fn prefix(items: Seq<Seq<char>>, n: nat) -> Seq<Seq<char>> {
    if n >= items.len() {
        items
    } else {
        items.take(n as int)
    }
}

/// The candidates that a walk asks to fetch, in order, from an action on,
/// when each fetch ends as the list of outcomes says and every pause is
/// kept. The walk is followed until the outcomes run out.
pub open spec fn fetched(
    m: WalkerModel,
    action: WalkActionModel,
    outcomes: Seq<Option<RecordModel>>,
) -> Seq<Seq<char>>
    decreases outcomes.len(),
{
    match action {
        WalkActionModel::Fetch { sys_id, route } => {
            if outcomes.len() == 0 {
                seq![sys_id]
            } else {
                let after = walk_step(m, WalkEventModel::Fetched(outcomes[0]));
                let resumed = if after.1 is Pause {
                    walk_step(after.0, WalkEventModel::Paused)
                } else {
                    after
                };
                seq![sys_id] + fetched(resumed.0, resumed.1, outcomes.drop_first())
            }
        },
        _ => Seq::<Seq<char>>::empty(),
    }
}

/// A walk that does not stop early tries every candidate that is not
/// skipped, in order, however the candidates before it ended: a record that
/// cannot be fetched or built never keeps the walk from the ones after it.
pub proof fn lemma_walk_tries_every_candidate(
    m: WalkerModel,
    from: nat,
    outcomes: Seq<Option<RecordModel>>,
)
    requires
        !m.stop_early,
    ensures
        fetched(seek(m, from).0, seek(m, from).1, outcomes) == prefix(
            candidates_from(m.sys_ids, m.blacklist, from),
            outcomes.len() + 1,
        ),
    decreases outcomes.len(), m.sys_ids.len() - from,
{
    let all = candidates_from(m.sys_ids, m.blacklist, from);
    if from >= m.sys_ids.len() {
    } else if m.blacklist.contains(m.sys_ids[from as int]) {
        lemma_walk_tries_every_candidate(m, from + 1, outcomes);
    } else {
        let sys_id = m.sys_ids[from as int];
        let rest = candidates_from(m.sys_ids, m.blacklist, from + 1);
        assert(all == seq![sys_id] + rest);
        if outcomes.len() == 0 {
            assert(prefix(all, 1) =~= seq![sys_id]);
        } else {
            let trying = seek(m, from).0;
            let after = walk_step(trying, WalkEventModel::Fetched(outcomes[0]));
            assert(after.1 is Pause);
            assert(after.0.position == from + 1);
            let resumed = walk_step(after.0, WalkEventModel::Paused);
            assert(resumed == seek(after.0, from + 1));
            lemma_walk_tries_every_candidate(after.0, from + 1, outcomes.drop_first());
            assert(seq![sys_id] + prefix(rest, outcomes.drop_first().len() + 1) =~= prefix(
                all,
                outcomes.len() + 1,
            ));
        }
    }
}

/// A walk that is to stop early ends after the first candidate that was
/// tried, whether or not its record could be built.
pub proof fn lemma_stop_early_ends_walk(m: WalkerModel, outcome: Option<RecordModel>)
    requires
        m.phase == WalkPhase::Fetching,
        m.stop_early,
    ensures
        walk_step(m, WalkEventModel::Fetched(outcome)).1 == WalkActionModel::Done,
        walk_step(m, WalkEventModel::Fetched(outcome)).0.phase == WalkPhase::Done,
{
}

/// A candidate that is fully stored is never fetched, and one that is
/// fetched is routed by the two lists: to the backfill of its row if it only
/// lacks its photo, and to persisting otherwise.
pub proof fn lemma_fetch_follows_route(m: WalkerModel, from: nat)
    ensures
        match seek(m, from).1 {
            WalkActionModel::Fetch { sys_id, route } => {
                &&& !m.blacklist.contains(sys_id)
                &&& route == route_of(sys_id, m.blacklist, m.updatelist)
                &&& route != Route::Skip
                &&& seek(m, from).0.position < m.sys_ids.len()
                &&& m.sys_ids[seek(m, from).0.position as int] == sys_id
            },
            WalkActionModel::Pause => false,
            WalkActionModel::Done => true,
        },
    decreases m.sys_ids.len() - from,
{
    if from < m.sys_ids.len() && m.blacklist.contains(m.sys_ids[from as int]) {
        lemma_fetch_follows_route(m, from + 1);
    }
}

} // verus!
