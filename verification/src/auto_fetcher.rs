//! The automatic fetcher: once in a major interval every subscribed source
//! is put on a queue with a projection of how soon it updates again; workers
//! take one source off the queue in every minor interval and fetch it with a
//! probability that the projection gives.

use std::collections::VecDeque;
use vstd::prelude::*;
use vstd::utf8::encode_utf8;

use crate::clock::{
    date_day_number, parse_date_day, parse_rfc3339, rfc3339_time, Timestamp, SECS_PER_DAY,
};
use crate::data::encoding::decoded_items;
use crate::data::models::views;
use crate::data::sources::{item_uri_of, SourceMetaItemView};
use crate::data::table::picked;
use crate::data::{Data, DataError, DataView};
use crate::random::random_u64;
use crate::text::copy_str;
use crate::uri::{canonicalize_uri, is_valid_uri, join_scheme_and_path, parse_url, url_parts};

verus! {

/// Delay between the starts of two workers, in seconds.
pub const PHASE_OFFSET_TIME: u64 = 3;

/// Seconds in a week.
pub const SECS_PER_WEEK: i64 = 604_800;

/// Seconds in a hundred weeks.
pub const SECS_PER_100_WEEKS: i64 = 60_480_000;

/// The greatest weight.
pub const MAX_WEIGHT: u16 = 0xffff;

/// What probabilities are counted in: a probability of one.
pub const PROBABILITY_ONE: u64 = 45_874_500;

/// The least probability with which a source that updated within a week is
/// fetched: 0.4.
pub const DAY_FLOOR: u64 = 18_349_800;

/// The least probability with which any source is fetched: 0.07.
pub const WEEK_FLOOR: u64 = 3_211_215;

/// How much a weight of one takes off a probability: one in `65535 * 7`.
pub const WEIGHT_STEP: u64 = 100;

/// Number of values of a random fraction: two to the power of 53.
pub const FRACTION_STEPS: u64 = 0x20_0000_0000_0000;

/// Contains a weight for when a source last updated to predict when it will next update.
/// The number ranges from 0 to 65535 where 0 is least and 65535 most recent.
/// The enum variants indicate order of magnitude.
#[derive(Debug, Clone, Copy, PartialEq, Eq, Structural)]
pub enum UpdateProjection {
    Week(u16),
    Day(u16),
    Hour(u16),
}

/// The projection of a source of which no date is known.
pub open spec fn default_projection() -> UpdateProjection {
    UpdateProjection::Day(MAX_WEIGHT)
}

/// The probability with which a source is fetched, in units of one in
/// `PROBABILITY_ONE`: one for a source that updated within a day; for one
/// that updated within a week, one less the weight over `65535 * 7`, but 0.4
/// at least; for an older one, 0.4 less the weight over `65535 * 7`, but 0.07
/// at least.
pub open spec fn probability(up: UpdateProjection) -> int {
    match up {
        UpdateProjection::Hour(_) => PROBABILITY_ONE as int,
        UpdateProjection::Day(k) => if PROBABILITY_ONE - WEIGHT_STEP * k > DAY_FLOOR {
            PROBABILITY_ONE - WEIGHT_STEP * k
        } else {
            DAY_FLOOR as int
        },
        UpdateProjection::Week(k) => if DAY_FLOOR - WEIGHT_STEP * k > WEEK_FLOOR {
            DAY_FLOOR - WEIGHT_STEP * k
        } else {
            WEEK_FLOOR as int
        },
    }
}

/// The weight of a source that updated `elapsed` units of time ago, on a
/// scale on which `span` units take the weight from 65536 down to nothing:
/// `65536 * (1 - elapsed / span)`, without its fraction and within the
/// range of weights.
pub open spec fn freshness_weight(elapsed: int, span: int) -> u16 {
    let w = 65536 * (span - elapsed) / span;
    if w < 0 {
        0
    } else if w > MAX_WEIGHT {
        MAX_WEIGHT
    } else {
        w as u16
    }
}

/// Whether a draw falls below a probability: the draw stands for the
/// fraction that its upper 53 bits are of two to the power of 53.
pub open spec fn draw_is_below(draw: u64, up: UpdateProjection) -> bool {
    (draw / 2048) * PROBABILITY_ONE < probability(up) * FRACTION_STEPS
}

impl UpdateProjection {
    /// The projection of a source of which no date is known.
    pub fn default() -> (up: UpdateProjection)
        ensures
            up == default_projection(),
    {
        UpdateProjection::Day(MAX_WEIGHT)
    }

    /// The probability with which a source of this projection is fetched,
    /// in units of one in `PROBABILITY_ONE`.
    pub fn update_probability(&self) -> (p: u64)
        ensures
            p == probability(*self),
            WEEK_FLOOR <= p <= PROBABILITY_ONE,
    {
        match self {
            UpdateProjection::Hour(_) => PROBABILITY_ONE,
            UpdateProjection::Day(k) => {
                let p = PROBABILITY_ONE - WEIGHT_STEP * (*k as u64);
                if p > DAY_FLOOR {
                    p
                } else {
                    DAY_FLOOR
                }
            },
            UpdateProjection::Week(k) => {
                let off = WEIGHT_STEP * (*k as u64);
                if off < DAY_FLOOR && DAY_FLOOR - off > WEEK_FLOOR {
                    DAY_FLOOR - off
                } else {
                    WEEK_FLOOR
                }
            },
        }
    }

    /// Whether a source of this projection is fetched on the draw `draw`: it
    /// is fetched when the draw falls below its probability, and skipped
    /// otherwise.
    pub fn should_fetch(&self, draw: u64) -> (fetch: bool)
        ensures
            fetch == draw_is_below(draw, *self),
    {
        let p = self.update_probability();
        let fraction: u128 = (draw / 2048) as u128;
        assert(fraction * (PROBABILITY_ONE as u128) <= 0x20_0000_0000_0000 * 45_874_500)
            by (nonlinear_arith)
            requires
                fraction < 0x20_0000_0000_0000,
        ;
        assert((p as u128) * (FRACTION_STEPS as u128) <= 45_874_500 * 0x20_0000_0000_0000)
            by (nonlinear_arith)
            requires
                p <= 45_874_500,
        ;
        fraction * (PROBABILITY_ONE as u128) < (p as u128) * (FRACTION_STEPS as u128)
    }
}

/// The weight of a source that updated `elapsed` units of time ago.
pub fn weight_conv(elapsed: i128, span: i64) -> (weight: u16)
    requires
        elapsed >= 0,
        0 < span <= SECS_PER_100_WEEKS,
    ensures
        weight == freshness_weight(elapsed as int, span as int),
{
    if elapsed >= span as i128 {
        assert(65536 * (span - elapsed) / (span as int) <= 0) by (nonlinear_arith)
            requires
                span - elapsed <= 0,
                span > 0,
        ;
        return 0;
    }
    let left: i128 = span as i128 - elapsed;
    let w: i128 = 65536 * left / span as i128;
    assert(0 <= w <= 65536) by (nonlinear_arith)
        requires
            w == 65536 * left / (span as int),
            0 < left <= span,
    ;
    if w > MAX_WEIGHT as i128 {
        MAX_WEIGHT
    } else {
        w as u16
    }
}

/// A date as a script returns it: a day, or a point in time.
#[derive(Debug, Clone, Copy, PartialEq, Eq, Structural)]
pub enum Date {
    /// A day, counted from the first day of the year 1 as day 1.
    Date(i32),
    Time(Timestamp),
}

/// The byte of the letter that separates the date from the time in RFC 3339.
pub const TIME_SEPARATOR: u8 = 0x54;

/// The format of a day: year, month and day of the month.
pub const DATE_FORMAT: &'static str = "%Y-%m-%d";

/// The date that a text names: a point in time in the form of RFC 3339 where
/// the text holds a `T`, and else a day as year, month and day of the month.
pub open spec fn parsed_date(text: Seq<char>) -> Option<Date> {
    if encode_utf8(text).contains(TIME_SEPARATOR) {
        match rfc3339_time(text) {
            Some(t) => Some(Date::Time(t)),
            None => None,
        }
    } else {
        match date_day_number(text, DATE_FORMAT@) {
            Some(d) => Some(Date::Date(d)),
            None => None,
        }
    }
}

/// Parses YYYY-MM-DD and RFC3339 dates.
pub fn parse_date(date: &str) -> (res: Option<Date>)
    ensures
        res == parsed_date(date@),
{
    let bytes = date.as_bytes();
    let mut has_separator = false;
    let mut i: usize = 0;
    while i < bytes.len()
        invariant
            i <= bytes@.len(),
            has_separator == exists|j: int| 0 <= j < i && bytes@[j] == TIME_SEPARATOR,
        decreases bytes@.len() - i,
    {
        if bytes[i] == TIME_SEPARATOR {
            has_separator = true;
        }
        i += 1;
    }
    if has_separator {
        match parse_rfc3339(date) {
            Some(t) => Some(Date::Time(t)),
            None => None,
        }
    } else {
        match parse_date_day(date, DATE_FORMAT) {
            Some(d) => Some(Date::Date(d)),
            None => None,
        }
    }
}

/// The projection of a source whose newest version was last updated at
/// `date`, seen at the time `now`. A source without a date, or with one in
/// the future, gets the default. A point in time less than a day ago gives
/// an hour's projection, one less than a week ago a day's, and an older one
/// a week's, each with the weight of the seconds that passed; a day less
/// than a week ago gives a day's projection and an older one a week's, each
/// with the weight of the days that passed.
pub open spec fn projection(date: Option<Date>, now: Timestamp) -> UpdateProjection {
    match date {
        Some(Date::Time(t)) => {
            let secs = now.whole_secs_since(t);
            if secs < 0 {
                default_projection()
            } else if secs < SECS_PER_DAY {
                UpdateProjection::Hour(freshness_weight(secs, SECS_PER_DAY as int))
            } else if secs < SECS_PER_WEEK {
                UpdateProjection::Day(freshness_weight(secs, SECS_PER_WEEK as int))
            } else {
                UpdateProjection::Week(freshness_weight(secs, SECS_PER_100_WEEKS as int))
            }
        },
        Some(Date::Date(day)) => {
            let days = now.day_number() - day;
            if days < 0 {
                default_projection()
            } else if days < 7 {
                UpdateProjection::Day(freshness_weight(days, 7))
            } else {
                UpdateProjection::Week(freshness_weight(days, 700))
            }
        },
        None => default_projection(),
    }
}

/// The projection of a source whose newest version was last updated at
/// `date`, seen at the time `now`.
pub fn project(date: Option<Date>, now: Timestamp) -> (up: UpdateProjection)
    ensures
        up == projection(date, now),
{
    match date {
        Some(Date::Time(t)) => {
            let secs = now.secs_since(t);
            if secs < 0 {
                UpdateProjection::default()
            } else if secs < SECS_PER_DAY as i128 {
                UpdateProjection::Hour(weight_conv(secs, SECS_PER_DAY))
            } else if secs < SECS_PER_WEEK as i128 {
                UpdateProjection::Day(weight_conv(secs, SECS_PER_WEEK))
            } else {
                UpdateProjection::Week(weight_conv(secs, SECS_PER_100_WEEKS))
            }
        },
        Some(Date::Date(day)) => {
            let days: i128 = now.day() as i128 - day as i128;
            if days < 0 {
                UpdateProjection::default()
            } else if days < 7 {
                UpdateProjection::Day(weight_conv(days, 7))
            } else {
                UpdateProjection::Week(weight_conv(days, 700))
            }
        },
        None => UpdateProjection::default(),
    }
}

/// A source on the queue of the automatic fetcher.
#[derive(Debug)]
pub struct FetcherJob {
    pub up: UpdateProjection,
    pub source: String,
}

/// What a `FetcherJob` holds.
pub struct FetcherJobView {
    pub up: UpdateProjection,
    pub source: Seq<char>,
}

impl View for FetcherJob {
    type V = FetcherJobView;

    open spec fn view(&self) -> FetcherJobView {
        FetcherJobView { up: self.up, source: self.source@ }
    }
}

/// The queue of the automatic fetcher.
pub struct AutoFetcherState {
    pub queue: VecDeque<FetcherJob>,
}

impl DataView {
    /// The date at which the newest version of the source at `uri` that a
    /// user points at was last updated, as text.
    pub open spec fn latest_date_updated(self, uri: Seq<char>) -> Option<Seq<char>> {
        match self.latest_user_source_version(uri) {
            Some(hash) => match self.source_by_hash(hash) {
                Some(v) => v.date_updated,
                None => None,
            },
            None => None,
        }
    }

    /// The projection of the source at `uri` at the time `now`.
    pub open spec fn item_up(self, uri: Seq<char>, now: Timestamp) -> UpdateProjection {
        projection(
            match self.latest_date_updated(uri) {
                Some(text) => parsed_date(text),
                None => None,
            },
            now,
        )
    }

    /// The jobs for the first `n` subscriptions at the time `now`, one for
    /// each.
    pub open spec fn jobs(self, now: Timestamp, n: nat) -> Seq<FetcherJobView>
        decreases n,
    {
        if n == 0 {
            Seq::empty()
        } else {
            let uri = self.user_source_subscriptions[n - 1].uri;
            self.jobs(now, (n - 1) as nat).push(
                FetcherJobView { up: self.item_up(uri, now), source: uri },
            )
        }
    }
}

/// The projection of a source at the time `now`.
pub fn get_item_up(data: &Data, source: &str, now: Timestamp) -> (res: Result<
    UpdateProjection,
    DataError,
>)
    ensures
        res == Ok::<UpdateProjection, DataError>(data@.item_up(source@, now)),
{
    let hash = data.latest_user_source_version(source)?;
    let version = match hash {
        Some(h) => data.source_by_hash(h.as_str())?,
        None => None,
    };
    let date = match &version {
        Some(v) => match v.date_updated() {
            Some(text) => parse_date(text),
            None => None,
        },
        None => None,
    };
    Ok(project(date, now))
}

/// What a worker does about the job that it took off the queue.
#[derive(Debug)]
pub enum JobStep {
    /// The queue was empty.
    Empty,
    /// The source is not fetched this time.
    Skip(FetcherJob),
    /// The source is fetched; the text is its domain.
    Fetch(FetcherJob, String),
}

/// The views of the jobs on a queue.
pub open spec fn queue_view(queue: Seq<FetcherJob>) -> Seq<FetcherJobView> {
    Seq::new(queue.len(), |i: int| queue[i]@)
}

impl AutoFetcherState {
    /// The state with an empty queue.
    pub fn new() -> (state: AutoFetcherState)
        ensures
            state.queue@.len() == 0,
    {
        AutoFetcherState { queue: VecDeque::new() }
    }

    /// Puts every subscribed source on the queue with its projection at the
    /// time `now`, unless the queue holds a job. Returns how many were put on
    /// the queue.
    pub fn maybe_enqueue(&mut self, data: &Data, now: Timestamp) -> (count: usize)
        ensures
            old(self).queue@.len() > 0 ==> count == 0 && final(self).queue@ == old(self).queue@,
            old(self).queue@.len() == 0 ==> queue_view(final(self).queue@) == data@.jobs(
                now,
                data@.user_source_subscriptions.len(),
            ) && count == data@.user_source_subscriptions.len(),
    {
        if self.queue.len() > 0 {
            return 0;
        }
        let mut nq_count: usize = 0;
        let mut i: usize = 0;
        assert(queue_view(self.queue@) =~= data@.jobs(now, 0));
        while i < data.user_source_subscriptions.len()
            invariant
                i <= data.user_source_subscriptions@.len(),
                nq_count == i,
                queue_view(self.queue@) == data@.jobs(now, i as nat),
            decreases data.user_source_subscriptions@.len() - i,
        {
            let source = data.user_source_subscriptions[i].uri.as_str();
            let ghost before = self.queue@;
            match get_item_up(data, source, now) {
                Ok(up) => {
                    self.queue.push_back(FetcherJob { up, source: copy_str(source) });
                    assert(queue_view(self.queue@) =~= queue_view(before).push(
                        FetcherJobView { up: data@.item_up(source@, now), source: source@ },
                    ));
                },
                Err(_) => {},
            }
            nq_count += 1;
            i += 1;
        }
        nq_count
    }

    /// Takes a job off the queue and decides on the draw `draw` whether its
    /// source is fetched: a source whose URI is no URL is never fetched, and
    /// any other is fetched when the draw falls below the probability of its
    /// projection.
    pub fn next_job(&mut self, draw: u64) -> (step: JobStep)
        ensures
            job_taken(old(self).queue@, draw, final(self).queue@, step),
    {
        let item = match self.queue.pop_front() {
            Some(item) => item,
            None => {
                return JobStep::Empty;
            },
        };
        assert(self.queue@ =~= old(self).queue@.skip(1));
        if !item.up.should_fetch(draw) {
            return JobStep::Skip(item);
        }
        match parse_url(item.source.as_str()) {
            Ok(url) => JobStep::Fetch(item, url.scheme),
            Err(_) => JobStep::Skip(item),
        }
    }

    /// Takes a job off the queue and decides on a random draw whether its
    /// source is fetched.
    pub fn fetch_one(&mut self) -> (step: JobStep)
        ensures
            exists|draw: u64| #[trigger]
                job_taken(old(self).queue@, draw, final(self).queue@, step),
    {
        let draw = random_u64();
        let step = self.next_job(draw);
        assert(job_taken(old(self).queue@, draw, self.queue@, step));
        step
    }
}

/// What taking a job off the queue `before` on the draw `draw` comes to: the
/// queue afterwards and the step of the worker. Nothing is taken off an empty
/// queue. The source of the first job is fetched when its URI is a URL and
/// the draw falls below the probability of its projection, and skipped
/// otherwise.
pub open spec fn job_taken(before: Seq<FetcherJob>, draw: u64, after: Seq<FetcherJob>, step: JobStep) ->
    bool {
    if before.len() == 0 {
        step is Empty && after.len() == 0
    } else {
        after == before.skip(1) && match url_parts(before[0].source@) {
            Some(u) if draw_is_below(draw, before[0].up) => step matches JobStep::Fetch(j, domain)
                && j == before[0] && domain@ == u.scheme,
            _ => step matches JobStep::Skip(j) && j == before[0],
        }
    }
}

/// The URIs of the items of a list that have content of their own to fetch,
/// in the domain `domain` and in the order of the list: those of the items
/// that are not virtual. An item that has no URI in the domain stands in the
/// list with the empty text.
pub open spec fn fetchable_item_uris(domain: Seq<char>, items: Seq<SourceMetaItemView>) -> Seq<
    Seq<char>,
> {
    picked(
        items,
        |item: SourceMetaItemView|
            if item.is_virtual {
                None
            } else {
                Some(
                    match item_uri_of(domain, item.path) {
                        Some(uri) => uri,
                        None => Seq::empty(),
                    },
                )
            },
    )
}

/// The URIs of the items of the version `hash` of a source that have content
/// of their own to fetch, or none where the store holds no such version or
/// its item list does not decode.
pub fn items_to_fetch(data: &Data, domain: &str, hash: &str) -> (res: Result<
    Vec<String>,
    DataError,
>)
    ensures
        res matches Ok(uris) && views(uris@) == match data@.source_by_hash(hash@) {
            Some(v) => match decoded_items(v.items) {
                Some(items) => fetchable_item_uris(domain@, items),
                None => Seq::empty(),
            },
            None => Seq::empty(),
        },
{
    let version = match data.source_by_hash(hash)? {
        Some(v) => v,
        None => {
            let uris: Vec<String> = Vec::new();
            assert(views(uris@) =~= Seq::<Seq<char>>::empty());
            return Ok(uris);
        },
    };
    let items = match version.items() {
        Ok(items) => items,
        Err(_) => {
            let uris: Vec<String> = Vec::new();
            assert(views(uris@) =~= Seq::<Seq<char>>::empty());
            return Ok(uris);
        },
    };
    let ghost all = views(items@);
    let ghost pick = |item: SourceMetaItemView|
        if item.is_virtual {
            None
        } else {
            Some(
                match item_uri_of(domain@, item.path) {
                    Some(uri) => uri,
                    None => Seq::empty(),
                },
            )
        };
    let mut uris: Vec<String> = Vec::new();
    let mut i: usize = 0;
    assert(views(uris@) =~= picked(all.take(0), pick));
    while i < items.len()
        invariant
            i <= items@.len(),
            all == views(items@),
            pick == (|item: SourceMetaItemView|
                if item.is_virtual {
                    None
                } else {
                    Some(
                        match item_uri_of(domain@, item.path) {
                            Some(uri) => uri,
                            None => Seq::empty(),
                        },
                    )
                }),
            views(uris@) == picked(all.take(i as int), pick),
        decreases items@.len() - i,
    {
        proof {
            assert(all.take(i + 1).drop_last() =~= all.take(i as int));
            assert(all.take(i + 1).last() == all[i as int]);
        }
        if !items[i].is_virtual {
            let joined = join_scheme_and_path(domain, items[i].path.as_str());
            let item_uri = match canonicalize_uri(joined.as_str()) {
                Ok(u) => u.text,
                Err(_) => String::new(),
            };
            let ghost before = uris@;
            uris.push(item_uri);
            assert(views(uris@) =~= views(before).push(pick(all[i as int])->0));
        }
        i += 1;
    }
    assert(all.take(i as int) =~= all);
    Ok(uris)
}

/// Whether the item at `uri` of the source at `source_uri` is to be fetched:
/// its URI is a URL, and a user who is subscribed to the source points at no
/// version of the item.
pub fn maybe_fetch_one_item(data: &Data, source_uri: &str, uri: &str) -> (res: Result<
    bool,
    DataError,
>)
    ensures
        res == Ok::<bool, DataError>(
            url_parts(uri@) is Some && data@.item_has_versionless_user(source_uri@, uri@),
        ),
{
    if !is_valid_uri(uri) {
        return Ok(false);
    }
    data.source_item_has_versionless_user(source_uri, uri)
}

/// Seconds that the worker with the index `index` waits before its first
/// cycle, so that the workers do not all fetch at once.
pub fn phase_offset(index: u32) -> (secs: u64)
    ensures
        secs == PHASE_OFFSET_TIME * index,
{
    PHASE_OFFSET_TIME * index as u64
}

} // verus!
