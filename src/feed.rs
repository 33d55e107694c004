//! The RSS/Atom weather feed: XML events folded into a weather record.
use vstd::prelude::*;
use quick_xml::events::Event;
use quick_xml::Reader;
use crate::current::{conditions_update, parse_current_conditions};
use crate::forecast::{daily_of, forecast_item, parse_forecast_item, separate_forecasts};
use crate::model::{
    empty_current, period_views, CurrentConditions, CurrentView, HourlyForecast, PeriodView,
    warning_views, WeatherData, WeatherView,
};
use crate::text::{
    chars_of, contains_in, cut, cut_at, occurs, same_text, string_of, trim, trim_text, trimmed,
    Keep,
};

verus! {

#[verifier::external_type_specification]
#[verifier::external_body]
#[verifier::reject_recursive_types(R)]
pub struct ExReader<R>(Reader<R>);

/// One event of an XML document, with names and text as strings.
#[derive(Clone, Debug, PartialEq)]
pub enum XmlEvent {
    Start(String),
    End(String),
    Text(String),
    CData(String),
    Eof,
    Error(String),
    Other,
}

pub enum EventView {
    Start(Seq<char>),
    End(Seq<char>),
    Text(Seq<char>),
    CData(Seq<char>),
    Eof,
    Error(Seq<char>),
    Other,
}

impl View for XmlEvent {
    type V = EventView;

    open spec fn view(&self) -> EventView {
        match self {
            XmlEvent::Start(s) => EventView::Start(s@),
            XmlEvent::End(s) => EventView::End(s@),
            XmlEvent::Text(s) => EventView::Text(s@),
            XmlEvent::CData(s) => EventView::CData(s@),
            XmlEvent::Eof => EventView::Eof,
            XmlEvent::Error(s) => EventView::Error(s@),
            XmlEvent::Other => EventView::Other,
        }
    }
}

pub open spec fn event_views(v: Seq<XmlEvent>) -> Seq<EventView> {
    v.map_values(|e: XmlEvent| e@)
}

/// Where the fold over a feed's events stands.
pub struct FeedState {
    pub element: Seq<char>,
    pub in_entry: bool,
    pub title: Seq<char>,
    pub summary: Seq<char>,
    pub current: CurrentView,
    pub periods: Seq<PeriodView>,
    pub feed_title: Seq<char>,
    pub updated: Seq<char>,
    pub done: bool,
    pub error: Option<Seq<char>>,
}

pub open spec fn feed_start() -> FeedState {
    FeedState {
        element: seq![],
        in_entry: false,
        title: seq![],
        summary: seq![],
        current: empty_current(),
        periods: seq![],
        feed_title: seq![],
        updated: seq![],
        done: false,
        error: None,
    }
}

/// What closing an entry does: the "Current Conditions" entry updates the current
/// conditions, any other titled entry may add a forecast period.
pub open spec fn close_entry(st: FeedState) -> FeedState {
    let st2 = FeedState { in_entry: false, ..st };
    if occurs(st.title, "Current Conditions"@, false) {
        FeedState { current: conditions_update(st.current, st.title, st.summary), ..st2 }
    } else if st.title.len() > 0 {
        match forecast_item(st.title, st.summary) {
            Some(p) => FeedState { periods: st.periods.push(p), ..st2 },
            None => st2,
        }
    } else {
        st2
    }
}

/// Text inside an element: an entry's title or summary, or, outside entries, the feed's own
/// title and update time (the first of each).
pub open spec fn take_text(st: FeedState, t: Seq<char>) -> FeedState {
    let v = trimmed(t, Keep::Visible);
    if v.len() == 0 {
        st
    } else if st.in_entry {
        if st.element == "title"@ {
            FeedState { title: v, ..st }
        } else if st.element == "summary"@ {
            FeedState { summary: v, ..st }
        } else {
            st
        }
    } else if st.element == "title"@ && st.feed_title.len() == 0 {
        FeedState { feed_title: v, ..st }
    } else if st.element == "updated"@ && st.updated.len() == 0 {
        FeedState { updated: v, ..st }
    } else {
        st
    }
}

/// One event more. Nothing changes after the end of the document or an error.
pub open spec fn feed_step(st: FeedState, e: EventView) -> FeedState {
    if st.done {
        st
    } else {
        match e {
            EventView::Start(n) => if n == "entry"@ {
                FeedState { element: n, in_entry: true, title: seq![], summary: seq![], ..st }
            } else {
                FeedState { element: n, ..st }
            },
            EventView::End(n) => if n == "entry"@ && st.in_entry {
                close_entry(st)
            } else {
                st
            },
            EventView::Text(t) => take_text(st, t),
            EventView::CData(t) => if st.in_entry && st.element == "summary"@ {
                FeedState { summary: trimmed(t, Keep::Visible), ..st }
            } else {
                st
            },
            EventView::Eof => FeedState { done: true, ..st },
            EventView::Error(m) => FeedState { done: true, error: Some(m), ..st },
            EventView::Other => st,
        }
    }
}

pub open spec fn feed_scan(evs: Seq<EventView>) -> FeedState
    decreases evs.len(),
{
    if evs.len() == 0 {
        feed_start()
    } else {
        feed_step(feed_scan(evs.drop_last()), evs.last())
    }
}

/// The place a feed is for: its title up to " - ", or Toronto where that is empty.
pub open spec fn location_of(feed_title: Seq<char>) -> Seq<char> {
    let l = trimmed(cut_at(feed_title, " - "@), Keep::Visible);
    if l.len() > 0 {
        l
    } else {
        "Toronto"@
    }
}

/// The weather record that a feed's events describe, or the XML error that stopped it.
pub open spec fn feed_result(evs: Seq<EventView>) -> Result<WeatherView, Seq<char>> {
    let st = feed_scan(evs);
    match st.error {
        Some(m) => Err(m),
        None => Ok(
            WeatherView {
                location: location_of(st.feed_title),
                current: st.current,
                hourly: st.periods,
                daily: daily_of(st.periods),
                warnings: seq![],
                last_updated: st.updated,
            },
        ),
    }
}

struct FeedFold {
    element: String,
    in_entry: bool,
    title: String,
    summary: String,
    current: CurrentConditions,
    periods: Vec<HourlyForecast>,
    feed_title: String,
    updated: String,
    done: bool,
    error: Option<String>,
}

impl View for FeedFold {
    type V = FeedState;

    closed spec fn view(&self) -> FeedState {
        FeedState {
            element: self.element@,
            in_entry: self.in_entry,
            title: self.title@,
            summary: self.summary@,
            current: self.current@,
            periods: period_views(self.periods@),
            feed_title: self.feed_title@,
            updated: self.updated@,
            done: self.done,
            error: match self.error {
                Some(m) => Some(m@),
                None => None,
            },
        }
    }
}

impl FeedFold {
    fn new() -> (r: FeedFold)
        ensures
            r@ == feed_start(),
    {
        let r = FeedFold {
            element: String::new(),
            in_entry: false,
            title: String::new(),
            summary: String::new(),
            current: CurrentConditions::empty(),
            periods: Vec::new(),
            feed_title: String::new(),
            updated: String::new(),
            done: false,
            error: None,
        };
        assert(period_views(r.periods@) =~= seq![]);
        r
    }

    fn close_entry(&mut self)
        ensures
            final(self)@ == close_entry(old(self)@),
    {
        self.in_entry = false;
        let t = chars_of(self.title.as_str());
        if contains_in(&t, "Current Conditions", false) {
            parse_current_conditions(self.title.as_str(), self.summary.as_str(), &mut self.current);
        } else if !self.title.as_str().is_empty() {
            if let Some(p) = parse_forecast_item(self.title.as_str(), self.summary.as_str()) {
                let ghost before = period_views(self.periods@);
                self.periods.push(p);
                assert(period_views(self.periods@) =~= before.push(p@));
            }
        }
    }

    fn take_text(&mut self, t: &String)
        ensures
            final(self)@ == take_text(old(self)@, t@),
    {
        let v = trim_text(t.as_str());
        if v.as_str().is_empty() {
            return ;
        }
        if self.in_entry {
            if same_text(self.element.as_str(), "title") {
                self.title = v;
            } else if same_text(self.element.as_str(), "summary") {
                self.summary = v;
            }
        } else if same_text(self.element.as_str(), "title") && self.feed_title.as_str().is_empty() {
            self.feed_title = v;
        } else if same_text(self.element.as_str(), "updated") && self.updated.as_str().is_empty() {
            self.updated = v;
        }
    }

    fn step(&mut self, e: &XmlEvent)
        ensures
            final(self)@ == feed_step(old(self)@, e@),
    {
        if self.done {
            return ;
        }
        match e {
            XmlEvent::Start(n) => {
                if same_text(n.as_str(), "entry") {
                    self.in_entry = true;
                    self.title = String::new();
                    self.summary = String::new();
                }
                self.element = n.clone();
            },
            XmlEvent::End(n) => {
                if same_text(n.as_str(), "entry") && self.in_entry {
                    self.close_entry();
                }
            },
            XmlEvent::Text(t) => self.take_text(t),
            XmlEvent::CData(t) => {
                if self.in_entry && same_text(self.element.as_str(), "summary") {
                    self.summary = trim_text(t.as_str());
                }
            },
            XmlEvent::Eof => {
                self.done = true;
            },
            XmlEvent::Error(m) => {
                self.done = true;
                self.error = Some(m.clone());
            },
            XmlEvent::Other => {},
        }
    }
}

fn location_text(feed_title: &String) -> (r: String)
    ensures
        r@ == location_of(feed_title@),
{
    let l = trim(&cut(&chars_of(feed_title.as_str()), " - "), Keep::Visible);
    if l.len() > 0 {
        string_of(&l)
    } else {
        String::from_str("Toronto")
    }
}

/// Folds a feed's XML events into a weather record: the "Current Conditions" entry gives the
/// current conditions, every other entry a forecast period, and the periods are paired into
/// days. An XML error event gives that error.
pub fn weather_from_events(events: &Vec<XmlEvent>) -> (r: Result<WeatherData, String>)
    ensures
        r matches Ok(d) ==> feed_result(event_views(events@)) == Ok::<WeatherView, Seq<char>>(d@),
        r matches Err(m) ==> feed_result(event_views(events@)) == Err::<WeatherView, Seq<char>>(m@),
{
    let ghost evs = event_views(events@);
    let mut st = FeedFold::new();
    let n = events.len();
    let mut i: usize = 0;
    while i < n
        invariant
            n == events@.len(),
            evs == event_views(events@),
            i <= n,
            st@ == feed_scan(evs.take(i as int)),
        decreases n - i,
    {
        assert(evs.take(i + 1).drop_last() =~= evs.take(i as int));
        assert(evs.take(i + 1).last() == events@[i as int]@);
        st.step(&events[i]);
        i = i + 1;
    }
    assert(evs.take(n as int) =~= evs);
    match st.error {
        Some(m) => Err(m),
        None => {
            let location = location_text(&st.feed_title);
            let (hourly, daily) = separate_forecasts(st.periods);
            let warnings: Vec<crate::model::WeatherWarning> = Vec::new();
            assert(warning_views(warnings@) =~= seq![]);
            Ok(
                WeatherData {
                    location,
                    current: st.current,
                    hourly,
                    daily,
                    warnings,
                    last_updated: st.updated,
                },
            )
        },
    }
}

/// Events other than the end and errors never stop the fold nor record an error.
proof fn lemma_scan_open(evs: Seq<EventView>)
    requires
        forall|i: int| 0 <= i < evs.len() ==> !(evs[i] is Eof) && !(evs[i] is Error),
    ensures
        !feed_scan(evs).done,
        feed_scan(evs).error is None,
    decreases evs.len(),
{
    if evs.len() > 0 {
        lemma_scan_open(evs.drop_last());
        assert(!(evs.last() is Eof) && !(evs.last() is Error));
    }
}

/// Once stopped, the fold ignores what follows.
proof fn lemma_scan_stopped(evs: Seq<EventView>, rest: Seq<EventView>)
    requires
        feed_scan(evs).done,
    ensures
        feed_scan(evs + rest) == feed_scan(evs),
    decreases rest.len(),
{
    if rest.len() == 0 {
        assert(evs + rest =~= evs);
    } else {
        lemma_scan_stopped(evs, rest.drop_last());
        assert((evs + rest).drop_last() =~= evs + rest.drop_last());
    }
}

/// An XML error before the end of the document makes the parse fail with that error, whatever
/// follows it, instead of giving a record with what was read so far.
pub proof fn lemma_error_fails(evs: Seq<EventView>, m: Seq<char>, rest: Seq<EventView>)
    requires
        forall|i: int| 0 <= i < evs.len() ==> !(evs[i] is Eof) && !(evs[i] is Error),
    ensures
        feed_result(evs.push(EventView::Error(m)) + rest) == Err::<WeatherView, Seq<char>>(m),
{
    lemma_scan_open(evs);
    let stopped = evs.push(EventView::Error(m));
    assert(stopped.drop_last() =~= evs);
    lemma_scan_stopped(stopped, rest);
}

/// The events that quick_xml reads from a document, with text unescaped.
pub uninterp spec fn xml_events_of(xml: Seq<char>) -> Seq<EventView>;

/// Relies on quick_xml's `Reader::read_event` and `BytesText::unescape`: the next event,
/// names and text as strings, text unescaped (empty where it cannot be).
#[verifier::external_body]
fn next_event(reader: &mut Reader<&[u8]>) -> XmlEvent {
    match reader.read_event() {
        Ok(Event::Start(e)) => XmlEvent::Start(String::from_utf8_lossy(e.name().as_ref()).into_owned()),
        Ok(Event::End(e)) => XmlEvent::End(String::from_utf8_lossy(e.name().as_ref()).into_owned()),
        Ok(Event::Text(e)) => XmlEvent::Text(e.unescape().unwrap_or_default().into_owned()),
        Ok(Event::CData(e)) => XmlEvent::CData(String::from_utf8_lossy(&e).into_owned()),
        Ok(Event::Eof) => XmlEvent::Eof,
        Ok(_) => XmlEvent::Other,
        Err(e) => XmlEvent::Error(format!("XML parse error: {:?}", e)),
    }
}

/// Relies on quick_xml's `Reader::from_str` and `Reader::read_event`: the events of the
/// document up to and including its end or its first error.
#[verifier::external_body]
fn xml_events(xml: &str) -> (r: Vec<XmlEvent>)
    ensures
        event_views(r@) == xml_events_of(xml@),
{
    let mut reader = Reader::from_str(xml);
    let mut out = Vec::new();
    loop {
        let e = next_event(&mut reader);
        let end = matches!(e, XmlEvent::Eof | XmlEvent::Error(_));
        out.push(e);
        if end {
            return out;
        }
    }
}

/// Parses an RSS/Atom weather feed: the record that the document's events describe, or the
/// XML error that stopped the reading.
pub fn parse_rss_xml(xml: &str) -> (r: Result<WeatherData, String>)
    ensures
        r matches Ok(d) ==> feed_result(xml_events_of(xml@)) == Ok::<WeatherView, Seq<char>>(d@),
        r matches Err(m) ==> feed_result(xml_events_of(xml@)) == Err::<WeatherView, Seq<char>>(m@),
{
    let events = xml_events(xml);
    weather_from_events(&events)
}

} // verus!
