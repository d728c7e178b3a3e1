use crate::error::{CliError, PublicError};
use crate::text::{chars_of, decimal, ellipsize, ellipsized, owned, push_decimal, push_str, string_of, terminal_line, terminal_text};
use std::collections::{HashSet, VecDeque};
use vstd::prelude::*;

verus! {

/// Events requested per activity page.
pub const AUDIT_PAGE_LIMIT: u32 = 100;

/// Most events one history load or catch-up may collect.
pub const MAX_ACTIVITY_CATCH_UP_EVENTS: usize = 1000;

/// Most pages one history load or catch-up may read.
pub const MAX_ACTIVITY_PAGES: usize = 100;

/// Rows a live terminal keeps on screen.
pub const LIVE_ACTIVITY_ROWS: usize = 20;

/// Shortest activity poll interval, in nanoseconds (250 ms).
pub const MIN_POLL_INTERVAL_NANOS: u128 = 250000000;

/// Longest activity poll interval, in nanoseconds (5 minutes).
pub const MAX_POLL_INTERVAL_NANOS: u128 = 300000000000;

/// Checks an operator's activity poll interval, in nanoseconds.
pub fn validate_poll_interval(interval_nanos: u128) -> (r: Result<(), PublicError>)
    ensures
        r is Ok <==> MIN_POLL_INTERVAL_NANOS <= interval_nanos <= MAX_POLL_INTERVAL_NANOS,
        r matches Err(e) ==> e.code@ == "validation"@
            && e.message@ == "activity poll interval must be between 250ms and 5m"@,
{
    if !(MIN_POLL_INTERVAL_NANOS <= interval_nanos && interval_nanos <= MAX_POLL_INTERVAL_NANOS) {
        return Err(PublicError::validation(owned("activity poll interval must be between 250ms and 5m")));
    }
    Ok(())
}

/// What the activity logic reads of an audit event: its identifier and
/// when it occurred, in nanoseconds since the Unix epoch.
#[derive(Debug, Clone, Copy)]
pub struct ActivityEvent {
    pub id: u128,
    pub occurred_at: i128,
}

/// One page of the account's activity, newest first, with the cursor of
/// the next page.
#[derive(Debug)]
pub struct ActivityPage {
    pub events: Vec<ActivityEvent>,
    pub next_cursor: Option<u128>,
}

/// The identifiers of a page's events.
pub open spec fn event_ids(events: Seq<ActivityEvent>) -> Seq<u128> {
    events.map_values(|e: ActivityEvent| e.id)
}

/// Why a page cannot be trusted, if it cannot: too many pages, an empty
/// page that claims to continue, or an event seen before (earlier or on
/// this page).
pub open spec fn spec_page_error(page_count: usize, events: Seq<u128>, next_cursor: Option<u128>, seen: Set<u128>) -> Option<Seq<char>> {
    if page_count > MAX_ACTIVITY_PAGES {
        Some("API activity pagination exceeds the 100-page safety limit"@)
    } else if events.len() == 0 && next_cursor is Some {
        Some("API activity pagination returned an empty page with a continuation cursor"@)
    } else if !(events.no_duplicates() && forall|i: int| 0 <= i < events.len() ==> !seen.contains(#[trigger] events[i])) {
        Some("API activity pagination repeated an event ID"@)
    } else {
        None
    }
}

/// Checks one activity page and records its event identifiers as seen.
pub fn validate_activity_page(page: &ActivityPage, page_count: usize, seen_event_ids: &mut HashSet<u128>) -> (r: Result<(), PublicError>)
    ensures
        match spec_page_error(page_count, event_ids(page.events@), page.next_cursor, old(seen_event_ids)@) {
            None => r is Ok && final(seen_event_ids)@ == old(seen_event_ids)@.union(event_ids(page.events@).to_set()),
            Some(m) => r matches Err(e) && e.code@ == "response_json_schema"@ && e.message@ == m,
        },
{
    broadcast use vstd::std_specs::hash::group_hash_axioms;
    if page_count > MAX_ACTIVITY_PAGES {
        return Err(PublicError::response_json_schema(owned("API activity pagination exceeds the 100-page safety limit")));
    }
    if page.events.len() == 0 && page.next_cursor.is_some() {
        return Err(PublicError::response_json_schema(owned("API activity pagination returned an empty page with a continuation cursor")));
    }
    let ghost ids = event_ids(page.events@);
    let ghost seen0 = seen_event_ids@;
    assert(ids.subrange(0, 0).to_set() =~= Set::<u128>::empty());
    assert(seen0.union(Set::<u128>::empty()) =~= seen0);
    let mut i: usize = 0;
    while i < page.events.len()
        invariant
            i <= page.events@.len(),
            ids == event_ids(page.events@),
            page_count <= MAX_ACTIVITY_PAGES,
            seen0 == old(seen_event_ids)@,
            !(page.events@.len() == 0 && page.next_cursor is Some),
            seen_event_ids@ == seen0.union(ids.subrange(0, i as int).to_set()),
            ids.subrange(0, i as int).no_duplicates(),
            forall|j: int| 0 <= j < i ==> !seen0.contains(#[trigger] ids[j]),
        decreases page.events@.len() - i,
    {
        let id = page.events[i].id;
        assert(ids[i as int] == id);
        let ghost before = seen_event_ids@;
        let fresh = seen_event_ids.insert(id);
        if !fresh {
            proof {
                assert(before.contains(id));
                if !seen0.contains(id) {
                    let p = ids.subrange(0, i as int);
                    assert(p.to_set().contains(id));
                    assert(p.contains(id));
                    let j = choose|j: int| 0 <= j < p.len() && p[j] == id;
                    assert(ids[j] == ids[i as int]);
                    assert(!ids.no_duplicates());
                }
            }
            return Err(PublicError::response_json_schema(owned("API activity pagination repeated an event ID")));
        }
        proof {
            let p = ids.subrange(0, i as int);
            let q = ids.subrange(0, i + 1);
            assert(q =~= p.push(id));
            assert(!p.to_set().contains(id));
            assert forall|a: int, b: int| 0 <= a < b < q.len() implies q[a] != q[b] by {
                if b == i {
                    assert(p.contains(p[a]));
                }
            }
            assert forall|x: u128| q.to_set().contains(x) <==> p.to_set().insert(id).contains(x) by {
                if q.contains(x) {
                    let j = choose|j: int| 0 <= j < q.len() && q[j] == x;
                    if j < i {
                        assert(p[j] == x);
                    }
                }
                if p.contains(x) {
                    let j = choose|j: int| 0 <= j < p.len() && p[j] == x;
                    assert(q[j] == x);
                }
                if x == id {
                    assert(q[i as int] == x);
                }
            }
            assert(q.to_set() =~= p.to_set().insert(id));
            assert(seen_event_ids@ =~= seen0.union(q.to_set()));
        }
        i += 1;
    }
    assert(ids.subrange(0, ids.len() as int) =~= ids);
    Ok(())
}

/// Checks a page's continuation cursor: a cursor seen before would make
/// pagination loop.
pub fn checked_next_cursor(next_cursor: Option<u128>, seen_cursors: &mut HashSet<u128>) -> (r: Result<Option<u128>, PublicError>)
    ensures
        match next_cursor {
            None => r matches Ok(None) && final(seen_cursors)@ == old(seen_cursors)@,
            Some(c) => if old(seen_cursors)@.contains(c) {
                r matches Err(e) && e.code@ == "response_json_schema"@
                    && e.message@ == "API activity pagination repeated a cursor"@
                    && final(seen_cursors)@ == old(seen_cursors)@
            } else {
                r matches Ok(Some(n)) && n == c && final(seen_cursors)@ == old(seen_cursors)@.insert(c)
            },
        },
{
    broadcast use vstd::std_specs::hash::group_hash_axioms;
    let c = match next_cursor {
        None => return Ok(None),
        Some(c) => c,
    };
    if !seen_cursors.insert(c) {
        return Err(PublicError::response_json_schema(owned("API activity pagination repeated a cursor")));
    }
    Ok(Some(c))
}

/// How the live activity view reports progress.
#[derive(PartialEq, Eq, Structural, Clone, Copy, Debug)]
pub enum ActivityMode {
    LiveTerminal,
    AppendOnly,
    Jsonl,
}

/// What the renderer asks its terminal to do.
#[derive(Debug)]
pub enum RenderAction {
    Nothing,
    /// Redraw the live region with this frame.
    RenderLive(String),
    /// Write this line to standard error.
    Stderr(String),
    /// Report this warning, with its code, as a JSONL warning record.
    Warning(String, String),
}

/// The live activity view: its mode, the sequence of JSONL records, the
/// newest rows a live terminal shows, and the connection status.
#[derive(Debug)]
pub struct ActivityRenderer {
    pub mode: ActivityMode,
    pub sequence: u64,
    pub recent: VecDeque<String>,
    pub status: String,
}

/// The live frame for `status` and the retained rows on a terminal
/// `width` characters wide: the status made terminal-safe, each row cut to
/// the width.
pub open spec fn spec_frame(status: Seq<char>, rows: Seq<Seq<char>>, width: nat) -> Seq<char> {
    "Following account activity · "@ + terminal_text(status) + " · Ctrl-C to stop\n"@ + if rows.len() == 0 {
        "No activity in the selected history window."@
    } else {
        rows_text(rows, width)
    }
}

/// Each row cut to `width` characters and followed by a newline.
pub open spec fn rows_text(rows: Seq<Seq<char>>, width: nat) -> Seq<char>
    decreases rows.len(),
{
    if rows.len() == 0 {
        Seq::empty()
    } else {
        rows_text(rows.drop_last(), width) + ellipsized(rows.last(), width) + "\n"@
    }
}

/// The status shown while waiting `delay_secs` to retry.
pub open spec fn retry_status(delay_secs: u64) -> Seq<char> {
    "retrying in "@ + decimal(delay_secs as nat) + "s"@
}

impl ActivityRenderer {
    /// The rows kept for a live terminal, oldest first.
    pub open spec fn rows(&self) -> Seq<Seq<char>> {
        self.recent@.map_values(|s: String| s@)
    }

    /// At most a screenful of rows.
    pub open spec fn wf(&self) -> bool {
        self.recent@.len() <= LIVE_ACTIVITY_ROWS
    }

    /// A renderer for JSONL output, for a terminal that can redraw in
    /// place, or for append-only output.
    pub fn new(jsonl: bool, live_terminal: bool) -> (r: Self)
        ensures
            r.wf(),
            r.mode == (if jsonl { ActivityMode::Jsonl } else if live_terminal { ActivityMode::LiveTerminal } else { ActivityMode::AppendOnly }),
            r.sequence == 0,
            r.rows() == Seq::<Seq<char>>::empty(),
            r.status@ == "connected"@,
    {
        let mode = if jsonl {
            ActivityMode::Jsonl
        } else if live_terminal {
            ActivityMode::LiveTerminal
        } else {
            ActivityMode::AppendOnly
        };
        let r = ActivityRenderer { mode, sequence: 0, recent: VecDeque::new(), status: owned("connected") };
        assert(r.rows() =~= Seq::<Seq<char>>::empty());
        r
    }

    /// The sequence number of the next JSONL record; it never wraps.
    pub fn next_sequence(&mut self) -> (s: u64)
        ensures
            s == old(self).sequence,
            final(self).sequence == (if old(self).sequence == u64::MAX { u64::MAX } else { (old(self).sequence + 1) as u64 }),
            final(self).mode == old(self).mode,
            final(self).rows() == old(self).rows(),
            final(self).status@ == old(self).status@,
            final(self).wf() == old(self).wf(),
    {
        let s = self.sequence;
        self.sequence = self.sequence.saturating_add(1);
        s
    }

    /// Keeps `row` as the newest live row, dropping the oldest beyond a
    /// screenful.
    pub fn push_row(&mut self, row: String)
        requires
            old(self).wf(),
        ensures
            final(self).wf(),
            final(self).rows() == (if old(self).rows().len() == LIVE_ACTIVITY_ROWS {
                old(self).rows().drop_first().push(row@)
            } else {
                old(self).rows().push(row@)
            }),
            final(self).mode == old(self).mode,
            final(self).sequence == old(self).sequence,
            final(self).status@ == old(self).status@,
    {
        let ghost before = self.rows();
        if self.recent.len() == LIVE_ACTIVITY_ROWS {
            self.recent.pop_front();
            assert(self.rows() =~= before.drop_first());
        }
        let ghost mid = self.rows();
        self.recent.push_back(row);
        assert(self.rows() =~= mid.push(row@));
    }

    /// The frame a live terminal `width` characters wide shows.
    pub fn render_live(&self, width: usize) -> (frame: String)
        ensures
            frame@ == spec_frame(self.status@, self.rows(), width as nat),
    {
        let mut m = chars_of("Following account activity · ");
        let status = terminal_line(self.status.as_str());
        push_str(&mut m, status.as_str());
        push_str(&mut m, " · Ctrl-C to stop\n");
        if self.recent.len() == 0 {
            push_str(&mut m, "No activity in the selected history window.");
            return string_of(&m);
        }
        let ghost head = m@;
        let mut i: usize = 0;
        while i < self.recent.len()
            invariant
                i <= self.recent@.len(),
                m@ == head + rows_text(self.rows().subrange(0, i as int), width as nat),
            decreases self.recent@.len() - i,
        {
            let row = ellipsize(self.recent[i].as_str(), width);
            push_str(&mut m, row.as_str());
            push_str(&mut m, "\n");
            proof {
                let p = self.rows().subrange(0, i + 1);
                assert(p.drop_last() =~= self.rows().subrange(0, i as int));
                assert(p.last() == self.recent@[i as int]@);
            }
            i += 1;
        }
        assert(self.rows().subrange(0, self.recent@.len() as int) =~= self.rows());
        string_of(&m)
    }

    /// Polling works again: a change of status is shown on a terminal
    /// `width` characters wide.
    pub fn connected(&mut self, width: usize) -> (a: RenderAction)
        ensures
            final(self).status@ == "connected"@,
            final(self).mode == old(self).mode,
            final(self).rows() == old(self).rows(),
            final(self).sequence == old(self).sequence,
            final(self).wf() == old(self).wf(),
            old(self).status@ == "connected"@ ==> a is Nothing,
            old(self).status@ != "connected"@ ==> match old(self).mode {
                ActivityMode::LiveTerminal => a matches RenderAction::RenderLive(f) && f@ == spec_frame("connected"@, old(self).rows(), width as nat),
                ActivityMode::AppendOnly => a matches RenderAction::Stderr(l) && l@ == "Activity polling recovered; following new events"@,
                ActivityMode::Jsonl => a is Nothing,
            },
    {
        if crate::text::str_eq(self.status.as_str(), "connected") {
            return RenderAction::Nothing;
        }
        self.status = owned("connected");
        match self.mode {
            ActivityMode::LiveTerminal => RenderAction::RenderLive(self.render_live(width)),
            ActivityMode::AppendOnly => RenderAction::Stderr(owned("Activity polling recovered; following new events")),
            ActivityMode::Jsonl => RenderAction::Nothing,
        }
    }

    /// A poll failed with `error_code`; attempt `attempt` follows after
    /// `delay_secs` seconds. A live terminal `width` characters wide shows
    /// the new status; append-only output gets a warning line made
    /// terminal-safe; JSONL output gets the warning record.
    pub fn retrying(&mut self, attempt: u32, delay_secs: u64, error_code: &str, width: usize) -> (a: RenderAction)
        ensures
            final(self).status@ == retry_status(delay_secs),
            final(self).mode == old(self).mode,
            final(self).rows() == old(self).rows(),
            final(self).sequence == old(self).sequence,
            final(self).wf() == old(self).wf(),
            ({
                let message = "activity poll failed after "@ + error_code@ + "; retrying in "@ + decimal(delay_secs as nat)
                    + "s (attempt "@ + decimal(attempt as nat) + ")"@;
                match old(self).mode {
                    ActivityMode::LiveTerminal => a matches RenderAction::RenderLive(f) && f@ == spec_frame(retry_status(delay_secs), old(self).rows(), width as nat),
                    ActivityMode::AppendOnly => a matches RenderAction::Stderr(l) && l@ == "warning: "@ + terminal_text(message),
                    ActivityMode::Jsonl => a matches RenderAction::Warning(c, w) && c@ == "activity_retry"@ && w@ == message,
                }
            }),
    {
        let mut status = chars_of("retrying in ");
        push_decimal(&mut status, delay_secs);
        push_str(&mut status, "s");
        self.status = string_of(&status);
        let mut message = chars_of("activity poll failed after ");
        push_str(&mut message, error_code);
        push_str(&mut message, "; retrying in ");
        push_decimal(&mut message, delay_secs);
        push_str(&mut message, "s (attempt ");
        push_decimal(&mut message, attempt as u64);
        push_str(&mut message, ")");
        match self.mode {
            ActivityMode::LiveTerminal => RenderAction::RenderLive(self.render_live(width)),
            ActivityMode::AppendOnly => {
                let mut line = chars_of("warning: ");
                let safe = terminal_line(string_of(&message).as_str());
                push_str(&mut line, safe.as_str());
                RenderAction::Stderr(string_of(&line))
            },
            ActivityMode::Jsonl => RenderAction::Warning(owned("activity_retry"), string_of(&message)),
        }
    }

    /// Following was interrupted: a live terminal's region is finished
    /// (the returned flag) and the command ends with an interruption.
    pub fn interrupted(&mut self) -> (r: (bool, CliError))
        ensures
            r.0 == (old(self).mode == ActivityMode::LiveTerminal),
            r.1.code@ == "interrupted"@,
            r.1.message@ == "activity follow interrupted"@,
            r.1.exit_code == 130,
    {
        (self.mode == ActivityMode::LiveTerminal, CliError::interrupted(owned("activity follow interrupted")))
    }
}


/// Where collecting a page's events stops: at the first event older than
/// a cutoff, or at the event already shown.
#[derive(Debug, Clone, Copy)]
pub enum StopAt {
    OlderThan(i128),
    Event(Option<u128>),
}

/// Whether collection stops at `e`.
pub open spec fn stops_at(stop: StopAt, e: ActivityEvent) -> bool {
    match stop {
        StopAt::OlderThan(cutoff) => e.occurred_at < cutoff,
        StopAt::Event(anchor) => anchor == Some(e.id),
    }
}

/// How many of `events` come before the first where collection stops.
pub open spec fn kept(events: Seq<ActivityEvent>, stop: StopAt) -> int
    decreases events.len(),
{
    if events.len() == 0 {
        0
    } else if stops_at(stop, events[0]) {
        0
    } else {
        1 + kept(events.drop_first(), stop)
    }
}

proof fn lemma_kept_bounds(events: Seq<ActivityEvent>, stop: StopAt)
    ensures
        0 <= kept(events, stop) <= events.len(),
        kept(events, stop) < events.len() ==> stops_at(stop, events[kept(events, stop)]),
    decreases events.len(),
{
    if events.len() > 0 && !stops_at(stop, events[0]) {
        lemma_kept_bounds(events.drop_first(), stop);
        if kept(events, stop) < events.len() {
            assert(events.drop_first()[kept(events.drop_first(), stop)] == events[kept(events, stop)]);
        }
    }
}

/// What to do after a page.
#[derive(Debug)]
pub enum PageStep {
    /// Read the page at this cursor next.
    Next(u128),
    /// Collection is complete.
    Done,
}

/// Collects activity across pages, newest first: the events kept, the
/// newest event's identifier, and what pagination has seen.
#[derive(Debug)]
pub struct ActivityCollector {
    pub events: Vec<ActivityEvent>,
    pub anchor: Option<u128>,
    pub page_count: usize,
    pub seen_event_ids: HashSet<u128>,
    pub seen_cursors: HashSet<u128>,
}

impl ActivityCollector {
    /// Never more events than the safety limit.
    pub open spec fn wf(&self) -> bool {
        self.events@.len() <= MAX_ACTIVITY_CATCH_UP_EVENTS
    }

    /// Nothing collected.
    pub fn new() -> (c: Self)
        ensures
            c.wf(),
            c.events@ == Seq::<ActivityEvent>::empty(),
            c.anchor is None,
            c.page_count == 0,
            c.seen_event_ids@ == Set::<u128>::empty(),
            c.seen_cursors@ == Set::<u128>::empty(),
    {
        ActivityCollector { events: Vec::new(), anchor: None, page_count: 0, seen_event_ids: HashSet::new(), seen_cursors: HashSet::new() }
    }

    /// Takes one page: checks it, keeps its events until `stop` (erring
    /// with `limit_message` past the event limit), and says whether to read
    /// further. The first event seen becomes the anchor.
    #[verifier::loop_isolation(false)]
    fn accept_page(&mut self, page: &ActivityPage, stop: StopAt, limit_message: &str) -> (r: Result<PageStep, PublicError>)
        requires
            old(self).wf(),
        ensures
            final(self).wf(),
            final(self).page_count == (if old(self).page_count == usize::MAX { usize::MAX } else { (old(self).page_count + 1) as usize }),
            match spec_page_error(final(self).page_count, event_ids(page.events@), page.next_cursor, old(self).seen_event_ids@) {
                Some(m) => r matches Err(e) && e.code@ == "response_json_schema"@ && e.message@ == m,
                None => {
                    let k = kept(page.events@, stop);
                    &&& final(self).anchor == (if old(self).anchor is None && page.events@.len() > 0 { Some(page.events@[0].id) } else { old(self).anchor })
                    &&& if old(self).events@.len() + k > MAX_ACTIVITY_CATCH_UP_EVENTS {
                        r matches Err(e) && e.code@ == "validation"@ && e.message@ == limit_message@
                    } else {
                        &&& final(self).events@ == old(self).events@ + page.events@.subrange(0, k)
                        &&& if k < page.events@.len() {
                            r matches Ok(PageStep::Done) && final(self).seen_cursors@ == old(self).seen_cursors@
                        } else {
                            match page.next_cursor {
                                None => r matches Ok(PageStep::Done),
                                Some(c) => if old(self).seen_cursors@.contains(c) {
                                    r matches Err(e) && e.code@ == "response_json_schema"@
                                        && e.message@ == "API activity pagination repeated a cursor"@
                                } else {
                                    r matches Ok(PageStep::Next(n)) && n == c && final(self).seen_cursors@ == old(self).seen_cursors@.insert(c)
                                },
                            }
                        }
                    }
                },
            },
    {
        self.page_count = self.page_count.saturating_add(1);
        validate_activity_page(page, self.page_count, &mut self.seen_event_ids)?;
        if self.anchor.is_none() && page.events.len() > 0 {
            self.anchor = Some(page.events[0].id);
        }
        proof { lemma_kept_bounds(page.events@, stop); }
        let ghost k = kept(page.events@, stop);
        let ghost start = self.events@;
        let mut i: usize = 0;
        while i < page.events.len()
            invariant
                i <= k <= page.events@.len(),
                start == old(self).events@,
                start.len() <= MAX_ACTIVITY_CATCH_UP_EVENTS,
                k == kept(page.events@, stop),
                k < page.events@.len() ==> stops_at(stop, page.events@[k]),
                forall|j: int| 0 <= j < i ==> !stops_at(stop, #[trigger] page.events@[j]),
                self.events@ == start + page.events@.subrange(0, i as int),
                self.events@.len() <= MAX_ACTIVITY_CATCH_UP_EVENTS,
                self.page_count == (if old(self).page_count == usize::MAX { usize::MAX } else { (old(self).page_count + 1) as usize }),
                self.anchor == (if old(self).anchor is None && page.events@.len() > 0 { Some(page.events@[0].id) } else { old(self).anchor }),
                self.seen_cursors@ == old(self).seen_cursors@,
                spec_page_error(self.page_count, event_ids(page.events@), page.next_cursor, old(self).seen_event_ids@) is None,
            decreases page.events@.len() - i,
        {
            let e = page.events[i];
            let stopping = match stop {
                StopAt::OlderThan(cutoff) => e.occurred_at < cutoff,
                StopAt::Event(anchor) => match anchor {
                    Some(a) => a == e.id,
                    None => false,
                },
            };
            if stopping {
                proof { lemma_kept_prefix(page.events@, stop, i as int); }
                return Ok(PageStep::Done);
            }
            proof { lemma_kept_prefix_more(page.events@, stop, i as int); }
            if self.events.len() >= MAX_ACTIVITY_CATCH_UP_EVENTS {
                return Err(PublicError::validation(owned(limit_message)));
            }
            self.events.push(e);
            assert(self.events@ =~= start + page.events@.subrange(0, i + 1));
            i += 1;
        }
        proof { lemma_kept_all(page.events@, stop); }
        match checked_next_cursor(page.next_cursor, &mut self.seen_cursors) {
            Ok(Some(n)) => Ok(PageStep::Next(n)),
            Ok(None) => Ok(PageStep::Done),
            Err(e) => Err(e),
        }
    }

    /// Takes one page of history newer than `cutoff`.
    pub fn accept_history_page(&mut self, page: &ActivityPage, cutoff: i128) -> (r: Result<PageStep, PublicError>)
        requires
            old(self).wf(),
        ensures
            final(self).wf(),
            match spec_page_error(final(self).page_count, event_ids(page.events@), page.next_cursor, old(self).seen_event_ids@) {
                Some(m) => r matches Err(e) && e.code@ == "response_json_schema"@ && e.message@ == m,
                None => {
                    let k = kept(page.events@, StopAt::OlderThan(cutoff));
                    if old(self).events@.len() + k > MAX_ACTIVITY_CATCH_UP_EVENTS {
                        r matches Err(e) && e.code@ == "validation"@
                            && e.message@ == "activity history exceeds the 1000-event safety limit; choose a smaller --since window"@
                    } else {
                        final(self).events@ == old(self).events@ + page.events@.subrange(0, k)
                            && (k < page.events@.len() ==> r matches Ok(PageStep::Done))
                    }
                },
            },
    {
        self.accept_page(page, StopAt::OlderThan(cutoff), "activity history exceeds the 1000-event safety limit; choose a smaller --since window")
    }

    /// Takes one page of activity newer than the event `anchor` already
    /// shown.
    pub fn accept_catch_up_page(&mut self, page: &ActivityPage, anchor: Option<u128>) -> (r: Result<PageStep, PublicError>)
        requires
            old(self).wf(),
        ensures
            final(self).wf(),
            match spec_page_error(final(self).page_count, event_ids(page.events@), page.next_cursor, old(self).seen_event_ids@) {
                Some(m) => r matches Err(e) && e.code@ == "response_json_schema"@ && e.message@ == m,
                None => {
                    let k = kept(page.events@, StopAt::Event(anchor));
                    if old(self).events@.len() + k > MAX_ACTIVITY_CATCH_UP_EVENTS {
                        r matches Err(e) && e.code@ == "validation"@
                            && e.message@ == "new activity exceeds the 1000-event catch-up safety limit; rerun with a shorter polling interval"@
                    } else {
                        final(self).events@ == old(self).events@ + page.events@.subrange(0, k)
                            && (k < page.events@.len() ==> r matches Ok(PageStep::Done))
                    }
                },
            },
    {
        self.accept_page(page, StopAt::Event(anchor), "new activity exceeds the 1000-event catch-up safety limit; rerun with a shorter polling interval")
    }

    /// The collected events oldest first, and the newest event's
    /// identifier.
    pub fn finish(self) -> (r: (Vec<ActivityEvent>, Option<u128>))
        ensures
            r.0@ == self.events@.reverse(),
            r.1 == self.anchor,
    {
        let mut out: Vec<ActivityEvent> = Vec::new();
        let n = self.events.len();
        let mut i: usize = 0;
        while i < n
            invariant
                i <= n == self.events@.len(),
                out@ == self.events@.subrange(n - i, n as int).reverse(),
            decreases n - i,
        {
            out.push(self.events[n - 1 - i]);
            assert(out@ =~= self.events@.subrange(n - (i + 1), n as int).reverse());
            i += 1;
        }
        assert(self.events@.subrange(0, n as int) =~= self.events@);
        (out, self.anchor)
    }
}

proof fn lemma_kept_prefix(events: Seq<ActivityEvent>, stop: StopAt, i: int)
    requires
        0 <= i < events.len(),
        stops_at(stop, events[i]),
        forall|j: int| 0 <= j < i ==> !stops_at(stop, #[trigger] events[j]),
    ensures
        kept(events, stop) == i,
    decreases i,
{
    if i > 0 {
        assert(!stops_at(stop, events[0]));
        assert forall|j: int| 0 <= j < i - 1 implies !stops_at(stop, #[trigger] events.drop_first()[j]) by {
            assert(events.drop_first()[j] == events[j + 1]);
        }
        lemma_kept_prefix(events.drop_first(), stop, i - 1);
    }
}

proof fn lemma_kept_prefix_more(events: Seq<ActivityEvent>, stop: StopAt, i: int)
    requires
        0 <= i < events.len(),
        !stops_at(stop, events[i]),
        forall|j: int| 0 <= j < i ==> !stops_at(stop, #[trigger] events[j]),
    ensures
        kept(events, stop) > i,
    decreases i,
{
    lemma_kept_bounds(events.drop_first(), stop);
    if i > 0 {
        assert(!stops_at(stop, events[0]));
        assert forall|j: int| 0 <= j < i - 1 implies !stops_at(stop, #[trigger] events.drop_first()[j]) by {
            assert(events.drop_first()[j] == events[j + 1]);
        }
        lemma_kept_prefix_more(events.drop_first(), stop, i - 1);
    }
}

proof fn lemma_kept_all(events: Seq<ActivityEvent>, stop: StopAt)
    requires
        forall|j: int| 0 <= j < events.len() ==> !stops_at(stop, #[trigger] events[j]),
    ensures
        kept(events, stop) == events.len(),
    decreases events.len(),
{
    if events.len() > 0 {
        assert(!stops_at(stop, events[0]));
        assert forall|j: int| 0 <= j < events.drop_first().len() implies !stops_at(stop, #[trigger] events.drop_first()[j]) by {
            assert(events.drop_first()[j] == events[j + 1]);
        }
        lemma_kept_all(events.drop_first(), stop);
    }
}

/// What an activity row shows of an audit event: when it occurred (in
/// nanoseconds since the Unix epoch), who acted, what was done, and to
/// which entity.
#[derive(Debug)]
pub struct AuditEventRow {
    pub occurred_at_nanos: i64,
    pub actor_user_name: Option<String>,
    pub actor_user_id: Option<u128>,
    pub actor_type: String,
    pub action: String,
    pub entity_type: String,
    pub entity_id: u128,
}

/// Result of `chrono::DateTime::<Utc>::from_timestamp_nanos(nanos)
/// .to_rfc3339()`: the instant in RFC 3339 form, in UTC.
pub uninterp spec fn rfc3339_utc(nanos: i64) -> Seq<char>;

/// Formats an instant with chrono as RFC 3339 in UTC. Every `i64` is a
/// representable instant, so the call does not fail.
#[verifier::external_body]
fn rfc3339_text(nanos: i64) -> (s: String)
    ensures
        s@ == rfc3339_utc(nanos),
{
    chrono::DateTime::from_timestamp_nanos(nanos).to_rfc3339()
}

/// The first eight hexadecimal digits of an identifier, as rows show it.
pub open spec fn short_id(id: u128) -> Seq<char> {
    crate::codec::hex_u128(id).subrange(0, 8)
}

/// `s` padded with spaces on the right to at least `n` characters.
pub open spec fn pad_right(s: Seq<char>, n: nat) -> Seq<char> {
    if s.len() >= n {
        s
    } else {
        s + Seq::new((n - s.len()) as nat, |i: int| ' ')
    }
}

/// Who an activity row names as the actor: the user's name when it is not
/// blank, else the user's short identifier, else the kind of actor.
pub open spec fn spec_audit_actor(e: AuditEventRow) -> Seq<char> {
    match e.actor_user_name {
        Some(name) if crate::text::trim(name@).len() > 0 => terminal_text(name@),
        _ => match e.actor_user_id {
            Some(id) => "user:"@ + short_id(id),
            None => terminal_text(e.actor_type@),
        },
    }
}

/// The row that shows an audit event, made terminal-safe.
pub open spec fn spec_activity_line(e: AuditEventRow) -> Seq<char> {
    terminal_text(rfc3339_utc(e.occurred_at_nanos) + "  "@ + pad_right(spec_audit_actor(e), 20) + "  "@
        + pad_right(e.action@, 18) + "  "@ + e.entity_type@ + " id:"@ + short_id(e.entity_id))
}

fn short_id_text(id: u128) -> (s: Vec<char>)
    ensures
        s@ == short_id(id),
{
    let text = chars_of(crate::codec::uuid_to_string(id).as_str());
    proof {
        assert(text@.subrange(0, 8) =~= short_id(id));
    }
    crate::text::slice_chars(&text, 0, 8)
}

fn push_padded(dst: &mut Vec<char>, s: &Vec<char>, n: usize)
    ensures
        final(dst)@ == old(dst)@ + pad_right(s@, n as nat),
{
    let ghost start = dst@;
    let mut copy = crate::text::slice_chars(s, 0, s.len());
    assert(s@.subrange(0, s@.len() as int) =~= s@);
    dst.append(&mut copy);
    let mut k: usize = s.len();
    while k < n
        invariant
            s@.len() <= k <= n || (k == s@.len() && k >= n),
            dst@ == start + s@ + Seq::new((k - s@.len()) as nat, |i: int| ' '),
        decreases n - k,
    {
        dst.push(' ');
        k += 1;
        assert(dst@ =~= start + s@ + Seq::new((k - s@.len()) as nat, |i: int| ' '));
    }
    assert(dst@ =~= start + pad_right(s@, n as nat));
}

fn audit_actor(e: &AuditEventRow) -> (r: Vec<char>)
    ensures
        r@ == spec_audit_actor(*e),
{
    if let Some(name) = &e.actor_user_name {
        if crate::text::trim_chars(&chars_of(name.as_str())).len() > 0 {
            return chars_of(terminal_line(name.as_str()).as_str());
        }
    }
    match e.actor_user_id {
        Some(id) => {
            let mut r = chars_of("user:");
            let mut short = short_id_text(id);
            r.append(&mut short);
            r
        },
        None => chars_of(terminal_line(e.actor_type.as_str()).as_str()),
    }
}

/// The row that shows an audit event: when, who (padded to 20), what
/// (padded to 18), and the entity's kind and short identifier, made
/// terminal-safe as a whole.
pub fn activity_line(e: &AuditEventRow) -> (line: String)
    ensures
        line@ == spec_activity_line(*e),
        forall|i: int| 0 <= i < line@.len() ==> !crate::text::is_terminal_control(#[trigger] line@[i]),
{
    let mut m = chars_of(rfc3339_text(e.occurred_at_nanos).as_str());
    push_str(&mut m, "  ");
    let actor = audit_actor(e);
    push_padded(&mut m, &actor, 20);
    push_str(&mut m, "  ");
    push_padded(&mut m, &chars_of(e.action.as_str()), 18);
    push_str(&mut m, "  ");
    push_str(&mut m, e.entity_type.as_str());
    push_str(&mut m, " id:");
    let mut short = short_id_text(e.entity_id);
    m.append(&mut short);
    terminal_line(string_of(&m).as_str())
}

/// An activity row cut to a terminal `width` characters wide.
pub fn bounded_activity_line(e: &AuditEventRow, width: usize) -> (line: String)
    ensures
        line@ == ellipsized(spec_activity_line(*e), width as nat),
        line@.len() <= width,
{
    ellipsize(activity_line(e).as_str(), width)
}

} // verus!
