//! The clipboard of a Wayland compositor with a data control protocol.
//!
//! Changes are noticed by looking at the clipboard in short intervals. What was announced here
//! must not come back as a change, so the announced types are kept.

use crate::clipboard::mime::{
    add_type,
    copy_types,
    each_once,
    lists_type,
    once_each,
    same_types,
    types_of,
    DataMap,
};
use crate::clipboard::provider::{operation_failed, ClipboardError, ClipboardProviderEvent};
use crate::text::{has_prefix, same_text, starts_with};
use std::collections::HashMap;
use vstd::prelude::*;

verus! {

/// Milliseconds between two looks at the clipboard.
pub const POLL_INTERVAL_MS: u64 = 250;

/// The type is one of text.
pub open spec fn text_type(mime: Seq<char>) -> bool {
    has_prefix(mime, "text/"@) || mime == "STRING"@ || mime == "UTF8_STRING"@ || mime == "TEXT"@
}

/// Whether the type is one of text.
pub fn is_text_mime(mime: &str) -> (r: bool)
    ensures
        r == text_type(mime@),
{
    starts_with(mime, "text/") || same_text(mime, "STRING") || same_text(mime, "UTF8_STRING")
        || same_text(mime, "TEXT")
}

/// The names under which a compositor offers text.
pub open spec fn text_aliases() -> Set<Seq<char>> {
    Set::empty().insert("text/plain;charset=utf-8"@).insert("text/plain"@).insert(
        "STRING"@,
    ).insert("UTF8_STRING"@).insert("TEXT"@)
}

/// The types that the compositor offers for data of the given types.
pub open spec fn offered(types: Set<Seq<char>>) -> Set<Seq<char>> {
    if exists|t: Seq<char>| #[trigger] types.contains(t) && text_type(t) {
        types.union(text_aliases())
    } else {
        types
    }
}

fn offered_types(types: Vec<String>) -> (r: Vec<String>)
    ensures
        types_of(r@) == offered(types_of(types@)),
        once_each(types@) ==> once_each(r@),
{
    let mut i: usize = 0;
    while i < types.len()
        invariant
            i <= types@.len(),
            forall|k: int| 0 <= k < i ==> !text_type((#[trigger] types@[k])@),
        decreases types@.len() - i,
    {
        if is_text_mime(types[i].as_str()) {
            let mut r = copy_types(&types);
            add_type(&mut r, "text/plain;charset=utf-8");
            add_type(&mut r, "text/plain");
            add_type(&mut r, "STRING");
            add_type(&mut r, "UTF8_STRING");
            add_type(&mut r, "TEXT");
            assert(types_of(types@).contains(types@[i as int]@));
            assert(types_of(r@) =~= types_of(types@).union(text_aliases()));
            return r;
        }
        i += 1;
    }
    types
}

/// The number of the transfer that is `i` after the given one.
pub open spec fn serial_after(first: u32, i: int) -> int {
    (first + i) % 0x1_0000_0000
}

/// The requests for data of the announced types, in their order, numbered from `first` on.
pub open spec fn are_requests(
    events: Seq<ClipboardProviderEvent>,
    types: Seq<String>,
    first: u32,
) -> bool {
    &&& events.len() == types.len()
    &&& forall|i: int|
        0 <= i < events.len() ==> (#[trigger] events[i] matches
            ClipboardProviderEvent::SelectionTransfer { serial, mime_type } && serial
            == serial_after(first, i) && mime_type@ == types[i]@)
}

/// The clipboard of a Wayland compositor.
#[derive(Debug)]
pub struct WlClipboardProvider {
    /// The types that were announced here.
    pub our_mime_types: Vec<String>,
    /// The data that the client has sent since.
    pub pending_data: DataMap,
    pub next_serial: u32,
    pub shutdown: bool,
    /// Whether the events were not handed out yet.
    pub has_receiver: bool,
}

impl WlClipboardProvider {
    /// A clipboard on which nothing was announced.
    pub fn new() -> (r: Self)
        ensures
            r.our_mime_types@.len() == 0,
            r.pending_data.wf(),
            r.pending_data@ == Map::<Seq<char>, Seq<u8>>::empty(),
            r.next_serial == 1,
            !r.shutdown,
            r.has_receiver,
    {
        WlClipboardProvider {
            our_mime_types: Vec::new(),
            pending_data: DataMap::new(),
            next_serial: 1,
            shutdown: false,
            has_receiver: true,
        }
    }

    /// The clipboard's name.
    pub fn name(&self) -> (r: &'static str)
        ensures
            r@ == "wl-clipboard"@,
    {
        "wl-clipboard"
    }

    /// Whether files can be transferred, which is so.
    pub fn supports_file_transfer(&self) -> (r: bool)
        ensures
            r,
    {
        true
    }

    /// The clipboard after the client announced types: data that was sent before is forgotten.
    /// No types change nothing.
    pub open spec fn announces(self, before: Self, types: Seq<String>) -> bool {
        &&& types.len() == 0 ==> self == before
        &&& types.len() > 0 ==> {
            &&& types_of(self.our_mime_types@) == types_of(types)
            &&& once_each(self.our_mime_types@)
            &&& self.pending_data.wf()
            &&& self.pending_data@ == Map::<Seq<char>, Seq<u8>>::empty()
            &&& self.next_serial == serial_after(before.next_serial, types.len() as int)
            &&& self.shutdown == before.shutdown
            &&& self.has_receiver == before.has_receiver
        }
    }

    /// The client has data of these types. All of it is requested at once; data that was sent
    /// before is forgotten. No types change nothing.
    pub fn announce_formats(&mut self, mime_types: Vec<String>) -> (r: Vec<ClipboardProviderEvent>)
        ensures
            are_requests(r@, mime_types@, old(self).next_serial),
            final(self).announces(*old(self), mime_types@),
    {
        let mut events: Vec<ClipboardProviderEvent> = Vec::new();
        if mime_types.len() == 0 {
            return events;
        }
        self.pending_data = DataMap::new();
        let ghost first = self.next_serial;
        let mut i: usize = 0;
        while i < mime_types.len()
            invariant
                i <= mime_types@.len(),
                are_requests(events@, mime_types@.take(i as int), first),
                self.next_serial == serial_after(first, i as int),
                self.pending_data.wf(),
                self.pending_data@ == Map::<Seq<char>, Seq<u8>>::empty(),
                self.shutdown == old(self).shutdown,
                self.has_receiver == old(self).has_receiver,
            decreases mime_types@.len() - i,
        {
            let serial: u32 = self.next_serial;
            events.push(
                ClipboardProviderEvent::SelectionTransfer {
                    serial,
                    mime_type: mime_types[i].clone(),
                },
            );
            self.next_serial = self.next_serial.wrapping_add(1);
            i += 1;
        }
        assert(mime_types@.take(i as int) =~= mime_types@);
        self.our_mime_types = each_once(&mime_types);
        events
    }

    /// The clipboard after the client sent data.
    pub open spec fn holds_transfer(self, before: Self, mime_type: Seq<char>, data: Seq<u8>) -> bool {
        &&& self.pending_data.wf()
        &&& self.pending_data@ == before.pending_data@.insert(mime_type, data)
        &&& types_of(self.our_mime_types@) == offered(self.pending_data@.dom())
        &&& once_each(self.our_mime_types@)
        &&& self.next_serial == before.next_serial
        &&& self.shutdown == before.shutdown
        &&& self.has_receiver == before.has_receiver
    }

    /// The clipboard after a transfer, and what is to be put on it: everything that was sent,
    /// where the transfer brought something.
    pub open spec fn completes(
        self,
        before: Self,
        mime_type: Seq<char>,
        data: Seq<u8>,
        success: bool,
        r: Option<DataMap>,
    ) -> bool {
        match r {
            Some(sources) => {
                &&& success && data.len() > 0
                &&& self.holds_transfer(before, mime_type, data)
                &&& sources.wf()
                &&& sources@ == self.pending_data@
            },
            None => (!success || data.len() == 0) && self == before,
        }
    }

    /// Takes data that the client sent, and hands out everything that is to be put on the
    /// clipboard now. Each transfer puts all data there again, since the clipboard has one
    /// owner only. A failed or empty transfer changes nothing.
    pub fn complete_transfer(&mut self, mime_type: &str, data: Vec<u8>, success: bool) -> (r: Option<
        DataMap,
    >)
        requires
            old(self).pending_data.wf(),
        ensures
            final(self).completes(*old(self), mime_type@, data@, success, r),
    {
        if !success || data.len() == 0 {
            return None;
        }
        self.pending_data.insert(mime_type, data);
        let types = self.pending_data.types();
        self.our_mime_types = offered_types(types);
        Some(self.pending_data.duplicate())
    }

    /// Hands out the events. That can be done once.
    pub fn subscribe(&mut self)
        requires
            old(self).has_receiver,
        ensures
            *final(self) == (WlClipboardProvider { has_receiver: false, ..*old(self) }),
    {
        self.has_receiver = false;
    }

    /// Stops looking at the clipboard.
    pub fn shutdown(&mut self)
        ensures
            *final(self) == (WlClipboardProvider { shutdown: true, ..*old(self) }),
    {
        self.shutdown = true;
    }
}

/// What is put on the clipboard for a text: its bytes under both names.
pub open spec fn text_data(bytes: Seq<u8>) -> Map<Seq<char>, Seq<u8>> {
    Map::empty().insert("text/plain;charset=utf-8"@, bytes).insert("text/plain"@, bytes)
}

/// What to put on the clipboard for a text: its bytes under both names.
pub fn text_sources(bytes: Vec<u8>) -> (r: DataMap)
    ensures
        r.wf(),
        r@ == text_data(bytes@),
{
    let mut r = DataMap::new();
    let copy = bytes.clone();
    assert(copy@ =~= bytes@);
    r.insert("text/plain;charset=utf-8", copy);
    r.insert("text/plain", bytes);
    r
}

/// How reading the clipboard went.
#[derive(Debug)]
pub enum ReadOutcome {
    Data(Vec<u8>),
    /// The data broke off.
    ReadFailed(String),
    ClipboardEmpty,
    NoMimeType,
    /// The clipboard could not be reached.
    Failed(String),
}

/// A reader of the clipboard gets a result: nothing where the clipboard has nothing of the type.
pub open spec fn is_read(outcome: ReadOutcome, r: Result<Vec<u8>, ClipboardError>) -> bool {
    match outcome {
        ReadOutcome::Data(d) => r == Ok::<Vec<u8>, ClipboardError>(d),
        ReadOutcome::ClipboardEmpty | ReadOutcome::NoMimeType => r matches Ok(d) && d@.len() == 0,
        ReadOutcome::ReadFailed(e) => r matches Err(x) && x.text() == "wl-clipboard read failed"@
            + ": "@ + e@,
        ReadOutcome::Failed(e) => r matches Err(x) && x.text()
            == "wl-clipboard get_contents failed"@ + ": "@ + e@,
    }
}

/// What a reader of the clipboard gets: nothing where the clipboard has nothing of the type.
pub fn read_data(outcome: ReadOutcome) -> (r: Result<Vec<u8>, ClipboardError>)
    ensures
        is_read(outcome, r),
{
    match outcome {
        ReadOutcome::Data(d) => Ok(d),
        ReadOutcome::ClipboardEmpty | ReadOutcome::NoMimeType => Ok(Vec::new()),
        ReadOutcome::ReadFailed(e) => Err(
            operation_failed("wl-clipboard read failed", e.as_str()),
        ),
        ReadOutcome::Failed(e) => Err(
            operation_failed("wl-clipboard get_contents failed", e.as_str()),
        ),
    }
}

/// How a look at the clipboard went.
#[derive(Debug)]
pub enum LookOutcome {
    /// The types that are on it.
    Types(Vec<String>),
    ClipboardEmpty,
    NoSeats,
    Failed(String),
}

/// Whether the clipboard works: an empty one and one without seats do.
pub fn health_check(outcome: LookOutcome) -> (r: Result<(), ClipboardError>)
    ensures
        match outcome {
            LookOutcome::Failed(e) => r matches Err(x) && x.text()
                == "wl-clipboard health check failed"@ + ": "@ + e@,
            _ => r is Ok,
        },
{
    match outcome {
        LookOutcome::Failed(e) => Err(
            operation_failed("wl-clipboard health check failed", e.as_str()),
        ),
        _ => Ok(()),
    }
}

/// What was seen on the clipboard last.
#[derive(Debug)]
pub struct SelectionWatch {
    pub last: Vec<String>,
    /// Failed looks in a row.
    pub error_streak: u32,
}

/// The event that a change of the clipboard gives, with every type once: none for what was
/// announced here, and none for an empty clipboard.
pub open spec fn is_change(
    event: Option<ClipboardProviderEvent>,
    last: Set<Seq<char>>,
    current: Seq<String>,
    ours: Set<Seq<char>>,
) -> bool {
    let types = types_of(current);
    if types == last || (!(ours =~= Set::empty()) && types == ours) || types =~= Set::empty() {
        event is None
    } else {
        event matches Some(ClipboardProviderEvent::SelectionChanged { mime_types, force })
            && types_of(mime_types@) == types && once_each(mime_types@) && force
    }
}

/// So many failed looks in a row are worth a warning.
pub open spec fn warned_at(streak: u32) -> bool {
    streak == 20
}

impl SelectionWatch {
    /// Nothing was seen yet.
    pub fn new() -> (r: Self)
        ensures
            r.last@.len() == 0,
            r.error_streak == 0,
    {
        SelectionWatch { last: Vec::new(), error_streak: 0 }
    }

    /// Takes what is on the clipboard now, next to what was announced here. A type that is
    /// named twice counts once.
    pub fn observe(&mut self, current: Vec<String>, ours: &Vec<String>) -> (r: Option<
        ClipboardProviderEvent,
    >)
        ensures
            is_change(r, types_of(old(self).last@), current@, types_of(ours@)),
            types_of(final(self).last@) == types_of(current@),
            once_each(final(self).last@),
            final(self).error_streak == old(self).error_streak,
    {
        let types = each_once(&current);
        proof {
            lemma_no_types(ours@);
            lemma_no_types(types@);
        }
        let is_known = same_types(&types, &self.last);
        let is_ours = ours.len() > 0 && same_types(&types, ours);
        let event: Option<ClipboardProviderEvent> = if !is_known && !is_ours && types.len() > 0 {
            Some(
                ClipboardProviderEvent::SelectionChanged {
                    mime_types: copy_types(&types),
                    force: true,
                },
            )
        } else {
            None
        };
        self.last = types;
        event
    }

    /// The watch after a look at the clipboard, and what it reports.
    pub open spec fn looked(
        self,
        before: Self,
        outcome: LookOutcome,
        ours: Seq<String>,
        r: Option<ClipboardProviderEvent>,
    ) -> bool {
        match outcome {
            LookOutcome::Failed(_) => r is None && self.last@ == before.last@ && self.error_streak
                == before.error_streak + 1,
            LookOutcome::Types(v) => is_change(r, types_of(before.last@), v@, types_of(ours))
                && types_of(self.last@) == types_of(v@) && self.error_streak == 0,
            LookOutcome::ClipboardEmpty | LookOutcome::NoSeats => r is None && types_of(self.last@)
                == types_of(Seq::<String>::empty()) && self.error_streak == 0,
        }
    }

    /// Takes how a look at the clipboard went. A clipboard that is empty or has no seats counts
    /// as one without types; a failed look is passed over.
    pub fn poll(&mut self, outcome: LookOutcome, ours: &Vec<String>) -> (r: Option<
        ClipboardProviderEvent,
    >)
        requires
            outcome is Failed ==> old(self).error_streak < u32::MAX,
        ensures
            final(self).looked(*old(self), outcome, ours@, r),
    {
        match outcome {
            LookOutcome::Failed(_) => {
                self.error_streak = self.error_streak + 1;
                None
            },
            LookOutcome::Types(v) => {
                self.error_streak = 0;
                self.observe(v, ours)
            },
            LookOutcome::ClipboardEmpty | LookOutcome::NoSeats => {
                self.error_streak = 0;
                let nothing: Vec<String> = Vec::new();
                proof {
                    lemma_no_types(nothing@);
                    assert(nothing@ =~= Seq::<String>::empty());
                }
                self.observe(nothing, ours)
            },
        }
    }

    /// Whether the failed looks are worth a warning, which is so once, after five seconds of
    /// them.
    pub fn warns(&self) -> (r: bool)
        ensures
            r == warned_at(self.error_streak),
    {
        self.error_streak == 20
    }

    /// Whether the failed looks are worth a line in the detailed log, which is so for every
    /// hundredth of them.
    pub fn notes(&self) -> (r: bool)
        ensures
            r == (self.error_streak > 0 && self.error_streak % 100 == 0),
    {
        self.error_streak > 0 && self.error_streak % 100 == 0
    }
}

proof fn lemma_no_types(v: Seq<String>)
    ensures
        types_of(v) =~= Set::<Seq<char>>::empty() <==> v.len() == 0,
{
    if v.len() > 0 {
        assert(types_of(v).contains(v[0]@));
    }
}

/// What the compositor says of the clipboard: offers with their types, and which offer is on
/// the clipboard.
#[derive(Debug)]
pub struct MonitorState {
    pub offers: HashMap<u32, Vec<String>>,
    pub current_mime_types: Vec<String>,
    pub selection_changed: bool,
}

impl MonitorState {
    /// Nothing is offered.
    pub fn new() -> (r: Self)
        ensures
            r.offers@ == Map::<u32, Vec<String>>::empty(),
            r.current_mime_types@.len() == 0,
            !r.selection_changed,
    {
        MonitorState {
            offers: HashMap::new(),
            current_mime_types: Vec::new(),
            selection_changed: false,
        }
    }

    /// An offer comes, without types at first.
    pub fn data_offer(&mut self, id: u32)
        ensures
            final(self).offers@.dom() == old(self).offers@.dom().insert(id),
            final(self).offers@[id]@.len() == 0,
            forall|k: u32|
                k != id && old(self).offers@.contains_key(k) ==> #[trigger] final(self).offers@[k]
                    == old(self).offers@[k],
            final(self).current_mime_types == old(self).current_mime_types,
            final(self).selection_changed == old(self).selection_changed,
    {
        broadcast use vstd::std_specs::hash::group_hash_axioms;

        self.offers.insert(id, Vec::new());
    }

    /// A known offer gets another type.
    pub fn offer(&mut self, id: u32, mime_type: String)
        ensures
            final(self).offers@.dom() == old(self).offers@.dom(),
            old(self).offers@.contains_key(id) ==> final(self).offers@[id]@ == old(self).offers@[id]@.push(mime_type),
            forall|k: u32|
                k != id && old(self).offers@.contains_key(k) ==> #[trigger] final(self).offers@[k]
                    == old(self).offers@[k],
            final(self).current_mime_types == old(self).current_mime_types,
            final(self).selection_changed == old(self).selection_changed,
    {
        broadcast use vstd::std_specs::hash::group_hash_axioms;

        if let Some(known) = self.offers.remove(&id) {
            let mut types = known;
            types.push(mime_type);
            self.offers.insert(id, types);
        }
        assert(self.offers@.dom() =~= old(self).offers@.dom());
    }

    /// The types that an offer has; none where it is not known.
    pub open spec fn types_of_offer(self, id: Option<u32>) -> Seq<String> {
        match id {
            Some(k) => if self.offers@.contains_key(k) {
                self.offers@[k]@
            } else {
                seq![]
            },
            None => seq![],
        }
    }

    /// What is known once the clipboard holds an offer, or nothing: its types, each of them once,
    /// and whether they are others than before. All offers are spent.
    pub open spec fn selects(self, before: Self, id: Option<u32>) -> bool {
        &&& types_of(self.current_mime_types@) == types_of(before.types_of_offer(id))
        &&& once_each(self.current_mime_types@)
        &&& self.selection_changed == (before.selection_changed || types_of(
            before.types_of_offer(id),
        ) != types_of(before.current_mime_types@))
        &&& self.offers@ == Map::<u32, Vec<String>>::empty()
    }

    /// The clipboard holds an offer now, or nothing. A type that the offer names twice counts
    /// once. All offers are spent.
    pub fn selection(&mut self, id: Option<u32>)
        ensures
            final(self).selects(*old(self), id),
    {
        broadcast use vstd::std_specs::hash::group_hash_axioms;

        let types: Vec<String> = match id {
            Some(k) => match self.offers.remove(&k) {
                Some(types) => types,
                None => Vec::new(),
            },
            None => Vec::new(),
        };
        assert(types@ =~= old(self).types_of_offer(id));
        if !same_types(&types, &self.current_mime_types) {
            self.selection_changed = true;
        }
        self.current_mime_types = each_once(&types);
        self.offers.clear();
    }

    /// Whether the clipboard changed since this was asked last.
    pub fn take_change(&mut self) -> (r: bool)
        ensures
            r == old(self).selection_changed,
            *final(self) == (MonitorState { selection_changed: false, ..*old(self) }),
    {
        let r = self.selection_changed;
        self.selection_changed = false;
        r
    }
}

/// What is announced here does not come back as a change.
pub proof fn own_announcements_are_silent(
    event: Option<ClipboardProviderEvent>,
    last: Set<Seq<char>>,
    current: Seq<String>,
    ours: Set<Seq<char>>,
)
    requires
        types_of(current) == ours,
        is_change(event, last, current, ours),
    ensures
        event is None,
{
}

/// The same contents are reported once.
pub proof fn changes_are_reported_once(
    event: Option<ClipboardProviderEvent>,
    current: Seq<String>,
    ours: Set<Seq<char>>,
)
    requires
        is_change(event, types_of(current), current, ours),
    ensures
        event is None,
{
}

/// Data of any type of text is offered under every name of text, and nothing else is added.
pub proof fn text_is_offered_under_every_name(types: Set<Seq<char>>, t: Seq<char>)
    requires
        types.contains(t),
        text_type(t),
    ensures
        text_aliases().subset_of(offered(types)),
        types.subset_of(offered(types)),
        forall|x: Seq<char>| #[trigger]
            offered(types).contains(x) ==> types.contains(x) || text_aliases().contains(x),
{
}

/// Contents that are new on the clipboard, that were not announced here and that are not empty
/// are reported: all of their types, and nothing else.
pub proof fn new_contents_are_reported(
    event: Option<ClipboardProviderEvent>,
    last: Set<Seq<char>>,
    current: Seq<String>,
    ours: Set<Seq<char>>,
    i: int,
)
    requires
        is_change(event, last, current, ours),
        types_of(current) != last,
        types_of(current) != ours,
        current.len() > 0,
        0 <= i < current.len(),
    ensures
        event matches Some(ClipboardProviderEvent::SelectionChanged { mime_types, force }) && force
            && types_of(mime_types@) == types_of(current) && lists_type(
            mime_types@,
            current[i]@,
        ),
{
    assert(types_of(current).contains(current[i]@));
    let types = types_of(event->0->SelectionChanged_mime_types@);
    assert(types.contains(current[i]@));
}

/// An empty clipboard is never reported.
pub proof fn empty_clipboards_are_silent(
    event: Option<ClipboardProviderEvent>,
    last: Set<Seq<char>>,
    ours: Set<Seq<char>>,
)
    requires
        is_change(event, last, Seq::<String>::empty(), ours),
    ensures
        event is None,
{
    assert(types_of(Seq::<String>::empty()) =~= Set::<Seq<char>>::empty());
}

/// A look that shows types reports them where they are new, and they are known from then on. A
/// failed look is passed over and counted; any other one starts the count again.
pub proof fn looks_report_new_contents(
    before: SelectionWatch,
    after: SelectionWatch,
    outcome: LookOutcome,
    ours: Seq<String>,
    r: Option<ClipboardProviderEvent>,
)
    requires
        after.looked(before, outcome, ours, r),
    ensures
        outcome matches LookOutcome::Types(v) ==> types_of(after.last@) == types_of(v@) && (r
            is Some <==> types_of(v@) != types_of(before.last@) && !(types_of(ours) != Set::<
            Seq<char>,
        >::empty() && types_of(v@) == types_of(ours)) && v@.len() > 0),
        outcome is Failed ==> r is None && after.last@ == before.last@ && after.error_streak
            == before.error_streak + 1,
        !(outcome is Failed) ==> after.error_streak == 0,
        outcome is ClipboardEmpty || outcome is NoSeats ==> r is None,
{
    if let LookOutcome::Types(v) = outcome {
        lemma_no_types(v@);
    }
}

/// A warning comes once failed looks have lasted for five seconds, and then no more.
pub proof fn warning_comes_after_five_seconds(streak: u32)
    ensures
        warned_at(streak) <==> streak * POLL_INTERVAL_MS == 5_000,
{
}

/// Everything below `text/` is text, and so are the three names that X11 has for it.
pub proof fn text_has_many_names(rest: Seq<char>)
    ensures
        text_type("text/"@ + rest),
        text_type("STRING"@),
        text_type("UTF8_STRING"@),
        text_type("TEXT"@),
        !text_type("image/"@ + rest),
        !text_type("application/"@ + rest),
        !text_type(Seq::<char>::empty()),
{
    reveal_strlit("text/");
    reveal_strlit("STRING");
    reveal_strlit("UTF8_STRING");
    reveal_strlit("TEXT");
    reveal_strlit("image/");
    reveal_strlit("application/");
    assert("text/"@.len() == 5 && "STRING"@.len() == 6 && "UTF8_STRING"@.len() == 11);
    assert("TEXT"@.len() == 4 && "image/"@.len() == 6 && "application/"@.len() == 12);
    assert(("text/"@ + rest).take(5) =~= "text/"@);
    assert(("image/"@ + rest)[0] == 'i');
    assert(("application/"@ + rest)[0] == 'a');
    assert("text/"@[0] == 't' && "STRING"@[0] == 'S' && "UTF8_STRING"@[0] == 'U');
    assert("TEXT"@[0] == 'T');
    assert(("image/"@ + rest).take(5)[0] == 'i');
    assert(("application/"@ + rest).take(5)[0] == 'a');
}

/// Text of any type is offered as plain text, with and without its encoding, and under the
/// three names that X11 has for it. Data without text is offered as it is.
pub proof fn text_can_be_pasted_everywhere(types: Set<Seq<char>>, t: Seq<char>)
    requires
        types.contains(t),
        text_type(t),
    ensures
        offered(types).contains("text/plain;charset=utf-8"@),
        offered(types).contains("text/plain"@),
        offered(types).contains("STRING"@),
        offered(types).contains("UTF8_STRING"@),
        offered(types).contains("TEXT"@),
        offered(types).contains(t),
{
}

/// Data without text is offered under its own types and no others.
pub proof fn other_data_is_offered_as_it_is(types: Set<Seq<char>>)
    requires
        forall|t: Seq<char>| #[trigger] types.contains(t) ==> !text_type(t),
    ensures
        offered(types) == types,
{
}

/// Transfers are numbered one after the other, and begin again at zero after the largest
/// number.
pub proof fn transfers_are_numbered_in_turn(first: u32, i: int)
    requires
        0 <= i,
    ensures
        serial_after(first, 0) == first,
        0 <= serial_after(first, i) <= u32::MAX,
        serial_after(first, i) < u32::MAX ==> serial_after(first, i + 1) == serial_after(first, i)
            + 1,
        serial_after(first, i) == u32::MAX ==> serial_after(first, i + 1) == 0,
{
}

/// Every announced type is asked for, once and in its turn: the first under the next number,
/// each of the others under the one after that of the type before it.
pub proof fn every_announced_type_is_asked_for(
    events: Seq<ClipboardProviderEvent>,
    types: Seq<String>,
    first: u32,
    i: int,
)
    requires
        are_requests(events, types, first),
        0 <= i < types.len(),
        first + i <= u32::MAX,
    ensures
        events.len() == types.len(),
        events[i] matches ClipboardProviderEvent::SelectionTransfer { serial, mime_type }
            && mime_type@ == types[i]@ && serial == first + i,
{
    assert(events[i] is SelectionTransfer);
}

/// An announcement makes the clipboard the client's: its types are kept as ours, and what was
/// sent for the one before is forgotten. An announcement of nothing changes nothing.
pub proof fn announcements_replace_each_other(
    before: WlClipboardProvider,
    after: WlClipboardProvider,
    types: Seq<String>,
    t: Seq<char>,
)
    requires
        after.announces(before, types),
    ensures
        types.len() > 0 ==> !after.pending_data@.dom().contains(t),
        types.len() > 0 ==> (types_of(after.our_mime_types@).contains(t) <==> lists_type(types, t)),
        types.len() > 0 && before.next_serial + types.len() <= u32::MAX ==> after.next_serial
            == before.next_serial + types.len(),
        types.len() == 0 ==> after == before,
{
}

/// What the client sends is put on the clipboard together with all it sent before, unchanged,
/// and counts as ours from then on. A transfer that failed or brought nothing changes nothing.
pub proof fn transfers_add_up(
    before: WlClipboardProvider,
    after: WlClipboardProvider,
    mime_type: Seq<char>,
    data: Seq<u8>,
    success: bool,
    r: Option<DataMap>,
    other: Seq<char>,
)
    requires
        after.completes(before, mime_type, data, success, r),
    ensures
        r is Some <==> success && data.len() > 0,
        r is None ==> after == before,
        r matches Some(sources) ==> {
            &&& sources@.dom().contains(mime_type)
            &&& sources@[mime_type] == data
            &&& other != mime_type ==> (sources@.dom().contains(other)
                <==> before.pending_data@.dom().contains(other))
            &&& other != mime_type && before.pending_data@.dom().contains(other) ==> sources@[other]
                == before.pending_data@[other]
            &&& types_of(after.our_mime_types@).contains(mime_type)
        },
{
}

/// A text is put on the clipboard with its bytes under both names of plain text, and nothing
/// else is.
pub proof fn text_is_put_under_both_names(bytes: Seq<u8>, t: Seq<char>)
    ensures
        text_data(bytes)["text/plain"@] == bytes,
        text_data(bytes)["text/plain;charset=utf-8"@] == bytes,
        text_data(bytes).dom().contains(t) <==> t == "text/plain"@ || t
            == "text/plain;charset=utf-8"@,
{
}

/// What is on the clipboard is read as it is, and an empty clipboard or a type that is not on it
/// reads as nothing; only a failure to read is one.
pub proof fn reading_gives_what_is_there(outcome: ReadOutcome, r: Result<Vec<u8>, ClipboardError>)
    requires
        is_read(outcome, r),
    ensures
        outcome matches ReadOutcome::Data(d) ==> r == Ok::<Vec<u8>, ClipboardError>(d),
        outcome is ClipboardEmpty || outcome is NoMimeType ==> (r matches Ok(d) && d@
            == Seq::<u8>::empty()),
        r is Err <==> outcome is ReadFailed || outcome is Failed,
{
}

/// A selection tells of a change exactly where its types are others than those before, or where
/// an earlier change was not asked for yet. An offer that is not known has no types.
pub proof fn selections_tell_of_changes(before: MonitorState, after: MonitorState, id: u32)
    requires
        after.selects(before, Some(id)),
    ensures
        before.offers@.contains_key(id) ==> types_of(after.current_mime_types@) == types_of(
            before.offers@[id]@,
        ),
        !before.offers@.contains_key(id) ==> types_of(after.current_mime_types@) == types_of(
            Seq::<String>::empty(),
        ),
        before.selection_changed ==> after.selection_changed,
        types_of(after.current_mime_types@) != types_of(before.current_mime_types@)
            ==> after.selection_changed,
        types_of(after.current_mime_types@) == types_of(before.current_mime_types@)
            ==> after.selection_changed == before.selection_changed,
        after.offers@ == Map::<u32, Vec<String>>::empty(),
{
}

/// Data that the client sends is held under its type beside what it sent before, and offered
/// from then on. Nothing else of the clipboard changes.
pub proof fn sent_data_is_held(
    after: WlClipboardProvider,
    before: WlClipboardProvider,
    mime_type: Seq<char>,
    data: Seq<u8>,
    other: Seq<char>,
)
    requires
        after.holds_transfer(before, mime_type, data),
    ensures
        after.pending_data@.dom().contains(mime_type),
        after.pending_data@[mime_type] == data,
        other != mime_type ==> after.pending_data@.dom().contains(other)
            == before.pending_data@.dom().contains(other),
        other != mime_type && before.pending_data@.dom().contains(other)
            ==> after.pending_data@[other] == before.pending_data@[other],
        after.shutdown == before.shutdown,
        after.has_receiver == before.has_receiver,
        after.next_serial == before.next_serial,
{
}

} // verus!
