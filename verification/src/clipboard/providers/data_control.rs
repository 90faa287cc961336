//! The clipboard of the embedded portal backend.
//!
//! The compositor wants data the moment somebody pastes, so what the client sends is kept and
//! goes out with the announcement.

use crate::clipboard::mime::{lists_type, types_of, DataMap};
use crate::clipboard::provider::{operation_failed, ClipboardError, ClipboardProviderEvent};
use vstd::prelude::*;

verus! {

/// What is put on the clipboard.
#[derive(Debug)]
pub struct ClipboardData {
    pub mime_types: Vec<String>,
    pub data: DataMap,
}

/// What the backend is asked for.
#[derive(Debug, Clone, Copy, PartialEq, Eq, Structural)]
pub enum BackendCall {
    SetClipboard,
    ReadSelection,
    UpdateSourceData,
    WriteDone,
    HealthCheck,
}

/// Why a call did not work.
#[derive(Debug)]
pub enum CallFailure {
    /// The cache is broken.
    CachePoisoned(String),
    /// The backend is broken.
    BackendPoisoned(String),
    /// The backend refused.
    Refused(String),
    /// The call ended early.
    Panicked(String),
}

/// What is said of a failure.
pub open spec fn failure_text(call: BackendCall, failure: CallFailure) -> Seq<char> {
    match failure {
        CallFailure::CachePoisoned(e) => "Source data lock poisoned"@ + ": "@ + e@,
        CallFailure::BackendPoisoned(e) => "Backend lock poisoned"@ + ": "@ + e@,
        CallFailure::Refused(e) => (match call {
            BackendCall::SetClipboard => "set_clipboard failed"@,
            BackendCall::ReadSelection => "read_selection failed"@,
            BackendCall::UpdateSourceData => "update_source_data failed"@,
            BackendCall::WriteDone => "write_done failed"@,
            BackendCall::HealthCheck => "health_check failed"@,
        }) + ": "@ + e@,
        CallFailure::Panicked(e) => (match call {
            BackendCall::SetClipboard => "announce_formats task panicked"@,
            BackendCall::ReadSelection => "read_data task panicked"@,
            BackendCall::UpdateSourceData => "provide_data task panicked"@,
            BackendCall::WriteDone => "complete_transfer task panicked"@,
            BackendCall::HealthCheck => "health_check panicked"@,
        }) + ": "@ + e@,
    }
}

/// The error for a call that did not work.
pub fn call_failed(call: BackendCall, failure: CallFailure) -> (r: ClipboardError)
    ensures
        r.text() == failure_text(call, failure),
{
    match failure {
        CallFailure::CachePoisoned(e) => operation_failed("Source data lock poisoned", e.as_str()),
        CallFailure::BackendPoisoned(e) => operation_failed("Backend lock poisoned", e.as_str()),
        CallFailure::Refused(e) => {
            let what = match call {
                BackendCall::SetClipboard => "set_clipboard failed",
                BackendCall::ReadSelection => "read_selection failed",
                BackendCall::UpdateSourceData => "update_source_data failed",
                BackendCall::WriteDone => "write_done failed",
                BackendCall::HealthCheck => "health_check failed",
            };
            operation_failed(what, e.as_str())
        },
        CallFailure::Panicked(e) => {
            let what = match call {
                BackendCall::SetClipboard => "announce_formats task panicked",
                BackendCall::ReadSelection => "read_data task panicked",
                BackendCall::UpdateSourceData => "provide_data task panicked",
                BackendCall::WriteDone => "complete_transfer task panicked",
                BackendCall::HealthCheck => "health_check panicked",
            };
            operation_failed(what, e.as_str())
        },
    }
}

/// What a reader of the clipboard gets: nothing where the clipboard has nothing of the type.
pub fn read_data(outcome: Result<Option<Vec<u8>>, CallFailure>) -> (r: Result<
    Vec<u8>,
    ClipboardError,
>)
    ensures
        match outcome {
            Ok(Some(d)) => r == Ok::<Vec<u8>, ClipboardError>(d),
            Ok(None) => r matches Ok(d) && d@.len() == 0,
            Err(f) => r matches Err(e) && e.text() == failure_text(BackendCall::ReadSelection, f),
        },
{
    match outcome {
        Ok(Some(d)) => Ok(d),
        Ok(None) => Ok(Vec::new()),
        Err(f) => Err(call_failed(BackendCall::ReadSelection, f)),
    }
}

/// The data that goes out with an announcement: what the client has sent of the types.
pub open spec fn announced_data(
    sent: Map<Seq<char>, Seq<u8>>,
    types: Seq<String>,
) -> Map<Seq<char>, Seq<u8>> {
    sent.restrict(types_of(types))
}

/// The clipboard of the embedded portal backend.
#[derive(Debug)]
pub struct DataControlClipboardProvider {
    /// The data that the client has sent.
    pub source_data: DataMap,
    pub shutdown: bool,
    /// Whether the events were not handed out yet.
    pub has_receiver: bool,
}

impl DataControlClipboardProvider {
    /// A clipboard without data.
    pub fn new() -> (r: Self)
        ensures
            r.source_data.wf(),
            r.source_data@ == Map::<Seq<char>, Seq<u8>>::empty(),
            !r.shutdown,
            r.has_receiver,
    {
        DataControlClipboardProvider {
            source_data: DataMap::new(),
            shutdown: false,
            has_receiver: true,
        }
    }

    /// The clipboard's name.
    pub fn name(&self) -> (r: &'static str)
        ensures
            r@ == "data-control"@,
    {
        "data-control"
    }

    /// Whether files can be transferred, which is so.
    pub fn supports_file_transfer(&self) -> (r: bool)
        ensures
            r,
    {
        true
    }

    /// Whether data is needed before somebody asks for it, which is so.
    pub fn requires_upfront_data(&self) -> (r: bool)
        ensures
            r,
    {
        true
    }

    /// The event for a change of the clipboard, which is always certain.
    pub fn selection_changed(&self, mime_types: Vec<String>) -> (r: ClipboardProviderEvent)
        ensures
            r == (ClipboardProviderEvent::SelectionChanged { mime_types, force: true }),
    {
        ClipboardProviderEvent::SelectionChanged { mime_types, force: true }
    }

    /// Takes data that the client sent.
    pub fn provide_data(&mut self, mime_type: &str, data: Vec<u8>)
        requires
            old(self).source_data.wf(),
        ensures
            final(self).source_data.wf(),
            final(self).source_data@ == old(self).source_data@.insert(mime_type@, data@),
            final(self).shutdown == old(self).shutdown,
            final(self).has_receiver == old(self).has_receiver,
    {
        self.source_data.insert(mime_type, data);
    }

    /// What is put on the clipboard for the announced types: the types, and the data of those
    /// that the client has sent already.
    pub fn announce_formats(&self, mime_types: Vec<String>) -> (r: ClipboardData)
        requires
            self.source_data.wf(),
        ensures
            r.mime_types == mime_types,
            r.data.wf(),
            r.data@ == announced_data(self.source_data@, mime_types@),
    {
        let mut data = DataMap::new();
        let mut i: usize = 0;
        assert(data@ =~= self.source_data@.restrict(types_of(mime_types@.take(0))));
        while i < mime_types.len()
            invariant
                i <= mime_types@.len(),
                self.source_data.wf(),
                data.wf(),
                data@ =~= self.source_data@.restrict(types_of(mime_types@.take(i as int))),
            decreases mime_types@.len() - i,
        {
            proof {
                lemma_one_more_type(mime_types@, i as int);
            }
            if let Some(known) = self.source_data.get(mime_types[i].as_str()) {
                let copy = known.clone();
                assert(copy@ =~= known@);
                data.insert(mime_types[i].as_str(), copy);
            }
            i += 1;
        }
        assert(mime_types@.take(i as int) =~= mime_types@);
        ClipboardData { mime_types, data }
    }

    /// Hands out the events. That can be done once.
    pub fn subscribe(&mut self)
        requires
            old(self).has_receiver,
        ensures
            *final(self) == (DataControlClipboardProvider { has_receiver: false, ..*old(self) }),
    {
        self.has_receiver = false;
    }

    /// Stops the clipboard.
    pub fn shutdown(&mut self)
        ensures
            *final(self) == (DataControlClipboardProvider { shutdown: true, ..*old(self) }),
    {
        self.shutdown = true;
    }
}

proof fn lemma_one_more_type(types: Seq<String>, i: int)
    requires
        0 <= i < types.len(),
    ensures
        types_of(types.take(i + 1)) == types_of(types.take(i)).insert(types[i]@),
{
    let a = types_of(types.take(i + 1));
    let b = types_of(types.take(i)).insert(types[i]@);
    assert forall|t: Seq<char>| a.contains(t) implies b.contains(t) by {
        let k = choose|k: int| 0 <= k < i + 1 && (#[trigger] types.take(i + 1)[k])@ == t;
        if k < i {
            assert(types.take(i)[k]@ == t);
        }
    }
    assert forall|t: Seq<char>| b.contains(t) implies a.contains(t) by {
        if t == types[i]@ {
            assert(types.take(i + 1)[i]@ == t);
        } else {
            let k = choose|k: int| 0 <= k < i && (#[trigger] types.take(i)[k])@ == t;
            assert(types.take(i + 1)[k]@ == t);
        }
    }
    assert(a =~= b);
}

/// Data that the client sent goes out with every later announcement of its type, and with no
/// announcement that leaves the type out.
pub proof fn provided_data_is_announced(
    cached: Map<Seq<char>, Seq<u8>>,
    mime_type: Seq<char>,
    data: Seq<u8>,
    announced: Seq<String>,
)
    ensures
        ({
            let out = announced_data(cached.insert(mime_type, data), announced);
            &&& types_of(announced).contains(mime_type) ==> out.contains_key(mime_type)
                && out[mime_type] == data
            &&& !types_of(announced).contains(mime_type) ==> !out.contains_key(mime_type)
        }),
{
}

/// An announcement goes out with exactly the data that the client has sent of its types, as it
/// was sent.
pub proof fn announcements_carry_what_was_sent(
    sent: Map<Seq<char>, Seq<u8>>,
    types: Seq<String>,
    t: Seq<char>,
)
    ensures
        announced_data(sent, types).dom().contains(t) <==> sent.dom().contains(t) && lists_type(
            types,
            t,
        ),
        announced_data(sent, types).dom().contains(t) ==> announced_data(sent, types)[t] == sent[t],
{
}

/// A failure is told with its reason. A poisoned lock is told by what it guards, a refusal by
/// the call that was refused, and a panic by the task that it ended.
pub proof fn failures_name_what_failed(call: BackendCall, failure: CallFailure, e: String)
    ensures
        failure == CallFailure::CachePoisoned(e) ==> failure_text(call, failure)
            == "Source data lock poisoned"@ + ": "@ + e@,
        failure == CallFailure::BackendPoisoned(e) ==> failure_text(call, failure)
            == "Backend lock poisoned"@ + ": "@ + e@,
        failure == CallFailure::Refused(e) ==> {
            let text = failure_text(call, failure);
            &&& call is SetClipboard ==> text == "set_clipboard failed"@ + ": "@ + e@
            &&& call is ReadSelection ==> text == "read_selection failed"@ + ": "@ + e@
            &&& call is UpdateSourceData ==> text == "update_source_data failed"@ + ": "@ + e@
            &&& call is WriteDone ==> text == "write_done failed"@ + ": "@ + e@
            &&& call is HealthCheck ==> text == "health_check failed"@ + ": "@ + e@
        },
        failure == CallFailure::Panicked(e) ==> {
            let text = failure_text(call, failure);
            &&& call is SetClipboard ==> text == "announce_formats task panicked"@ + ": "@ + e@
            &&& call is ReadSelection ==> text == "read_data task panicked"@ + ": "@ + e@
            &&& call is UpdateSourceData ==> text == "provide_data task panicked"@ + ": "@ + e@
            &&& call is WriteDone ==> text == "complete_transfer task panicked"@ + ": "@ + e@
            &&& call is HealthCheck ==> text == "health_check panicked"@ + ": "@ + e@
        },
{
}

} // verus!
