//! File change notifications: what a watcher reports, which reports count as
//! a change of content, and the one replaceable watch on a file of the
//! user's choice.
//!
//! The watchers themselves run in the host, one per file, each with a
//! channel of its own. The host drains the channels once per frame and hands
//! over what it found as a batch of events. However many events a batch
//! holds, it is answered by at most one reload.

use vstd::prelude::*;

verus! {

/// The file a watch is set on.
#[derive(Clone, Copy, Debug, PartialEq, Eq, Structural)]
pub enum WatchTarget {
    /// The source file of the vertex stage.
    VertexStage,
    /// The source file of the fragment stage.
    FragmentStage,
    /// The file the user chose, by the channel of its watch.
    External(u64),
}

/// What a watcher reported.
#[derive(Clone, Copy, Debug, PartialEq, Eq, Structural)]
pub enum ChangeKind {
    /// The file was opened, read or closed.
    Access,
    /// The file was created.
    Create,
    /// The file's content was modified.
    ModifyData,
    /// The file's metadata was modified: times, permissions, ownership.
    ModifyMetadata,
    /// The file was renamed, or modified in a way the watcher cannot tell.
    ModifyOther,
    /// The file was removed.
    Remove,
    /// Any other event.
    Other,
    /// The watcher reported an error in place of an event.
    Fault,
}

/// One drained notification.
#[derive(Clone, Copy, Debug, PartialEq, Eq, Structural)]
pub struct WatchEvent {
    pub target: WatchTarget,
    pub kind: ChangeKind,
}

/// Why a watch on a file of the user's choice could not be set up.
#[derive(Clone, Debug, PartialEq, Eq)]
pub enum WatchSetupError {
    /// The file does not exist.
    NotFound,
    /// The file could not be read.
    Unreadable(String),
    /// The path could not be made absolute.
    Unresolvable(String),
    /// No watcher could be created.
    WatcherFailed(String),
    /// The watcher could not be set on the file.
    WatchFailed(String),
    /// The platform has no file watching.
    Unavailable,
}

/// The watch on the file of the user's choice.
#[derive(Clone, Debug, PartialEq, Eq)]
pub struct WatchHandle {
    path: String,
    channel: u64,
}

/// What a `WatchHandle` holds.
pub struct WatchHandleView {
    /// Path of the watched file.
    pub path: Seq<char>,
    /// Number of the channel that carries the watch's events.
    pub channel: u64,
}

impl View for WatchHandle {
    type V = WatchHandleView;

    closed spec fn view(&self) -> WatchHandleView {
        WatchHandleView { path: self.path@, channel: self.channel }
    }
}

impl WatchHandle {
    /// Path of the watched file.
    pub fn path(&self) -> (path: &String)
        ensures
            path@ == self@.path,
    {
        &self.path
    }

    /// Number of the channel that carries the watch's events.
    pub fn channel(&self) -> (channel: u64)
        ensures
            channel == self@.channel,
    {
        self.channel
    }
}

/// Whether an event on one of the two stage files is a change of content.
pub open spec fn stage_trigger(event: WatchEvent) -> bool {
    &&& event.target is VertexStage || event.target is FragmentStage
    &&& event.kind is ModifyData
}

/// Whether a report on the user's file is a change of content: the file was
/// created anew or modified, but for its metadata alone.
pub open spec fn content_changed(kind: ChangeKind) -> bool {
    kind is Create || kind is ModifyData || kind is ModifyOther
}

/// Whether a batch holds a change of content of a stage file.
pub open spec fn stage_changed(events: Seq<WatchEvent>) -> bool {
    exists|i: int| 0 <= i < events.len() && stage_trigger(#[trigger] events[i])
}

/// What one batch of events comes to.
#[derive(Clone, Copy, Debug, PartialEq, Eq, Structural)]
pub struct Changes {
    /// The content of a stage file changed.
    pub stages: bool,
    /// The content of the user's file changed.
    pub external: bool,
}

/// What a `ChangeNotifier` holds.
pub struct NotifierState {
    /// The watch on the user's file, where one was set up.
    pub external: Option<WatchHandleView>,
    /// Whether events of that watch are followed.
    pub monitoring: bool,
}

impl NotifierState {
    /// The state before any file was chosen.
    pub open spec fn initial() -> NotifierState {
        NotifierState { external: None, monitoring: false }
    }

    /// The channel number that the next watch gets: one more than that of
    /// the watch it replaces, starting over at zero past the largest
    /// number.
    pub open spec fn next_channel(self) -> u64 {
        match self.external {
            None => 0,
            Some(handle) => if handle.channel == u64::MAX {
                0
            } else {
                (handle.channel + 1) as u64
            },
        }
    }

    /// The state after the watch was replaced by one on `path`.
    pub open spec fn replace(self, path: Seq<char>) -> NotifierState {
        NotifierState {
            external: Some(WatchHandleView { path, channel: self.next_channel() }),
            monitoring: true,
        }
    }

    /// The state after the watch was replaced by one on each of `paths` in
    /// turn.
    pub open spec fn replace_all(self, paths: Seq<Seq<char>>) -> NotifierState
        decreases paths.len(),
    {
        if paths.len() == 0 {
            self
        } else {
            self.replace_all(paths.drop_last()).replace(paths.last())
        }
    }

    /// The channel the host is to drain for the user's file: that of the
    /// current watch while it is followed.
    pub open spec fn polled_channel(self) -> Option<u64> {
        match self.external {
            Some(handle) if self.monitoring => Some(handle.channel),
            _ => None,
        }
    }

    /// Whether an event is a change of content of the user's file: it came
    /// through the channel of the current watch, the watch is followed, and
    /// the report is one of a changed content.
    pub open spec fn external_trigger(self, event: WatchEvent) -> bool {
        &&& self.polled_channel() matches Some(channel)
        &&& event.target == WatchTarget::External(channel)
        &&& content_changed(event.kind)
    }

    /// Whether a batch holds a change of content of the user's file.
    pub open spec fn external_changed(self, events: Seq<WatchEvent>) -> bool {
        exists|i: int| 0 <= i < events.len() && self.external_trigger(#[trigger] events[i])
    }

    /// What a batch comes to.
    pub open spec fn changes(self, events: Seq<WatchEvent>) -> Changes {
        Changes { stages: stage_changed(events), external: self.external_changed(events) }
    }
}

/// Keeps the watch on the file of the user's choice and tells which
/// notifications call for a reload.
#[derive(Clone, Debug, PartialEq, Eq)]
pub struct ChangeNotifier {
    external: Option<WatchHandle>,
    monitoring: bool,
}

impl View for ChangeNotifier {
    type V = NotifierState;

    closed spec fn view(&self) -> NotifierState {
        NotifierState {
            external: match self.external {
                Some(handle) => Some(handle@),
                None => None,
            },
            monitoring: self.monitoring,
        }
    }
}

impl ChangeNotifier {
    /// A notifier without a watch on a file of the user's choice.
    pub fn new() -> (notifier: ChangeNotifier)
        ensures
            notifier@ == NotifierState::initial(),
    {
        ChangeNotifier { external: None, monitoring: false }
    }

    /// Replaces the watch on the user's file by one on `path` and turns
    /// monitoring on. Returns the channel number of the new watch, which
    /// differs from that of the watch it replaces.
    pub fn replace_external(&mut self, path: String) -> (channel: u64)
        ensures
            channel == old(self)@.next_channel(),
            final(self)@ == old(self)@.replace(path@),
    {
        let next: u64 = match &self.external {
            None => 0,
            Some(handle) => {
                if handle.channel == u64::MAX {
                    0
                } else {
                    handle.channel + 1
                }
            },
        };
        self.external = Some(WatchHandle { path, channel: next });
        self.monitoring = true;
        next
    }

    /// Turns following the watch on the user's file on or off.
    pub fn set_monitoring(&mut self, monitoring: bool)
        ensures
            final(self)@ == (NotifierState { external: old(self)@.external, monitoring }),
    {
        self.monitoring = monitoring;
    }

    /// Whether the watch on the user's file is followed.
    pub fn is_monitoring(&self) -> (monitoring: bool)
        ensures
            monitoring == self@.monitoring,
    {
        self.monitoring
    }

    /// The watch on the user's file, where one was set up.
    pub fn external(&self) -> (handle: Option<&WatchHandle>)
        ensures
            match handle {
                Some(h) => self@.external == Some(h@),
                None => self@.external.is_none(),
            },
    {
        self.external.as_ref()
    }

    /// The channel the host is to drain for the user's file this frame.
    pub fn polled_channel(&self) -> (channel: Option<u64>)
        ensures
            channel == self@.polled_channel(),
    {
        match &self.external {
            Some(handle) => {
                if self.monitoring {
                    Some(handle.channel)
                } else {
                    None
                }
            },
            None => None,
        }
    }

    /// Coalesces a batch of drained events into what it comes to: whether a
    /// stage file changed, and whether the user's file changed. A batch with
    /// many changes of one file comes to the same as a batch with one.
    pub fn coalesce(&self, events: &Vec<WatchEvent>) -> (changes: Changes)
        ensures
            changes == self@.changes(events@),
    {
        let polled = self.polled_channel();
        let mut stages = false;
        let mut external = false;
        let mut i: usize = 0;
        while i < events.len()
            invariant
                i <= events.len(),
                polled == self@.polled_channel(),
                stages == stage_changed(events@.take(i as int)),
                external == self@.external_changed(events@.take(i as int)),
            decreases events.len() - i,
        {
            let event = events[i];
            let by_stage = match event.target {
                WatchTarget::External(_) => false,
                _ => match event.kind {
                    ChangeKind::ModifyData => true,
                    _ => false,
                },
            };
            let by_external = match (polled, event.target) {
                (Some(channel), WatchTarget::External(source)) => source == channel && match event.kind {
                    ChangeKind::Create | ChangeKind::ModifyData | ChangeKind::ModifyOther => true,
                    _ => false,
                },
                _ => false,
            };
            proof {
                let before = events@.take(i as int);
                let after = events@.take(i + 1);
                assert(after[i as int] == event);
                assert(by_stage == stage_trigger(event));
                assert(by_external == self@.external_trigger(event));
                assert forall|j: int| 0 <= j < before.len() implies before[j] == after[j] by {}
                if stage_changed(before) {
                    let j = choose|j: int| 0 <= j < before.len() && stage_trigger(#[trigger] before[j]);
                    assert(stage_trigger(after[j]));
                }
                if self@.external_changed(before) {
                    let j = choose|j: int|
                        0 <= j < before.len() && self@.external_trigger(#[trigger] before[j]);
                    assert(self@.external_trigger(after[j]));
                }
                if stage_changed(after) && !by_stage {
                    let j = choose|j: int| 0 <= j < after.len() && stage_trigger(#[trigger] after[j]);
                    assert(stage_trigger(before[j]));
                }
                if self@.external_changed(after) && !by_external {
                    let j = choose|j: int|
                        0 <= j < after.len() && self@.external_trigger(#[trigger] after[j]);
                    assert(self@.external_trigger(before[j]));
                }
            }
            stages = stages || by_stage;
            external = external || by_external;
            i += 1;
        }
        proof {
            assert(events@.take(events.len() as int) == events@);
        }
        Changes { stages, external }
    }
}

/// A replaced watch is told apart from every watch that follows it: after
/// any number of replacements from one up to 2^64 - 1, the channel of the
/// current watch differs from the channel of the watch that was there at
/// first.
pub proof fn lemma_replaced_channel_differs(state: NotifierState, paths: Seq<Seq<char>>)
    requires
        state.external.is_some(),
        1 <= paths.len() <= u64::MAX,
    ensures
        state.replace_all(paths).external.is_some(),
        state.replace_all(paths).external.unwrap().channel != state.external.unwrap().channel,
        state.replace_all(paths).external.unwrap().path == paths.last(),
        state.replace_all(paths).monitoring,
{
    lemma_replaced_channel(state, paths);
}

/// The channel after a run of replacements is the first one moved on by the
/// number of replacements, counted modulo 2^64.
proof fn lemma_replaced_channel(state: NotifierState, paths: Seq<Seq<char>>)
    requires
        state.external.is_some(),
    ensures
        state.replace_all(paths).external.is_some(),
        state.replace_all(paths).external.unwrap().channel == (state.external.unwrap().channel
            + paths.len()) % 0x1_0000_0000_0000_0000,
        paths.len() > 0 ==> state.replace_all(paths).external.unwrap().path == paths.last(),
        paths.len() > 0 ==> state.replace_all(paths).monitoring,
    decreases paths.len(),
{
    if paths.len() > 0 {
        lemma_replaced_channel(state, paths.drop_last());
    }
}

} // verus!
