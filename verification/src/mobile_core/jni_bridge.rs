//! What an application for Android sees of the viewer: handles, commands, events and
//! frames.

use vstd::prelude::*;

use super::viewer::MediaPlayerEvent;
use crate::be_bytes::{
    be_bytes, be_value, lemma_be_bytes_len, lemma_be_roundtrip, lemma_byte_ranges, push_be_u64,
};
use crate::byte_buf::bytes_slice;
use crate::json::{
    item_view, json_bool, json_entries, json_fault, json_items, json_text, read_bool, read_entries,
    read_fault, read_items, read_text,
};
use crate::proto::control::ControlResponse;
use crate::proto::media_packet::{MediaPacket, PacketView};
use crate::text_map::TextMap;

verus! {

broadcast use vstd::string::group_string_axioms;

/// What the application is told.
#[derive(Debug, Clone)]
pub enum ViewerEvent {
    Connecting,
    Connected { peer_id: String, connection_type: String },
    StreamReady,
    DirectUpgraded { connection_type: String },
    Disconnected,
    Error { message: String },
}

/// An event with sequences for texts.
pub enum ViewerEventView {
    Connecting,
    Connected { peer_id: Seq<char>, connection_type: Seq<char> },
    StreamReady,
    DirectUpgraded { connection_type: Seq<char> },
    Disconnected,
    Error { message: Seq<char> },
}

impl View for ViewerEvent {
    type V = ViewerEventView;

    open spec fn view(&self) -> ViewerEventView {
        match self {
            ViewerEvent::Connecting => ViewerEventView::Connecting,
            ViewerEvent::Connected { peer_id, connection_type } => ViewerEventView::Connected {
                peer_id: peer_id@,
                connection_type: connection_type@,
            },
            ViewerEvent::StreamReady => ViewerEventView::StreamReady,
            ViewerEvent::DirectUpgraded { connection_type } => ViewerEventView::DirectUpgraded {
                connection_type: connection_type@,
            },
            ViewerEvent::Disconnected => ViewerEventView::Disconnected,
            ViewerEvent::Error { message } => ViewerEventView::Error { message: message@ },
        }
    }
}

/// Where the worker behind a handle stands.
#[derive(Debug, Clone, Copy, PartialEq, Eq, Structural)]
pub enum Phase {
    /// It waits for the command to connect.
    Idle,
    /// It creates the viewer.
    Creating,
    /// It connects for the first time.
    Connecting,
    /// It plays.
    Running,
    /// It connects again.
    Reconnecting,
    /// It has ended.
    Stopped,
}

/// What happens to a worker.
#[derive(Debug)]
pub enum WorkerInput {
    /// It could not be started.
    RuntimeFailed { error: String },
    /// The command to connect.
    Connect { device_id: String, no_audio: bool },
    /// The command to send a control request.
    Control,
    /// No more commands will come.
    CommandsClosed,
    /// The viewer was created, or why it was not.
    Created(Result<(), String>),
    /// The camera was connected, or why it was not.
    ConnectDone(Result<(), String>),
    /// The viewer reports an event.
    Player(MediaPlayerEvent),
    /// The handle was destroyed.
    Shutdown,
}

/// What a worker has to do.
#[derive(Debug)]
pub enum WorkerAction {
    /// Tell the application.
    Emit(ViewerEvent),
    /// Create the viewer.
    CreateViewer,
    /// Connect with what the command says.
    Connect,
    /// Connect again.
    Reconnect,
    /// Answer a control request: there is no connection yet.
    ReplyNotConnected,
    /// Send a control request to the camera.
    ForwardControl,
    /// Do without hole punching from the next connection on.
    DisableDcutr,
    /// Drop what would carry audio to the application.
    CloseAudio,
}

/// An action with sequences for texts.
pub enum WorkerActionView {
    Emit(ViewerEventView),
    CreateViewer,
    Connect,
    Reconnect,
    ReplyNotConnected,
    ForwardControl,
    DisableDcutr,
    CloseAudio,
}

impl View for WorkerAction {
    type V = WorkerActionView;

    open spec fn view(&self) -> WorkerActionView {
        match self {
            WorkerAction::Emit(e) => WorkerActionView::Emit(e@),
            WorkerAction::CreateViewer => WorkerActionView::CreateViewer,
            WorkerAction::Connect => WorkerActionView::Connect,
            WorkerAction::Reconnect => WorkerActionView::Reconnect,
            WorkerAction::ReplyNotConnected => WorkerActionView::ReplyNotConnected,
            WorkerAction::ForwardControl => WorkerActionView::ForwardControl,
            WorkerAction::DisableDcutr => WorkerActionView::DisableDcutr,
            WorkerAction::CloseAudio => WorkerActionView::CloseAudio,
        }
    }
}

/// The views of actions.
pub open spec fn worker_action_views(actions: Seq<WorkerAction>) -> Seq<WorkerActionView> {
    actions.map_values(|a: WorkerAction| a@)
}

/// The worker behind a handle: it connects, plays, and connects again when the
/// connection is lost.
#[derive(Debug)]
pub struct ViewerWorker {
    pub phase: Phase,
    /// What the application has asked for.
    pub device_id: String,
    pub no_audio: bool,
}

/// The state of a worker with sequences.
pub struct WorkerView {
    pub phase: Phase,
    pub device_id: Seq<char>,
    pub no_audio: bool,
}

impl View for ViewerWorker {
    type V = WorkerView;

    open spec fn view(&self) -> WorkerView {
        WorkerView {
            phase: self.phase,
            device_id: self.device_id@,
            no_audio: self.no_audio,
        }
    }
}

/// A new state and what to do.
pub struct WorkerStep {
    pub state: WorkerView,
    pub actions: Seq<WorkerActionView>,
}

/// Nothing to do.
pub open spec fn idle(w: WorkerView) -> WorkerStep {
    WorkerStep { state: w, actions: seq![] }
}

/// The worker ends with an error.
pub open spec fn fails(w: WorkerView, what: Seq<char>, error: Seq<char>) -> WorkerStep {
    WorkerStep {
        state: WorkerView { phase: Phase::Stopped, ..w },
        actions: seq![WorkerActionView::Emit(ViewerEventView::Error { message: what + error })],
    }
}

/// The camera is connected.
pub open spec fn plays(w: WorkerView) -> WorkerStep {
    WorkerStep {
        state: WorkerView { phase: Phase::Running, ..w },
        actions: seq![
            WorkerActionView::Emit(
                ViewerEventView::Connected { peer_id: w.device_id, connection_type: "relay"@ },
            ),
            WorkerActionView::Emit(ViewerEventView::StreamReady),
        ],
    }
}

/// The connection is lost.
pub open spec fn reconnects(w: WorkerView) -> WorkerStep {
    WorkerStep {
        state: WorkerView { phase: Phase::Reconnecting, ..w },
        actions: seq![
            WorkerActionView::Emit(ViewerEventView::Disconnected),
            WorkerActionView::Emit(ViewerEventView::Connecting),
            WorkerActionView::Reconnect,
        ],
    }
}

/// What an event of the viewer leads to while it plays.
pub open spec fn player_event_step(w: WorkerView, event: MediaPlayerEvent) -> WorkerStep {
    match event {
        MediaPlayerEvent::Disconnected { .. } => reconnects(w),
        MediaPlayerEvent::StreamEOF { .. } => reconnects(w),
        MediaPlayerEvent::DirectUpgraded { via_lan } => WorkerStep {
            state: w,
            actions: seq![
                WorkerActionView::Emit(
                    ViewerEventView::DirectUpgraded {
                        connection_type: if via_lan {
                            "LAN direct"@
                        } else {
                            "DCUtR"@
                        },
                    },
                ),
            ],
        },
        MediaPlayerEvent::NatDiagnosis { .. } => idle(w),
        MediaPlayerEvent::DcutrBackoff => WorkerStep {
            state: w,
            actions: seq![WorkerActionView::DisableDcutr],
        },
    }
}

/// What an input leads to. An input that does not belong to the phase changes
/// nothing.
pub open spec fn worker_step(w: WorkerView, input: WorkerInput) -> WorkerStep {
    match (w.phase, input) {
        (Phase::Idle, WorkerInput::RuntimeFailed { error }) => fails(
            w,
            "tokio runtime: "@,
            error@,
        ),
        (Phase::Idle, WorkerInput::Connect { device_id, no_audio }) => WorkerStep {
            state: WorkerView { phase: Phase::Creating, device_id: device_id@, no_audio },
            actions: seq![WorkerActionView::CreateViewer],
        },
        (Phase::Idle, WorkerInput::Control) => WorkerStep {
            state: w,
            actions: seq![WorkerActionView::ReplyNotConnected],
        },
        (Phase::Idle, WorkerInput::CommandsClosed) => WorkerStep {
            state: WorkerView { phase: Phase::Stopped, ..w },
            actions: seq![],
        },
        (Phase::Creating, WorkerInput::Created(Ok(_))) => WorkerStep {
            state: WorkerView { phase: Phase::Connecting, ..w },
            actions: seq![
                WorkerActionView::Emit(ViewerEventView::Connecting),
                WorkerActionView::Connect,
            ],
        },
        (Phase::Creating, WorkerInput::Created(Err(e))) => fails(w, "create viewer: "@, e@),
        (Phase::Connecting, WorkerInput::ConnectDone(Ok(_))) => WorkerStep {
            actions: plays(w).actions + if w.no_audio {
                seq![WorkerActionView::CloseAudio]
            } else {
                seq![]
            },
            ..plays(w)
        },
        (Phase::Connecting, WorkerInput::ConnectDone(Err(e))) => fails(
            w,
            "connect failed: "@,
            e@,
        ),
        (Phase::Running, WorkerInput::Player(event)) => player_event_step(w, event),
        (Phase::Running, WorkerInput::Control) => WorkerStep {
            state: w,
            actions: seq![WorkerActionView::ForwardControl],
        },
        (Phase::Running, WorkerInput::Shutdown) => WorkerStep {
            state: WorkerView { phase: Phase::Stopped, ..w },
            actions: seq![],
        },
        (Phase::Reconnecting, WorkerInput::ConnectDone(Ok(_))) => plays(w),
        (Phase::Reconnecting, WorkerInput::ConnectDone(Err(e))) => fails(
            w,
            "reconnect failed: "@,
            e@,
        ),
        _ => idle(w),
    }
}

impl ViewerWorker {
    /// A worker that waits for the command to connect.
    pub fn new() -> (r: ViewerWorker)
        ensures
            r.phase == Phase::Idle,
            r.device_id@ == Seq::<char>::empty(),
            !r.no_audio,
    {
        ViewerWorker { phase: Phase::Idle, device_id: String::new(), no_audio: false }
    }

    fn fail(&mut self, what: &str, error: &str) -> (r: Vec<WorkerAction>)
        ensures
            final(self)@ == fails(old(self)@, what@, error@).state,
            worker_action_views(r@) == fails(old(self)@, what@, error@).actions,
    {
        let mut message = what.to_owned();
        message.append(error);
        self.phase = Phase::Stopped;
        let mut actions: Vec<WorkerAction> = Vec::new();
        actions.push(WorkerAction::Emit(ViewerEvent::Error { message }));
        assert(worker_action_views(actions@) =~= fails(old(self)@, what@, error@).actions);
        actions
    }

    fn play(&mut self) -> (r: Vec<WorkerAction>)
        ensures
            final(self)@ == plays(old(self)@).state,
            worker_action_views(r@) == plays(old(self)@).actions,
    {
        self.phase = Phase::Running;
        let mut actions: Vec<WorkerAction> = Vec::new();
        actions.push(
            WorkerAction::Emit(
                ViewerEvent::Connected {
                    peer_id: self.device_id.clone(),
                    connection_type: "relay".to_owned(),
                },
            ),
        );
        actions.push(WorkerAction::Emit(ViewerEvent::StreamReady));
        assert(worker_action_views(actions@) =~= plays(old(self)@).actions);
        actions
    }

    fn on_player_event(&mut self, event: &MediaPlayerEvent) -> (r: Vec<WorkerAction>)
        ensures
            final(self)@ == player_event_step(old(self)@, *event).state,
            worker_action_views(r@) == player_event_step(old(self)@, *event).actions,
    {
        let ghost step = player_event_step(self@, *event);
        let mut actions: Vec<WorkerAction> = Vec::new();
        match event {
            MediaPlayerEvent::Disconnected { .. } | MediaPlayerEvent::StreamEOF { .. } => {
                self.phase = Phase::Reconnecting;
                actions.push(WorkerAction::Emit(ViewerEvent::Disconnected));
                actions.push(WorkerAction::Emit(ViewerEvent::Connecting));
                actions.push(WorkerAction::Reconnect);
            },
            MediaPlayerEvent::DirectUpgraded { via_lan } => {
                let connection_type = if *via_lan {
                    "LAN direct".to_owned()
                } else {
                    "DCUtR".to_owned()
                };
                actions.push(WorkerAction::Emit(ViewerEvent::DirectUpgraded { connection_type }));
            },
            MediaPlayerEvent::NatDiagnosis { .. } => {},
            MediaPlayerEvent::DcutrBackoff => {
                actions.push(WorkerAction::DisableDcutr);
            },
        }
        assert(worker_action_views(actions@) =~= step.actions);
        actions
    }

    /// Takes in an input and says what to do about it.
    pub fn step(&mut self, input: WorkerInput) -> (r: Vec<WorkerAction>)
        ensures
            final(self)@ == worker_step(old(self)@, input).state,
            worker_action_views(r@) == worker_step(old(self)@, input).actions,
    {
        let ghost step = worker_step(self@, input);
        let mut actions: Vec<WorkerAction> = Vec::new();
        match input {
            WorkerInput::RuntimeFailed { error } => {
                if self.phase == Phase::Idle {
                    return self.fail("tokio runtime: ", error.as_str());
                }
            },
            WorkerInput::Connect { device_id, no_audio } => {
                if self.phase == Phase::Idle {
                    self.phase = Phase::Creating;
                    self.device_id = device_id;
                    self.no_audio = no_audio;
                    actions.push(WorkerAction::CreateViewer);
                }
            },
            WorkerInput::Control => {
                if self.phase == Phase::Idle {
                    actions.push(WorkerAction::ReplyNotConnected);
                } else if self.phase == Phase::Running {
                    actions.push(WorkerAction::ForwardControl);
                }
            },
            WorkerInput::CommandsClosed => {
                if self.phase == Phase::Idle {
                    self.phase = Phase::Stopped;
                }
            },
            WorkerInput::Created(result) => {
                if self.phase == Phase::Creating {
                    match result {
                        Ok(_) => {
                            self.phase = Phase::Connecting;
                            actions.push(WorkerAction::Emit(ViewerEvent::Connecting));
                            actions.push(WorkerAction::Connect);
                        },
                        Err(e) => {
                            return self.fail("create viewer: ", e.as_str());
                        },
                    }
                }
            },
            WorkerInput::ConnectDone(result) => {
                if self.phase == Phase::Connecting {
                    match result {
                        Ok(_) => {
                            actions = self.play();
                            let ghost played = actions@;
                            if self.no_audio {
                                actions.push(WorkerAction::CloseAudio);
                            }
                            assert(worker_action_views(actions@) =~= worker_action_views(played)
                                + if self.no_audio {
                                seq![WorkerActionView::CloseAudio]
                            } else {
                                seq![]
                            });
                        },
                        Err(e) => {
                            return self.fail("connect failed: ", e.as_str());
                        },
                    }
                } else if self.phase == Phase::Reconnecting {
                    match result {
                        Ok(_) => {
                            return self.play();
                        },
                        Err(e) => {
                            return self.fail("reconnect failed: ", e.as_str());
                        },
                    }
                }
            },
            WorkerInput::Player(event) => {
                if self.phase == Phase::Running {
                    return self.on_player_event(&event);
                }
            },
            WorkerInput::Shutdown => {
                if self.phase == Phase::Running {
                    self.phase = Phase::Stopped;
                }
            },
        }
        assert(worker_action_views(actions@) =~= step.actions);
        actions
    }
}

/// The values behind handles. A handle is a place in the table, counted from one;
/// zero is no handle.
pub struct HandleTable<T> {
    slots: Vec<Option<T>>,
}

/// The first free place; the end, where there is none.
pub open spec fn first_free<T>(slots: Seq<Option<T>>) -> int
    decreases slots.len(),
{
    if slots.len() == 0 || slots[0] is None {
        0
    } else {
        1 + first_free(slots.skip(1))
    }
}

proof fn lemma_first_free<T>(slots: Seq<Option<T>>, at: int)
    requires
        0 <= at <= slots.len(),
        forall|k: int| 0 <= k < at ==> (#[trigger] slots[k]) is Some,
        at < slots.len() ==> slots[at] is None,
    ensures
        first_free(slots) == at,
    decreases slots.len(),
{
    if at > 0 {
        let rest = slots.skip(1);
        assert forall|k: int| 0 <= k < at - 1 implies (#[trigger] rest[k]) is Some by {
            assert(rest[k] == slots[k + 1]);
        }
        assert(slots[0] is Some);
        lemma_first_free(rest, at - 1);
    }
}

impl<T> HandleTable<T> {
    pub closed spec fn view(&self) -> Seq<Option<T>> {
        self.slots@
    }

    /// What is behind a handle.
    pub open spec fn behind(&self, handle: int) -> Option<T> {
        if 1 <= handle <= self.view().len() {
            self.view()[handle - 1]
        } else {
            None
        }
    }

    pub fn new() -> (r: HandleTable<T>)
        ensures
            r.view() == Seq::<Option<T>>::empty(),
    {
        HandleTable { slots: Vec::new() }
    }

    /// Puts a value behind a new handle, in the first free place.
    pub fn alloc_handle(&mut self, value: T) -> (handle: usize)
        ensures
            handle == first_free(old(self).view()) + 1,
            final(self).view() == if handle <= old(self).view().len() {
                old(self).view().update(handle - 1, Some(value))
            } else {
                old(self).view().push(Some(value))
            },
    {
        let mut i: usize = 0;
        while i < self.slots.len()
            invariant
                i <= self.slots@.len(),
                self.slots@ == old(self).slots@,
                forall|k: int| 0 <= k < i ==> (#[trigger] self.slots@[k]) is Some,
            decreases self.slots@.len() - i,
        {
            if self.slots[i].is_none() {
                proof {
                    lemma_first_free(self.slots@, i as int);
                }
                self.slots.set(i, Some(value));
                return i + 1;
            }
            i += 1;
        }
        proof {
            lemma_first_free(self.slots@, i as int);
        }
        self.slots.push(Some(value));
        self.slots.len()
    }

    /// Takes out what is behind a handle; its place is free then.
    pub fn take_handle(&mut self, handle: usize) -> (r: Option<T>)
        ensures
            r == old(self).behind(handle as int),
            final(self).view() == if 1 <= handle <= old(self).view().len() {
                old(self).view().update(handle - 1, None)
            } else {
                old(self).view()
            },
    {
        if handle == 0 || handle > self.slots.len() {
            return None;
        }
        let mut slot: Option<T> = None;
        self.slots.set_and_swap(handle - 1, &mut slot);
        slot
    }

    /// What is behind a handle.
    pub fn get(&self, handle: usize) -> (r: Option<&T>)
        ensures
            match self.behind(handle as int) {
                Some(v) => r matches Some(q) && *q == v,
                None => r is None,
            },
    {
        if handle == 0 || handle > self.slots.len() {
            return None;
        }
        self.slots[handle - 1].as_ref()
    }
}

/// A handle as it comes from the application, cut to the width of a pointer.
pub open spec fn handle_value(handle: i64) -> int {
    handle as int % (usize::MAX + 1)
}

proof fn lemma_handle_bits(handle: i64, bits: u64)
    requires
        bits as int == if handle >= 0 {
            handle as int
        } else {
            handle + 0x1_0000_0000_0000_0000
        },
    ensures
        bits as int % (usize::MAX + 1) == handle_value(handle),
{
    if handle < 0 {
        if usize::MAX == 0xffff_ffff {
            vstd::arithmetic::div_mod::lemma_mod_multiples_vanish(
                0x1_0000_0000,
                handle as int,
                0x1_0000_0000,
            );
        } else {
            assert(usize::MAX == 0xffff_ffff_ffff_ffff);
            vstd::arithmetic::div_mod::lemma_mod_multiples_vanish(
                1,
                handle as int,
                0x1_0000_0000_0000_0000,
            );
        }
    }
}

/// The place in the table that a handle from the application stands for, counted
/// from zero.
pub fn handle_to_idx(handle: i64) -> (r: Option<usize>)
    ensures
        r == if handle_value(handle) == 0 {
            None::<usize>
        } else {
            Some((handle_value(handle) - 1) as usize)
        },
{
    let bits: u64 = if handle >= 0 {
        handle as u64
    } else {
        u64::MAX - (-(handle + 1)) as u64
    };
    proof {
        lemma_handle_bits(handle, bits);
    }
    let value: usize = if bits <= usize::MAX as u64 {
        proof {
            vstd::arithmetic::div_mod::lemma_small_mod(bits as nat, (usize::MAX + 1) as nat);
        }
        bits as usize
    } else {
        (bits % (usize::MAX as u64 + 1)) as usize
    };
    assert(value == handle_value(handle));
    if value == 0 {
        return None;
    }
    Some(value - 1)
}

/// The command to connect.
#[derive(Debug)]
pub struct ConnectCommand {
    pub relays: Vec<String>,
    pub device_id: String,
    pub enable_mdns: bool,
    pub serial_map: TextMap,
    pub stream_type: String,
    pub no_audio: bool,
    pub network_type: String,
}

/// What a document says of a connection, field by field.
#[derive(Debug)]
pub struct ConnectDocument {
    pub relays: Option<Vec<Option<String>>>,
    pub device_id: Option<String>,
    pub enable_mdns: Option<bool>,
    pub stream_type: Option<String>,
    pub no_audio: Option<bool>,
    pub network_type: Option<String>,
    pub serial_map: Option<Vec<(String, Option<String>)>>,
}

/// The same with sequences.
pub struct DocumentView {
    pub relays: Option<Seq<Option<Seq<char>>>>,
    pub device_id: Option<Seq<char>>,
    pub enable_mdns: Option<bool>,
    pub stream_type: Option<Seq<char>>,
    pub no_audio: Option<bool>,
    pub network_type: Option<Seq<char>>,
    pub serial_map: Option<Seq<(Seq<char>, Option<Seq<char>>)>>,
}

/// The views of items.
pub open spec fn item_views(items: Seq<Option<String>>) -> Seq<Option<Seq<char>>> {
    items.map_values(|i: Option<String>| item_view(i))
}

/// The views of entries.
pub open spec fn entry_views(entries: Seq<(String, Option<String>)>) -> Seq<
    (Seq<char>, Option<Seq<char>>),
> {
    entries.map_values(|e: (String, Option<String>)| (e.0@, item_view(e.1)))
}

impl View for ConnectDocument {
    type V = DocumentView;

    open spec fn view(&self) -> DocumentView {
        DocumentView {
            relays: match self.relays {
                Some(v) => Some(item_views(v@)),
                None => None,
            },
            device_id: item_view(self.device_id),
            enable_mdns: self.enable_mdns,
            stream_type: item_view(self.stream_type),
            no_audio: self.no_audio,
            network_type: item_view(self.network_type),
            serial_map: match self.serial_map {
                Some(v) => Some(entry_views(v@)),
                None => None,
            },
        }
    }
}

/// The items that are texts.
pub open spec fn text_items(items: Seq<Option<Seq<char>>>) -> Seq<Seq<char>>
    decreases items.len(),
{
    if items.len() == 0 {
        seq![]
    } else {
        match items.last() {
            Some(t) => text_items(items.drop_last()).push(t),
            None => text_items(items.drop_last()),
        }
    }
}

/// The entries that are texts.
pub open spec fn text_entries(entries: Seq<(Seq<char>, Option<Seq<char>>)>) -> Map<
    Seq<char>,
    Seq<char>,
>
    decreases entries.len(),
{
    if entries.len() == 0 {
        Map::empty()
    } else {
        match entries.last().1 {
            Some(t) => text_entries(entries.drop_last()).insert(entries.last().0, t),
            None => text_entries(entries.drop_last()),
        }
    }
}

/// The relays that a document names.
pub open spec fn document_relays(d: DocumentView) -> Seq<Seq<char>> {
    match d.relays {
        Some(items) => text_items(items),
        None => seq![],
    }
}

/// A text, or else another one.
pub open spec fn text_or(t: Option<Seq<char>>, other: Seq<char>) -> Seq<char> {
    match t {
        Some(s) => s,
        None => other,
    }
}

/// Whether a document names at least one relay and the camera.
pub open spec fn document_complete(d: DocumentView) -> bool {
    document_relays(d).len() > 0 && text_or(d.device_id, seq![]).len() > 0
}

/// Whether a command is what a document asks for.
pub open spec fn is_command(d: DocumentView, c: ConnectCommand) -> bool {
    &&& c.relays@.map_values(|t: String| t@) == document_relays(d)
    &&& c.device_id@ == text_or(d.device_id, seq![])
    &&& c.enable_mdns == (d.enable_mdns == Some(true))
    &&& c.serial_map@ == match d.serial_map {
        Some(entries) => text_entries(entries),
        None => Map::empty(),
    }
    &&& c.stream_type@ == text_or(d.stream_type, "auto"@)
    &&& c.no_audio == (d.no_audio == Some(true))
    &&& c.network_type@ == text_or(d.network_type, "auto"@)
}

fn keep_texts(items: Vec<Option<String>>) -> (r: Vec<String>)
    ensures
        r@.map_values(|t: String| t@) == text_items(item_views(items@)),
{
    let ghost views = item_views(items@);
    let mut out: Vec<String> = Vec::new();
    let mut i: usize = 0;
    assert(views.take(0) =~= seq![]);
    assert(out@.map_values(|t: String| t@) =~= seq![]);
    while i < items.len()
        invariant
            i <= items@.len(),
            views == item_views(items@),
            out@.map_values(|t: String| t@) == text_items(views.take(i as int)),
        decreases items@.len() - i,
    {
        let ghost before = out@.map_values(|t: String| t@);
        proof {
            assert(views.take(i as int + 1).drop_last() =~= views.take(i as int));
            assert(views.take(i as int + 1).last() == item_view(items@[i as int]));
        }
        if let Some(t) = &items[i] {
            out.push(t.clone());
            assert(out@.map_values(|t: String| t@) =~= before.push(t@));
        }
        i += 1;
    }
    assert(views.take(views.len() as int) =~= views);
    out
}

fn keep_entries(entries: Vec<(String, Option<String>)>) -> (r: TextMap)
    ensures
        r@ == text_entries(entry_views(entries@)),
{
    let ghost views = entry_views(entries@);
    let mut out = TextMap::new();
    let mut i: usize = 0;
    assert(views.take(0) =~= seq![]);
    while i < entries.len()
        invariant
            i <= entries@.len(),
            views == entry_views(entries@),
            out@ == text_entries(views.take(i as int)),
        decreases entries@.len() - i,
    {
        proof {
            assert(views.take(i as int + 1).drop_last() =~= views.take(i as int));
            assert(views.take(i as int + 1).last() == (
                entries@[i as int].0@,
                item_view(entries@[i as int].1),
            ));
        }
        if let Some(t) = &entries[i].1 {
            out.insert(entries[i].0.as_str(), t.as_str());
        }
        i += 1;
    }
    assert(views.take(views.len() as int) =~= views);
    out
}

fn text_or_else(t: Option<String>, other: &str) -> (r: String)
    ensures
        r@ == text_or(item_view(t), other@),
{
    match t {
        Some(s) => s,
        None => other.to_owned(),
    }
}

/// The command that a document asks for; none, where it names no relay or no camera.
pub fn command_from_document(doc: ConnectDocument) -> (r: Option<ConnectCommand>)
    ensures
        r is Some <==> document_complete(doc@),
        r matches Some(c) ==> is_command(doc@, c),
{
    proof {
        reveal_strlit("");
        assert(""@ =~= Seq::<char>::empty());
    }
    let relays = match doc.relays {
        Some(items) => keep_texts(items),
        None => Vec::new(),
    };
    let device_id = text_or_else(doc.device_id, "");
    let serial_map = match doc.serial_map {
        Some(entries) => keep_entries(entries),
        None => TextMap::new(),
    };
    assert(relays@.map_values(|t: String| t@) =~= document_relays(doc@));
    if relays.len() == 0 || device_id.as_str().is_empty() {
        return None;
    }
    Some(
        ConnectCommand {
            relays,
            device_id,
            enable_mdns: doc.enable_mdns == Some(true),
            serial_map,
            stream_type: text_or_else(doc.stream_type, "auto"),
            no_audio: doc.no_audio == Some(true),
            network_type: text_or_else(doc.network_type, "auto"),
        },
    )
}

/// What a JSON text says of a connection.
pub open spec fn json_document(json: Seq<char>) -> DocumentView {
    DocumentView {
        relays: json_items(json, "relays"@),
        device_id: json_text(json, "deviceId"@),
        enable_mdns: json_bool(json, "enable_mdns"@),
        stream_type: json_text(json, "stream_type"@),
        no_audio: json_bool(json, "no_audio"@),
        network_type: json_text(json, "network_type"@),
        serial_map: json_entries(json, "serial_map"@),
    }
}

/// Why a text is no command to connect.
#[derive(Debug)]
pub enum CommandError {
    /// It is no JSON.
    InvalidJson(String),
    /// It names no relay or no camera.
    Incomplete,
}

/// The command that a JSON text asks for.
pub fn parse_connect_command(json: &str) -> (r: Result<ConnectCommand, CommandError>)
    ensures
        match json_fault(json@) {
            Some(e) => r matches Err(CommandError::InvalidJson(t)) && t@ == e,
            None => if document_complete(json_document(json@)) {
                r matches Ok(c) && is_command(json_document(json@), c)
            } else {
                r matches Err(CommandError::Incomplete)
            },
        },
{
    if let Some(e) = read_fault(json) {
        return Err(CommandError::InvalidJson(e));
    }
    let doc = ConnectDocument {
        relays: read_items(json, "relays"),
        device_id: read_text(json, "deviceId"),
        enable_mdns: read_bool(json, "enable_mdns"),
        stream_type: read_text(json, "stream_type"),
        no_audio: read_bool(json, "no_audio"),
        network_type: read_text(json, "network_type"),
        serial_map: read_entries(json, "serial_map"),
    };
    assert(doc@ == json_document(json@));
    match command_from_document(doc) {
        Some(c) => Ok(c),
        None => Err(CommandError::Incomplete),
    }
}

/// The text that the application is told why a text is no command to connect.
pub fn command_error_text(error: &CommandError) -> (r: String)
    ensures
        r@ == match *error {
            CommandError::InvalidJson(e) => "invalid json: "@ + e@,
            CommandError::Incomplete => "relays and deviceId are required"@,
        },
{
    match error {
        CommandError::InvalidJson(e) => {
            let mut s = "invalid json: ".to_owned();
            s.append(e.as_str());
            s
        },
        CommandError::Incomplete => "relays and deviceId are required".to_owned(),
    }
}

/// The time of a packet for the application: microseconds in eight bytes, most
/// significant first.
pub open spec fn pts_bytes(p: PacketView) -> Seq<u8> {
    be_bytes(p.timestamp_ms as nat * 1000, 8)
}

/// A video packet for the application: its time, its flags, its data.
pub open spec fn video_frame(p: PacketView) -> Seq<u8> {
    pts_bytes(p) + seq![p.flags] + p.data
}

/// An audio packet for the application: its time and its data.
pub open spec fn audio_frame(p: PacketView) -> Seq<u8> {
    pts_bytes(p) + p.data
}

/// A video packet for the application. An array there holds no more than
/// `i32::MAX` bytes.
pub fn video_frame_bytes(packet: &MediaPacket) -> (r: Option<Vec<u8>>)
    requires
        packet.timestamp_ms * 1000 <= u64::MAX,
    ensures
        r is Some <==> video_frame(packet@).len() <= i32::MAX,
        r matches Some(v) ==> v@ == video_frame(packet@),
{
    let data = bytes_slice(&packet.data);
    proof {
        lemma_be_bytes_len(packet.timestamp_ms as nat * 1000, 8);
    }
    if data.len() > 0x7fff_ffff - 9 {
        return None;
    }
    let mut out: Vec<u8> = Vec::new();
    push_be_u64(&mut out, packet.timestamp_ms * 1000);
    out.push(packet.flags);
    out.extend_from_slice(data);
    assert(out@ =~= video_frame(packet@));
    Some(out)
}

/// An audio packet for the application.
pub fn audio_frame_bytes(packet: &MediaPacket) -> (r: Option<Vec<u8>>)
    requires
        packet.timestamp_ms * 1000 <= u64::MAX,
    ensures
        r is Some <==> audio_frame(packet@).len() <= i32::MAX,
        r matches Some(v) ==> v@ == audio_frame(packet@),
{
    let data = bytes_slice(&packet.data);
    proof {
        lemma_be_bytes_len(packet.timestamp_ms as nat * 1000, 8);
    }
    if data.len() > 0x7fff_ffff - 8 {
        return None;
    }
    let mut out: Vec<u8> = Vec::new();
    push_be_u64(&mut out, packet.timestamp_ms * 1000);
    out.extend_from_slice(data);
    assert(out@ =~= audio_frame(packet@));
    Some(out)
}

/// Why a control command has no answer of the camera.
#[derive(Debug, Clone, Copy, PartialEq, Eq, Structural)]
pub enum CommandFailure {
    InvalidHandle,
    InvalidString,
    NotSent,
    Timeout,
    NotConnected,
}

/// The answer to a control command that does not come from the camera.
pub fn command_failure(failure: CommandFailure) -> (r: ControlResponse)
    ensures
        r.is_error(
            match failure {
                CommandFailure::InvalidHandle => "invalid handle"@,
                CommandFailure::InvalidString => "invalid json string"@,
                CommandFailure::NotSent => "failed to send control command"@,
                CommandFailure::Timeout => "control command timeout"@,
                CommandFailure::NotConnected => "not connected"@,
            },
        ),
{
    match failure {
        CommandFailure::InvalidHandle => ControlResponse::err("invalid handle"),
        CommandFailure::InvalidString => ControlResponse::err("invalid json string"),
        CommandFailure::NotSent => ControlResponse::err("failed to send control command"),
        CommandFailure::Timeout => ControlResponse::err("control command timeout"),
        CommandFailure::NotConnected => ControlResponse::err("not connected"),
    }
}

/// A new handle leads to its value, and all other handles to what they led to.
pub proof fn law_new_handle<T>(before: HandleTable<T>, after: HandleTable<T>, value: T, other: int)
    requires
        ({
            let handle = first_free(before.view()) + 1;
            after.view() == if handle <= before.view().len() {
                before.view().update(handle - 1, Some(value))
            } else {
                before.view().push(Some(value))
            }
        }),
        other != first_free(before.view()) + 1,
    ensures
        after.behind(first_free(before.view()) + 1) == Some(value),
        before.behind(first_free(before.view()) + 1) is None,
        after.behind(other) == before.behind(other),
{
    lemma_first_free_bounds(before.view());
}

proof fn lemma_first_free_bounds<T>(slots: Seq<Option<T>>)
    ensures
        0 <= first_free(slots) <= slots.len(),
        first_free(slots) < slots.len() ==> slots[first_free(slots)] is None,
    decreases slots.len(),
{
    if slots.len() > 0 && slots[0] is Some {
        lemma_first_free_bounds(slots.skip(1));
    }
}

/// A handle that was taken leads nowhere, and all others to what they led to.
pub proof fn law_taken_handle<T>(
    before: HandleTable<T>,
    after: HandleTable<T>,
    handle: int,
    other: int,
)
    requires
        after.view() == if 1 <= handle <= before.view().len() {
            before.view().update(handle - 1, None)
        } else {
            before.view()
        },
        other != handle,
    ensures
        after.behind(handle) is None,
        after.behind(other) == before.behind(other),
{
}

/// A worker that has ended does nothing any more.
pub proof fn law_stopped_worker_is_silent(w: WorkerView, input: WorkerInput)
    requires
        w.phase == Phase::Stopped,
    ensures
        worker_step(w, input) == idle(w),
{
}

/// When the connection is lost while it plays, the worker tells the application and
/// connects again; the application is then told that it plays, or why not.
pub proof fn law_lost_connection_is_reconnected(w: WorkerView, reason: String, e: String)
    requires
        w.phase == Phase::Running,
    ensures
        ({
            let lost = worker_step(
                w,
                WorkerInput::Player(MediaPlayerEvent::Disconnected { reason }),
            );
            &&& lost.actions.contains(WorkerActionView::Emit(ViewerEventView::Disconnected))
            &&& lost.actions.contains(WorkerActionView::Reconnect)
            &&& worker_step(lost.state, WorkerInput::ConnectDone(Ok(()))).state == w
            &&& worker_step(lost.state, WorkerInput::ConnectDone(Err(e))).state.phase
                == Phase::Stopped
        }),
{
    let lost = worker_step(w, WorkerInput::Player(MediaPlayerEvent::Disconnected { reason }));
    assert(lost.actions[0] == WorkerActionView::Emit(ViewerEventView::Disconnected));
    assert(lost.actions[2] is Reconnect);
    assert(lost.actions[2] == WorkerActionView::Reconnect);
}

/// The application finds the time of a video packet in microseconds in the first eight
/// bytes, its flags in the next, and its data behind them.
pub proof fn law_video_frame_layout(p: PacketView)
    requires
        p.timestamp_ms * 1000 <= u64::MAX,
    ensures
        be_value(video_frame(p).take(8)) == p.timestamp_ms * 1000,
        video_frame(p)[8] == p.flags,
        video_frame(p).skip(9) == p.data,
{
    let us = p.timestamp_ms as nat * 1000;
    lemma_be_bytes_len(us, 8);
    lemma_byte_ranges();
    lemma_be_roundtrip(us, 8);
    assert(video_frame(p).take(8) =~= pts_bytes(p));
    assert(video_frame(p).skip(9) =~= p.data);
}

/// The application finds the time of an audio packet in microseconds in the first
/// eight bytes, and its data behind them.
pub proof fn law_audio_frame_layout(p: PacketView)
    requires
        p.timestamp_ms * 1000 <= u64::MAX,
    ensures
        be_value(audio_frame(p).take(8)) == p.timestamp_ms * 1000,
        audio_frame(p).skip(8) == p.data,
{
    let us = p.timestamp_ms as nat * 1000;
    lemma_be_bytes_len(us, 8);
    lemma_byte_ranges();
    lemma_be_roundtrip(us, 8);
    assert(audio_frame(p).take(8) =~= pts_bytes(p));
    assert(audio_frame(p).skip(8) =~= p.data);
}

/// A worker that nobody has asked anything yet connects once it is asked: a viewer is made
/// first, for the device and with the audio that were asked for, and once there is one,
/// the connection is announced and begun.
pub proof fn law_worker_connects(w: WorkerView, device_id: String, no_audio: bool)
    requires
        w.phase == Phase::Idle,
    ensures
        ({
            let asked = worker_step(w, WorkerInput::Connect { device_id, no_audio });
            let made = worker_step(asked.state, WorkerInput::Created(Ok(())));
            &&& asked.actions == seq![WorkerActionView::CreateViewer]
            &&& asked.state.device_id == device_id@ && asked.state.no_audio == no_audio
            &&& made.actions == seq![
                WorkerActionView::Emit(ViewerEventView::Connecting),
                WorkerActionView::Connect,
            ]
            &&& made.state.device_id == device_id@ && made.state.no_audio == no_audio
            &&& made.state.phase == Phase::Connecting
        }),
{
}

/// A connection that was made is announced with the device that was asked for, then the
/// stream; audio is closed only where it was not wanted, and only at the first connection.
pub proof fn law_worker_plays(w: WorkerView)
    requires
        w.phase == Phase::Connecting || w.phase == Phase::Reconnecting,
    ensures
        ({
            let step = worker_step(w, WorkerInput::ConnectDone(Ok(())));
            let closes = w.no_audio && w.phase == Phase::Connecting;
            &&& step.state == (WorkerView { phase: Phase::Running, ..w })
            &&& step.actions.len() == if closes {
                3
            } else {
                2int
            }
            &&& step.actions[0] matches WorkerActionView::Emit(
                ViewerEventView::Connected { peer_id, connection_type },
            ) && peer_id == w.device_id && connection_type == "relay"@
            &&& step.actions[1] == WorkerActionView::Emit(ViewerEventView::StreamReady)
            &&& closes ==> step.actions[2] == WorkerActionView::CloseAudio
        }),
{
}

/// Whatever fails before the stream plays stops the worker with an error that says what
/// failed, and why.
pub proof fn law_worker_failures(w: WorkerView, error: String)
    ensures
        ({
            let stopped = |what: Seq<char>| WorkerStep {
                state: WorkerView { phase: Phase::Stopped, ..w },
                actions: seq![
                    WorkerActionView::Emit(ViewerEventView::Error { message: what + error@ }),
                ],
            };
            &&& w.phase == Phase::Idle ==> worker_step(w, WorkerInput::RuntimeFailed { error })
                == stopped("tokio runtime: "@)
            &&& w.phase == Phase::Creating ==> worker_step(w, WorkerInput::Created(Err(error)))
                == stopped("create viewer: "@)
            &&& w.phase == Phase::Connecting ==> worker_step(
                w,
                WorkerInput::ConnectDone(Err(error)),
            ) == stopped("connect failed: "@)
            &&& w.phase == Phase::Reconnecting ==> worker_step(
                w,
                WorkerInput::ConnectDone(Err(error)),
            ) == stopped("reconnect failed: "@)
        }),
{
}

/// While it plays, a lost connection or the end of the stream leads to a reconnect, told
/// as disconnected and connecting, in this order; an upgrade is told with its kind; the
/// advice to do without hole punching is followed; what is known of the NAT is not told.
/// Control requests are handed on, and only a shutdown ends it.
pub proof fn law_worker_runs(w: WorkerView, reason: String, via_lan: bool, event: MediaPlayerEvent)
    requires
        w.phase == Phase::Running,
    ensures
        ({
            let lost = worker_step(
                w,
                WorkerInput::Player(MediaPlayerEvent::Disconnected { reason }),
            );
            let ended = worker_step(w, WorkerInput::Player(MediaPlayerEvent::StreamEOF { reason }));
            let upgraded = worker_step(
                w,
                WorkerInput::Player(MediaPlayerEvent::DirectUpgraded { via_lan }),
            );
            let advised = worker_step(w, WorkerInput::Player(MediaPlayerEvent::DcutrBackoff));
            &&& lost.actions == seq![
                WorkerActionView::Emit(ViewerEventView::Disconnected),
                WorkerActionView::Emit(ViewerEventView::Connecting),
                WorkerActionView::Reconnect,
            ]
            &&& lost.state == (WorkerView { phase: Phase::Reconnecting, ..w })
            &&& ended.actions == lost.actions && ended.state == lost.state
            &&& upgraded.state == w && upgraded.actions == seq![
                WorkerActionView::Emit(
                    ViewerEventView::DirectUpgraded {
                        connection_type: if via_lan {
                            "LAN direct"@
                        } else {
                            "DCUtR"@
                        },
                    },
                ),
            ]
            &&& advised.state == w && advised.actions == seq![WorkerActionView::DisableDcutr]
            &&& event is NatDiagnosis ==> worker_step(w, WorkerInput::Player(event)).state == w
                && worker_step(w, WorkerInput::Player(event)).actions.len() == 0
            &&& worker_step(w, WorkerInput::Control).actions == seq![
                WorkerActionView::ForwardControl,
            ]
            &&& worker_step(w, WorkerInput::Control).state == w
            &&& worker_step(w, WorkerInput::Shutdown).state.phase == Phase::Stopped
            &&& worker_step(w, WorkerInput::Shutdown).actions.len() == 0
        }),
{
}

/// A control request before the connection is answered that there is none, and nothing
/// changes; without commands to come the worker stops.
pub proof fn law_idle_worker(w: WorkerView)
    requires
        w.phase == Phase::Idle,
    ensures
        worker_step(w, WorkerInput::Control).state == w,
        worker_step(w, WorkerInput::Control).actions == seq![WorkerActionView::ReplyNotConnected],
        worker_step(w, WorkerInput::CommandsClosed).state.phase == Phase::Stopped,
        worker_step(w, WorkerInput::CommandsClosed).actions.len() == 0,
{
}

/// What does not belong to the phase changes nothing.
pub proof fn law_worker_ignores_the_rest(w: WorkerView, input: WorkerInput)
    requires
        match input {
            WorkerInput::RuntimeFailed { .. } => w.phase != Phase::Idle,
            WorkerInput::Connect { .. } => w.phase != Phase::Idle,
            WorkerInput::CommandsClosed => w.phase != Phase::Idle,
            WorkerInput::Control => w.phase != Phase::Idle && w.phase != Phase::Running,
            WorkerInput::Created(_) => w.phase != Phase::Creating,
            WorkerInput::ConnectDone(_) => w.phase != Phase::Connecting && w.phase
                != Phase::Reconnecting,
            WorkerInput::Player(_) => w.phase != Phase::Running,
            WorkerInput::Shutdown => w.phase != Phase::Running,
        },
    ensures
        worker_step(w, input).state == w,
        worker_step(w, input).actions.len() == 0,
{
}

/// The handle given out next is the lowest that is free: all lower ones are taken.
pub proof fn law_lowest_handle_first<T>(slots: Seq<Option<T>>, i: int)
    requires
        0 <= i <= slots.len(),
        forall|k: int| 0 <= k < i ==> (#[trigger] slots[k]) is Some,
        i < slots.len() ==> slots[i] is None,
    ensures
        first_free(slots) == i,
    decreases slots.len(),
{
    if i > 0 {
        assert(slots[0] is Some);
        assert forall|k: int| 0 <= k < i - 1 implies (#[trigger] slots.skip(1)[k]) is Some by {
            assert(slots.skip(1)[k] == slots[k + 1]);
        }
        law_lowest_handle_first(slots.skip(1), i - 1);
    }
}

/// A handle that came through the bridge is the number that was given out; zero and only
/// zero is none.
pub proof fn law_handles_come_back(handle: i64)
    ensures
        0 < handle <= usize::MAX ==> handle_value(handle) == handle,
        handle == 0 ==> handle_value(handle) == 0,
        0 <= handle_value(handle) <= usize::MAX,
{
    if 0 < handle <= usize::MAX {
        vstd::arithmetic::div_mod::lemma_small_mod(handle as nat, (usize::MAX + 1) as nat);
    }
}

/// What a document asks for: its relays in order without what is no text, its device, and
/// for all else what is said or a default. It is complete exactly where it has a relay and
/// a device.
pub proof fn law_document_is_followed(d: DocumentView, c: ConnectCommand)
    requires
        is_command(d, c),
    ensures
        document_complete(d) <==> c.relays@.len() > 0 && c.device_id@.len() > 0,
        d.relays is None ==> c.relays@.len() == 0,
        d.device_id matches Some(t) ==> c.device_id@ == t,
        c.enable_mdns <==> d.enable_mdns == Some(true),
        c.no_audio <==> d.no_audio == Some(true),
        d.stream_type matches Some(t) ==> c.stream_type@ == t,
        d.stream_type is None ==> c.stream_type@ == "auto"@,
        d.network_type matches Some(t) ==> c.network_type@ == t,
        d.network_type is None ==> c.network_type@ == "auto"@,
        d.serial_map is None ==> c.serial_map@ == Map::<Seq<char>, Seq<char>>::empty(),
        d.relays matches Some(items) ==> c.relays@.map_values(|t: String| t@) == items.filter(
            |i: Option<Seq<char>>| i is Some,
        ).map_values(|i: Option<Seq<char>>| i->0),
{
    assert(c.relays@.map_values(|t: String| t@).len() == c.relays@.len());
    if let Some(items) = d.relays {
        lemma_text_items(items);
    }
}

proof fn lemma_text_items(items: Seq<Option<Seq<char>>>)
    ensures
        text_items(items) == items.filter(|i: Option<Seq<char>>| i is Some).map_values(
            |i: Option<Seq<char>>| i->0,
        ),
    decreases items.len(),
{
    reveal(Seq::filter);
    let kept = items.filter(|i: Option<Seq<char>>| i is Some);
    if items.len() > 0 {
        let front = items.drop_last();
        lemma_text_items(front);
        let before = front.filter(|i: Option<Seq<char>>| i is Some);
        if items.last() is Some {
            assert(kept =~= before.push(items.last()));
        }
    }
    assert(text_items(items) =~= kept.map_values(|i: Option<Seq<char>>| i->0));
}

/// Of several entries for one serial number the last text counts; what is no text does
/// not.
pub proof fn law_last_entry_counts(
    entries: Seq<(Seq<char>, Option<Seq<char>>)>,
    i: int,
    key: Seq<char>,
)
    requires
        0 <= i < entries.len(),
        entries[i].0 == key,
        entries[i].1 is Some,
        forall|k: int|
            i < k < entries.len() && (#[trigger] entries[k]).0 == key ==> entries[k].1 is None,
    ensures
        text_entries(entries).contains_key(key),
        text_entries(entries)[key] == entries[i].1->0,
    decreases entries.len(),
{
    if i < entries.len() - 1 {
        let front = entries.drop_last();
        assert forall|k: int| i < k < front.len() && (#[trigger] front[k]).0 == key implies front[
        k].1 is None by {
            assert(front[k] == entries[k]);
        }
        law_last_entry_counts(front, i, key);
        assert(entries[entries.len() - 1] == entries.last());
    }
}

/// The document is read from the fields of these names.
pub proof fn law_document_fields(json: Seq<char>)
    ensures
        json_document(json).relays == json_items(json, "relays"@),
        json_document(json).device_id == json_text(json, "deviceId"@),
        json_document(json).enable_mdns == json_bool(json, "enable_mdns"@),
        json_document(json).stream_type == json_text(json, "stream_type"@),
        json_document(json).no_audio == json_bool(json, "no_audio"@),
        json_document(json).network_type == json_text(json, "network_type"@),
        json_document(json).serial_map == json_entries(json, "serial_map"@),
{
}

} // verus!
