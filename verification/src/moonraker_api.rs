//! One JSON-RPC session with the machine: what is known of the machine's
//! state, the condition that this sets on moves, and what to do with each
//! command and each frame.

use crate::clock::duration_nanos;
use crate::json;
use crate::json::{json_text, json_tree, parsed_json, JsonTree};
use crate::rpc::{
    elapsed_nanos, request_tree, script_params, send_gcode_command, send_rpc, IdGenerator, Request,
    RpcTracker,
};
use crate::types::PrinterCommand;
use serde_json::Value;
use std::time::Duration;
use vstd::prelude::*;

verus! {

/// What is known of the remote machine: which axes are homed, and whether it
/// reads positions as absolute.
#[derive(Debug, Clone)]
pub struct PrinterState {
    homed_axes: String,
    absolute_coordinates: bool,
}

/// The mathematical content of a `PrinterState`.
pub struct PrinterStateView {
    pub homed_axes: Seq<char>,
    pub absolute_coordinates: bool,
}

/// What one status object says of the two attributes that are mirrored: a
/// new value for each that it names.
#[derive(Debug)]
pub struct StatusUpdate {
    pub homed_axes: Option<String>,
    pub absolute_coordinates: Option<bool>,
}

/// The mathematical content of a `StatusUpdate`.
pub struct StatusUpdateView {
    pub homed_axes: Option<Seq<char>>,
    pub absolute_coordinates: Option<bool>,
}

impl View for StatusUpdate {
    type V = StatusUpdateView;

    open spec fn view(&self) -> StatusUpdateView {
        StatusUpdateView {
            homed_axes: match self.homed_axes {
                Some(axes) => Some(axes@),
                None => None,
            },
            absolute_coordinates: self.absolute_coordinates,
        }
    }
}

impl PrinterStateView {
    /// The state before anything is known: no axis homed, coordinates not
    /// absolute.
    pub open spec fn unknown() -> PrinterStateView {
        PrinterStateView { homed_axes: Seq::empty(), absolute_coordinates: false }
    }

    /// The state after an update: each attribute that the update names takes
    /// the new value, each other one stays.
    pub open spec fn apply(self, update: StatusUpdateView) -> PrinterStateView {
        PrinterStateView {
            homed_axes: match update.homed_axes {
                Some(axes) => axes,
                None => self.homed_axes,
            },
            absolute_coordinates: match update.absolute_coordinates {
                Some(absolute) => absolute,
                None => self.absolute_coordinates,
            },
        }
    }

    /// Whether a move may go to the machine: all three axes are homed and
    /// positions are read as relative.
    pub open spec fn allows_move(self) -> bool {
        self.homed_axes == seq!['x', 'y', 'z'] && !self.absolute_coordinates
    }
}

impl View for PrinterState {
    type V = PrinterStateView;

    closed spec fn view(&self) -> PrinterStateView {
        PrinterStateView {
            homed_axes: self.homed_axes@,
            absolute_coordinates: self.absolute_coordinates,
        }
    }
}

impl Default for PrinterState {
    /// Nothing known yet.
    fn default() -> (state: Self)
        ensures
            state@ == PrinterStateView::unknown(),
    {
        PrinterState { homed_axes: String::new(), absolute_coordinates: false }
    }
}

impl PrinterState {
    /// The axes that are known to be homed.
    pub fn homed_axes(&self) -> (axes: &str)
        ensures
            axes@ == self@.homed_axes,
    {
        self.homed_axes.as_str()
    }

    /// Whether the machine reads positions as absolute.
    pub fn absolute_coordinates(&self) -> (absolute: bool)
        ensures
            absolute == self@.absolute_coordinates,
    {
        self.absolute_coordinates
    }

    /// Takes over each attribute that the update names.
    pub fn apply(&mut self, update: &StatusUpdate)
        ensures
            final(self)@ == old(self)@.apply(update@),
            update@.homed_axes is None ==> final(self)@.homed_axes == old(self)@.homed_axes,
            update@.absolute_coordinates is None ==> final(self)@.absolute_coordinates == old(
                self,
            )@.absolute_coordinates,
    {
        match &update.homed_axes {
            Some(axes) => {
                self.homed_axes = axes.clone();
            },
            None => {},
        }
        match update.absolute_coordinates {
            Some(absolute) => {
                self.absolute_coordinates = absolute;
            },
            None => {},
        }
    }

    /// Whether a move may go to the machine.
    pub fn allows_move(&self) -> (allowed: bool)
        ensures
            allowed == self@.allows_move(),
    {
        proof {
            reveal_strlit("xyz");
        }
        let all_axes = String::from_str("xyz");
        assert(all_axes@ =~= seq!['x', 'y', 'z']);
        !self.absolute_coordinates && self.homed_axes == all_axes
    }
}

/// What a status object says of the two mirrored attributes: the string
/// under `toolhead.homed_axes` and the boolean under
/// `gcode_move.absolute_coordinates`, each where it is there and of that type.
pub open spec fn status_update(status: JsonTree) -> StatusUpdateView {
    StatusUpdateView {
        homed_axes: match status.member("toolhead"@) {
            Some(toolhead) => match toolhead.member("homed_axes"@) {
                Some(axes) => axes.text(),
                None => None,
            },
            None => None,
        },
        absolute_coordinates: match status.member("gcode_move"@) {
            Some(gcode_move) => match gcode_move.member("absolute_coordinates"@) {
                Some(absolute) => absolute.flag(),
                None => None,
            },
            None => None,
        },
    }
}

/// The status object that a message carries: `result.status` of a response,
/// or the first parameter of a `notify_status_update` notification.
pub open spec fn message_status(message: JsonTree) -> Option<JsonTree> {
    match message.member("result"@) {
        Some(result) => result.member("status"@),
        None => match message.member("method"@) {
            Some(method) => if method.text() == Some("notify_status_update"@) {
                match message.member("params"@) {
                    Some(params) => match params.items() {
                        Some(items) => if items.len() > 0 {
                            Some(items[0])
                        } else {
                            None
                        },
                        None => None,
                    },
                    None => None,
                }
            } else {
                None
            },
            None => None,
        },
    }
}

/// The request identifier that a message answers.
pub open spec fn message_id(message: JsonTree) -> Option<u64> {
    match message.member("id"@) {
        Some(id) => id.unsigned(),
        None => None,
    }
}

/// Whether a method is one of the notifications that arrive all the time and
/// are passed over in silence.
pub open spec fn is_routine_method(method: Seq<char>) -> bool {
    ||| method == "notify_status_update"@
    ||| method == "notify_proc_stat_update"@
    ||| method == "notify_service_state_changed"@
}

/// Whether a message is worth reporting: every one but a routine
/// notification.
pub open spec fn is_reported(message: JsonTree) -> bool {
    match message.member("method"@) {
        Some(method) => match method.text() {
            Some(name) => !is_routine_method(name),
            None => true,
        },
        None => true,
    }
}

/// What a message holds for this client.
#[derive(Debug)]
pub struct Message {
    /// The request identifier that the message answers.
    pub id: Option<u64>,
    /// What the status object that the message carries says.
    pub status: Option<StatusUpdate>,
    /// Whether the message is worth reporting.
    pub reported: bool,
}

/// The mathematical content of a `Message`.
pub struct MessageView {
    pub id: Option<u64>,
    pub status: Option<StatusUpdateView>,
    pub reported: bool,
}

impl View for Message {
    type V = MessageView;

    open spec fn view(&self) -> MessageView {
        MessageView {
            id: self.id,
            status: match self.status {
                Some(update) => Some(update@),
                None => None,
            },
            reported: self.reported,
        }
    }
}

/// What a JSON message holds for this client.
pub open spec fn message_content(message: JsonTree) -> MessageView {
    MessageView {
        id: message_id(message),
        status: match message_status(message) {
            Some(status) => Some(status_update(status)),
            None => None,
        },
        reported: is_reported(message),
    }
}

/// Whether two texts are the same.
fn same_text(left: &str, right: &str) -> (same: bool)
    ensures
        same == (left@ == right@),
{
    String::from_str(left) == String::from_str(right)
}

/// Reads from a status object what it says of the two mirrored attributes.
pub fn read_status(status: &Value) -> (update: StatusUpdate)
    ensures
        update@ == status_update(json_tree(*status)),
{
    let mut update = StatusUpdate { homed_axes: None, absolute_coordinates: None };
    if let Some(toolhead) = json::get(status, "toolhead") {
        if let Some(homed_axes) = json::get(toolhead, "homed_axes") {
            if let Some(axes) = json::as_str(homed_axes) {
                update.homed_axes = Some(String::from_str(axes));
            }
        }
    }
    if let Some(gcode_move) = json::get(status, "gcode_move") {
        if let Some(absolute_coordinates) = json::get(gcode_move, "absolute_coordinates") {
            update.absolute_coordinates = json::as_bool(absolute_coordinates);
        }
    }
    update
}

/// Finds the status object that a message carries.
pub fn find_status<'a>(json: &'a Value) -> (found: Option<&'a Value>)
    ensures
        match found {
            Some(status) => message_status(json_tree(*json)) == Some(json_tree(*status)),
            None => message_status(json_tree(*json)) is None,
        },
{
    if let Some(result) = json::get(json, "result") {
        return json::get(result, "status");
    } else if let Some(method) = json::get(json, "method") {
        if let Some(name) = json::as_str(method) {
            if same_text(name, "notify_status_update") {
                if let Some(params) = json::get(json, "params") {
                    if let Some(items) = json::as_array(params) {
                        if items.len() > 0 {
                            return Some(&items[0]);
                        }
                    }
                }
            }
        }
    }
    None
}

/// Brings the mirrored state up to date with a status object, and tells what
/// the object said.
pub fn update_from_status(state: &mut PrinterState, status: &Value) -> (update: StatusUpdate)
    ensures
        update@ == status_update(json_tree(*status)),
        final(state)@ == old(state)@.apply(update@),
{
    let update = read_status(status);
    state.apply(&update);
    update
}

/// Brings the mirrored state up to date with a message, where the message
/// carries a status object, and tells what that object said.
pub fn update_printer_state(printer_state: &mut PrinterState, json: &Value) -> (update: Option<
    StatusUpdate,
>)
    ensures
        match message_status(json_tree(*json)) {
            Some(status) => {
                &&& update matches Some(said)
                &&& said@ == status_update(status)
                &&& final(printer_state)@ == old(printer_state)@.apply(said@)
            },
            None => update is None && final(printer_state)@ == old(printer_state)@,
        },
{
    match find_status(json) {
        Some(status) => Some(update_from_status(printer_state, status)),
        None => None,
    }
}

/// Whether a message is to be reported: every one but a routine notification.
pub fn log_recv(json: &Value) -> (reported: bool)
    ensures
        reported == is_reported(json_tree(*json)),
{
    if let Some(method) = json::get(json, "method") {
        if let Some(name) = json::as_str(method) {
            return !(same_text(name, "notify_status_update") || same_text(
                name,
                "notify_proc_stat_update",
            ) || same_text(name, "notify_service_state_changed"));
        }
    }
    true
}

/// The request identifier that a message answers.
pub fn response_id(json: &Value) -> (id: Option<u64>)
    ensures
        id == message_id(json_tree(*json)),
{
    match json::get(json, "id") {
        Some(member) => json::as_u64(member),
        None => None,
    }
}

/// Reads from a JSON message what it holds for this client.
pub fn read_message(json: &Value) -> (message: Message)
    ensures
        message@ == message_content(json_tree(*json)),
{
    let reported = log_recv(json);
    let id = response_id(json);
    let status = match find_status(json) {
        Some(status) => Some(read_status(status)),
        None => None,
    };
    Message { id, status, reported }
}

/// One frame off the wire.
#[derive(Debug)]
pub enum Frame {
    /// A text frame, which holds one JSON message.
    Text(String),
    /// A ping, with its payload.
    Ping(Vec<u8>),
    /// The peer closes the connection.
    Close,
    /// Any other frame.
    Other,
}

/// The time that a request took to be answered.
#[derive(Debug)]
pub struct Latency {
    pub id: u64,
    pub elapsed: Duration,
}

/// What a message brought.
#[derive(Debug)]
pub struct Received {
    /// The request that the message answers, where one awaited it.
    pub latency: Option<Latency>,
    /// What the status object that the message carries said, where it
    /// carries one.
    pub update: Option<StatusUpdate>,
    /// Whether the message is worth reporting.
    pub reported: bool,
}

/// What to do about a frame.
#[derive(Debug)]
pub enum Reaction {
    /// The frame held a message, which has been taken in.
    Received(Received),
    /// The frame's text is not JSON; it is passed over.
    Malformed,
    /// Answer with a pong that carries this payload.
    Pong(Vec<u8>),
    /// Stop reading.
    Stop,
    /// Nothing to do but to note the frame.
    Unexpected,
}

/// What to do about a command.
#[derive(Debug)]
pub enum Dispatch {
    /// Put this request on the wire.
    Send(Request),
    /// The machine is in no state for the command; nothing is sent.
    Refused,
}

/// The state of one session with the machine: the identifier counter, the
/// mirror of the machine's state, and the requests that await their response.
pub struct Connection {
    id_generator: IdGenerator,
    printer_state: PrinterState,
    rpc_tracker: RpcTracker,
}

/// Something that happens to a session.
pub enum SessionEvent {
    /// A request is framed at the given time.
    Request(u64),
    /// A message is taken in.
    Message(MessageView),
}

/// The mathematical content of a `Connection`.
pub struct ConnectionView {
    /// The identifier of the last request, 0 before the first.
    pub last_id: u64,
    pub printer_state: PrinterStateView,
    /// The requests that await their response, each with the time it was
    /// sent at.
    pub pending: Map<u64, u64>,
}

impl ConnectionView {
    /// A session in which nothing has happened yet.
    pub open spec fn fresh() -> ConnectionView {
        ConnectionView {
            last_id: 0,
            printer_state: PrinterStateView::unknown(),
            pending: Map::empty(),
        }
    }

    /// Whether the registry holds only requests that the session has made:
    /// every identifier in it lies from 1 to the last one handed out.
    pub open spec fn wf(self) -> bool {
        forall|id: u64| self.pending.contains_key(id) ==> 1 <= id <= self.last_id
    }

    /// The identifier that the next request gets.
    pub open spec fn next_id(self) -> u64 {
        (self.last_id + 1) as u64
    }

    /// The session after a request has been framed at `now`.
    pub open spec fn after_request(self, now: u64) -> ConnectionView {
        ConnectionView {
            last_id: self.next_id(),
            printer_state: self.printer_state,
            pending: self.pending.insert(self.next_id(), now),
        }
    }

    /// Whether a command goes to the machine: a move only while the machine
    /// allows moves, any other command always.
    pub open spec fn forwards(self, command: PrinterCommand) -> bool {
        command is Move ==> self.printer_state.allows_move()
    }

    /// The awaited request that a message answers.
    pub open spec fn answered(self, message: MessageView) -> Option<u64> {
        match message.id {
            Some(id) => if self.pending.contains_key(id) {
                Some(id)
            } else {
                None
            },
            None => None,
        }
    }

    /// The session after a message has been taken in: the request that it
    /// answers no longer awaits a response, and the mirrored state has taken
    /// over what the message's status object says. Nothing else changes; a
    /// message that answers no awaited request leaves the registry as it is.
    pub open spec fn after_message(self, message: MessageView) -> ConnectionView {
        ConnectionView {
            last_id: self.last_id,
            printer_state: match message.status {
                Some(update) => self.printer_state.apply(update),
                None => self.printer_state,
            },
            pending: match self.answered(message) {
                Some(id) => self.pending.remove(id),
                None => self.pending,
            },
        }
    }

    /// Whether `received` tells what `message`, arriving at `now`, brought
    /// to the session.
    pub open spec fn brought(self, message: MessageView, now: u64, received: Received) -> bool {
        &&& match self.answered(message) {
            Some(id) => {
                &&& received.latency matches Some(latency)
                &&& latency.id == id
                &&& duration_nanos(latency.elapsed) == elapsed_nanos(self.pending[id], now)
            },
            None => received.latency is None,
        }
        &&& match message.status {
            Some(update) => received.update matches Some(said) && said@ == update,
            None => received.update is None,
        }
        &&& received.reported == message.reported
    }

    /// The session after an event.
    pub open spec fn after(self, event: SessionEvent) -> ConnectionView {
        match event {
            SessionEvent::Request(now) => self.after_request(now),
            SessionEvent::Message(message) => self.after_message(message),
        }
    }

    /// The session after a run of events.
    pub open spec fn after_all(self, events: Seq<SessionEvent>) -> ConnectionView
        decreases events.len(),
    {
        if events.len() == 0 {
            self
        } else {
            self.after_all(events.drop_last()).after(events.last())
        }
    }
}

/// The parameters of the request that subscribes to the two mirrored objects.
pub open spec fn subscription_params() -> JsonTree {
    JsonTree::Object(
        Map::<Seq<char>, JsonTree>::empty().insert(
            "objects"@,
            JsonTree::Object(
                Map::<Seq<char>, JsonTree>::empty().insert("toolhead"@, JsonTree::Null).insert(
                    "gcode_move"@,
                    JsonTree::Null,
                ),
            ),
        ),
    )
}

impl View for Connection {
    type V = ConnectionView;

    closed spec fn view(&self) -> ConnectionView {
        ConnectionView {
            last_id: self.id_generator.last(),
            printer_state: self.printer_state@,
            pending: self.rpc_tracker@,
        }
    }
}

impl Connection {
    /// Opens a session at `now`: with the session comes its first request,
    /// the subscription to the two mirrored objects, so that no command can
    /// go before it.
    pub fn open(now: u64) -> (opened: (Self, Request))
        ensures
            opened.0@ == ConnectionView::fresh().after_request(now),
            opened.0@.wf(),
            opened.1.id == 1,
            opened.1.text@ == json_text(
                request_tree("printer.objects.subscribe"@, subscription_params(), 1),
            ),
    {
        let mut connection = Connection {
            id_generator: IdGenerator::new(0),
            printer_state: PrinterState::default(),
            rpc_tracker: RpcTracker::new(),
        };
        let objects = json::with_member(json::object(), "toolhead", json::null());
        let objects = json::with_member(objects, "gcode_move", json::null());
        let params = json::with_member(json::object(), "objects", objects);
        let request = send_rpc(
            &mut connection.id_generator,
            &mut connection.rpc_tracker,
            "printer.objects.subscribe",
            params,
            now,
        );
        (connection, request)
    }

    /// The mirror of the machine's state.
    pub fn printer_state(&self) -> (state: &PrinterState)
        ensures
            state@ == self@.printer_state,
    {
        &self.printer_state
    }

    /// The identifier of the last request, 0 before the first.
    pub fn last_id(&self) -> (id: u64)
        ensures
            id == self@.last_id,
    {
        self.id_generator.last_id()
    }

    /// The number of requests that await their response.
    pub fn pending(&self) -> (count: usize)
        ensures
            count == self@.pending.len(),
    {
        self.rpc_tracker.pending()
    }

    /// Whether the request `id` awaits its response.
    pub fn is_pending(&self, id: u64) -> (awaited: bool)
        ensures
            awaited == self@.pending.contains_key(id),
    {
        self.rpc_tracker.is_tracking(id)
    }

    /// Decides on a command: a move goes to the machine only while all three
    /// axes are homed and positions are read as relative; homing and the
    /// switch to relative positions always go.
    pub fn on_command(&mut self, command: &PrinterCommand, now: u64) -> (dispatch: Dispatch)
        requires
            old(self)@.last_id < u64::MAX,
        ensures
            old(self)@.forwards(*command) <==> dispatch is Send,
            command is Move ==> (dispatch is Send <==> old(self)@.printer_state.homed_axes == seq![
                'x',
                'y',
                'z',
            ] && !old(self)@.printer_state.absolute_coordinates),
            dispatch matches Dispatch::Send(request) ==> {
                &&& final(self)@ == old(self)@.after_request(now)
                &&& request.id == old(self)@.next_id()
                &&& request.text@ == json_text(
                    request_tree(
                        "printer.gcode.script"@,
                        script_params(command.gcode()),
                        request.id,
                    ),
                )
            },
            dispatch is Refused ==> final(self)@ == old(self)@,
            old(self)@.wf() ==> final(self)@.wf(),
    {
        let allowed = match command {
            PrinterCommand::Move(_) => self.printer_state.allows_move(),
            _ => true,
        };
        if allowed {
            proof {
                if old(self)@.wf() {
                    lemma_well_formed_stays(old(self)@, SessionEvent::Request(now));
                }
            }
            let script = command.to_gcode();
            Dispatch::Send(
                send_gcode_command(
                    &mut self.id_generator,
                    &mut self.rpc_tracker,
                    script.as_str(),
                    now,
                ),
            )
        } else {
            Dispatch::Refused
        }
    }

    /// Takes in a message that arrived at `now`: the request that it answers
    /// leaves the registry and its latency is told, and the mirrored state
    /// takes over what the message's status object says.
    pub fn take_in(&mut self, message: Message, now: u64) -> (received: Received)
        ensures
            old(self)@.brought(message@, now, received),
            final(self)@ == old(self)@.after_message(message@),
            old(self)@.answered(message@) is None ==> final(self)@.pending == old(self)@.pending,
            old(self)@.answered(message@) matches Some(id) ==> final(self)@.pending == old(
                self,
            )@.pending.remove(id),
            old(self)@.wf() ==> final(self)@.wf(),
    {
        let latency = match message.id {
            Some(id) => match self.rpc_tracker.stop_tracking(id, now) {
                Some(elapsed) => Some(Latency { id, elapsed }),
                None => None,
            },
            None => None,
        };
        match &message.status {
            Some(update) => {
                self.printer_state.apply(update);
            },
            None => {},
        }
        proof {
            if old(self)@.wf() {
                lemma_well_formed_stays(old(self)@, SessionEvent::Message(message@));
            }
        }
        Received { latency, update: message.status, reported: message.reported }
    }

    /// Takes in the text of a frame that arrived at `now`, where it is JSON.
    pub fn on_text(&mut self, text: &str, now: u64) -> (reaction: Reaction)
        ensures
            match parsed_json(text@) {
                Some(message) => {
                    &&& reaction matches Reaction::Received(received)
                    &&& old(self)@.brought(message_content(message), now, received)
                    &&& final(self)@ == old(self)@.after_message(message_content(message))
                },
                None => reaction is Malformed && final(self)@ == old(self)@,
            },
            old(self)@.wf() ==> final(self)@.wf(),
    {
        match json::parse(text) {
            Some(json) => Reaction::Received(self.take_in(read_message(&json), now)),
            None => Reaction::Malformed,
        }
    }

    /// Decides on a frame that arrived at `now`: a text is taken in, a ping
    /// is answered with its own payload, a close ends the reading, and any
    /// other frame changes nothing.
    pub fn on_frame(&mut self, frame: &Frame, now: u64) -> (reaction: Reaction)
        ensures
            match *frame {
                Frame::Text(text) => match parsed_json(text@) {
                    Some(message) => {
                        &&& reaction matches Reaction::Received(received)
                        &&& old(self)@.brought(message_content(message), now, received)
                        &&& final(self)@ == old(self)@.after_message(message_content(message))
                    },
                    None => reaction is Malformed && final(self)@ == old(self)@,
                },
                Frame::Ping(payload) => {
                    &&& reaction matches Reaction::Pong(answer)
                    &&& answer@ == payload@
                    &&& final(self)@ == old(self)@
                },
                Frame::Close => reaction is Stop && final(self)@ == old(self)@,
                Frame::Other => reaction is Unexpected && final(self)@ == old(self)@,
            },
            old(self)@.wf() ==> final(self)@.wf(),
    {
        match frame {
            Frame::Text(text) => self.on_text(text.as_str(), now),
            Frame::Ping(payload) => Reaction::Pong(payload.clone()),
            Frame::Close => Reaction::Stop,
            Frame::Other => Reaction::Unexpected,
        }
    }
}

/// A session that is well formed stays so through every event, as long as
/// identifiers are left for its requests.
pub proof fn lemma_well_formed_stays(session: ConnectionView, event: SessionEvent)
    requires
        session.wf(),
        event is Request ==> session.last_id < u64::MAX,
    ensures
        ConnectionView::fresh().wf(),
        session.after(event).wf(),
{
}

/// In a well-formed session the identifier of the next request is not one
/// that still awaits a response: no request takes the place of another in
/// the registry.
pub proof fn lemma_next_id_is_new(session: ConnectionView)
    requires
        session.wf(),
        session.last_id < u64::MAX,
    ensures
        !session.pending.contains_key(session.next_id()),
{
}

/// The number of requests in a run of events.
pub open spec fn requests_in(events: Seq<SessionEvent>) -> nat
    decreases events.len(),
{
    if events.len() == 0 {
        0
    } else {
        requests_in(events.drop_last()) + if events.last() is Request {
            1nat
        } else {
            0nat
        }
    }
}

/// After a run of events the last identifier is the first one plus the number
/// of requests in the run: each request takes the next identifier, and a
/// message takes none.
pub proof fn lemma_last_id_counts_requests(session: ConnectionView, events: Seq<SessionEvent>)
    requires
        session.last_id + requests_in(events) <= u64::MAX,
    ensures
        session.after_all(events).last_id == session.last_id + requests_in(events),
    decreases events.len(),
{
    if events.len() > 0 {
        lemma_last_id_counts_requests(session, events.drop_last());
    }
}

/// A longer run of events holds at least the requests of the run it begins
/// with, and one more where it goes on with a request.
pub proof fn lemma_requests_in_prefix(events: Seq<SessionEvent>, length: int)
    requires
        0 <= length <= events.len(),
    ensures
        requests_in(events.take(length)) <= requests_in(events),
        length < events.len() && events[length] is Request ==> requests_in(events.take(length))
            < requests_in(events),
    decreases events.len(),
{
    if length < events.len() {
        let shorter = events.drop_last();
        assert(shorter.take(length) =~= events.take(length));
        if length < shorter.len() {
            lemma_requests_in_prefix(shorter, length);
        } else {
        }
    } else {
        assert(events.take(length) =~= events);
    }
}

/// Within a session a request never gets the identifier of an earlier one:
/// of two requests in a run of events, whatever lies between them, the later
/// gets the larger identifier.
pub proof fn lemma_request_ids_increase(
    session: ConnectionView,
    events: Seq<SessionEvent>,
    earlier: int,
    later: int,
)
    requires
        session.last_id + requests_in(events) <= u64::MAX,
        0 <= earlier < later < events.len(),
        events[earlier] is Request,
        events[later] is Request,
    ensures
        session.after_all(events.take(earlier + 1)).last_id < session.after_all(
            events.take(later + 1),
        ).last_id,
{
    let first = events.take(earlier + 1);
    let second = events.take(later + 1);
    assert(second.drop_last().take(earlier + 1) =~= first);
    lemma_requests_in_prefix(second.drop_last(), earlier + 1);
    lemma_requests_in_prefix(events, later + 1);
    lemma_last_id_counts_requests(session, first);
    lemma_last_id_counts_requests(session, second);
}

/// The first request of a session gets the identifier 1.
pub proof fn lemma_first_id_is_one(now: u64)
    ensures
        ConnectionView::fresh().next_id() == 1,
        ConnectionView::fresh().after_request(now).last_id == 1,
        ConnectionView::fresh().after_request(now).pending.contains_key(1),
{
}

/// A message that answers no awaited request and carries no status object
/// leaves the session as it was.
pub proof fn lemma_unknown_id_changes_nothing(session: ConnectionView, message: MessageView)
    requires
        session.answered(message) is None,
        message.status is None,
    ensures
        session.after_message(message) == session,
{
}

/// A message that answers an awaited request takes exactly that request out
/// of the registry: every other one still awaits its response, with the time
/// it was sent at.
pub proof fn lemma_response_removes_its_entry(
    session: ConnectionView,
    message: MessageView,
    id: u64,
)
    requires
        session.answered(message) == Some(id),
    ensures
        !session.after_message(message).pending.contains_key(id),
        forall|other: u64|
            other != id ==> (session.after_message(message).pending.contains_key(other)
                <==> session.pending.contains_key(other)),
        forall|other: u64|
            other != id && session.pending.contains_key(other) ==> session.after_message(
                message,
            ).pending[other] == session.pending[other],
{
}

/// Status updates take effect one attribute at a time: after one that names
/// the homed axes and one that names the coordinate mode the state holds
/// both, and an update that does not name the homed axes leaves them alone.
pub proof fn lemma_updates_compose(
    before: PrinterStateView,
    axes: Seq<char>,
    absolute: bool,
    next: StatusUpdateView,
)
    requires
        next.homed_axes is None,
    ensures
        ({
            let homed = StatusUpdateView { homed_axes: Some(axes), absolute_coordinates: None };
            let mode = StatusUpdateView { homed_axes: None, absolute_coordinates: Some(absolute) };
            let after = before.apply(homed).apply(mode);
            &&& after == PrinterStateView { homed_axes: axes, absolute_coordinates: absolute }
            &&& after.apply(next).homed_axes == axes
        }),
{
}

} // verus!
