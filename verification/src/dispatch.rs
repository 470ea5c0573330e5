//! The event dispatcher.
//!
//! The native loop hands over one event at a time; the dispatcher resolves
//! the originating widget to its logical action, encodes the protocol
//! message, and asks the surrounding shell to deliver it, to pop up the
//! context menu, or to open a modal picker dialog.  Events from widgets
//! outside the known set are ignored, not errors.  Callbacks are strictly
//! sequential: events are dispatched in the exact order the native source
//! delivers them, with no batching, and the loop exits only at the stop
//! request that `deinit` posts — events after it are never dispatched.

use vstd::prelude::*;
use crate::protocol;
use crate::protocol::MenuAction;
use crate::session::TraySession;
use vstd::string::StringExecFns;

verus! {

/// The identity tag assigned to each interactive widget when it is built.
/// Event routing matches on these tags instead of comparing opaque native
/// handles.
#[derive(Clone, Copy, Debug, PartialEq, Eq, Structural)]
pub enum WidgetTag {
    /// The notification-area icon itself.
    Tray,
    /// The "open" menu item.
    ItemOpen,
    /// The file-picker menu item.
    ItemPickFile,
    /// The directory-picker menu item.
    ItemPickDirectory,
    /// The "show console" menu item.
    ItemShow,
    /// The "hide console" menu item.
    ItemHide,
    /// The "exit" menu item.
    ItemExit,
}

/// A native event as handed over by the UI runtime: what happened, and the
/// tag of the widget it came from — `None` when the source is not in the
/// session's known set.
#[derive(Clone, Copy, Debug)]
pub enum NativeEvent {
    /// The left mouse button was released over the widget.
    LeftClickUp(Option<WidgetTag>),
    /// The widget's context menu was requested.
    ContextMenu(Option<WidgetTag>),
    /// A menu item was selected.
    MenuItemSelected(Option<WidgetTag>),
    /// Any other native event; always ignored.
    Other,
}

/// What one dispatch step asks the surrounding shell to do.
#[derive(Debug, PartialEq, Eq)]
pub enum DispatchOutcome {
    /// Deliver this protocol message to the host callback.
    Deliver(String),
    /// Pop up the context menu at the cursor position.
    ShowMenu,
    /// Open the modal picker dialog — the directory picker when `true`,
    /// the file picker when `false` — and finish with `picker_message`.
    RunPicker(bool),
    /// Do nothing.
    Ignore,
}

/// The dispatcher's decision for one event, at the specification level.
pub enum Routing {
    Message(Seq<char>),
    ShowMenu,
    OpenPicker(bool),
    Ignore,
}

/// The logical action each widget is bound to at construction time.
pub open spec fn spec_widget_action(tag: WidgetTag) -> MenuAction {
    match tag {
        WidgetTag::Tray => MenuAction::Click,
        WidgetTag::ItemOpen => MenuAction::Open,
        WidgetTag::ItemPickFile => MenuAction::PickFile,
        WidgetTag::ItemPickDirectory => MenuAction::PickDirectory,
        WidgetTag::ItemShow => MenuAction::ShowConsole,
        WidgetTag::ItemHide => MenuAction::HideConsole,
        WidgetTag::ItemExit => MenuAction::Exit,
    }
}

/// How one native event is routed: a left click on the tray icon delivers
/// the click message, a context-menu request on it pops up the menu, a
/// selected menu item delivers its action's message or opens its picker,
/// and everything else — in particular any event from an unknown source —
/// is ignored.
pub open spec fn spec_route(evt: NativeEvent) -> Routing {
    match evt {
        NativeEvent::LeftClickUp(Some(WidgetTag::Tray)) => Routing::Message("@click"@),
        NativeEvent::ContextMenu(Some(WidgetTag::Tray)) => Routing::ShowMenu,
        NativeEvent::MenuItemSelected(Some(WidgetTag::ItemOpen)) => Routing::Message("@open"@),
        NativeEvent::MenuItemSelected(Some(WidgetTag::ItemPickFile)) => Routing::OpenPicker(false),
        NativeEvent::MenuItemSelected(Some(WidgetTag::ItemPickDirectory)) => Routing::OpenPicker(
            true,
        ),
        NativeEvent::MenuItemSelected(Some(WidgetTag::ItemShow)) => Routing::Message("@show"@),
        NativeEvent::MenuItemSelected(Some(WidgetTag::ItemHide)) => Routing::Message("@hide"@),
        NativeEvent::MenuItemSelected(Some(WidgetTag::ItemExit)) => Routing::Message("@exit"@),
        _ => Routing::Ignore,
    }
}

/// The outcome `r` realizes the routing decision `t`.
pub open spec fn outcome_routes(r: DispatchOutcome, t: Routing) -> bool {
    match t {
        Routing::Message(m) => r matches DispatchOutcome::Deliver(s) && s@ == m,
        Routing::ShowMenu => r is ShowMenu,
        Routing::OpenPicker(directory) => r == DispatchOutcome::RunPicker(directory),
        Routing::Ignore => r is Ignore,
    }
}

impl TraySession {
    /// Encode the fixed message of `action` for delivery.
    fn deliver(&self, action: MenuAction) -> (r: DispatchOutcome)
        requires
            protocol::spec_immediate_message(action) is Some,
        ensures
            r matches DispatchOutcome::Deliver(m) && m@ == protocol::spec_immediate_message(
                action,
            ).unwrap(),
    {
        match protocol::immediate_message(action) {
            Some(text) => DispatchOutcome::Deliver(String::from_str(text)),
            None => DispatchOutcome::Ignore,  // unreachable: the action has a fixed message
        }
    }

    /// Resolve one native event against the session's widgets and decide
    /// what the shell must do, exactly as [`spec_route`] says.
    pub fn handle_event(&self, evt: NativeEvent) -> (r: DispatchOutcome)
        ensures
            outcome_routes(r, spec_route(evt)),
    {
        match evt {
            NativeEvent::LeftClickUp(Some(WidgetTag::Tray)) => self.deliver(MenuAction::Click),
            NativeEvent::ContextMenu(Some(WidgetTag::Tray)) => DispatchOutcome::ShowMenu,
            NativeEvent::MenuItemSelected(Some(WidgetTag::ItemOpen)) => self.deliver(
                MenuAction::Open,
            ),
            NativeEvent::MenuItemSelected(Some(WidgetTag::ItemPickFile)) => {
                DispatchOutcome::RunPicker(false)
            },
            NativeEvent::MenuItemSelected(Some(WidgetTag::ItemPickDirectory)) => {
                DispatchOutcome::RunPicker(true)
            },
            NativeEvent::MenuItemSelected(Some(WidgetTag::ItemShow)) => self.deliver(
                MenuAction::ShowConsole,
            ),
            NativeEvent::MenuItemSelected(Some(WidgetTag::ItemHide)) => self.deliver(
                MenuAction::HideConsole,
            ),
            NativeEvent::MenuItemSelected(Some(WidgetTag::ItemExit)) => self.deliver(
                MenuAction::Exit,
            ),
            _ => DispatchOutcome::Ignore,
        }
    }

    /// Complete a picker dispatch.  A confirmed dialog whose path could be
    /// decoded yields exactly the tagged path message; a cancelled dialog,
    /// or one whose selection could not be decoded, yields no message at
    /// all — a silent no-op, matching the best-effort notification policy.
    pub fn picker_message(&self, directory: bool, picked: Option<&str>) -> (r: Option<String>)
        ensures
            match picked {
                Some(path) => r is Some && r.unwrap()@ == protocol::spec_picker_message(
                    directory,
                    path@,
                ),
                None => r is None,
            },
    {
        match picked {
            Some(path) => Some(protocol::picker_message(directory, path)),
            None => None,
        }
    }
}

/// One observed step of the session's event loop: the native event and —
/// when the step opened a modal picker dialog — the path the dialog came
/// back with, `None` for a cancelled dialog or an undecodable selection.
/// For a step that opens no dialog the field is irrelevant.
#[derive(Debug)]
pub struct LoopStep {
    pub event: NativeEvent,
    pub picked: Option<String>,
}

/// The message one step delivers, if any.
pub open spec fn spec_step_message(step: LoopStep) -> Option<Seq<char>> {
    match spec_route(step.event) {
        Routing::Message(m) => Some(m),
        Routing::OpenPicker(directory) => match step.picked {
            Some(path) => Some(protocol::spec_picker_message(directory, path@)),
            None => None,
        },
        Routing::ShowMenu => None,
        Routing::Ignore => None,
    }
}

/// The messages a run of steps delivers, in arrival order.
pub open spec fn spec_messages(steps: Seq<LoopStep>) -> Seq<Seq<char>>
    decreases steps.len(),
{
    if steps.len() == 0 {
        Seq::empty()
    } else {
        (match spec_step_message(steps[0]) {
            Some(m) => seq![m],
            None => Seq::<Seq<char>>::empty(),
        }) + spec_messages(steps.drop_first())
    }
}

/// Law: dispatch keeps order and never batches.  The messages of two runs
/// in sequence are the messages of the first run followed by those of the
/// second, so everything an earlier event delivers comes before anything a
/// later event delivers.
pub proof fn lemma_messages_ordered(a: Seq<LoopStep>, b: Seq<LoopStep>)
    ensures
        spec_messages(a + b) == spec_messages(a) + spec_messages(b),
    decreases a.len(),
{
    if a.len() == 0 {
        assert(a + b =~= b);
        assert(spec_messages(a) + spec_messages(b) =~= spec_messages(b));
    } else {
        assert((a + b).drop_first() =~= a.drop_first() + b);
        lemma_messages_ordered(a.drop_first(), b);
        assert((a + b)[0] == a[0]);
        assert(spec_messages(a + b) =~= spec_messages(a) + spec_messages(b));
    }
}

/// Law: one tray click delivers exactly one click message, and it is
/// delivered before everything any subsequently triggered event delivers.
pub proof fn lemma_click_delivers_once(rest: Seq<LoopStep>)
    ensures
        ({
            let click = LoopStep {
                event: NativeEvent::LeftClickUp(Some(WidgetTag::Tray)),
                picked: None,
            };
            spec_messages(seq![click] + rest) == seq!["@click"@] + spec_messages(rest)
        }),
{
    let click = LoopStep { event: NativeEvent::LeftClickUp(Some(WidgetTag::Tray)), picked: None };
    lemma_messages_ordered(seq![click], rest);
    assert(seq![click].drop_first() =~= Seq::<LoopStep>::empty());
    assert(spec_messages(Seq::<LoopStep>::empty()) =~= Seq::<Seq<char>>::empty());
    assert(spec_messages(seq![click]) =~= seq!["@click"@]);
}

/// One item of the queue the native loop works through: an event for the
/// live session, or the observation of the stop request `deinit` posted.
#[derive(Debug)]
pub enum LoopEvent {
    Native(LoopStep),
    StopRequested,
}

/// The steps the loop actually handles: everything before the first
/// observed stop request.
pub open spec fn spec_live_prefix(events: Seq<LoopEvent>) -> Seq<LoopStep>
    decreases events.len(),
{
    if events.len() == 0 {
        Seq::empty()
    } else {
        match events[0] {
            LoopEvent::Native(step) => seq![step] + spec_live_prefix(events.drop_first()),
            LoopEvent::StopRequested => Seq::empty(),
        }
    }
}

/// Splitting a queue after a stop-free prefix splits its live prefix.
proof fn lemma_live_prefix_split(a: Seq<LoopEvent>, b: Seq<LoopEvent>)
    requires
        forall|k: int| 0 <= k < a.len() ==> !((#[trigger] a[k]) is StopRequested),
    ensures
        spec_live_prefix(a + b) == spec_live_prefix(a) + spec_live_prefix(b),
    decreases a.len(),
{
    if a.len() == 0 {
        assert(a + b =~= b);
        assert(spec_live_prefix(a) + spec_live_prefix(b) =~= spec_live_prefix(b));
    } else {
        assert((a + b).drop_first() =~= a.drop_first() + b);
        lemma_live_prefix_split(a.drop_first(), b);
        assert((a + b)[0] == a[0]);
        assert(spec_live_prefix(a + b) =~= spec_live_prefix(a) + spec_live_prefix(b));
    }
}

impl TraySession {
    /// Work through a whole event queue, exactly as the native loop does:
    /// one event at a time, in arrival order, stopping at the first
    /// observed stop request.  The result is the exact message sequence
    /// delivered to the host callback — events after the stop deliver
    /// nothing.
    pub fn run_loop(&self, events: &Vec<LoopEvent>) -> (msgs: Vec<String>)
        ensures
            msgs.deep_view() == spec_messages(spec_live_prefix(events@)),
    {
        let mut msgs: Vec<String> = Vec::new();
        let mut i: usize = 0;
        proof {
            assert(events@.take(0) =~= Seq::<LoopEvent>::empty());
        }
        while i < events.len()
            invariant
                i <= events@.len(),
                forall|k: int| 0 <= k < i ==> !((#[trigger] events@[k]) is StopRequested),
                msgs.deep_view() =~~= spec_messages(spec_live_prefix(events@.take(i as int))),
            decreases events@.len() - i,
        {
            let ghost done = events@.take(i as int);
            let ghost old_msgs = msgs.deep_view();
            match &events[i] {
                LoopEvent::StopRequested => {
                    proof {
                        assert(events@ =~= done + events@.skip(i as int));
                        lemma_live_prefix_split(done, events@.skip(i as int));
                        assert(events@.skip(i as int)[0] is StopRequested);
                        assert(spec_live_prefix(events@.skip(i as int))
                            =~= Seq::<LoopStep>::empty());
                        assert(spec_live_prefix(events@) =~= spec_live_prefix(done));
                    }
                    return msgs;
                },
                LoopEvent::Native(step) => {
                    let ghost step_g = *step;
                    match self.handle_event(step.event) {
                        DispatchOutcome::Deliver(m) => {
                            msgs.push(m);
                        },
                        DispatchOutcome::RunPicker(directory) => {
                            match &step.picked {
                                Some(path) => {
                                    let m = protocol::picker_message(directory, path.as_str());
                                    msgs.push(m);
                                },
                                None => {},
                            }
                        },
                        DispatchOutcome::ShowMenu => {},
                        DispatchOutcome::Ignore => {},
                    }
                    proof {
                        let one = seq![LoopEvent::Native(step_g)];
                        assert(events@.take(i + 1) =~= done + one);
                        lemma_live_prefix_split(done, one);
                        assert(one.drop_first() =~= Seq::<LoopEvent>::empty());
                        assert(spec_live_prefix(Seq::<LoopEvent>::empty())
                            =~= Seq::<LoopStep>::empty());
                        assert(spec_live_prefix(one) =~= seq![step_g]);
                        lemma_messages_ordered(spec_live_prefix(done), seq![step_g]);
                        assert(seq![step_g].drop_first() =~= Seq::<LoopStep>::empty());
                        assert(spec_messages(Seq::<LoopStep>::empty())
                            =~= Seq::<Seq<char>>::empty());
                        match spec_step_message(step_g) {
                            Some(m) => {
                                assert(spec_messages(seq![step_g]) =~= seq![m]);
                                assert(msgs.deep_view() =~~= old_msgs.push(m));
                            },
                            None => {
                                assert(spec_messages(seq![step_g]) =~= Seq::<Seq<char>>::empty());
                                assert(msgs.deep_view() =~~= old_msgs);
                            },
                        }
                        assert(msgs.deep_view() =~~= spec_messages(
                            spec_live_prefix(events@.take(i + 1)),
                        ));
                    }
                    i = i + 1;
                },
            }
        }
        proof {
            assert(events@.take(events@.len() as int) =~= events@);
        }
        msgs
    }
}

} // verus!
