//! One drag lifecycle for mouse, touch and pointer input.
//!
//! A `UnifiedPointerEvent` is what an input occurrence of any of the three
//! families reports. A `PointerGestureTracker` turns a press on a handle
//! into a drag: it asks for listeners on the whole page when the drag
//! begins, reports each motion as a difference to the one before, and gives
//! the listeners back when the drag ends. The tracker does not touch the
//! page itself. It answers each occurrence with the actions to perform, in
//! their order, and whoever owns it performs them.
use vstd::prelude::*;

verus! {

/// The family of an input occurrence.
#[derive(Clone, Copy, Debug, PartialEq, Eq, Structural)]
pub enum InputKind {
    Mouse,
    Touch,
    Pointer,
}

impl InputKind {
    /// The name of the event that reports a motion of this family.
    pub open spec fn move_name(self) -> Seq<char> {
        match self {
            InputKind::Mouse => "mousemove"@,
            InputKind::Touch => "touchmove"@,
            InputKind::Pointer => "pointermove"@,
        }
    }

    /// The name of the event that reports a release of this family.
    pub open spec fn up_name(self) -> Seq<char> {
        match self {
            InputKind::Mouse => "mouseup"@,
            InputKind::Touch => "touchend"@,
            InputKind::Pointer => "pointerup"@,
        }
    }

    /// The event to listen for to follow a drag of this family.
    pub fn move_event(self) -> (name: &'static str)
        ensures
            name@ == self.move_name(),
    {
        match self {
            InputKind::Mouse => "mousemove",
            InputKind::Touch => "touchmove",
            InputKind::Pointer => "pointermove",
        }
    }

    /// The event to listen for to see a drag of this family end.
    pub fn up_event(self) -> (name: &'static str)
        ensures
            name@ == self.up_name(),
    {
        match self {
            InputKind::Mouse => "mouseup",
            InputKind::Touch => "touchend",
            InputKind::Pointer => "pointerup",
        }
    }
}

/// What one pointer reports: its position in the three coordinate systems
/// of the page, what is still held (the pressed buttons as a bit mask, or
/// the number of contacts; zero when nothing is held), and the element it
/// acts on.
pub struct PointerData<T> {
    pub client_x: i32,
    pub client_y: i32,
    pub screen_x: i32,
    pub screen_y: i32,
    pub page_x: i32,
    pub page_y: i32,
    pub pressed: u32,
    pub target: Option<T>,
}

/// An input occurrence of one of the three families, in one shape.
pub enum UnifiedPointerEvent<T> {
    Mouse(PointerData<T>),
    Touch(PointerData<T>),
    Pointer(PointerData<T>),
}

/// An input occurrence as the page delivers it. A touch occurrence brings
/// the touch points that changed; anything that is no mouse, touch or
/// pointer occurrence is `Other`.
pub enum RawInput<T> {
    Mouse(PointerData<T>),
    Touch(Vec<PointerData<T>>),
    Pointer(PointerData<T>),
    Other,
}

/// Why an occurrence could not be brought into the one shape.
#[derive(Clone, Copy, Debug, PartialEq, Eq, Structural)]
pub enum InputError {
    /// The occurrence belongs to none of the three families.
    UnsupportedInputKind,
    /// A touch occurrence without a touch point that changed.
    MissingTouchPoint,
}

impl<T> UnifiedPointerEvent<T> {
    /// What the pointer reports, whatever its family.
    pub open spec fn data(self) -> PointerData<T> {
        match self {
            UnifiedPointerEvent::Mouse(data) => data,
            UnifiedPointerEvent::Touch(data) => data,
            UnifiedPointerEvent::Pointer(data) => data,
        }
    }

    /// The family of the occurrence.
    pub open spec fn family(self) -> InputKind {
        match self {
            UnifiedPointerEvent::Mouse(_) => InputKind::Mouse,
            UnifiedPointerEvent::Touch(_) => InputKind::Touch,
            UnifiedPointerEvent::Pointer(_) => InputKind::Pointer,
        }
    }

    /// What a tracker reads of the occurrence.
    pub open spec fn sample(self) -> Sample {
        Sample {
            kind: self.family(),
            x: self.data().client_x,
            y: self.data().client_y,
            pressed: self.data().pressed,
        }
    }

    /// Brings an occurrence into the one shape. A mouse or pointer
    /// occurrence is taken as it is; of a touch occurrence the first touch
    /// point that changed is taken.
    pub fn try_from_raw(raw: RawInput<T>) -> (event: Result<UnifiedPointerEvent<T>, InputError>)
        ensures
            event == (match raw {
                RawInput::Mouse(data) => Ok(UnifiedPointerEvent::Mouse(data)),
                RawInput::Touch(changed) => if changed@.len() > 0 {
                    Ok(UnifiedPointerEvent::Touch(changed@[0]))
                } else {
                    Err(InputError::MissingTouchPoint)
                },
                RawInput::Pointer(data) => Ok(UnifiedPointerEvent::Pointer(data)),
                RawInput::Other => Err(InputError::UnsupportedInputKind),
            }),
    {
        match raw {
            RawInput::Mouse(data) => Ok(UnifiedPointerEvent::Mouse(data)),
            RawInput::Touch(changed) => {
                let mut changed = changed;
                if changed.len() > 0 {
                    Ok(UnifiedPointerEvent::Touch(changed.remove(0)))
                } else {
                    Err(InputError::MissingTouchPoint)
                }
            },
            RawInput::Pointer(data) => Ok(UnifiedPointerEvent::Pointer(data)),
            RawInput::Other => Err(InputError::UnsupportedInputKind),
        }
    }

    fn inner(&self) -> (data: &PointerData<T>)
        ensures
            *data == self.data(),
    {
        match self {
            UnifiedPointerEvent::Mouse(data) => data,
            UnifiedPointerEvent::Touch(data) => data,
            UnifiedPointerEvent::Pointer(data) => data,
        }
    }

    /// The family of the occurrence.
    pub fn kind(&self) -> (kind: InputKind)
        ensures
            kind == self.family(),
    {
        match self {
            UnifiedPointerEvent::Mouse(_) => InputKind::Mouse,
            UnifiedPointerEvent::Touch(_) => InputKind::Touch,
            UnifiedPointerEvent::Pointer(_) => InputKind::Pointer,
        }
    }

    pub fn client_x(&self) -> (x: i32)
        ensures
            x == self.data().client_x,
    {
        self.inner().client_x
    }

    pub fn client_y(&self) -> (y: i32)
        ensures
            y == self.data().client_y,
    {
        self.inner().client_y
    }

    pub fn screen_x(&self) -> (x: i32)
        ensures
            x == self.data().screen_x,
    {
        self.inner().screen_x
    }

    pub fn screen_y(&self) -> (y: i32)
        ensures
            y == self.data().screen_y,
    {
        self.inner().screen_y
    }

    pub fn page_x(&self) -> (x: i32)
        ensures
            x == self.data().page_x,
    {
        self.inner().page_x
    }

    pub fn page_y(&self) -> (y: i32)
        ensures
            y == self.data().page_y,
    {
        self.inner().page_y
    }

    /// What is still held: zero when every button and contact is released.
    pub fn pressed(&self) -> (pressed: u32)
        ensures
            pressed == self.data().pressed,
    {
        self.inner().pressed
    }

    /// The element that the occurrence acts on, if it names one.
    pub fn target(&self) -> (target: Option<&T>)
        ensures
            target.is_some() == self.data().target.is_some(),
            target.is_some() ==> *target.unwrap() == self.data().target.unwrap(),
    {
        self.inner().target.as_ref()
    }
}

/// What a tracker reads of an occurrence: its family, where in the client
/// area the pointer is, and what is still held.
pub struct Sample {
    pub kind: InputKind,
    pub x: i32,
    pub y: i32,
    pub pressed: u32,
}

/// What has occurred: a press on the handle, a motion, or a release.
#[derive(Clone, Copy, Debug, PartialEq, Eq, Structural)]
pub enum Occurrence {
    Down,
    Move,
    Up,
}

/// Where a tracker is in the drag lifecycle. While it drags it knows the
/// family that began the drag and the last position it has seen.
#[derive(Clone, Copy, Debug, PartialEq, Eq, Structural)]
pub enum GestureState {
    Idle,
    Dragging { kind: InputKind, last_x: i32, last_y: i32 },
}

/// One thing to do in answer to an occurrence.
#[derive(Clone, Copy, Debug, PartialEq, Eq, Structural)]
pub enum GestureAction {
    /// Listen on the whole page for the motion and release events of the
    /// family.
    Listen(InputKind),
    /// Give both listeners back.
    Unlisten,
    /// Keep the page from scrolling or selecting in answer to the motion.
    PreventDefault,
    /// Tell the consumer that a drag has begun.
    Begin,
    /// Tell the consumer that the pointer has moved by this much since the
    /// occurrence before.
    Move(i64, i64),
    /// Tell the consumer that the drag has ended.
    End,
}

impl GestureState {
    /// A drag is under way, and with it the listeners on the page.
    pub open spec fn dragging(self) -> bool {
        self is Dragging
    }

    /// A motion that reports nothing held: the release was missed, and the
    /// motion stands for it.
    pub open spec fn ends_on(self, occurrence: Occurrence, sample: Sample) -> bool {
        self.dragging() && (occurrence == Occurrence::Up || (occurrence == Occurrence::Move
            && sample.pressed == 0))
    }

    /// The state after an occurrence.
    pub open spec fn next(self, occurrence: Occurrence, sample: Sample) -> GestureState {
        match occurrence {
            Occurrence::Down => GestureState::Dragging {
                kind: sample.kind,
                last_x: sample.x,
                last_y: sample.y,
            },
            Occurrence::Move => match self {
                GestureState::Idle => GestureState::Idle,
                GestureState::Dragging { kind, .. } => if sample.pressed == 0 {
                    GestureState::Idle
                } else {
                    GestureState::Dragging { kind, last_x: sample.x, last_y: sample.y }
                },
            },
            Occurrence::Up => GestureState::Idle,
        }
    }

    /// How far the pointer is from the last position seen.
    pub open spec fn delta(self, sample: Sample) -> (int, int) {
        match self {
            GestureState::Idle => (0, 0),
            GestureState::Dragging { last_x, last_y, .. } => (sample.x - last_x, sample.y - last_y),
        }
    }

    /// What is to be done in answer to an occurrence, in this order.
    pub open spec fn answer(self, occurrence: Occurrence, sample: Sample) -> Seq<GestureAction> {
        match (self, occurrence) {
            (GestureState::Idle, Occurrence::Down) => seq![
                GestureAction::Listen(sample.kind),
                GestureAction::Begin,
            ],
            (GestureState::Dragging { .. }, Occurrence::Down) => seq![
                GestureAction::Unlisten,
                GestureAction::Listen(sample.kind),
                GestureAction::Begin,
            ],
            (GestureState::Dragging { .. }, Occurrence::Move) => if sample.pressed == 0 {
                seq![
                    GestureAction::PreventDefault,
                    GestureAction::Move(self.delta(sample).0 as i64, self.delta(sample).1 as i64),
                    GestureAction::End,
                    GestureAction::Unlisten,
                ]
            } else {
                seq![
                    GestureAction::PreventDefault,
                    GestureAction::Move(self.delta(sample).0 as i64, self.delta(sample).1 as i64),
                ]
            },
            (GestureState::Dragging { .. }, Occurrence::Up) => seq![
                GestureAction::End,
                GestureAction::Unlisten,
            ],
            (GestureState::Idle, _) => Seq::empty(),
        }
    }

    /// What is to be done when the owner of a tracker goes away.
    pub open spec fn release(self) -> Seq<GestureAction> {
        if self.dragging() {
            seq![GestureAction::Unlisten]
        } else {
            Seq::empty()
        }
    }
}

/// Whether the listeners are on the page after the actions, given whether
/// they were before.
pub open spec fn listening_after(listening: bool, actions: Seq<GestureAction>) -> bool
    decreases actions.len(),
{
    if actions.len() == 0 {
        listening
    } else {
        match actions.last() {
            GestureAction::Listen(_) => true,
            GestureAction::Unlisten => false,
            _ => listening_after(listening, actions.drop_last()),
        }
    }
}

/// The actions never ask for listeners while there are some, and never give
/// back listeners that are not there.
pub open spec fn orderly(listening: bool, actions: Seq<GestureAction>) -> bool
    decreases actions.len(),
{
    if actions.len() == 0 {
        true
    } else {
        &&& orderly(listening, actions.drop_last())
        &&& match actions.last() {
            GestureAction::Listen(_) => !listening_after(listening, actions.drop_last()),
            GestureAction::Unlisten => listening_after(listening, actions.drop_last()),
            _ => true,
        }
    }
}

/// How often the consumer is told of a motion.
pub open spec fn moves_in(actions: Seq<GestureAction>) -> nat
    decreases actions.len(),
{
    if actions.len() == 0 {
        0
    } else {
        moves_in(actions.drop_last()) + if actions.last() is Move {
            1nat
        } else {
            0nat
        }
    }
}

/// The drag lifecycle of one handle.
pub struct PointerGestureTracker {
    pub state: GestureState,
}

impl PointerGestureTracker {
    /// A tracker that waits for a press.
    pub fn new() -> (tracker: PointerGestureTracker)
        ensures
            tracker.state == GestureState::Idle,
    {
        PointerGestureTracker { state: GestureState::Idle }
    }

    /// Whether a drag is under way, and with it the listeners on the page.
    pub fn is_dragging(&self) -> (dragging: bool)
        ensures
            dragging == self.state.dragging(),
    {
        match self.state {
            GestureState::Idle => false,
            GestureState::Dragging { .. } => true,
        }
    }

    /// Takes one occurrence and says what is to be done.
    ///
    /// A press begins a drag: listeners, then the consumer. A press during
    /// a drag begins it anew, with new listeners in place of the old. A
    /// motion during a drag is reported as the difference to the position
    /// seen before. A release ends the drag; so does a motion that reports
    /// nothing held, after it was reported as a motion. The listeners are
    /// given back as the last step of every end. Outside a drag, motions
    /// and releases are nothing to the tracker.
    pub fn handle<T>(&mut self, occurrence: Occurrence, event: &UnifiedPointerEvent<T>) -> (actions:
        Vec<GestureAction>)
        ensures
            final(self).state == old(self).state.next(occurrence, event.sample()),
            actions@ == old(self).state.answer(occurrence, event.sample()),
    {
        let kind: InputKind = event.kind();
        let x: i32 = event.client_x();
        let y: i32 = event.client_y();
        let mut actions: Vec<GestureAction> = Vec::new();
        match occurrence {
            Occurrence::Down => {
                if self.is_dragging() {
                    actions.push(GestureAction::Unlisten);
                }
                actions.push(GestureAction::Listen(kind));
                actions.push(GestureAction::Begin);
                self.state = GestureState::Dragging { kind, last_x: x, last_y: y };
            },
            Occurrence::Move => {
                match self.state {
                    GestureState::Idle => {},
                    GestureState::Dragging { kind: began, last_x, last_y } => {
                        let dx: i64 = x as i64 - last_x as i64;
                        let dy: i64 = y as i64 - last_y as i64;
                        actions.push(GestureAction::PreventDefault);
                        actions.push(GestureAction::Move(dx, dy));
                        if event.pressed() == 0 {
                            actions.push(GestureAction::End);
                            actions.push(GestureAction::Unlisten);
                            self.state = GestureState::Idle;
                        } else {
                            self.state = GestureState::Dragging { kind: began, last_x: x, last_y: y };
                        }
                    },
                }
            },
            Occurrence::Up => {
                if self.is_dragging() {
                    actions.push(GestureAction::End);
                    actions.push(GestureAction::Unlisten);
                }
                self.state = GestureState::Idle;
            },
        }
        actions
    }

    /// The owner of the tracker goes away: a drag that is under way is
    /// dropped, and its listeners are given back.
    pub fn cancel(&mut self) -> (actions: Vec<GestureAction>)
        ensures
            final(self).state == GestureState::Idle,
            actions@ == old(self).state.release(),
    {
        let mut actions: Vec<GestureAction> = Vec::new();
        if self.is_dragging() {
            actions.push(GestureAction::Unlisten);
        }
        self.state = GestureState::Idle;
        actions
    }
}

/// One occurrence as a tracker sees it.
pub struct Input {
    pub occurrence: Occurrence,
    pub sample: Sample,
}

/// The state of a tracker after the inputs, taken in their order.
pub open spec fn state_after(state: GestureState, inputs: Seq<Input>) -> GestureState
    decreases inputs.len(),
{
    if inputs.len() == 0 {
        state
    } else {
        state_after(state, inputs.drop_last()).next(inputs.last().occurrence, inputs.last().sample)
    }
}

/// Everything that the tracker asked for in answer to the inputs, in order.
pub open spec fn trace(state: GestureState, inputs: Seq<Input>) -> Seq<GestureAction>
    decreases inputs.len(),
{
    if inputs.len() == 0 {
        Seq::empty()
    } else {
        trace(state, inputs.drop_last()) + state_after(state, inputs.drop_last()).answer(
            inputs.last().occurrence,
            inputs.last().sample,
        )
    }
}

/// The listeners after two rows of actions are those after the second row,
/// begun with those after the first; and both rows are orderly exactly when
/// the whole is.
pub proof fn lemma_listening_after_both(listening: bool, head: Seq<GestureAction>, tail: Seq<GestureAction>)
    ensures
        listening_after(listening, head + tail) == listening_after(
            listening_after(listening, head),
            tail,
        ),
        orderly(listening, head + tail) == (orderly(listening, head) && orderly(
            listening_after(listening, head),
            tail,
        )),
    decreases tail.len(),
{
    if tail.len() > 0 {
        assert((head + tail).drop_last() =~= head + tail.drop_last());
        lemma_listening_after_both(listening, head, tail.drop_last());
    }
}

/// The listeners after one action more.
pub proof fn lemma_listening_after_one_more(
    listening: bool,
    actions: Seq<GestureAction>,
    action: GestureAction,
)
    ensures
        listening_after(listening, actions.push(action)) == (match action {
            GestureAction::Listen(_) => true,
            GestureAction::Unlisten => false,
            _ => listening_after(listening, actions),
        }),
        orderly(listening, actions.push(action)) == (orderly(listening, actions) && match action {
            GestureAction::Listen(_) => !listening_after(listening, actions),
            GestureAction::Unlisten => listening_after(listening, actions),
            _ => true,
        }),
        moves_in(actions.push(action)) == moves_in(actions) + if action is Move {
            1nat
        } else {
            0nat
        },
{
    assert(actions.push(action).drop_last() =~= actions);
}

/// The listeners follow the state: the answer to an occurrence asks for
/// listeners only when there are none and gives them back only when there
/// are some, and after it they are on the page exactly if a drag is under
/// way.
pub proof fn lemma_listeners_follow_state(state: GestureState, occurrence: Occurrence, sample: Sample)
    ensures
        orderly(state.dragging(), state.answer(occurrence, sample)),
        listening_after(state.dragging(), state.answer(occurrence, sample)) == state.next(
            occurrence,
            sample,
        ).dragging(),
{
    let held = state.dragging();
    let none = Seq::<GestureAction>::empty();
    let kind = sample.kind;
    let moved = GestureAction::Move(state.delta(sample).0 as i64, state.delta(sample).1 as i64);
    let answer = state.answer(occurrence, sample);
    match (state, occurrence) {
        (GestureState::Idle, Occurrence::Down) => {
            let a1 = none.push(GestureAction::Listen(kind));
            let a2 = a1.push(GestureAction::Begin);
            assert(answer =~= a2);
            lemma_listening_after_one_more(held, none, GestureAction::Listen(kind));
            lemma_listening_after_one_more(held, a1, GestureAction::Begin);
        },
        (GestureState::Dragging { .. }, Occurrence::Down) => {
            let a1 = none.push(GestureAction::Unlisten);
            let a2 = a1.push(GestureAction::Listen(kind));
            let a3 = a2.push(GestureAction::Begin);
            assert(answer =~= a3);
            lemma_listening_after_one_more(held, none, GestureAction::Unlisten);
            lemma_listening_after_one_more(held, a1, GestureAction::Listen(kind));
            lemma_listening_after_one_more(held, a2, GestureAction::Begin);
        },
        (GestureState::Dragging { .. }, Occurrence::Move) => {
            let a1 = none.push(GestureAction::PreventDefault);
            let a2 = a1.push(moved);
            let a3 = a2.push(GestureAction::End);
            let a4 = a3.push(GestureAction::Unlisten);
            lemma_listening_after_one_more(held, none, GestureAction::PreventDefault);
            lemma_listening_after_one_more(held, a1, moved);
            lemma_listening_after_one_more(held, a2, GestureAction::End);
            lemma_listening_after_one_more(held, a3, GestureAction::Unlisten);
            if sample.pressed == 0 {
                assert(answer =~= a4);
            } else {
                assert(answer =~= a2);
            }
        },
        (GestureState::Dragging { .. }, Occurrence::Up) => {
            let a1 = none.push(GestureAction::End);
            let a2 = a1.push(GestureAction::Unlisten);
            assert(answer =~= a2);
            lemma_listening_after_one_more(held, none, GestureAction::End);
            lemma_listening_after_one_more(held, a1, GestureAction::Unlisten);
        },
        (GestureState::Idle, _) => {},
    }
}

/// Listener cleanup: a release, or a motion that reports nothing held,
/// ends the drag. The consumer is told of the end, and giving the listeners
/// back is the last thing done; none is on the page afterwards.
pub proof fn lemma_end_gives_listeners_back(state: GestureState, occurrence: Occurrence, sample: Sample)
    requires
        state.ends_on(occurrence, sample),
    ensures
        state.next(occurrence, sample) == GestureState::Idle,
        !listening_after(true, state.answer(occurrence, sample)),
        ({
            let answer = state.answer(occurrence, sample);
            &&& answer.len() >= 2
            &&& answer[answer.len() - 1] == GestureAction::Unlisten
            &&& answer[answer.len() - 2] == GestureAction::End
        }),
{
    lemma_listeners_follow_state(state, occurrence, sample);
}

/// A motion that reports nothing held is reported to the consumer as one
/// motion, and then as the end of the drag.
pub proof fn lemma_missed_release(state: GestureState, sample: Sample)
    requires
        state.dragging(),
        sample.pressed == 0,
    ensures
        state.answer(Occurrence::Move, sample) == seq![
            GestureAction::PreventDefault,
            GestureAction::Move(state.delta(sample).0 as i64, state.delta(sample).1 as i64),
            GestureAction::End,
            GestureAction::Unlisten,
        ],
        moves_in(state.answer(Occurrence::Move, sample)) == 1,
{
    let none = Seq::<GestureAction>::empty();
    let moved = GestureAction::Move(state.delta(sample).0 as i64, state.delta(sample).1 as i64);
    let a1 = none.push(GestureAction::PreventDefault);
    let a2 = a1.push(moved);
    let a3 = a2.push(GestureAction::End);
    let a4 = a3.push(GestureAction::Unlisten);
    assert(state.answer(Occurrence::Move, sample) =~= a4);
    lemma_listening_after_one_more(true, none, GestureAction::PreventDefault);
    lemma_listening_after_one_more(true, a1, moved);
    lemma_listening_after_one_more(true, a2, GestureAction::End);
    lemma_listening_after_one_more(true, a3, GestureAction::Unlisten);
}

/// A release tells the consumer of no motion.
pub proof fn lemma_release_reports_no_motion(state: GestureState, sample: Sample)
    ensures
        moves_in(state.answer(Occurrence::Up, sample)) == 0,
{
    let none = Seq::<GestureAction>::empty();
    let a1 = none.push(GestureAction::End);
    let a2 = a1.push(GestureAction::Unlisten);
    lemma_listening_after_one_more(true, none, GestureAction::End);
    lemma_listening_after_one_more(true, a1, GestureAction::Unlisten);
    if state.dragging() {
        assert(state.answer(Occurrence::Up, sample) =~= a2);
    }
}

/// The difference that a motion reports is that between its position and
/// the one seen before, and it can always be stored.
pub proof fn lemma_delta_fits(state: GestureState, sample: Sample)
    ensures
        i64::MIN <= state.delta(sample).0 <= i64::MAX,
        i64::MIN <= state.delta(sample).1 <= i64::MAX,
{
}

/// Over any row of occurrences the listeners follow the state: they are
/// asked for and given back in turn, and after the row they are on the page
/// exactly if a drag is under way.
pub proof fn lemma_listeners_follow_every_run(state: GestureState, inputs: Seq<Input>)
    ensures
        orderly(state.dragging(), trace(state, inputs)),
        listening_after(state.dragging(), trace(state, inputs)) == state_after(state, inputs).dragging(),
    decreases inputs.len(),
{
    if inputs.len() > 0 {
        let before = inputs.drop_last();
        lemma_listeners_follow_every_run(state, before);
        lemma_listeners_follow_state(
            state_after(state, before),
            inputs.last().occurrence,
            inputs.last().sample,
        );
        lemma_listening_after_both(
            state.dragging(),
            trace(state, before),
            state_after(state, before).answer(inputs.last().occurrence, inputs.last().sample),
        );
    }
}

/// No listener is left behind: after any row of occurrences that ends with
/// a release, or with a motion that reports nothing held, the tracker waits
/// and no listener is on the page.
pub proof fn lemma_no_listener_after_gesture(state: GestureState, inputs: Seq<Input>)
    requires
        inputs.len() > 0,
        inputs.last().occurrence == Occurrence::Up || (inputs.last().occurrence == Occurrence::Move
            && inputs.last().sample.pressed == 0),
    ensures
        state_after(state, inputs) == GestureState::Idle,
        !listening_after(state.dragging(), trace(state, inputs)),
{
    lemma_listeners_follow_every_run(state, inputs);
}

/// When the owner of a tracker goes away, no listener is left behind.
pub proof fn lemma_cancel_gives_listeners_back(state: GestureState)
    ensures
        orderly(state.dragging(), state.release()),
        !listening_after(state.dragging(), state.release()),
{
    let none = Seq::<GestureAction>::empty();
    lemma_listening_after_one_more(state.dragging(), none, GestureAction::Unlisten);
}

} // verus!
