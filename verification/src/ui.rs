//! The interface state and what a key press does to it.
//!
//! The state is one record owned by the host's loop. Once per tick the host
//! hands over the key it has read, if any; the record is updated and the
//! host is told in which direction the player moves during the tick and what
//! to ask of the session.

use crate::chat::{
    record_all, sent, submit, visible_chat, ChatLine, Event, Line, LineView, event_views,
    line_views, log_after_all, shown,
};
use crate::keys::{code_digit, typed_char, Key, KeyPress, MoveDir};
use crate::text::views;
use vstd::prelude::*;

verus! {

/// The actions that are held down or let go.
#[derive(Clone, Copy, Debug, PartialEq, Eq, Structural)]
pub enum InputKind {
    Jump,
    Primary,
    Secondary,
}

/// Something to ask of the session.
#[derive(Clone, Debug, PartialEq, Eq)]
pub enum Request {
    /// Send a typed line.
    Send(Line),
    /// Accept the pending invitation.
    AcceptInvite,
    /// Decline the pending invitation.
    DeclineInvite,
    /// Hold an action down, or let it go.
    Hold { kind: InputKind, held: bool },
    /// Start or stop gliding.
    ToggleGlide,
    /// Come back to life.
    Respawn,
}

/// A `Request` with its text as character sequences.
pub enum RequestView {
    Send(LineView),
    AcceptInvite,
    DeclineInvite,
    Hold { kind: InputKind, held: bool },
    ToggleGlide,
    Respawn,
}

impl View for Request {
    type V = RequestView;

    open spec fn view(&self) -> RequestView {
        match *self {
            Request::Send(line) => RequestView::Send(line@),
            Request::AcceptInvite => RequestView::AcceptInvite,
            Request::DeclineInvite => RequestView::DeclineInvite,
            Request::Hold { kind, held } => RequestView::Hold { kind, held },
            Request::ToggleGlide => RequestView::ToggleGlide,
            Request::Respawn => RequestView::Respawn,
        }
    }
}

/// What the player wants during one tick.
#[derive(Clone, Debug, PartialEq, Eq)]
pub struct Intent {
    /// Where to move. It holds for this tick only.
    pub dir: MoveDir,
    /// What to ask of the session, if anything.
    pub request: Option<Request>,
}

/// An `Intent` with its request as a view.
pub struct IntentView {
    pub dir: MoveDir,
    pub request: Option<RequestView>,
}

impl View for Intent {
    type V = IntentView;

    open spec fn view(&self) -> IntentView {
        IntentView {
            dir: self.dir,
            request: match self.request {
                Some(r) => Some(r@),
                None => None,
            },
        }
    }
}

/// The interface state. `S` is whatever the host uses to refer to an
/// inventory slot; the state stores such references and never looks inside.
/// No key starts the typing of a line or puts a slot under the cursor: a
/// host that offers either sets `chat_input_enabled` or `arrowed` itself.
#[derive(Clone, Debug, PartialEq, Eq)]
pub struct UiState<S> {
    /// Zoom, counted in steps of one and a half: each step up shows one and a
    /// half times as much of the world per cell, each step down as much
    /// less. Zero is one world unit per cell.
    pub zoom_steps: i32,
    /// Every chat message kept so far, oldest first.
    pub chat_log: Vec<String>,
    /// The line being typed.
    pub chat_input: String,
    /// Whether keys go to the line being typed.
    pub chat_input_enabled: bool,
    /// Whether the inventory panel is open.
    pub inv_toggle: bool,
    pub is_jump_active: bool,
    pub is_secondary_active: bool,
    pub is_primary_active: bool,
    pub is_glide_active: bool,
    /// The inventory cursor.
    pub invpos: u32,
    /// The slot chosen first.
    pub arrowed1: Option<S>,
    /// The slot chosen second.
    pub arrowed2: Option<S>,
    /// The slot under the cursor.
    pub arrowed: Option<S>,
    /// The slot whose item is to be used.
    pub use_slotid: Option<S>,
    /// How far the choice of two slots has come: 0, 1 or 2.
    pub arrowedpos: u32,
    /// Whether the two chosen slots are to be swapped.
    pub swap: bool,
    /// Whether an item is to be used.
    pub use_item: bool,
}

/// The interface state as mathematical values.
pub struct UiView<S> {
    pub zoom_steps: int,
    pub chat_log: Seq<Seq<char>>,
    pub chat_input: Seq<char>,
    pub chat_input_enabled: bool,
    pub inv_toggle: bool,
    pub is_jump_active: bool,
    pub is_secondary_active: bool,
    pub is_primary_active: bool,
    pub is_glide_active: bool,
    pub invpos: int,
    pub arrowed1: Option<S>,
    pub arrowed2: Option<S>,
    pub arrowed: Option<S>,
    pub use_slotid: Option<S>,
    pub arrowedpos: int,
    pub swap: bool,
    pub use_item: bool,
}

impl<S> View for UiState<S> {
    type V = UiView<S>;

    open spec fn view(&self) -> UiView<S> {
        UiView {
            zoom_steps: self.zoom_steps as int,
            chat_log: views(self.chat_log@),
            chat_input: self.chat_input@,
            chat_input_enabled: self.chat_input_enabled,
            inv_toggle: self.inv_toggle,
            is_jump_active: self.is_jump_active,
            is_secondary_active: self.is_secondary_active,
            is_primary_active: self.is_primary_active,
            is_glide_active: self.is_glide_active,
            invpos: self.invpos as int,
            arrowed1: self.arrowed1,
            arrowed2: self.arrowed2,
            arrowed: self.arrowed,
            use_slotid: self.use_slotid,
            arrowedpos: self.arrowedpos as int,
            swap: self.swap,
            use_item: self.use_item,
        }
    }
}

impl<S> UiView<S> {
    /// Whether the numbers of the view are ones that a state can hold. The
    /// view of every state is.
    pub open spec fn representable(self) -> bool {
        &&& i32::MIN <= self.zoom_steps <= i32::MAX
        &&& 0 <= self.invpos <= u32::MAX
        &&& 0 <= self.arrowedpos <= u32::MAX
    }
}

/// The state a session starts with.
pub open spec fn initial_view<S>() -> UiView<S> {
    UiView {
        zoom_steps: 0,
        chat_log: Seq::empty(),
        chat_input: Seq::empty(),
        chat_input_enabled: false,
        inv_toggle: false,
        is_jump_active: false,
        is_secondary_active: false,
        is_primary_active: false,
        is_glide_active: false,
        invpos: 1,
        arrowed1: None,
        arrowed2: None,
        arrowed: None,
        use_slotid: None,
        arrowedpos: 0,
        swap: false,
        use_item: false,
    }
}

/// The zoom one step closer. The count stops at the smallest number it can
/// hold.
pub open spec fn zoomed_in(steps: int) -> int {
    if steps > i32::MIN {
        steps - 1
    } else {
        steps
    }
}

/// The zoom one step farther. The count stops at the largest number it can
/// hold.
pub open spec fn zoomed_out(steps: int) -> int {
    if steps < i32::MAX {
        steps + 1
    } else {
        steps
    }
}

/// `base` multiplied by itself `times` times.
pub open spec fn power(base: nat, times: nat) -> nat
    decreases times,
{
    if times == 0 {
        1
    } else {
        base * power(base, (times - 1) as nat)
    }
}

/// What a count of zoom steps means: the number of world units that one
/// cell shows, as a fraction of numerator and denominator. It is one and a
/// half to the power of the count.
pub open spec fn zoom_fraction(steps: int) -> (nat, nat) {
    if steps >= 0 {
        (power(3, steps as nat), power(2, steps as nat))
    } else {
        (power(2, (-steps) as nat), power(3, (-steps) as nat))
    }
}

/// Without a step the zoom is one, and each step out multiplies it by one
/// and a half, which is to say that each step in divides it by as much.
pub proof fn lemma_zoom_step_is_one_and_a_half(steps: int)
    ensures
        zoom_fraction(0) == (1nat, 1nat),
        ({
            let (n, d) = zoom_fraction(steps);
            let (m, e) = zoom_fraction(steps + 1);
            2 * (m * d) == 3 * (n * e)
        }),
{
    let (n, d) = zoom_fraction(steps);
    let (m, e) = zoom_fraction(steps + 1);
    if steps >= 0 {
        assert(m == 3 * n);
        assert(e == 2 * d);
        assert(2 * ((3 * n) * d) == 3 * (n * (2 * d))) by (nonlinear_arith);
    } else {
        let k = (-steps) as nat;
        let p2 = power(2, (k - 1) as nat);
        let p3 = power(3, (k - 1) as nat);
        assert(n == 2 * p2);
        assert(d == 3 * p3);
        assert(m == p2 && e == p3);
        assert(2 * (p2 * (3 * p3)) == 3 * ((2 * p2) * p3)) by (nonlinear_arith);
    }
}

/// The inventory cursor one slot on. Past the last number it starts again at
/// zero.
pub open spec fn cursor_down(pos: int) -> int {
    if pos >= u32::MAX {
        0
    } else {
        pos + 1
    }
}

/// The inventory cursor one slot back. Before zero it goes to the last
/// number.
pub open spec fn cursor_up(pos: int) -> int {
    if pos <= 0 {
        u32::MAX as int
    } else {
        pos - 1
    }
}

/// The state after a key while a line is being typed. Return ends typing
/// and empties the line, Back takes the last character away, and every other
/// key adds the last digit of its code.
pub open spec fn after_typing_key<S>(v: UiView<S>, press: KeyPress) -> UiView<S> {
    match press.key {
        Key::Return => UiView { chat_input: Seq::empty(), chat_input_enabled: false, ..v },
        Key::Back => UiView {
            chat_input: if v.chat_input.len() > 0 {
                v.chat_input.drop_last()
            } else {
                v.chat_input
            },
            ..v
        },
        _ => UiView { chat_input: v.chat_input.push(code_digit(press.code)), ..v },
    }
}

/// The state after a key of the slot choice. The first press keeps the slot
/// under the cursor as the first slot, the second keeps it as the second,
/// and every later one asks for the swap.
pub open spec fn after_choice_key<S>(v: UiView<S>) -> UiView<S> {
    if v.arrowedpos == 0 {
        UiView { arrowed1: v.arrowed, arrowedpos: 1, swap: false, ..v }
    } else if v.arrowedpos == 1 {
        UiView { arrowed2: v.arrowed, arrowedpos: 2, ..v }
    } else {
        UiView { swap: true, arrowedpos: 2, ..v }
    }
}

/// The state after a key while no line is being typed.
pub open spec fn after_play_key<S>(v: UiView<S>, key: Key) -> UiView<S> {
    match key {
        Key::Down => UiView { invpos: cursor_down(v.invpos), ..v },
        Key::Up => UiView { invpos: cursor_up(v.invpos), ..v },
        Key::Right => after_choice_key(v),
        Key::Left => UiView { use_slotid: v.arrowed, use_item: true, ..v },
        Key::T => UiView { inv_toggle: !v.inv_toggle, ..v },
        Key::Space => UiView { is_jump_active: !v.is_jump_active, ..v },
        Key::X => UiView { is_primary_active: !v.is_primary_active, ..v },
        Key::Z => UiView { is_secondary_active: !v.is_secondary_active, ..v },
        Key::G => UiView { is_glide_active: !v.is_glide_active, ..v },
        Key::Plus => UiView { zoom_steps: zoomed_in(v.zoom_steps), ..v },
        Key::Minus => UiView { zoom_steps: zoomed_out(v.zoom_steps), ..v },
        _ => v,
    }
}

/// The state after one tick's key, if there was one.
pub open spec fn after_press<S>(v: UiView<S>, press: Option<KeyPress>) -> UiView<S> {
    match press {
        None => v,
        Some(p) => if v.chat_input_enabled {
            after_typing_key(v, p)
        } else {
            after_play_key(v, p.key)
        },
    }
}

/// What a key asks of the session while no line is being typed. The three
/// held actions are switched: a press holds the action if it was not held
/// and lets it go if it was.
pub open spec fn play_request<S>(v: UiView<S>, key: Key) -> Option<RequestView> {
    match key {
        Key::U => Some(RequestView::AcceptInvite),
        Key::I => Some(RequestView::DeclineInvite),
        Key::Space => Some(RequestView::Hold { kind: InputKind::Jump, held: !v.is_jump_active }),
        Key::X => Some(
            RequestView::Hold { kind: InputKind::Primary, held: !v.is_primary_active },
        ),
        Key::Z => Some(
            RequestView::Hold { kind: InputKind::Secondary, held: !v.is_secondary_active },
        ),
        Key::G => Some(RequestView::ToggleGlide),
        Key::R => Some(RequestView::Respawn),
        _ => None,
    }
}

/// What one tick's key asks of the session. While a line is being typed
/// only Return asks for anything: that the line be sent.
pub open spec fn request_for<S>(v: UiView<S>, press: Option<KeyPress>) -> Option<RequestView> {
    match press {
        None => None,
        Some(p) => if v.chat_input_enabled {
            match p.key {
                Key::Return => match sent(v.chat_input) {
                    Some(line) => Some(RequestView::Send(line)),
                    None => None,
                },
                _ => None,
            }
        } else {
            play_request(v, p.key)
        },
    }
}

/// Where one tick's key moves the player: by the key's step from
/// standstill, and nowhere while a line is being typed or without a key.
pub open spec fn direction_for<S>(v: UiView<S>, press: Option<KeyPress>) -> MoveDir {
    match press {
        None => MoveDir::none(),
        Some(p) => if v.chat_input_enabled {
            MoveDir::none()
        } else {
            MoveDir::none().plus(p.key)
        },
    }
}

/// A key press leaves the numbers of a state within what a state can hold.
pub proof fn lemma_press_keeps_representable<S>(v: UiView<S>, press: Option<KeyPress>)
    requires
        v.representable(),
    ensures
        after_press(v, press).representable(),
{
}

/// No key touches the transcript: it changes only when events are taken
/// in, and then it only grows.
pub proof fn lemma_keys_leave_the_transcript<S>(v: UiView<S>, press: Option<KeyPress>)
    ensures
        after_press(v, press).chat_log == v.chat_log,
{
}

/// Once the key of the slot choice has been pressed the choice stands at
/// its first or second step, and from the second step on every press asks
/// for the swap.
pub proof fn lemma_choice_has_three_steps<S>(v: UiView<S>)
    ensures
        after_choice_key(v).arrowedpos == 1 || after_choice_key(v).arrowedpos == 2,
        after_choice_key(v).arrowedpos == 1 <==> v.arrowedpos == 0,
        v.arrowedpos >= 2 ==> after_choice_key(v).swap,
        after_choice_key(after_choice_key(after_choice_key(v))).swap,
{
}

/// A direction lasts for one tick: whatever was pressed, the next tick
/// without a key moves the player nowhere and asks nothing of the session.
pub proof fn lemma_direction_lasts_one_tick<S>(v: UiView<S>, press: Option<KeyPress>)
    ensures
        direction_for(after_press(v, press), None) == MoveDir::none(),
        request_for(after_press(v, press), None) is None,
        after_press(after_press(v, press), None) == after_press(v, press),
{
}

/// The direction of a tick is the pressed key's and owes nothing to the
/// state beyond whether a line is being typed.
pub proof fn lemma_direction_depends_on_key_alone<S>(a: UiView<S>, b: UiView<S>, press: KeyPress)
    requires
        !a.chat_input_enabled,
        !b.chat_input_enabled,
    ensures
        direction_for(a, Some(press)) == direction_for(b, Some(press)),
        -1 <= direction_for(a, Some(press)).x <= 1,
        -1 <= direction_for(a, Some(press)).y <= 1,
{
}

/// Zooming in and then out again, or out and then in, leaves the state as
/// it was, as long as the count of steps has room for the first step.
pub proof fn lemma_zoom_round_trip<S>(v: UiView<S>, code_in: i32, code_out: i32)
    requires
        v.representable(),
        !v.chat_input_enabled,
    ensures
        v.zoom_steps > i32::MIN ==> after_press(
            after_press(v, Some(KeyPress { key: Key::Plus, code: code_in })),
            Some(KeyPress { key: Key::Minus, code: code_out }),
        ) == v,
        v.zoom_steps < i32::MAX ==> after_press(
            after_press(v, Some(KeyPress { key: Key::Minus, code: code_out })),
            Some(KeyPress { key: Key::Plus, code: code_in }),
        ) == v,
{
}

/// Pressing the key of a held action twice asks first for the opposite of
/// what the state says and then for what it said, and leaves the state as
/// it was.
pub proof fn lemma_hold_keys_switch<S>(v: UiView<S>, key: Key, code: i32)
    requires
        !v.chat_input_enabled,
        key == Key::Space || key == Key::X || key == Key::Z,
    ensures
        ({
            let press = Some(KeyPress { key, code });
            let once = after_press(v, press);
            &&& after_press(once, press) == v
            &&& request_for(v, press) matches Some(RequestView::Hold { kind: k1, held: h1 })
            &&& request_for(once, press) matches Some(RequestView::Hold { kind: k2, held: h2 })
            &&& k1 == k2
            &&& h1 == !h2
        }),
{
}

impl<S: Copy> UiState<S> {
    /// The state at the start of a session: no zoom, nothing said or typed,
    /// nothing held, the cursor on slot 1 and no slot chosen.
    pub fn new() -> (ui: Self)
        ensures
            ui@ == initial_view::<S>(),
    {
        let ui = UiState {
            zoom_steps: 0,
            chat_log: Vec::new(),
            chat_input: String::new(),
            chat_input_enabled: false,
            inv_toggle: false,
            is_jump_active: false,
            is_secondary_active: false,
            is_primary_active: false,
            is_glide_active: false,
            invpos: 1,
            arrowed1: None,
            arrowed2: None,
            arrowed: None,
            use_slotid: None,
            arrowedpos: 0,
            swap: false,
            use_item: false,
        };
        proof {
            assert(views(ui.chat_log@) == Seq::<Seq<char>>::empty());
        }
        ui
    }

    /// Takes the key of one tick, if any, updates the state and says what
    /// the player wants during the tick.
    pub fn handle_key(&mut self, press: Option<KeyPress>) -> (intent: Intent)
        ensures
            final(self)@ == after_press(old(self)@, press),
            intent@.dir == direction_for(old(self)@, press),
            intent@.request == request_for(old(self)@, press),
    {
        let p = match press {
            None => {
                return Intent { dir: MoveDir::zero(), request: None };
            },
            Some(p) => p,
        };
        if self.chat_input_enabled {
            let mut request: Option<Request> = None;
            match p.key {
                Key::Return => {
                    let line = submit(self.chat_input.as_str());
                    self.chat_input = String::new();
                    self.chat_input_enabled = false;
                    request = match line {
                        Some(l) => Some(Request::Send(l)),
                        None => None,
                    };
                },
                Key::Back => {
                    self.chat_input.pop();
                },
                _ => {
                    self.chat_input.push(typed_char(p.code));
                },
            }
            Intent { dir: MoveDir::zero(), request }
        } else {
            let dir = MoveDir::zero().accumulate(p.key);
            let mut request: Option<Request> = None;
            match p.key {
                Key::Down => {
                    self.invpos = if self.invpos == u32::MAX {
                        0
                    } else {
                        self.invpos + 1
                    };
                },
                Key::Up => {
                    self.invpos = if self.invpos == 0 {
                        u32::MAX
                    } else {
                        self.invpos - 1
                    };
                },
                Key::Right => {
                    if self.arrowedpos == 0 {
                        self.arrowed1 = self.arrowed;
                        self.arrowedpos = 1;
                        self.swap = false;
                    } else if self.arrowedpos == 1 {
                        self.arrowed2 = self.arrowed;
                        self.arrowedpos = 2;
                    } else {
                        self.swap = true;
                        self.arrowedpos = 2;
                    }
                },
                Key::Left => {
                    self.use_slotid = self.arrowed;
                    self.use_item = true;
                },
                Key::U => {
                    request = Some(Request::AcceptInvite);
                },
                Key::I => {
                    request = Some(Request::DeclineInvite);
                },
                Key::T => {
                    self.inv_toggle = !self.inv_toggle;
                },
                Key::Space => {
                    self.is_jump_active = !self.is_jump_active;
                    request = Some(
                        Request::Hold { kind: InputKind::Jump, held: self.is_jump_active },
                    );
                },
                Key::X => {
                    self.is_primary_active = !self.is_primary_active;
                    request = Some(
                        Request::Hold { kind: InputKind::Primary, held: self.is_primary_active },
                    );
                },
                Key::Z => {
                    self.is_secondary_active = !self.is_secondary_active;
                    request = Some(
                        Request::Hold { kind: InputKind::Secondary, held: self.is_secondary_active },
                    );
                },
                Key::G => {
                    self.is_glide_active = !self.is_glide_active;
                    request = Some(Request::ToggleGlide);
                },
                Key::R => {
                    request = Some(Request::Respawn);
                },
                Key::Plus => {
                    if self.zoom_steps > i32::MIN {
                        self.zoom_steps = self.zoom_steps - 1;
                    }
                },
                Key::Minus => {
                    if self.zoom_steps < i32::MAX {
                        self.zoom_steps = self.zoom_steps + 1;
                    }
                },
                _ => {},
            }
            Intent { dir, request }
        }
    }

    /// Takes in what the session reported after a tick. Chat messages to the
    /// world and to the group join the transcript; everything else is
    /// passed over. Nothing but the transcript changes.
    pub fn absorb(&mut self, events: &Vec<Event>)
        ensures
            final(self)@ == (UiView {
                chat_log: log_after_all(old(self)@.chat_log, event_views(events@)),
                ..old(self)@
            }),
    {
        record_all(&mut self.chat_log, events);
    }

    /// The chat lines to draw for the transcript as it stands.
    pub fn chat_lines(&self) -> (lines: Vec<ChatLine>)
        ensures
            line_views(lines@) == shown(self@.chat_log),
    {
        visible_chat(&self.chat_log)
    }
}

} // verus!
