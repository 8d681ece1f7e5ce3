//! The chat: what a typed line asks of the session, which messages are
//! kept, and which of them are on screen.

use crate::text::{begins_with, clip, clipped, split_words, views, words};
use vstd::prelude::*;
use vstd::string::{StrSliceExecFns, StringExecFns};

verus! {

/// The character that marks a typed line as a command.
pub const COMMAND_MARK: char = '/';

/// What a typed line turns into when it is sent.
#[derive(Clone, Debug, PartialEq, Eq)]
pub enum Line {
    /// A message to everyone in hearing.
    Chat(String),
    /// A command for the server: its name, and the words of the line.
    Command { name: String, args: Vec<String> },
}

/// A `Line` as character sequences.
pub enum LineView {
    Chat(Seq<char>),
    Command { name: Seq<char>, args: Seq<Seq<char>> },
}

impl View for Line {
    type V = LineView;

    open spec fn view(&self) -> LineView {
        match *self {
            Line::Chat(text) => LineView::Chat(text@),
            Line::Command { name, args } => LineView::Command {
                name: name@,
                args: crate::text::views(args@),
            },
        }
    }
}

/// What sending the typed text `input` means. An empty line sends nothing. A
/// line that begins with the command mark is a command: its first word, mark
/// included, is the name, and all its words, the first among them, are the
/// arguments. Any other line is a chat message, sent as typed.
pub open spec fn sent(input: Seq<char>) -> Option<LineView> {
    if input.len() == 0 {
        None
    } else if input[0] == COMMAND_MARK {
        Some(LineView::Command { name: words(input)[0], args: words(input) })
    } else {
        Some(LineView::Chat(input))
    }
}

/// A line that begins with a character that is not blank has a first word.
pub proof fn lemma_marked_line_has_a_word(input: Seq<char>)
    requires
        input.len() > 0,
        !crate::text::is_blank(input[0]),
    ensures
        words(input).len() > 0,
        words(input)[0] == input.subrange(0, crate::text::word_end(input, 0)),
{
    crate::text::lemma_word_end_bounds(input, 0);
}

/// Turns a typed line into what is sent for it, if anything.
pub fn submit(input: &str) -> (line: Option<Line>)
    ensures
        line is Some <==> input@.len() > 0,
        match line {
            Some(l) => Some(l@) == sent(input@),
            None => sent(input@) is None,
        },
{
    if input.unicode_len() == 0 {
        None
    } else if begins_with(input, COMMAND_MARK) {
        let args = split_words(input);
        proof {
            lemma_marked_line_has_a_word(input@);
            assert(crate::text::views(args@).len() == args@.len());
            assert(crate::text::views(args@)[0] == args@[0]@);
        }
        let name = args[0].clone();
        Some(Line::Command { name, args })
    } else {
        Some(Line::Chat(String::from_str(input)))
    }
}

/// Who a chat message was addressed to, as far as the transcript cares.
#[derive(Clone, Copy, Debug, PartialEq, Eq, Structural)]
pub enum ChatScope {
    /// Everyone in the world.
    World,
    /// The player's group.
    Group,
    /// Any other audience. Such messages are not kept.
    Other,
}

/// Something the session reports after a tick.
#[derive(Clone, Debug, PartialEq, Eq)]
pub enum Event {
    /// A chat message arrived.
    Chat { scope: ChatScope, message: String },
    /// Anything else.
    Other,
}

/// An `Event` with its message as a character sequence.
pub enum EventView {
    Chat { scope: ChatScope, message: Seq<char> },
    Other,
}

impl View for Event {
    type V = EventView;

    open spec fn view(&self) -> EventView {
        match *self {
            Event::Chat { scope, message } => EventView::Chat { scope, message: message@ },
            Event::Other => EventView::Other,
        }
    }
}

/// One line of chat on the screen.
#[derive(Clone, Debug, PartialEq, Eq)]
pub struct ChatLine {
    pub row: u16,
    pub text: String,
}

/// A `ChatLine` with its text as a character sequence.
pub struct ChatLineView {
    pub row: int,
    pub text: Seq<char>,
}

impl View for ChatLine {
    type V = ChatLineView;

    open spec fn view(&self) -> ChatLineView {
        ChatLineView { row: self.row as int, text: self.text@ }
    }
}

/// How many messages are on screen at most.
pub const CHAT_LINES: usize = 10;

/// How many characters of a message are shown.
pub const CHAT_WIDTH: usize = 48;

/// Row of the most recent message. Older ones stand above it.
pub const CHAT_ROW: u16 = 38;

/// The views of a sequence of events.
pub open spec fn event_views(events: Seq<Event>) -> Seq<EventView> {
    Seq::new(events.len(), |i: int| events[i]@)
}

/// The views of a sequence of chat lines.
pub open spec fn line_views(lines: Seq<ChatLine>) -> Seq<ChatLineView> {
    Seq::new(lines.len(), |i: int| lines[i]@)
}

/// The transcript entry for a message: the message itself for the world,
/// the message behind a tag for the group, and none for any other audience.
pub open spec fn entry_for(scope: ChatScope, message: Seq<char>) -> Option<Seq<char>> {
    match scope {
        ChatScope::World => Some(message),
        ChatScope::Group => Some("[Group] "@ + message),
        ChatScope::Other => None,
    }
}

/// The transcript after one event.
pub open spec fn log_after(log: Seq<Seq<char>>, event: EventView) -> Seq<Seq<char>> {
    match event {
        EventView::Chat { scope, message } => match entry_for(scope, message) {
            Some(entry) => log.push(entry),
            None => log,
        },
        EventView::Other => log,
    }
}

/// The transcript after a run of events, taken in order.
pub open spec fn log_after_all(log: Seq<Seq<char>>, events: Seq<EventView>) -> Seq<Seq<char>>
    decreases events.len(),
{
    if events.len() == 0 {
        log
    } else {
        log_after_all(log_after(log, events[0]), events.drop_first())
    }
}

/// The text shown for a message: the message cut to the chat width, behind
/// the markup that sets and resets the colour.
pub open spec fn shown_text(message: Seq<char>) -> Seq<char> {
    "#[pink]#[]"@ + clipped(message, CHAT_WIDTH as int)
}

/// How many messages of a transcript of the given length are on screen.
pub open spec fn shown_count(log_len: int) -> int {
    if log_len < CHAT_LINES as int {
        log_len
    } else {
        CHAT_LINES as int
    }
}

/// The chat lines on screen: the most recent messages, newest first, each
/// one row above the one before.
pub open spec fn shown(log: Seq<Seq<char>>) -> Seq<ChatLineView> {
    Seq::new(
        shown_count(log.len() as int) as nat,
        |i: int| ChatLineView { row: CHAT_ROW - i, text: shown_text(log[log.len() - 1 - i]) },
    )
}

/// The transcript only grows: what was in it stays where it was.
pub proof fn lemma_log_only_grows(log: Seq<Seq<char>>, events: Seq<EventView>)
    ensures
        log_after_all(log, events).len() >= log.len(),
        log_after_all(log, events).take(log.len() as int) == log,
    decreases events.len(),
{
    if events.len() > 0 {
        let next = log_after(log, events[0]);
        lemma_log_only_grows(next, events.drop_first());
        assert(next.take(log.len() as int) == log);
        assert(log_after_all(log, events).take(log.len() as int) == log_after_all(
            log,
            events,
        ).take(next.len() as int).take(log.len() as int));
    }
}

/// After a message to the world and then one to the group have arrived, the
/// group message, behind its tag, is the first line on screen and the world
/// message the second; both are cut to the chat width, and no more than the
/// ten most recent messages are shown.
pub proof fn lemma_recent_messages_come_first(
    log: Seq<Seq<char>>,
    world: Seq<char>,
    group: Seq<char>,
)
    ensures
        ({
            let after = log_after(
                log_after(log, EventView::Chat { scope: ChatScope::World, message: world }),
                EventView::Chat { scope: ChatScope::Group, message: group },
            );
            &&& 2 <= shown(after).len() <= CHAT_LINES
            &&& shown(after)[0].text == "#[pink]#[]"@ + clipped("[Group] "@ + group, 48)
            &&& shown(after)[1].text == "#[pink]#[]"@ + clipped(world, 48)
            &&& shown(after)[0].row == CHAT_ROW
            &&& shown(after)[1].row == CHAT_ROW - 1
            &&& forall|i: int|
                0 <= i < shown(after).len() ==> (#[trigger] shown(after)[i]).text == shown_text(
                    after[after.len() - 1 - i],
                )
        }),
{
}

/// Adds what an event has to say to the transcript. Messages to the world
/// are kept as they are, messages to the group behind the tag `[Group] `;
/// nothing else is kept.
pub fn record(log: &mut Vec<String>, event: &Event)
    ensures
        views(final(log)@) == log_after(views(old(log)@), event@),
{
    match event {
        Event::Chat { scope, message } => match scope {
            ChatScope::World => {
                let entry = message.clone();
                proof {
                    assert(views(log@.push(entry)) == views(log@).push(entry@));
                }
                log.push(entry);
            },
            ChatScope::Group => {
                let entry = String::from_str("[Group] ").concat(message.as_str());
                proof {
                    assert(views(log@.push(entry)) == views(log@).push(entry@));
                }
                log.push(entry);
            },
            ChatScope::Other => {},
        },
        Event::Other => {},
    }
}

/// Adds a run of events to the transcript, in order.
pub fn record_all(log: &mut Vec<String>, events: &Vec<Event>)
    ensures
        views(final(log)@) == log_after_all(views(old(log)@), event_views(events@)),
{
    let mut i: usize = 0;
    proof {
        assert(event_views(events@).skip(0) == event_views(events@));
    }
    while i < events.len()
        invariant
            0 <= i <= events.len(),
            log_after_all(views(log@), event_views(events@).skip(i as int)) == log_after_all(
                views(old(log)@),
                event_views(events@),
            ),
        decreases events.len() - i,
    {
        proof {
            let rest = event_views(events@).skip(i as int);
            assert(rest[0] == events@[i as int]@);
            assert(rest.drop_first() == event_views(events@).skip(i + 1));
        }
        record(log, &events[i]);
        i += 1;
    }
}

/// The chat lines to draw: the ten most recent messages at most, newest
/// first, starting at the chat row and going up, each cut to 48 characters.
pub fn visible_chat(log: &Vec<String>) -> (lines: Vec<ChatLine>)
    ensures
        line_views(lines@) == shown(views(log@)),
{
    let n = log.len();
    let count: usize = if n < CHAT_LINES {
        n
    } else {
        CHAT_LINES
    };
    let mut lines: Vec<ChatLine> = Vec::new();
    let mut i: usize = 0;
    while i < count
        invariant
            0 <= i <= count <= CHAT_LINES,
            count <= n,
            n == log.len(),
            count == shown_count(n as int),
            lines.len() == i,
            forall|k: int|
                0 <= k < i ==> (#[trigger] lines@[k])@ == (ChatLineView {
                    row: CHAT_ROW - k,
                    text: shown_text(log@[n - 1 - k]@),
                }),
        decreases count - i,
    {
        let message = &log[n - 1 - i];
        let text = String::from_str("#[pink]#[]").concat(clip(message.as_str(), CHAT_WIDTH).as_str());
        lines.push(ChatLine { row: CHAT_ROW - i as u16, text });
        i += 1;
    }
    proof {
        assert(line_views(lines@) =~= shown(views(log@)));
    }
    lines
}

} // verus!
