//! How a session is set up: defaults for what the user left out, the address
//! to connect to, and the choice of the character to play.

use vstd::prelude::*;
use vstd::string::{StrSliceExecFns, StringExecFns};

verus! {

/// How many chunks around the player the session is asked to keep loaded.
pub const VIEW_DISTANCE: u32 = 12;

/// How many ticks the loop aims at per second.
pub const TICKS_PER_SECOND: u32 = 60;

/// What the user gave on the command line. An option that was not given is
/// `None`.
#[derive(Clone, Debug, PartialEq, Eq)]
pub struct Arguments {
    pub username: Option<String>,
    pub password: Option<String>,
    pub server: Option<String>,
    pub port: Option<String>,
    pub character: Option<String>,
}

/// Everything a session needs to know before it connects.
#[derive(Clone, Debug, PartialEq, Eq)]
pub struct Settings {
    pub username: String,
    pub password: String,
    pub server_addr: String,
    pub server_port: String,
    pub character_name: String,
}

/// `Settings` as character sequences.
pub struct SettingsView {
    pub username: Seq<char>,
    pub password: Seq<char>,
    pub server_addr: Seq<char>,
    pub server_port: Seq<char>,
    pub character_name: Seq<char>,
}

impl View for Settings {
    type V = SettingsView;

    open spec fn view(&self) -> SettingsView {
        SettingsView {
            username: self.username@,
            password: self.password@,
            server_addr: self.server_addr@,
            server_port: self.server_port@,
            character_name: self.character_name@,
        }
    }
}

/// Why the command line cannot be used.
#[derive(Clone, Copy, Debug, PartialEq, Eq, Structural)]
pub enum UsageError {
    /// No character was named.
    MissingCharacter,
}

/// What the session does once the list of the account's characters has been
/// looked at.
#[derive(Clone, Copy, Debug, PartialEq, Eq, Structural)]
pub enum Selection {
    /// The list is still empty: keep waiting.
    Pending,
    /// The character at this position of the list is the one to play.
    Found(usize),
    /// The list has arrived and the character is not on it.
    Missing,
}

/// The value of an option: what was given, or the default.
pub open spec fn given_or(given: Option<String>, default: Seq<char>) -> Seq<char> {
    match given {
        Some(text) => text@,
        None => default,
    }
}

/// The settings that a command line with a character stands for. The
/// defaults are the public server on port 14004, the user `veloren_user` and
/// an empty password.
pub open spec fn settled(args: Arguments) -> SettingsView {
    SettingsView {
        username: given_or(args.username, "veloren_user"@),
        password: given_or(args.password, ""@),
        server_addr: given_or(args.server, "server.veloren.net"@),
        server_port: given_or(args.port, "14004"@),
        character_name: given_or(args.character, ""@),
    }
}

/// The address of a server as the session takes it: host, colon, port.
pub open spec fn address_of(settings: SettingsView) -> Seq<char> {
    settings.server_addr + ":"@ + settings.server_port
}

/// Whether no name in `aliases[..upto]` is `name`.
pub open spec fn absent_before(aliases: Seq<String>, name: Seq<char>, upto: int) -> bool {
    forall|j: int| 0 <= j < upto ==> (#[trigger] aliases[j])@ != name
}

/// The choice that a list of character names and a wanted name lead to: to
/// wait while the list is empty, else the first position that holds the
/// name, else that the name is missing.
pub open spec fn is_choice(aliases: Seq<String>, name: Seq<char>, choice: Selection) -> bool {
    match choice {
        Selection::Pending => aliases.len() == 0,
        Selection::Found(i) => i < aliases.len() && aliases[i as int]@ == name && absent_before(
            aliases,
            name,
            i as int,
        ),
        Selection::Missing => aliases.len() > 0 && absent_before(
            aliases,
            name,
            aliases.len() as int,
        ),
    }
}

/// A list and a name lead to one choice only.
pub proof fn lemma_choice_is_unique(
    aliases: Seq<String>,
    name: Seq<char>,
    a: Selection,
    b: Selection,
)
    requires
        is_choice(aliases, name, a),
        is_choice(aliases, name, b),
    ensures
        a == b,
{
    match (a, b) {
        (Selection::Found(i), Selection::Found(j)) => {
            if i < j {
                assert(aliases[i as int]@ != name);
            } else if j < i {
                assert(aliases[j as int]@ != name);
            }
        },
        (Selection::Found(i), Selection::Missing) => {
            assert(aliases[i as int]@ != name);
        },
        (Selection::Missing, Selection::Found(j)) => {
            assert(aliases[j as int]@ != name);
        },
        _ => {},
    }
}

fn text_or(given: Option<String>, default: &str) -> (text: String)
    ensures
        text@ == given_or(given, default@),
{
    match given {
        Some(text) => text,
        None => String::from_str(default),
    }
}

/// Fills in what the command line left out. The character is the one thing
/// that has no default: without it there are no settings.
pub fn settle(args: Arguments) -> (out: Result<Settings, UsageError>)
    ensures
        out is Err <==> args.character is None,
        out matches Ok(settings) ==> settings@ == settled(args),
        out matches Err(e) ==> e == UsageError::MissingCharacter,
{
    match args.character {
        None => Err(UsageError::MissingCharacter),
        Some(character_name) => Ok(
            Settings {
                username: text_or(args.username, "veloren_user"),
                password: text_or(args.password, ""),
                server_addr: text_or(args.server, "server.veloren.net"),
                server_port: text_or(args.port, "14004"),
                character_name,
            },
        ),
    }
}

impl Settings {
    /// The address to connect to: the server's host and port with a colon
    /// between them.
    pub fn server_spec(&self) -> (address: String)
        ensures
            address@ == address_of(self@),
    {
        let mut address = self.server_addr.clone();
        address.append(":");
        address.append(self.server_port.as_str());
        address
    }
}

/// Whether the session may log in through the given authentication
/// provider. Every provider is allowed.
pub fn trusts_auth_provider(provider: &str) -> (trusted: bool)
    ensures
        trusted,
{
    true
}

/// Decides, from the names of the account's characters in the order in
/// which the server listed them, which character to ask for.
pub fn select_character(aliases: &Vec<String>, name: &str) -> (choice: Selection)
    ensures
        is_choice(aliases@, name@, choice),
{
    if aliases.len() == 0 {
        return Selection::Pending;
    }
    let wanted = String::from_str(name);
    let mut i: usize = 0;
    while i < aliases.len()
        invariant
            0 <= i <= aliases.len(),
            wanted@ == name@,
            absent_before(aliases@, name@, i as int),
        decreases aliases.len() - i,
    {
        if aliases[i] == wanted {
            return Selection::Found(i);
        }
        i += 1;
    }
    Selection::Missing
}

} // verus!
