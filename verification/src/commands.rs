//! The command table, the hook that runs before a command, the `ping`
//! command, and the dispatch of an incoming message to them.

use crate::logging::{Level, LogLine};
use crate::text::{is_whitespace, is_whitespace_char};
use std::collections::HashSet;
use vstd::prelude::*;
use vstd::string::*;

verus! {

/// A command of the bot.
#[derive(Clone, Copy, Debug, PartialEq, Eq, Structural)]
pub enum Command {
    /// Answers in the channel the message came from.
    Ping,
}

impl Command {
    /// The name a message invokes the command by.
    pub open spec fn name_text(self) -> Seq<char> {
        match self {
            Command::Ping => "ping"@,
        }
    }

    /// The name a message invokes the command by.
    pub fn name(&self) -> (name: &'static str)
        ensures
            name@ == self.name_text(),
    {
        match self {
            Command::Ping => "ping",
        }
    }
}

/// An incoming chat message, as far as the bot reads it.
#[derive(Debug)]
pub struct Message {
    /// The text of the message.
    pub content: String,
    /// The display name of the user who sent it.
    pub author: String,
    /// The channel it was sent in.
    pub channel_id: u64,
}

/// Something the bot does in answer to a message. The caller carries it out.
#[derive(Debug, PartialEq, Eq)]
pub enum Action {
    /// Write a line to the log.
    Log { line: LogLine },
    /// Send a message into a channel.
    Reply { channel_id: u64, content: String },
}

/// A named group of commands.
#[derive(Debug)]
pub struct CommandGroup {
    pub name: String,
    pub commands: Vec<Command>,
}

/// The command framework: the prefix that marks a command, the owners, and
/// the commands.
#[derive(Debug)]
pub struct Framework {
    pub prefix: String,
    pub owners: HashSet<u64>,
    pub group: CommandGroup,
}

/// The line logged before a command runs.
pub open spec fn before_text(command_name: Seq<char>, author: Seq<char>) -> Seq<char> {
    "Got command '"@ + command_name + "' by user '"@ + author + "'"@
}

/// The text the `ping` command answers with.
pub open spec fn ping_reply_text() -> Seq<char> {
    "Pong!"@
}

/// The hook that runs before every matched command. It yields the
/// informational line to log, which names the command and the user, and
/// always permits the command to run.
pub fn before(msg: &Message, command_name: &str) -> (r: (LogLine, bool))
    ensures
        r.0.says(Level::Info, before_text(command_name@, msg.author@)),
        r.1,
{
    let mut line = String::from_str("Got command '");
    line.append(command_name);
    line.append("' by user '");
    line.append(msg.author.as_str());
    line.append("'");
    (LogLine { level: Level::Info, text: line }, true)
}

/// The `ping` command: one reply, into the channel the message came from.
pub fn ping(msg: &Message) -> (action: Action)
    ensures
        action matches Action::Reply { channel_id, content } && channel_id == msg.channel_id
            && content@ == ping_reply_text(),
{
    Action::Reply { channel_id: msg.channel_id, content: String::from_str("Pong!") }
}

/// Runs a command on the message that invoked it.
pub fn run(command: Command, msg: &Message) -> (action: Action)
    ensures
        match command {
            Command::Ping => action matches Action::Reply { channel_id, content } && channel_id
                == msg.channel_id && content@ == ping_reply_text(),
        },
{
    match command {
        Command::Ping => ping(msg),
    }
}

impl CommandGroup {
    /// The group the bot registers: "General", holding `ping`.
    pub fn general() -> (group: CommandGroup)
        ensures
            group.name@ == "General"@,
            group.commands@ == seq![Command::Ping],
    {
        let mut commands: Vec<Command> = Vec::new();
        commands.push(Command::Ping);
        assert(commands@ =~= seq![Command::Ping]);
        CommandGroup { name: String::from_str("General"), commands }
    }
}

impl Framework {
    /// The framework the bot runs with: prefix "!", the given owners, and
    /// the general group.
    pub fn new(owners: HashSet<u64>) -> (framework: Framework)
        ensures
            framework.prefix@ == "!"@,
            framework.owners@ == owners@,
            framework.group.name@ == "General"@,
            framework.group.commands@ == seq![Command::Ping],
    {
        Framework { prefix: String::from_str("!"), owners, group: CommandGroup::general() }
    }

    /// Whether `content` invokes `command`: it begins with the prefix and
    /// the command's name, and the name ends there, at the end of the
    /// message or at white space. What follows the name is not read.
    pub open spec fn invokes(&self, content: Seq<char>, command: Command) -> bool {
        let head = self.prefix@ + command.name_text();
        &&& head.is_prefix_of(content)
        &&& (content.len() == head.len() || is_whitespace_char(content[head.len() as int]))
    }

    /// Whether `content` invokes the command at `i` and none before it.
    pub open spec fn first_match(&self, content: Seq<char>, i: int) -> bool {
        &&& 0 <= i < self.group.commands@.len()
        &&& self.invokes(content, self.group.commands@[i])
        &&& forall|j: int| 0 <= j < i ==> !self.invokes(content, #[trigger] self.group.commands@[j])
    }

    /// Whether `content` invokes no registered command.
    pub open spec fn unmatched(&self, content: Seq<char>) -> bool {
        forall|j: int|
            0 <= j < self.group.commands@.len() ==> !self.invokes(
                content,
                #[trigger] self.group.commands@[j],
            )
    }

    /// Decides whether `content` invokes `command`.
    pub fn is_invoked(&self, content: &str, command: Command) -> (r: bool)
        ensures
            r == self.invokes(content@, command),
    {
        let head = self.prefix.clone().concat(command.name());
        let head_len = head.as_str().unicode_len();
        let len = content.unicode_len();
        if len < head_len {
            return false;
        }
        let start = String::from_str(content.substring_char(0, head_len));
        if start != head {
            return false;
        }
        len == head_len || is_whitespace(content.get_char(head_len))
    }

    /// Finds the command that `content` invokes: the first registered one
    /// that it invokes, if there is one.
    pub fn resolve(&self, content: &str) -> (found: Option<Command>)
        ensures
            match found {
                Some(command) => exists|i: int|
                    self.first_match(content@, i) && self.group.commands@[i] == command,
                None => self.unmatched(content@),
            },
    {
        let mut i: usize = 0;
        while i < self.group.commands.len()
            invariant
                i <= self.group.commands@.len(),
                forall|j: int|
                    0 <= j < i ==> !self.invokes(content@, #[trigger] self.group.commands@[j]),
            decreases self.group.commands@.len() - i,
        {
            let command = self.group.commands[i];
            if self.is_invoked(content, command) {
                assert(self.first_match(content@, i as int));
                return Some(command);
            }
            i += 1;
        }
        None
    }

    /// What the bot does for a message that invokes `command`: the log line
    /// of the hook, then the command's own action.
    pub open spec fn command_actions(command: Command, msg: Message, actions: Seq<Action>) -> bool {
        &&& actions.len() == 2
        &&& actions[0] matches Action::Log { line } && line.says(
            Level::Info,
            before_text(command.name_text(), msg.author@),
        )
        &&& match command {
            Command::Ping => actions[1] matches Action::Reply { channel_id, content } && channel_id
                == msg.channel_id && content@ == ping_reply_text(),
        }
    }

    /// Decides what to do for an incoming message. A message that invokes a
    /// command gets the hook's log line and then the command's action, in
    /// that order and once each; any other message gets nothing.
    pub fn dispatch(&self, msg: &Message) -> (actions: Vec<Action>)
        ensures
            self.unmatched(msg.content@) ==> actions@.len() == 0,
            forall|i: int| #[trigger]
                self.first_match(msg.content@, i) ==> Self::command_actions(
                    self.group.commands@[i],
                    *msg,
                    actions@,
                ),
    {
        let mut actions: Vec<Action> = Vec::new();
        match self.resolve(msg.content.as_str()) {
            None => {
                assert forall|i: int| #[trigger]
                    self.first_match(msg.content@, i) implies false by {
                    assert(!self.invokes(msg.content@, self.group.commands@[i]));
                }
            },
            Some(command) => {
                let (line, permit) = before(msg, command.name());
                actions.push(Action::Log { line });
                if permit {
                    actions.push(run(command, msg));
                }
                proof {
                    let k = choose|k: int|
                        self.first_match(msg.content@, k) && self.group.commands@[k] == command;
                    assert forall|i: int| #[trigger]
                        self.first_match(msg.content@, i) implies self.group.commands@[i]
                        == command by {
                        if i < k {
                            assert(!self.invokes(msg.content@, self.group.commands@[i]));
                        } else if k < i {
                            assert(!self.invokes(msg.content@, self.group.commands@[k]));
                        }
                    }
                    assert(!self.unmatched(msg.content@)) by {
                        assert(self.invokes(msg.content@, self.group.commands@[k]));
                    }
                }
            },
        }
        actions
    }
}

/// Whether `content` is "!ping", alone or followed by white space and
/// anything after it.
pub open spec fn is_ping_invocation(content: Seq<char>) -> bool {
    &&& "!ping"@.is_prefix_of(content)
    &&& (content.len() == 5 || is_whitespace_char(content[5]))
}

/// With the bot's own table (prefix "!", the one command `ping`), a message
/// invokes `ping` if it is "!ping" up to its end or its first white space,
/// and every other message, one without the prefix or with another word
/// behind it among them, invokes nothing.
pub proof fn lemma_only_ping_is_invoked(framework: Framework, content: Seq<char>)
    requires
        framework.prefix@ == "!"@,
        framework.group.commands@ == seq![Command::Ping],
    ensures
        framework.first_match(content, 0) <==> is_ping_invocation(content),
        framework.unmatched(content) <==> !is_ping_invocation(content),
        forall|i: int| #[trigger] framework.first_match(content, i) ==> i == 0,
{
    reveal_strlit("!");
    reveal_strlit("ping");
    reveal_strlit("!ping");
    assert("!"@ + "ping"@ =~= "!ping"@);
    assert(framework.group.commands@[0] == Command::Ping);
    if !is_ping_invocation(content) {
        assert forall|j: int| 0 <= j < framework.group.commands@.len() implies !framework.invokes(
            content,
            #[trigger] framework.group.commands@[j],
        ) by {
            assert(j == 0);
        }
    }
}

/// Whether none of the first `n` registered commands is invoked by `content`.
pub open spec fn unmatched_within(framework: Framework, content: Seq<char>, n: nat) -> bool {
    forall|j: int|
        0 <= j < n ==> !framework.invokes(content, #[trigger] framework.group.commands@[j])
}

proof fn lemma_first_match_within(framework: Framework, content: Seq<char>, n: nat)
    requires
        n <= framework.group.commands@.len(),
    ensures
        unmatched_within(framework, content, n) || exists|i: int|
            framework.first_match(content, i),
    decreases n,
{
    if n > 0 {
        let m = (n - 1) as nat;
        lemma_first_match_within(framework, content, m);
        if unmatched_within(framework, content, m) && framework.invokes(
            content,
            framework.group.commands@[m as int],
        ) {
            assert(framework.first_match(content, m as int));
        }
    }
}

/// Every message falls under exactly one of the two cases that `dispatch`
/// speaks of: it invokes nothing, or it has one first match.
pub proof fn lemma_one_outcome_per_message(framework: Framework, content: Seq<char>)
    ensures
        framework.unmatched(content) <==> !(exists|i: int| framework.first_match(content, i)),
        forall|i: int, j: int|
            framework.first_match(content, i) && framework.first_match(content, j) ==> i == j,
{
    lemma_first_match_within(framework, content, framework.group.commands@.len());
    if exists|i: int| framework.first_match(content, i) {
        let i = choose|i: int| framework.first_match(content, i);
        assert(framework.invokes(content, framework.group.commands@[i]));
    }
    assert forall|i: int, j: int|
        framework.first_match(content, i) && framework.first_match(content, j) implies i == j by {
        if i < j {
            assert(!framework.invokes(content, framework.group.commands@[i]));
        } else if j < i {
            assert(!framework.invokes(content, framework.group.commands@[j]));
        }
    }
}

} // verus!
