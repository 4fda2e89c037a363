//! The operator's command lines.

use vstd::prelude::*;
use vstd::string::*;

use crate::client::WebSocketCommand;
use crate::topic::topic_seq;

verus! {

/// What `str::split_whitespace` yields for a string, in order.
pub uninterp spec fn words(s: Seq<char>) -> Seq<Seq<char>>;

/// Relies on `str::split_whitespace`: the words of the line, in order; the
/// result depends on the characters alone.
#[verifier::external_body]
fn split_words(s: &str) -> (r: Vec<String>)
    ensures
        topic_seq(r@) == words(s@),
{
    s.split_whitespace().map(|w| w.to_string()).collect()
}

/// What a command line says.
#[derive(Clone, Debug)]
pub enum CommandLine {
    /// A command.
    Command(WebSocketCommand),
    /// A line with no words.
    Empty,
    /// A line that is no command.
    Unknown,
}

/// Whether a parsed line is what its words make: `addsub <stream>`,
/// `delsub <stream>`, `list`, `listserver`, `help` or `quit`, where the
/// stream is the second word as typed.
pub open spec fn parsed_as(w: Seq<Seq<char>>, r: CommandLine) -> bool {
    if w.len() == 0 {
        r is Empty
    } else if w.len() == 2 && w[0] == "addsub"@ {
        r matches CommandLine::Command(WebSocketCommand::Subscribe(t)) && t@ == w[1]
    } else if w.len() == 2 && w[0] == "delsub"@ {
        r matches CommandLine::Command(WebSocketCommand::Unsubscribe(t)) && t@ == w[1]
    } else if w.len() == 1 && w[0] == "list"@ {
        r matches CommandLine::Command(WebSocketCommand::ListLocal)
    } else if w.len() == 1 && w[0] == "listserver"@ {
        r matches CommandLine::Command(WebSocketCommand::ListServer)
    } else if w.len() == 1 && w[0] == "help"@ {
        r matches CommandLine::Command(WebSocketCommand::Help)
    } else if w.len() == 1 && w[0] == "quit"@ {
        r matches CommandLine::Command(WebSocketCommand::Quit)
    } else {
        r is Unknown
    }
}

fn word_is(w: &String, lit: &str) -> (r: bool)
    ensures
        r == (w@ == lit@),
{
    *w == String::from_str(lit)
}

/// Reads a command line.
pub fn parse_command(line: &str) -> (r: CommandLine)
    ensures
        parsed_as(words(line@), r),
{
    let mut parts = split_words(line);
    let ghost w = words(line@);
    assert(parts@.len() == w.len());
    if parts.len() == 0 {
        return CommandLine::Empty;
    }
    proof {
        assert(parts@[0]@ == w[0]);
        reveal_strlit("addsub");
        reveal_strlit("delsub");
        reveal_strlit("list");
        reveal_strlit("listserver");
        reveal_strlit("help");
        reveal_strlit("quit");
    }
    if parts.len() == 2 {
        assert(parts@[1]@ == w[1]);
        if word_is(&parts[0], "addsub") {
            let t = parts.pop().unwrap();
            return CommandLine::Command(WebSocketCommand::Subscribe(t));
        }
        if word_is(&parts[0], "delsub") {
            let t = parts.pop().unwrap();
            return CommandLine::Command(WebSocketCommand::Unsubscribe(t));
        }
        return CommandLine::Unknown;
    }
    if parts.len() == 1 {
        if word_is(&parts[0], "list") {
            return CommandLine::Command(WebSocketCommand::ListLocal);
        }
        if word_is(&parts[0], "listserver") {
            return CommandLine::Command(WebSocketCommand::ListServer);
        }
        if word_is(&parts[0], "help") {
            return CommandLine::Command(WebSocketCommand::Help);
        }
        if word_is(&parts[0], "quit") {
            return CommandLine::Command(WebSocketCommand::Quit);
        }
    }
    CommandLine::Unknown
}

/// The lines of the command help.
pub open spec fn help_lines() -> Seq<Seq<char>> {
    seq![
        "Dynamic mode commands:"@,
        "  addsub <stream>    - subscribe to a stream, e.g. btcusdt@trade"@,
        "  delsub <stream>    - unsubscribe from a stream"@,
        "  list               - show local desired/active subscriptions"@,
        "  listserver         - query server-side active subscriptions"@,
        "  help               - show command help"@,
        "  quit               - close websocket and exit"@,
    ]
}

/// The command help, one line each.
pub fn print_dynamic_help() -> (r: Vec<String>)
    ensures
        topic_seq(r@) == help_lines(),
{
    let mut v: Vec<String> = Vec::new();
    v.push(String::from_str("Dynamic mode commands:"));
    v.push(String::from_str("  addsub <stream>    - subscribe to a stream, e.g. btcusdt@trade"));
    v.push(String::from_str("  delsub <stream>    - unsubscribe from a stream"));
    v.push(String::from_str("  list               - show local desired/active subscriptions"));
    v.push(String::from_str("  listserver         - query server-side active subscriptions"));
    v.push(String::from_str("  help               - show command help"));
    v.push(String::from_str("  quit               - close websocket and exit"));
    assert(topic_seq(v@) =~= help_lines());
    v
}

} // verus!
