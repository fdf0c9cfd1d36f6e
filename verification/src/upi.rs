//! The universal Patchwork interface (UPI): how the engine answers the
//! messages of a graphical interface. The loop over a channel of messages
//! runs outside the library; each message is answered here.
use vstd::prelude::*;
use vstd::string::{StrSliceExecFns, StringExecFns};

use crate::text::{
    chars_of, first_word, first_word_of, leading_word, lowercase_of, spells, to_lowercase, trim,
    trimmed, without_leading_whitespace,
};

verus! {

/// The commands of the interface that the engine knows.
#[derive(Copy, Clone, Debug, PartialEq, Eq, Hash, Structural)]
pub enum UpiCommand {
    /// `upi`: the interface asks for the name and authors of the engine.
    Upi,
    /// `isready`: the interface asks whether the engine is ready.
    IsReady,
    /// `quit`: the engine stops.
    Quit,
    /// Any other message.
    Unknown,
}

/// The command of a word.
pub open spec fn command_of_word(word: Option<Seq<char>>) -> UpiCommand {
    match word {
        Some(w) => if w == "upi"@ {
            UpiCommand::Upi
        } else if w == "isready"@ {
            UpiCommand::IsReady
        } else if w == "quit"@ {
            UpiCommand::Quit
        } else {
            UpiCommand::Unknown
        },
        None => UpiCommand::Unknown,
    }
}

/// The command of a message: its first word after trimming and lowercasing.
pub open spec fn command_of(message: Seq<char>) -> UpiCommand {
    command_of_word(first_word(lowercase_of(trimmed(message))))
}

/// The command of a trimmed and lowercased text: its first word (`upi`,
/// `isready` or `quit`; anything else is unknown).
pub fn command_of_text(text: &str) -> (command: UpiCommand)
    ensures
        command == command_of_word(first_word(text@)),
{
    let chars = chars_of(text);
    match first_word_of(&chars) {
        Some(word) => {
            if spells(word.as_slice(), "upi") {
                UpiCommand::Upi
            } else if spells(word.as_slice(), "isready") {
                UpiCommand::IsReady
            } else if spells(word.as_slice(), "quit") {
                UpiCommand::Quit
            } else {
                UpiCommand::Unknown
            }
        },
        None => UpiCommand::Unknown,
    }
}

/// The command of a message: its first word after trimming and lowercasing
/// (`upi`, `isready` or `quit`; anything else is unknown).
pub fn upi_command(message: &str) -> (command: UpiCommand)
    ensures
        command == command_of(message@),
{
    let lower = to_lowercase(trim(message));
    command_of_text(lower.as_str())
}

/// The authors of a package as Cargo lists them (separated by `:`), with
/// ` & ` between them.
pub open spec fn joined_authors(authors: Seq<char>) -> Seq<char>
    decreases authors.len(),
{
    if authors.len() == 0 {
        Seq::empty()
    } else {
        joined_authors(authors.drop_last()) + if authors.last() == ':' {
            " & "@
        } else {
            seq![authors.last()]
        }
    }
}

/// Replaces each `:` between the authors by ` & `.
pub fn join_authors(authors: &str) -> (joined: String)
    ensures
        joined@ == joined_authors(authors@),
{
    let length = authors.unicode_len();
    let mut joined = String::from_str("");
    proof {
        reveal_strlit("");
    }
    let mut i: usize = 0;
    while i < length
        invariant
            length == authors@.len(),
            i <= length,
            joined@ == joined_authors(authors@.subrange(0, i as int)),
        decreases length - i,
    {
        let ghost before = authors@.subrange(0, i as int);
        let c = authors.get_char(i);
        if c == ':' {
            joined.append(" & ");
        } else {
            let single = authors.substring_char(i, i + 1);
            assert(single@ =~= seq![c]);
            joined.append(single);
        }
        i += 1;
        assert(authors@.subrange(0, i as int).drop_last() =~= before);
    }
    assert(authors@.subrange(0, length as int) =~= authors@);
    joined
}

/// The answer to a message of the interface.
#[derive(Clone, Debug, PartialEq, Eq, Hash)]
pub enum UpiReply {
    /// Send the text back.
    Send(String),
    /// Stop answering.
    Quit,
}

/// The identification of the engine: its name, its authors and `upiok`.
pub open spec fn identification(package_name: Seq<char>, package_authors: Seq<char>) -> Seq<char> {
    "id name "@ + package_name + "\nid author "@ + joined_authors(package_authors) + "\nupiok\n"@
}

/// Answers a command: `upi` with the identification of the package
/// (`id name`, `id author` with the authors joined by ` & `, `upiok`),
/// `isready` with `readyok`, `quit` by stopping, and anything else with
/// `unknown command`; every answer ends with a line break.
pub fn reply_to_command(command: UpiCommand, package_name: &str, package_authors: &str) -> (reply: UpiReply)
    ensures
        match command {
            UpiCommand::Upi => reply matches UpiReply::Send(text) && text@ == identification(
                package_name@,
                package_authors@,
            ),
            UpiCommand::IsReady => reply matches UpiReply::Send(text) && text@ == "readyok\n"@,
            UpiCommand::Quit => reply is Quit,
            UpiCommand::Unknown => reply matches UpiReply::Send(text) && text@
                == "unknown command\n"@,
        },
{
    match command {
        UpiCommand::Upi => {
            let mut text = String::from_str("id name ");
            text.append(package_name);
            text.append("\nid author ");
            let authors = join_authors(package_authors);
            text.append(authors.as_str());
            text.append("\nupiok\n");
            UpiReply::Send(text)
        },
        UpiCommand::IsReady => UpiReply::Send(String::from_str("readyok\n")),
        UpiCommand::Quit => UpiReply::Quit,
        UpiCommand::Unknown => UpiReply::Send(String::from_str("unknown command\n")),
    }
}

/// Answers a message by its command (see `upi_command` and
/// `reply_to_command`).
pub fn upi_reply(message: &str, package_name: &str, package_authors: &str) -> (reply: UpiReply)
    ensures
        match command_of(message@) {
            UpiCommand::Upi => reply matches UpiReply::Send(text) && text@ == identification(
                package_name@,
                package_authors@,
            ),
            UpiCommand::IsReady => reply matches UpiReply::Send(text) && text@ == "readyok\n"@,
            UpiCommand::Quit => reply is Quit,
            UpiCommand::Unknown => reply matches UpiReply::Send(text) && text@
                == "unknown command\n"@,
        },
{
    reply_to_command(upi_command(message), package_name, package_authors)
}

/// The answer to the trimmed and lowercased text `isready` is `readyok`.
pub proof fn lemma_isready_is_answered()
    ensures
        command_of_word(first_word("isready"@)) == UpiCommand::IsReady,
{
    reveal_strlit("isready");
    reveal_with_fuel(leading_word, 8);
    let text = "isready"@;
    assert(without_leading_whitespace(text) == text);
    assert(leading_word(text) =~= text);
    assert(first_word(text) == Some(text));
    reveal_strlit("upi");
    assert(text != "upi"@);
}

/// Every answer that the engine sends ends with a line break, and only the
/// `quit` command stops the answers.
pub proof fn lemma_answers_end_with_line_break(package_name: Seq<char>, package_authors: Seq<char>)
    ensures
        identification(package_name, package_authors).len() > 0 && identification(
            package_name,
            package_authors,
        ).last() == '\n',
        "readyok\n"@.len() > 0 && "readyok\n"@.last() == '\n',
        "unknown command\n"@.len() > 0 && "unknown command\n"@.last() == '\n',
{
    reveal_strlit("\nupiok\n");
    reveal_strlit("readyok\n");
    reveal_strlit("unknown command\n");
    let text = identification(package_name, package_authors);
    let prefix = "id name "@ + package_name + "\nid author "@ + joined_authors(package_authors);
    assert(text == prefix + "\nupiok\n"@);
    assert(text.last() == "\nupiok\n"@.last());
}

} // verus!
