//! The chat of a match: the last lines shown, and when a typed message is
//! sent.
use vstd::prelude::*;

verus! {

/// How many lines the chat shows.
pub const MAX_CHAT_MESSAGES_COUNT: usize = 13;

/// The lines the chat shows, oldest first.
pub struct ChatLog {
    lines: Vec<String>,
}

pub open spec fn lines_view(lines: Seq<String>) -> Seq<Seq<char>> {
    lines.map_values(|l: String| l@)
}

/// The chat after `line` was added: the oldest line scrolls away when the
/// chat is full.
pub open spec fn chat_after(lines: Seq<Seq<char>>, line: Seq<char>) -> Seq<Seq<char>> {
    if lines.len() >= MAX_CHAT_MESSAGES_COUNT {
        lines.drop_first().push(line)
    } else {
        lines.push(line)
    }
}

/// The chat keeps the newest lines in order: a new line comes last, the
/// earlier lines stay before it, and only when the chat is full does the
/// oldest line scroll away.
pub proof fn lemma_chat_keeps_newest(lines: Seq<Seq<char>>, line: Seq<char>)
    requires
        lines.len() <= MAX_CHAT_MESSAGES_COUNT,
    ensures
        chat_after(lines, line).len() <= MAX_CHAT_MESSAGES_COUNT,
        chat_after(lines, line).last() == line,
        lines.len() < MAX_CHAT_MESSAGES_COUNT ==> chat_after(lines, line).drop_last() == lines,
        lines.len() == MAX_CHAT_MESSAGES_COUNT ==> chat_after(lines, line).drop_last()
            == lines.drop_first(),
{
    assert(lines.push(line).drop_last() =~= lines);
    assert(lines.drop_first().push(line).drop_last() =~= lines.drop_first());
}

/// A player's message as the chat shows it.
pub open spec fn message_text(sender: Seq<char>, msg: Seq<char>) -> Seq<char> {
    sender + ": "@ + msg
}

impl View for ChatLog {
    type V = Seq<Seq<char>>;

    closed spec fn view(&self) -> Seq<Seq<char>> {
        lines_view(self.lines@)
    }
}

impl ChatLog {
    #[verifier::type_invariant]
    spec fn bounded(self) -> bool {
        self.lines@.len() <= MAX_CHAT_MESSAGES_COUNT
    }

    pub fn new() -> (c: ChatLog)
        ensures
            c@ == Seq::<Seq<char>>::empty(),
    {
        let c = ChatLog { lines: Vec::new() };
        assert(c@ =~= Seq::<Seq<char>>::empty());
        c
    }

    /// The shown lines, oldest first; never more than
    /// [`MAX_CHAT_MESSAGES_COUNT`].
    pub fn lines(&self) -> (l: &Vec<String>)
        ensures
            lines_view(l@) == self@,
            l@.len() <= MAX_CHAT_MESSAGES_COUNT,
    {
        proof {
            use_type_invariant(self);
        }
        &self.lines
    }

    /// Shows a line below the others.
    pub fn add_line(&mut self, line: String)
        ensures
            final(self)@ == chat_after(old(self)@, line@),
    {
        proof {
            use_type_invariant(&*self);
        }
        let mut lines: Vec<String> = Vec::new();
        std::mem::swap(&mut lines, &mut self.lines);
        let ghost before = lines@;
        if lines.len() >= MAX_CHAT_MESSAGES_COUNT {
            let _ = lines.remove(0);
            assert(lines_view(lines@) =~= lines_view(before).drop_first());
        }
        let ghost mid = lines@;
        lines.push(line);
        assert(lines_view(lines@) =~= lines_view(mid).push(line@));
        self.lines = lines;
    }

    /// Shows a player's message as `sender: message`.
    pub fn add_message(&mut self, sender: &str, msg: &str)
        ensures
            final(self)@ == chat_after(old(self)@, message_text(sender@, msg@)),
    {
        let mut line = String::new();
        line.append(sender);
        line.append(": ");
        line.append(msg);
        self.add_line(line);
    }
}

/// What the chat sends when the player typed `draft`: the draft, once it
/// is not empty and the send button or enter was pressed; nothing
/// otherwise.
pub fn check_messages(draft: &String, send_pressed: bool, enter_confirmed: bool) -> (m: Option<
    String,
>)
    ensures
        (draft@.len() > 0 && (send_pressed || enter_confirmed)) ==> (m matches Some(s) && s@
            == draft@),
        !(draft@.len() > 0 && (send_pressed || enter_confirmed)) ==> m is None,
{
    if !draft.as_str().is_empty() && (send_pressed || enter_confirmed) {
        Some(draft.clone())
    } else {
        None
    }
}

} // verus!
