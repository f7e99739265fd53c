//! The text that the renderer shows: one line per conversation, one per
//! message of the selected conversation, and the status line.

use crate::app::App;
use crate::model::AppView;
use vstd::prelude::*;
use vstd::string::StringExecFns;

verus! {

/// The line of a conversation in the list: a star if it is selected, else a
/// blank, then the name in square brackets, a colon, a blank and the preview.
pub open spec fn dialog_line_text(selected: bool, name: Seq<char>, preview: Seq<char>) -> Seq<
    char,
> {
    seq![if selected { '*' } else { ' ' }, '['] + name + seq![']', ':', ' '] + preview
}

/// Builds the line of a conversation in the list.
pub fn dialog_line(selected: bool, name: &String, preview: &String) -> (line: String)
    ensures
        line@ == dialog_line_text(selected, name@, preview@),
{
    let mut line = if selected {
        String::from_str("*[")
    } else {
        String::from_str(" [")
    };
    line.append(name.as_str());
    line.append("]: ");
    line.append(preview.as_str());
    proof {
        reveal_strlit("*[");
        reveal_strlit(" [");
        reveal_strlit("]: ");
    }
    line
}

/// The lines of the conversation list of the state `s`, in its order.
pub open spec fn dialog_lines_text(s: AppView) -> Seq<Seq<char>> {
    Seq::new(
        s.chats.len(),
        |i: int|
            dialog_line_text(
                s.selected == Some(i as usize),
                s.chats[i].name,
                s.chats[i].preview,
            ),
    )
}

/// The bodies of the messages of the selected conversation, in the order of
/// its cache; nothing where no conversation is selected.
pub open spec fn message_lines_text(s: AppView) -> Seq<Seq<char>> {
    match s.selected {
        Some(k) => {
            let messages = s.chats[k as int].messages;
            Seq::new(messages.len(), |i: int| messages[i].body@)
        },
        None => Seq::empty(),
    }
}

/// The status line: the program's name and version, followed by the reason of
/// the last failed job where there is one, or else by a note where the client
/// is disconnected.
pub open spec fn status_text(s: AppView) -> Seq<char> {
    match s.failure {
        Some(reason) => "tg9 v0.1 | "@ + reason,
        None => if s.disconnected {
            "tg9 v0.1 | disconnected"@
        } else {
            "tg9 v0.1"@
        },
    }
}

/// The text of each string of `lines`.
pub open spec fn texts(lines: Seq<String>) -> Seq<Seq<char>> {
    Seq::new(lines.len(), |i: int| lines[i]@)
}

/// Builds the lines of the conversation list.
pub fn dialog_lines(app: &App) -> (lines: Vec<String>)
    ensures
        texts(lines@) == dialog_lines_text(app@),
{
    let n: usize = app.chat_count();
    let selected = app.selected();
    let mut lines: Vec<String> = Vec::new();
    let mut i: usize = 0;
    while i < n
        invariant
            0 <= i <= n,
            n == app@.chats.len(),
            selected == app@.selected,
            lines@.len() == i,
            forall|j: int|
                0 <= j < i ==> (#[trigger] lines@[j])@ == dialog_line_text(
                    app@.selected == Some(j as usize),
                    app@.chats[j].name,
                    app@.chats[j].preview,
                ),
        decreases n - i,
    {
        let chat = app.chat(i);
        let marked: bool = match selected {
            Some(k) => k == i,
            None => false,
        };
        lines.push(dialog_line(marked, &chat.name, &chat.preview));
        i = i + 1;
    }
    lines
}

/// Builds the lines of the selected conversation's messages.
pub fn message_lines(app: &App) -> (lines: Vec<String>)
    requires
        app.wf(),
    ensures
        texts(lines@) == message_lines_text(app@),
{
    proof {
        app.lemma_wf_valid();
    }
    let mut lines: Vec<String> = Vec::new();
    match app.selected() {
        Some(k) => {
            let chat = app.chat(k);
            let n: usize = chat.messages.len();
            let mut i: usize = 0;
            while i < n
                invariant
                    0 <= i <= n,
                    n == chat.messages@.len(),
                    lines@.len() == i,
                    forall|j: int|
                        0 <= j < i ==> (#[trigger] lines@[j])@ == chat.messages@[j].body@,
                decreases n - i,
            {
                lines.push(chat.messages.get(i).body.clone());
                i = i + 1;
            }
        },
        None => {},
    }
    lines
}

/// Builds the status line.
pub fn status_line(app: &App) -> (line: String)
    ensures
        line@ == status_text(app@),
{
    match app.failure() {
        Some(reason) => {
            let mut line = String::from_str("tg9 v0.1 | ");
            line.append(reason.as_str());
            line
        },
        None => {
            if app.disconnected() {
                String::from_str("tg9 v0.1 | disconnected")
            } else {
                String::from_str("tg9 v0.1")
            }
        },
    }
}

} // verus!
