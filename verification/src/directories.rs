//! Adding and listing download directories: what the user's message is
//! read as, and what is said.

use crate::models::{next_ordinal, next_ordinal_of, DownloadDirectory, NewDownloadDirectory};
use crate::text::{lines, lines_of};
use crate::ui::{
    command_button, keyboard_view, no_keyboard, push_row, Button, ButtonView, Render, Reply,
    ReplyView, ADD_DIRECTORY, BACK_TO_SETTINGS, LIST_DIRECTORIES, RESET_DIRECTORIES,
};
use vstd::prelude::*;

verus! {

/// The text that asks for a directory's details.
pub const DIRECTORY_PROMPT: &'static str =
    "<b>Adding directory</b>\nDirectory format is\n\nfirst line: <i>Directory alias</i>\nsecond line: <i>Directory path</i>";

/// Reads the details of a directory from a message: the alias on the first
/// line and the path on the second. A message of another number of lines
/// is answered with that number.
pub fn read_directory(text: &str) -> (out: Result<(String, String), usize>)
    ensures
        out is Ok <==> lines_of(text@).len() == 2,
        out matches Err(count) ==> count == lines_of(text@).len(),
        out matches Ok(pair) ==> pair.0@ == lines_of(text@)[0] && pair.1@ == lines_of(text@)[1],
{
    let rows = lines(text);
    if rows.len() != 2 {
        return Err(rows.len());
    }
    Ok((rows[0].clone(), rows[1].clone()))
}

/// The ordinals of some directories, one by one.
pub open spec fn ordinals_of(dirs: Seq<DownloadDirectory>) -> Seq<i32> {
    Seq::new(dirs.len(), |i: int| dirs[i].ordinal)
}

/// The next directory of an owner, given the directories the owner has:
/// its ordinal is one more than the largest of theirs, and 1 for the
/// first, so it is larger than each of theirs. There is none once the
/// largest possible ordinal is taken.
pub fn new_directory(user_id: i64, alias: String, path: String, existing: &Vec<DownloadDirectory>) -> (out:
    Option<NewDownloadDirectory>)
    ensures
        out is Some <==> next_ordinal_of(ordinals_of(existing@)) <= i32::MAX,
        out matches Some(dir) ==> {
            &&& dir.user_id == user_id
            &&& dir.alias == alias
            &&& dir.path == path
            &&& dir.ordinal == next_ordinal_of(ordinals_of(existing@))
            &&& existing.len() == 0 ==> dir.ordinal == 1
            &&& forall|i: int| 0 <= i < existing.len() ==> existing[i].ordinal < dir.ordinal
        },
{
    let mut ordinals: Vec<i32> = Vec::new();
    let mut i: usize = 0;
    while i < existing.len()
        invariant
            i <= existing.len(),
            ordinals@ == ordinals_of(existing@).subrange(0, i as int),
        decreases existing.len() - i,
    {
        ordinals.push(existing[i].ordinal);
        assert(ordinals@ =~= ordinals_of(existing@).subrange(0, i + 1));
        i += 1;
    }
    assert(ordinals@ =~= ordinals_of(existing@));
    proof {
        if ordinals@.len() > 0 {
            crate::models::lemma_largest(ordinals@);
        }
    }
    match next_ordinal(&ordinals) {
        Some(ordinal) => {
            assert forall|i: int| 0 <= i < existing.len() implies existing[i].ordinal
                < ordinal by {
                assert(ordinals@[i] == existing[i].ordinal);
            }
            Some(NewDownloadDirectory::new(user_id, alias, path, ordinal))
        },
        None => None,
    }
}

/// The keyboard below the note that a directory was added.
pub open spec fn added_keyboard() -> Seq<Seq<ButtonView>> {
    seq![
        seq![command_button(LIST_DIRECTORIES@)],
        seq![command_button(ADD_DIRECTORY@)],
        seq![command_button(BACK_TO_SETTINGS@)],
    ]
}

/// The note that a directory was added.
pub fn added_reply() -> (out: Reply)
    ensures
        out@ == (ReplyView { render: Render::Send, text: "Done!"@, keyboard: added_keyboard() }),
{
    let mut rows = no_keyboard();
    push_row(&mut rows, Button::command(LIST_DIRECTORIES));
    push_row(&mut rows, Button::command(ADD_DIRECTORY));
    push_row(&mut rows, Button::command(BACK_TO_SETTINGS));
    assert(keyboard_view(rows@) =~= added_keyboard());
    Reply { render: Render::Send, text: String::from_str("Done!"), keyboard: rows }
}

/// The line that shows one directory.
pub open spec fn directory_line(dir: DownloadDirectory) -> Seq<char> {
    "<b>"@ + dir.alias@ + "</b>: "@ + dir.path@
}

/// The lines that show some directories, with a line feed between them.
pub open spec fn directory_lines(dirs: Seq<DownloadDirectory>) -> Seq<char>
    decreases dirs.len(),
{
    if dirs.len() == 0 {
        Seq::<char>::empty()
    } else if dirs.len() == 1 {
        directory_line(dirs[0])
    } else {
        directory_lines(dirs.drop_last()) + "\n"@ + directory_line(dirs.last())
    }
}

/// The keyboard below the list of directories.
pub open spec fn list_keyboard() -> Seq<Seq<ButtonView>> {
    seq![seq![command_button(ADD_DIRECTORY@)], seq![command_button(RESET_DIRECTORIES@)]]
}

/// The list of an owner's directories, or the note that there are none,
/// with the buttons to add one and to remove them all.
pub fn list_reply(dirs: &Vec<DownloadDirectory>) -> (out: Reply)
    ensures
        out@ == (ReplyView {
            render: Render::Send,
            text: if dirs.len() == 0 {
                "There are no registered directories yet"@
            } else {
                directory_lines(dirs@)
            },
            keyboard: list_keyboard(),
        }),
{
    let mut rows = no_keyboard();
    push_row(&mut rows, Button::command(ADD_DIRECTORY));
    push_row(&mut rows, Button::command(RESET_DIRECTORIES));
    assert(keyboard_view(rows@) =~= list_keyboard());
    if dirs.len() == 0 {
        return Reply {
            render: Render::Send,
            text: String::from_str("There are no registered directories yet"),
            keyboard: rows,
        };
    }
    let mut text = String::new();
    let mut i: usize = 0;
    assert(dirs@.subrange(0, 0) =~= Seq::<DownloadDirectory>::empty());
    while i < dirs.len()
        invariant
            i <= dirs.len(),
            text@ == directory_lines(dirs@.subrange(0, i as int)),
        decreases dirs.len() - i,
    {
        let ghost longer = dirs@.subrange(0, i + 1);
        assert(longer.drop_last() =~= dirs@.subrange(0, i as int));
        assert(longer.last() == dirs@[i as int]);
        if i > 0 {
            text.append("\n");
        }
        text.append("<b>");
        text.append(dirs[i].alias.as_str());
        text.append("</b>: ");
        text.append(dirs[i].path.as_str());
        assert(text@ =~= directory_lines(longer)) by {
            if i == 0 {
                assert(longer[0] == dirs@[0]);
                assert(directory_lines(dirs@.subrange(0, 0)) =~= Seq::<char>::empty());
            }
        }
        i += 1;
    }
    assert(dirs@.subrange(0, dirs.len() as int) =~= dirs@);
    Reply { render: Render::Send, text, keyboard: rows }
}

} // verus!
