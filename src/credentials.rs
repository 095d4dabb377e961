//! The chat account's credentials, read from the lines of the config file.
use vstd::prelude::*;
use crate::page::{lines_of, split_lines};

verus! {

/// The lines of a text as `str::lines` yields them: split at `'\n'`, with a
/// `'\r'` just before a newline taken off, and no empty piece after a final
/// newline. A last line with no newline after it keeps its `'\r'`.
pub open spec fn text_lines(text: Seq<char>) -> Seq<Seq<char>> {
    let pieces = lines_of(text);
    let ended = pieces.map(
        |i: int, l: Seq<char>|
            if i + 1 < pieces.len() {
                strip_cr(l)
            } else {
                l
            },
    );
    if pieces.last().len() == 0 {
        ended.drop_last()
    } else {
        ended
    }
}

pub open spec fn strip_cr(line: Seq<char>) -> Seq<char> {
    if line.len() > 0 && line.last() == '\r' {
        line.drop_last()
    } else {
        line
    }
}

/// Line 1 the user name, line 2 the password, then an optional device id
/// and an optional device display name.
#[derive(Debug)]
pub struct Credentials {
    pub username: String,
    pub password: String,
    pub device_id: Option<String>,
    pub device_display_name: Option<String>,
}

pub open spec fn line_or_empty(lines: Seq<Seq<char>>, i: int) -> Seq<char> {
    if i < lines.len() {
        lines[i]
    } else {
        Seq::empty()
    }
}

pub open spec fn optional_line(lines: Seq<Seq<char>>, i: int, v: Option<String>) -> bool {
    if i < lines.len() {
        v matches Some(s) && s@ == lines[i]
    } else {
        v is None
    }
}

fn stripped(line: &String) -> (r: String)
    ensures
        r@ == strip_cr(line@),
{
    let n = line.unicode_len();
    if n > 0 && line.get_char(n - 1) == '\r' {
        assert(line@.subrange(0, n - 1) =~= line@.drop_last());
        String::from_str(line.as_str().substring_char(0, n - 1))
    } else {
        line.clone()
    }
}

fn line_at(lines: &Vec<String>, kept: usize, i: usize) -> (r: Option<String>)
    requires
        kept <= lines.len(),
    ensures
        i < kept ==> (r matches Some(s) && s@ == (if i + 1 < lines.len() {
            strip_cr(lines[i as int]@)
        } else {
            lines[i as int]@
        })),
        i >= kept ==> r is None,
{
    if i < kept {
        if i + 1 < lines.len() {
            Some(stripped(&lines[i]))
        } else {
            Some(lines[i].clone())
        }
    } else {
        None
    }
}

/// Reads the credentials out of the config file's text. A missing user name
/// or password is empty; a missing device id or display name is absent.
pub fn read_credentials(text: &str) -> (r: Credentials)
    ensures
        r.username@ == line_or_empty(text_lines(text@), 0),
        r.password@ == line_or_empty(text_lines(text@), 1),
        optional_line(text_lines(text@), 2, r.device_id),
        optional_line(text_lines(text@), 3, r.device_display_name),
{
    let lines = split_lines(text);
    let ghost pieces = lines_of(text@);
    assert(lines.len() == pieces.len());
    assert(pieces.len() > 0) by {
        lemma_lines_nonempty(text@);
    }
    let last = lines.len() - 1;
    let kept = if lines[last].unicode_len() == 0 {
        last
    } else {
        lines.len()
    };
    let ghost want = text_lines(text@);
    assert(want.len() == kept);
    assert forall|i: int| 0 <= i < kept implies #[trigger] want[i] == (if i + 1 < lines.len() {
        strip_cr(lines[i]@)
    } else {
        lines[i]@
    }) by {
        assert(lines[i]@ == lines.deep_view()[i]);
    }
    proof {
        reveal_strlit("");
    }
    let username = match line_at(&lines, kept, 0) {
        Some(s) => s,
        None => String::from_str(""),
    };
    let password = match line_at(&lines, kept, 1) {
        Some(s) => s,
        None => String::from_str(""),
    };
    Credentials {
        username,
        password,
        device_id: line_at(&lines, kept, 2),
        device_display_name: line_at(&lines, kept, 3),
    }
}

proof fn lemma_lines_nonempty(text: Seq<char>)
    ensures
        lines_of(text).len() > 0,
    decreases text.len(),
{
    if text.len() > 0 {
        lemma_lines_nonempty(text.drop_last());
    }
}

} // verus!
