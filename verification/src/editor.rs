//! The prompt editor's keys: how many characters a word deletion first
//! selects, and what each key press does.
use vstd::prelude::*;
use crate::text::chars_of;

verus! {

/// The number of spaces that end just before position `i + 1` of `line`,
/// counted backwards from `i`.
pub open spec fn back_run(line: Seq<char>, i: int) -> nat
    decreases i + 1,
{
    if i < 0 || i >= line.len() || line[i] != ' ' {
        0
    } else {
        1 + back_run(line, i - 1)
    }
}

/// The number of spaces that start at position `i` of `line`.
pub open spec fn fwd_run(line: Seq<char>, i: int) -> nat
    decreases line.len() - i,
{
    if i < 0 || i >= line.len() || line[i] != ' ' {
        0
    } else {
        1 + fwd_run(line, i + 1)
    }
}

/// How many characters a word deletion selects before it jumps by a word,
/// looking at line `k` and, while a line is left with at most one
/// character, at the lines above it. On the cursor's line the count starts
/// at `column`; on lines above, at their end. Backwards it counts the
/// spaces before that place, forwards the spaces from it; a line left with
/// at most one other character adds one (its line break) and hands on to
/// the line above.
pub open spec fn deletion_count(
    lines: Seq<Seq<char>>,
    k: int,
    column: int,
    first: bool,
    backspace: bool,
) -> nat
    decreases k + 1,
{
    if k < 0 || k >= lines.len() {
        0
    } else {
        let line = lines[k];
        let size = line.len() as int;
        let start = if first {
            column
        } else {
            size
        };
        let run = if backspace {
            back_run(line, start - 1)
        } else {
            fwd_run(line, start)
        };
        if size - run <= 1 {
            run + 1 + deletion_count(lines, k - 1, column, false, backspace)
        } else {
            run
        }
    }
}

/// The lines of the editor as character sequences.
pub open spec fn line_seqs(lines: Seq<String>) -> Seq<Seq<char>> {
    lines.map_values(|l: String| l@)
}

/// What `count_characters` needs of its inputs: the cursor's line exists,
/// the column and the line lengths fit the signed 32-bit counters the count
/// is made with (forwards, with room for one step past them), and the count
/// fits a `usize`.
pub open spec fn counting_fits(lines: Seq<String>, line_number: int, column: int, is_backspace: bool) -> bool {
    &&& 0 <= line_number < lines.len()
    &&& column <= i32::MAX
    &&& forall|i: int| 0 <= i <= line_number ==> (#[trigger] lines[i])@.len() <= i32::MAX
    &&& !is_backspace ==> column < i32::MAX
    &&& !is_backspace ==> forall|i: int| 0 <= i <= line_number ==> (#[trigger] lines[i])@.len() < i32::MAX
    &&& deletion_count(line_seqs(lines), line_number, column, true, is_backspace) <= usize::MAX
}

fn space_at(line: &Vec<char>, i: i64) -> (r: bool)
    requires
        line@.len() <= i32::MAX,
    ensures
        r == (0 <= i < line@.len() && line@[i as int] == ' '),
{
    0 <= i && i < line.len() as i64 && line[i as usize] == ' '
}

/// Counts the characters that a word deletion selects first, where the
/// cursor stands at `column` of line `line_number` of `lines`.
pub fn count_characters(lines: &Vec<String>, line_number: usize, column: usize, is_backspace: bool) -> (r: usize)
    requires
        counting_fits(lines@, line_number as int, column as int, is_backspace),
    ensures
        r == deletion_count(line_seqs(lines@), line_number as int, column as int, true, is_backspace),
{
    let ghost ls = line_seqs(lines@);
    let ghost total = deletion_count(ls, line_number as int, column as int, true, is_backspace);
    let mut count: usize = 0;
    let mut k: usize = line_number;
    let mut first = true;
    loop
        invariant
            k <= line_number < lines@.len(),
            ls == line_seqs(lines@),
            ls.len() == lines@.len(),
            column <= i32::MAX,
            forall|i: int| 0 <= i <= line_number ==> (#[trigger] lines@[i])@.len() <= i32::MAX,
            count + deletion_count(ls, k as int, column as int, first, is_backspace) == total,
            total <= usize::MAX,
            total == deletion_count(ls, line_number as int, column as int, true, is_backspace),
        decreases k,
    {
        let line = chars_of(lines[k].as_str());
        assert(ls[k as int] == lines@[k as int]@);
        let size = line.len() as i64;
        let mut local_count: i64 = 0;
        let start: i64 = if first { column as i64 } else { size };
        let increment: i64 = if is_backspace { -1 } else { 1 };
        let mut index: i64 = if is_backspace { start + increment } else { start };
        let ghost from = index;
        while index + increment >= -1 && index + increment <= size && space_at(&line, index)
            invariant
                k < ls.len(),
                line@ == ls[k as int],
                size == line@.len(),
                from <= i32::MAX,
                size <= i32::MAX,
                -1 <= from,
                0 <= from || is_backspace,
                increment == (if is_backspace { -1i64 } else { 1i64 }),
                0 <= local_count,
                is_backspace ==> index == from - local_count && local_count <= from + 1,
                !is_backspace ==> index == from + local_count && (local_count > 0 ==> index <= size),
                is_backspace ==> back_run(line@, from as int) == local_count + back_run(line@, index as int),
                !is_backspace ==> fwd_run(line@, from as int) == local_count + fwd_run(line@, index as int),
            decreases (if is_backspace { index + 2 } else { size - index }),
        {
            index = index + increment;
            local_count = local_count + 1;
        }
        proof {
            if is_backspace {
                assert(back_run(line@, index as int) == 0);
            } else {
                assert(fwd_run(line@, index as int) == 0);
            }
        }
        assert(local_count == (if is_backspace { back_run(line@, from as int) } else { fwd_run(
            line@,
            from as int,
        ) }));
        assert(deletion_count(ls, k as int, column as int, first, is_backspace) == if size - local_count <= 1 {
            local_count + 1 + deletion_count(ls, k - 1, column as int, false, is_backspace)
        } else {
            local_count as int
        });
        if size - local_count <= 1 {
            count = count + local_count as usize + 1;
            if k == 0 {
                return count;
            }
            k = k - 1;
            first = false;
        } else {
            count = count + local_count as usize;
            return count;
        }
    }
}

/// The keys that the prompt editor handles itself.
#[derive(Debug, Clone, Copy, PartialEq, Eq, Structural)]
pub enum EditorKey {
    Delete,
    Backspace,
    Enter,
    /// Any other key.
    Other,
}

/// A cursor movement of the editor.
#[derive(Debug, Clone, Copy, PartialEq, Eq, Structural)]
pub enum Motion {
    Left,
    Right,
    WordLeft,
    WordRight,
}

/// One editing step.
#[derive(Debug, Clone, Copy, PartialEq, Eq, Structural)]
pub enum EditStep {
    /// Extend the selection by a movement.
    Select(Motion),
    /// Delete the selection (or the character at the cursor).
    Delete,
}

/// What a key press does in the prompt editor.
pub enum KeyBinding {
    /// What the editor does with that key by default.
    Default,
    /// Delete the character at the cursor.
    Delete,
    /// Send the prompt.
    Submit,
    /// These steps in order.
    Sequence(Vec<EditStep>),
}

/// The steps of a word deletion: select `count` characters one by one with
/// `step`, then select a word with `word`, then delete the selection.
pub open spec fn word_deletion(count: nat, step: Motion, word: Motion) -> Seq<EditStep> {
    Seq::new(count, |i: int| EditStep::Select(step)).push(EditStep::Select(word)).push(
        EditStep::Delete,
    )
}

/// Enter sends the prompt and Shift+Enter keeps the editor's own newline;
/// Ctrl+Backspace deletes the word before the cursor, after first selecting
/// the spaces (and short lines) that `count_characters` counts backwards;
/// Ctrl+Delete deletes the word after the cursor, after first selecting the
/// spaces that it counts forwards; Delete alone deletes a character; everything
/// else is the editor's default.
pub fn key_binding(
    key: EditorKey,
    control: bool,
    shift: bool,
    lines: &Vec<String>,
    line_number: usize,
    column: usize,
) -> (r: KeyBinding)
    requires
        key == EditorKey::Delete && control ==> counting_fits(
            lines@,
            line_number as int,
            column as int,
            false,
        ),
        key == EditorKey::Backspace && control ==> counting_fits(
            lines@,
            line_number as int,
            column as int,
            true,
        ),
    ensures
        match key {
            EditorKey::Delete => if control {
                r matches KeyBinding::Sequence(steps) && steps@ == word_deletion(
                    deletion_count(line_seqs(lines@), line_number as int, column as int, true, false),
                    Motion::Right,
                    Motion::WordRight,
                )
            } else {
                r is Delete
            },
            EditorKey::Backspace => if control {
                r matches KeyBinding::Sequence(steps) && steps@ == word_deletion(
                    deletion_count(line_seqs(lines@), line_number as int, column as int, true, true),
                    Motion::Left,
                    Motion::WordLeft,
                )
            } else {
                r is Default
            },
            EditorKey::Enter => if shift {
                r is Default
            } else {
                r is Submit
            },
            EditorKey::Other => r is Default,
        },
{
    match key {
        EditorKey::Delete => {
            if control {
                let count = count_characters(lines, line_number, column, false);
                KeyBinding::Sequence(word_deletion_steps(count, Motion::Right, Motion::WordRight))
            } else {
                KeyBinding::Delete
            }
        },
        EditorKey::Backspace => {
            if control {
                let count = count_characters(lines, line_number, column, true);
                KeyBinding::Sequence(word_deletion_steps(count, Motion::Left, Motion::WordLeft))
            } else {
                KeyBinding::Default
            }
        },
        EditorKey::Enter => {
            if shift {
                KeyBinding::Default
            } else {
                KeyBinding::Submit
            }
        },
        EditorKey::Other => KeyBinding::Default,
    }
}

fn word_deletion_steps(count: usize, step: Motion, word: Motion) -> (r: Vec<EditStep>)
    ensures
        r@ == word_deletion(count as nat, step, word),
{
    let mut steps: Vec<EditStep> = Vec::new();
    let mut i: usize = 0;
    while i < count
        invariant
            i <= count,
            steps@ =~= Seq::new(i as nat, |j: int| EditStep::Select(step)),
        decreases count - i,
    {
        steps.push(EditStep::Select(step));
        i = i + 1;
    }
    steps.push(EditStep::Select(word));
    steps.push(EditStep::Delete);
    steps
}

} // verus!
