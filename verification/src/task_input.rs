//! Where a run's task comes from: the command line, standard input, a task file or a
//! template, in that order of precedence; and how task-file bytes become text.
use vstd::prelude::*;

use crate::cli::{decode_utf16_text, utf16_text_spec, TaskTemplate};
use crate::digest::utf8;
use crate::text::{chars_of, push_str, string_of, trim, trim_chars};

verus! {

/// `String::from_utf8`: the text the bytes encode, `None` when they are not UTF-8.
#[verifier::external_body]
fn string_from_utf8(bytes: Vec<u8>) -> (r: Option<String>)
    ensures
        match r {
            Some(s) => utf8(s@) == bytes@,
            None => forall|t: Seq<char>| utf8(t) != bytes@,
        },
{
    String::from_utf8(bytes).ok()
}

/// Which source a run's task comes from.
#[derive(Debug)]
pub enum TaskSource {
    /// The `--task` text.
    Inline(String),
    /// Piped standard input.
    Stdin,
    /// A task file, by path.
    File(String),
    /// A task template.
    Template(TaskTemplate),
    /// No source was given.
    Missing,
}

/// The task source of a command line: `--task`, then `--task-stdin`, then
/// `--task-file`, then `--task-template`.
pub open spec fn task_source_spec(
    task: Option<String>,
    task_stdin: bool,
    task_file: Option<String>,
    template: Option<TaskTemplate>,
) -> TaskSource {
    match task {
        Some(t) => TaskSource::Inline(t),
        None => if task_stdin {
            TaskSource::Stdin
        } else {
            match task_file {
                Some(p) => TaskSource::File(p),
                None => match template {
                    Some(t) => TaskSource::Template(t),
                    None => TaskSource::Missing,
                },
            }
        },
    }
}

/// The task source of a command line (see [`task_source_spec`]).
pub fn task_source(
    task: Option<String>,
    task_stdin: bool,
    task_file: Option<String>,
    template: Option<TaskTemplate>,
) -> (r: TaskSource)
    ensures
        r == task_source_spec(task, task_stdin, task_file, template),
{
    match task {
        Some(t) => TaskSource::Inline(t),
        None => if task_stdin {
            TaskSource::Stdin
        } else {
            match task_file {
                Some(p) => TaskSource::File(p),
                None => match template {
                    Some(t) => TaskSource::Template(t),
                    None => TaskSource::Missing,
                },
            }
        },
    }
}

/// The message for a run that names no task.
pub open spec fn missing_task_message() -> Seq<char> {
    "Either --task, --task-stdin, --task-file, or --task-template is required unless one of --doctor, --list-task-templates, --list-tools, --describe-tool, --list-profiles, --print-effective-config, --explain-effective-config, --init-config, --live-setup, --models-list, --models-validate, or --models-benchmark is set"@
}

/// The task of a run given on the command line: trimmed, and refused when nothing is
/// left.
pub fn inline_task(raw: &str) -> (r: Result<String, String>)
    ensures
        if trim(raw@).len() == 0 {
            r matches Err(e) && e@ == "--task cannot be empty"@
        } else {
            r matches Ok(t) && t@ == trim(raw@)
        },
{
    let t = trim_chars(&chars_of(raw));
    if t.len() == 0 {
        return Err(string_of(&chars_of("--task cannot be empty")));
    }
    Ok(string_of(&t))
}

/// The message for a run without a task source.
pub fn missing_task() -> (r: String)
    ensures
        r@ == missing_task_message(),
{
    string_of(
        &chars_of(
            "Either --task, --task-stdin, --task-file, or --task-template is required unless one of --doctor, --list-task-templates, --list-tools, --describe-tool, --list-profiles, --print-effective-config, --explain-effective-config, --init-config, --live-setup, --models-list, --models-validate, or --models-benchmark is set",
        ),
    )
}

/// The task read from standard input: trimmed, and refused when nothing is left.
pub fn stdin_task(text: &str) -> (r: Result<String, String>)
    ensures
        if trim(text@).len() == 0 {
            r matches Err(e) && e@ == "Stdin task input is empty"@
        } else {
            r matches Ok(t) && t@ == trim(text@)
        },
{
    let t = trim_chars(&chars_of(text));
    if t.len() == 0 {
        return Err(string_of(&chars_of("Stdin task input is empty")));
    }
    Ok(string_of(&t))
}

/// Task-file bytes as text: a UTF-8 byte-order mark is dropped before UTF-8 decoding,
/// a UTF-16 mark (`FF FE` little-endian, `FE FF` big-endian) selects UTF-16, and
/// anything else is decoded as UTF-8.
pub open spec fn task_text_spec(bytes: Seq<u8>, path: Seq<char>) -> Option<Result<Seq<char>, Seq<char>>> {
    if bytes.len() >= 3 && bytes[0] == 0xEF && bytes[1] == 0xBB && bytes[2] == 0xBF {
        None
    } else if bytes.len() >= 2 && bytes[0] == 0xFF && bytes[1] == 0xFE {
        Some(utf16_text_spec(bytes.skip(2), true, path))
    } else if bytes.len() >= 2 && bytes[0] == 0xFE && bytes[1] == 0xFF {
        Some(utf16_text_spec(bytes.skip(2), false, path))
    } else {
        None
    }
}

/// The bytes that are decoded as UTF-8 (after a UTF-8 byte-order mark).
pub open spec fn utf8_payload(bytes: Seq<u8>) -> Seq<u8> {
    if bytes.len() >= 3 && bytes[0] == 0xEF && bytes[1] == 0xBB && bytes[2] == 0xBF {
        bytes.skip(3)
    } else {
        bytes
    }
}

/// The message for task-file bytes that are not UTF-8.
pub open spec fn not_utf8_message(path: Seq<char>) -> Seq<char> {
    "Task file '"@ + path + "' is not valid UTF-8"@
}

fn rest_of(bytes: &Vec<u8>, from: usize) -> (r: Vec<u8>)
    requires
        from <= bytes@.len(),
    ensures
        r@ == bytes@.skip(from as int),
{
    let mut r: Vec<u8> = Vec::new();
    let mut i = from;
    while i < bytes.len()
        invariant
            from <= i <= bytes@.len(),
            r@ == bytes@.subrange(from as int, i as int),
        decreases bytes@.len() - i,
    {
        r.push(bytes[i]);
        i = i + 1;
        assert(r@ =~= bytes@.subrange(from as int, i as int));
    }
    assert(bytes@.subrange(from as int, bytes@.len() as int) =~= bytes@.skip(from as int));
    r
}

/// Task-file bytes as text (see [`task_text_spec`] and [`utf8_payload`]); `path`
/// names the file in the messages.
pub fn decode_task_text(bytes: &Vec<u8>, path: &str) -> (r: Result<String, String>)
    ensures
        match task_text_spec(bytes@, path@) {
            Some(Ok(t)) => r matches Ok(s) && s@ == t,
            Some(Err(m)) => r matches Err(e) && e@ == m,
            None => match r {
                Ok(s) => utf8(s@) == utf8_payload(bytes@),
                Err(e) => e@ == not_utf8_message(path@) && forall|t: Seq<char>| utf8(t) != utf8_payload(bytes@),
            },
        },
{
    let n = bytes.len();
    if n >= 3 && bytes[0] == 0xEF && bytes[1] == 0xBB && bytes[2] == 0xBF {
        return match string_from_utf8(rest_of(bytes, 3)) {
            Some(s) => Ok(s),
            None => {
                let mut m = chars_of("Task file '");
                push_str(&mut m, path);
                push_str(&mut m, "' is not valid UTF-8");
                Err(string_of(&m))
            },
        };
    }
    if n >= 2 && bytes[0] == 0xFF && bytes[1] == 0xFE {
        return decode_utf16_text(&rest_of(bytes, 2), true, path);
    }
    if n >= 2 && bytes[0] == 0xFE && bytes[1] == 0xFF {
        return decode_utf16_text(&rest_of(bytes, 2), false, path);
    }
    let all = rest_of(bytes, 0);
    assert(bytes@.skip(0) =~= bytes@);
    match string_from_utf8(all) {
        Some(s) => Ok(s),
        None => {
            let mut m = chars_of("Task file '");
            push_str(&mut m, path);
            push_str(&mut m, "' is not valid UTF-8");
            Err(string_of(&m))
        },
    }
}

/// A result as plain texts.
pub open spec fn result_view(r: Result<String, String>) -> Result<Seq<char>, Seq<char>> {
    match r {
        Ok(s) => Ok(s@),
        Err(e) => Err(e@),
    }
}

/// A task file's decoded text as its task: trimmed, refused when nothing is left.
pub open spec fn file_task_of(text: Seq<char>, path: Seq<char>) -> Result<Seq<char>, Seq<char>> {
    if trim(text).len() == 0 {
        Err("Task file '"@ + path + "' is empty"@)
    } else {
        Ok(trim(text))
    }
}

/// The task of a task file: its decoded text (see [`decode_task_text`]), trimmed, and
/// refused when nothing is left.
pub fn file_task(bytes: &Vec<u8>, path: &str) -> (r: Result<String, String>)
    ensures
        match task_text_spec(bytes@, path@) {
            Some(Ok(t)) => result_view(r) == file_task_of(t, path@),
            Some(Err(m)) => result_view(r) == Err::<Seq<char>, Seq<char>>(m),
            None => (exists|s: Seq<char>| utf8(s) == utf8_payload(bytes@) && result_view(r) == file_task_of(s, path@)) || (
            (forall|t: Seq<char>| utf8(t) != utf8_payload(bytes@)) && result_view(r) == Err::<Seq<char>, Seq<char>>(
                not_utf8_message(path@),
            )),
        },
{
    match decode_task_text(bytes, path) {
        Ok(text) => {
            let t = trim_chars(&chars_of(text.as_str()));
            if t.len() == 0 {
                let mut m = chars_of("Task file '");
                push_str(&mut m, path);
                push_str(&mut m, "' is empty");
                return Err(string_of(&m));
            }
            Ok(string_of(&t))
        },
        Err(e) => Err(e),
    }
}

} // verus!
