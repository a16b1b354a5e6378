//! Names of processes as they are shown: without the `.exe` of the file,
//! with a capital first letter, or replaced by the name an application is
//! known under.

use crate::text::{ends_with, has_suffix, lowercase_of, to_lowercase, to_uppercase, uppercase_of};
use vstd::prelude::*;
use vstd::string::{StrSliceExecFns, StringExecFns};

verus! {

/// A process name without a trailing `.exe`, where `lower` is the name in
/// lower case: the extension counts in whatever letter case it is written.
pub open spec fn stem_of(name: Seq<char>, lower: Seq<char>) -> Seq<char> {
    if has_suffix(lower, ".exe"@) && name.len() >= 4 {
        name.subrange(0, name.len() - 4)
    } else {
        name
    }
}

/// A text with its first character replaced by `head`; the empty text stays
/// empty.
pub open spec fn with_head(text: Seq<char>, head: Seq<char>) -> Seq<char> {
    if text.len() == 0 {
        text
    } else {
        head + text.subrange(1, text.len() as int)
    }
}

/// A text with its first character in upper case.
pub open spec fn capitalized(text: Seq<char>) -> Seq<char> {
    if text.len() == 0 {
        text
    } else {
        with_head(text, uppercase_of(text[0]))
    }
}

/// A process name as it is shown: without a trailing `.exe` and with its
/// first character in upper case.
pub open spec fn formatted_name(name: Seq<char>) -> Seq<char> {
    capitalized(stem_of(name, lowercase_of(name)))
}

/// The file name of a Windows path: what stands behind its last backslash,
/// or all of it if it has none.
pub open spec fn file_name_of(path: Seq<char>) -> Seq<char>
    decreases path.len(),
{
    if path.len() == 0 || path.last() == '\\' {
        Seq::empty()
    } else {
        file_name_of(path.drop_last()).push(path.last())
    }
}

/// The name and the description under which a process is known, where
/// `lower` is the process name in lower case. A process that is not in the
/// table keeps its name and is described as an application.
pub open spec fn known_application(process_name: Seq<char>, lower: Seq<char>) -> (
    Seq<char>,
    Seq<char>,
) {
    if lower == "chrome.exe"@ {
        ("Chrome"@, "Web Browser"@)
    } else if lower == "code.exe"@ || lower == "Code.exe"@ {
        ("VS Code"@, "Code Editor"@)
    } else if lower == "slack.exe"@ {
        ("Slack"@, "Communication"@)
    } else if lower == "spotify.exe"@ {
        ("Spotify"@, "Music Player"@)
    } else if lower == "windowsterminal.exe"@ || lower == "cmd.exe"@ {
        ("Terminal"@, "Command Line"@)
    } else if lower == "explorer.exe"@ {
        ("File Explorer"@, "File Management"@)
    } else if lower == "msedge.exe"@ {
        ("Edge"@, "Web Browser"@)
    } else if lower == "firefox.exe"@ {
        ("Firefox"@, "Web Browser"@)
    } else if lower == "notepad.exe"@ {
        ("Notepad"@, "Text Editor"@)
    } else if lower == "devenv.exe"@ {
        ("Visual Studio"@, "IDE"@)
    } else if lower == "idea64.exe"@ {
        ("IntelliJ IDEA"@, "IDE"@)
    } else if lower == "pycharm64.exe"@ {
        ("PyCharm"@, "IDE"@)
    } else if lower == "discord.exe"@ {
        ("Discord"@, "Communication"@)
    } else if lower == "teams.exe"@ {
        ("Microsoft Teams"@, "Communication"@)
    } else {
        (process_name, "Application"@)
    }
}

/// Takes a trailing `.exe` off a process name, where `lower` is the name
/// in lower case.
pub fn executable_stem<'a>(name: &'a str, lower: &str) -> (stem: &'a str)
    ensures
        stem@ == stem_of(name@, lower@),
{
    let len: usize = name.unicode_len();
    if ends_with(lower, ".exe") && len >= 4 {
        name.substring_char(0, len - 4)
    } else {
        name
    }
}

/// Puts `head` in the place of the first character of `text`.
pub fn replace_head(text: &str, head: String) -> (replaced: String)
    ensures
        replaced@ == with_head(text@, head@),
{
    let len: usize = text.unicode_len();
    if len == 0 {
        String::new()
    } else {
        let mut replaced = head;
        replaced.append(text.substring_char(1, len));
        replaced
    }
}

/// Writes the first character of `text` in upper case.
pub fn capitalize(text: &str) -> (upper: String)
    ensures
        upper@ == capitalized(text@),
{
    if text.unicode_len() == 0 {
        String::new()
    } else {
        replace_head(text, to_uppercase(text.get_char(0)))
    }
}

/// The name of a process as it is shown: without a trailing `.exe`, in
/// whatever letter case, and with a capital first letter.
pub fn format_name(name: &str) -> (shown: String)
    ensures
        shown@ == formatted_name(name@),
{
    let lower = to_lowercase(name);
    capitalize(executable_stem(name, lower.as_str()))
}

/// The file name of a Windows path: what stands behind its last backslash.
pub fn file_name<'a>(path: &'a str) -> (name: &'a str)
    ensures
        name@ == file_name_of(path@),
{
    let len: usize = path.unicode_len();
    let mut start: usize = 0;
    let mut index: usize = 0;
    for c in it: path.chars()
        invariant
            it.seq() == path@,
            len == path@.len(),
            index == it.index(),
            start <= index,
            path@.subrange(start as int, index as int) == file_name_of(path@.take(index as int)),
    {
        proof {
            let seen = path@.take(index + 1);
            assert(seen.last() == c);
            assert(seen.drop_last() =~= path@.take(index as int));
            if c != '\\' {
                assert(path@.subrange(start as int, index + 1) =~= path@.subrange(
                    start as int,
                    index as int,
                ).push(c));
            } else {
                assert(path@.subrange(index + 1, index + 1) =~= Seq::<char>::empty());
            }
        }
        index = index + 1;
        if c == '\\' {
            start = index;
        }
    }
    assert(path@.take(index as int) =~= path@);
    path.substring_char(start, len)
}

/// The name and the description under which a process is known, where
/// `lower` is the process name in lower case.
pub fn known_application_for(process_name: &str, lower: &str) -> (known: (String, String))
    ensures
        known.0@ == known_application(process_name@, lower@).0,
        known.1@ == known_application(process_name@, lower@).1,
{
    let key = lower.to_owned();
    if key == String::from_str("chrome.exe") {
        (String::from_str("Chrome"), String::from_str("Web Browser"))
    } else if key == String::from_str("code.exe") || key == String::from_str("Code.exe") {
        (String::from_str("VS Code"), String::from_str("Code Editor"))
    } else if key == String::from_str("slack.exe") {
        (String::from_str("Slack"), String::from_str("Communication"))
    } else if key == String::from_str("spotify.exe") {
        (String::from_str("Spotify"), String::from_str("Music Player"))
    } else if key == String::from_str("windowsterminal.exe") || key == String::from_str("cmd.exe") {
        (String::from_str("Terminal"), String::from_str("Command Line"))
    } else if key == String::from_str("explorer.exe") {
        (String::from_str("File Explorer"), String::from_str("File Management"))
    } else if key == String::from_str("msedge.exe") {
        (String::from_str("Edge"), String::from_str("Web Browser"))
    } else if key == String::from_str("firefox.exe") {
        (String::from_str("Firefox"), String::from_str("Web Browser"))
    } else if key == String::from_str("notepad.exe") {
        (String::from_str("Notepad"), String::from_str("Text Editor"))
    } else if key == String::from_str("devenv.exe") {
        (String::from_str("Visual Studio"), String::from_str("IDE"))
    } else if key == String::from_str("idea64.exe") {
        (String::from_str("IntelliJ IDEA"), String::from_str("IDE"))
    } else if key == String::from_str("pycharm64.exe") {
        (String::from_str("PyCharm"), String::from_str("IDE"))
    } else if key == String::from_str("discord.exe") {
        (String::from_str("Discord"), String::from_str("Communication"))
    } else if key == String::from_str("teams.exe") {
        (String::from_str("Microsoft Teams"), String::from_str("Communication"))
    } else {
        (process_name.to_owned(), String::from_str("Application"))
    }
}

/// The name and the description under which a process is known.
pub fn get_app_name_from_process(process_name: &str) -> (known: (String, String))
    ensures
        known.0@ == known_application(process_name@, lowercase_of(process_name@)).0,
        known.1@ == known_application(process_name@, lowercase_of(process_name@)).1,
{
    let lower = to_lowercase(process_name);
    known_application_for(process_name, lower.as_str())
}

} // verus!
