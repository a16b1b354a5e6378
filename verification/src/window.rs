//! What one successful look at the desktop yields.

use crate::names::{
    file_name, file_name_of, format_name, formatted_name, get_app_name_from_process,
    known_application,
};
use crate::text::{from_utf16_lossy, lowercase_of, utf16_text};
use vstd::prelude::*;
use vstd::slice::slice_subrange;
use vstd::string::StringExecFns;

verus! {

/// The focused window as one probe saw it.
#[derive(Clone, Debug, PartialEq, Eq)]
pub struct WindowObservation {
    /// Identity of the application that owns the window: its process id.
    pub app_identity: u32,
    /// Title of the window.
    pub title: String,
    /// Display name of the owning process.
    pub process_name: String,
}

/// A [`WindowObservation`] with its texts as character sequences.
pub struct WindowObservationView {
    pub app_identity: u32,
    pub title: Seq<char>,
    pub process_name: Seq<char>,
}

impl View for WindowObservation {
    type V = WindowObservationView;

    open spec fn view(&self) -> WindowObservationView {
        WindowObservationView {
            app_identity: self.app_identity,
            title: self.title@,
            process_name: self.process_name@,
        }
    }
}

/// The view of an observation that may be missing.
pub open spec fn seen(observation: Option<WindowObservation>) -> Option<WindowObservationView> {
    match observation {
        Some(window) => Some(window@),
        None => None,
    }
}

/// The probe of a platform on which the focused window cannot be found
/// out: it never sees a window, and asks to say so once.
#[derive(Clone, Debug, PartialEq, Eq)]
pub struct UnsupportedProbe {
    /// Whether the host was asked already to say that nothing is seen.
    pub announced: bool,
}

impl UnsupportedProbe {
    /// A probe that has not asked yet.
    pub fn new() -> (probe: UnsupportedProbe)
        ensures
            !probe.announced,
    {
        UnsupportedProbe { announced: false }
    }

    /// Looks for the focused window and finds none. The second part of the
    /// result tells the host to say that this platform is not supported: at
    /// the first call, and at no later one.
    pub fn probe(&mut self) -> (found: (Option<WindowObservation>, bool))
        ensures
            found.0 is None,
            found.1 == !old(self).announced,
            final(self).announced,
    {
        let announce: bool = !self.announced;
        self.announced = true;
        (None, announce)
    }
}

/// The view of a text that may be missing.
pub open spec fn text_of(text: Option<String>) -> Option<Seq<char>> {
    match text {
        Some(text) => Some(text@),
        None => None,
    }
}

/// The text that the platform wrote into `buffer`, where `len` is the
/// number of code units it reported: nothing if it reported none.
pub open spec fn window_text(buffer: Seq<u16>, len: nat) -> Option<Seq<char>> {
    if len == 0 {
        None
    } else {
        Some(utf16_text(buffer.take(len as int)))
    }
}

/// The name of a process from the text that the platform gave for it.
pub open spec fn process_name_of(raw: Option<Seq<char>>) -> Option<Seq<char>> {
    match raw {
        Some(raw) => Some(formatted_name(raw)),
        None => None,
    }
}

/// What a probe yields from the process id, the title and the process name
/// that the platform gave: nothing without an identity (a process id of
/// zero) or without a title; a process without a name is called `Unknown`.
pub open spec fn observation_of(
    process_id: u32,
    title: Option<Seq<char>>,
    process_name: Option<Seq<char>>,
) -> Option<WindowObservationView> {
    if process_id == 0 {
        None
    } else {
        match title {
            None => None,
            Some(title) => Some(
                WindowObservationView {
                    app_identity: process_id,
                    title,
                    process_name: match process_name {
                        Some(name) => name,
                        None => "Unknown"@,
                    },
                },
            ),
        }
    }
}

/// Name and description of the application of the focused window, from the
/// base name of its module or else from the path of its file.
pub open spec fn app_info_of(base_name: Option<Seq<char>>, full_path: Option<Seq<char>>) -> Option<
    (Seq<char>, Seq<char>),
> {
    match base_name {
        Some(name) => Some(known_application(name, lowercase_of(name))),
        None => match full_path {
            Some(path) => Some(
                known_application(file_name_of(path), lowercase_of(file_name_of(path))),
            ),
            None => None,
        },
    }
}

/// Decodes the text that the platform wrote into `buffer`, of which it
/// reported `len` code units.
pub fn decode_window_text(buffer: &[u16], len: usize) -> (text: Option<String>)
    requires
        len <= buffer@.len(),
    ensures
        text_of(text) == window_text(buffer@, len as nat),
{
    if len == 0 {
        None
    } else {
        let written = slice_subrange(buffer, 0, len);
        assert(written@ =~= buffer@.take(len as int));
        Some(from_utf16_lossy(written))
    }
}

/// The display name of a process from the module name that the platform
/// wrote into `buffer`, of which it reported `len` code units.
pub fn decode_process_name(buffer: &[u16], len: usize) -> (name: Option<String>)
    requires
        len <= buffer@.len(),
    ensures
        text_of(name) == process_name_of(window_text(buffer@, len as nat)),
{
    match decode_window_text(buffer, len) {
        Some(raw) => Some(format_name(raw.as_str())),
        None => None,
    }
}

/// Puts together what a probe found out about the focused window.
pub fn observe(process_id: u32, title: Option<String>, process_name: Option<String>) -> (observation:
    Option<WindowObservation>)
    ensures
        seen(observation) == observation_of(process_id, text_of(title), text_of(process_name)),
{
    if process_id == 0 {
        return None;
    }
    match title {
        None => None,
        Some(title) => {
            let process_name = match process_name {
                Some(name) => name,
                None => String::from_str("Unknown"),
            };
            Some(WindowObservation { app_identity: process_id, title, process_name })
        },
    }
}

/// Name and description of the application of the focused window, from the
/// base name of its module or, where the platform gave none, from the path
/// of its file.
pub fn app_info(base_name: Option<String>, full_path: Option<String>) -> (info: Option<
    (String, String),
>)
    ensures
        match app_info_of(text_of(base_name), text_of(full_path)) {
            Some(known) => info matches Some(found) && found.0@ == known.0 && found.1@ == known.1,
            None => info is None,
        },
{
    match base_name {
        Some(name) => Some(get_app_name_from_process(name.as_str())),
        None => match full_path {
            Some(path) => Some(get_app_name_from_process(file_name(path.as_str()))),
            None => None,
        },
    }
}

} // verus!
