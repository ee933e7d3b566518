//! Status lines for the console.
//!
//! The library only says what is to be shown and in which tone; colouring and
//! printing are left to the caller.

use vstd::prelude::*;

verus! {

/// How a status line is to be read.
#[derive(Clone, Copy, Debug, PartialEq, Eq, Structural)]
pub enum Tone {
    /// No emphasis.
    Plain,
    /// Progress information.
    Info,
    /// Something was done.
    Success,
    /// Nothing happened.
    Warning,
    /// Something failed.
    Failure,
}

/// One status line.
#[derive(Clone, Debug, PartialEq, Eq)]
pub struct Notice {
    pub tone: Tone,
    pub text: String,
}

/// The mathematical value of a [`Notice`].
pub struct NoticeView {
    pub tone: Tone,
    pub text: Seq<char>,
}

impl View for Notice {
    type V = NoticeView;

    open spec fn view(&self) -> NoticeView {
        NoticeView { tone: self.tone, text: self.text@ }
    }
}

impl DeepView for Notice {
    type V = NoticeView;

    open spec fn deep_view(&self) -> NoticeView {
        self@
    }
}

impl Notice {
    /// A status line with the given tone and text.
    pub fn new(tone: Tone, text: &str) -> (notice: Notice)
        ensures
            notice@ == (NoticeView { tone, text: text@ }),
    {
        Notice { tone, text: String::from_str(text) }
    }

    /// A status line made of a fixed label followed by a detail.
    pub fn labelled(tone: Tone, label: &str, detail: &str) -> (notice: Notice)
        ensures
            notice@ == (NoticeView { tone, text: label@ + detail@ }),
    {
        let mut text = String::from_str(label);
        text.append(detail);
        Notice { tone, text }
    }
}

} // verus!
