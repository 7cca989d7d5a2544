use vstd::prelude::*;
use crate::history::{Message, MessageModel, Role};
use crate::text::{is_blank, trimmed_of};

verus! {

/// Animation progress is counted in thousandths; this is "fully shown".
pub const ANIMATION_FULL: u32 = 1000;

/// How far one render pass advances the opening animation.
pub const ANIMATION_STEP: u32 = 150;

/// The abstract UI state.
pub struct UiModel {
    pub transcript: Seq<MessageModel>,
    pub awaiting_response: bool,
    pub panel_visible: bool,
    pub animation_progress: nat,
}

/// Top-level interaction state: the visible transcript, whether a reply is
/// awaited, and the panel's visibility with its opening animation.
pub struct UiState {
    transcript: Vec<Message>,
    awaiting_response: bool,
    panel_visible: bool,
    animation_progress: u32,
}

impl View for UiState {
    type V = UiModel;

    closed spec fn view(&self) -> UiModel {
        UiModel {
            transcript: self.transcript@.map_values(|m: Message| m@),
            awaiting_response: self.awaiting_response,
            panel_visible: self.panel_visible,
            animation_progress: self.animation_progress as nat,
        }
    }
}

impl UiState {
    /// Animation progress never exceeds "fully shown".
    pub open spec fn wf(&self) -> bool {
        self@.animation_progress <= ANIMATION_FULL
    }

    /// Idle, panel hidden, nothing said yet.
    pub fn new() -> (r: UiState)
        ensures
            r.wf(),
            r@.transcript == Seq::<MessageModel>::empty(),
            !r@.awaiting_response,
            !r@.panel_visible,
            r@.animation_progress == 0,
    {
        let r = UiState {
            transcript: Vec::new(),
            awaiting_response: false,
            panel_visible: false,
            animation_progress: 0,
        };
        assert(r@.transcript =~= Seq::<MessageModel>::empty());
        r
    }

    /// The user submits `text`. While idle and with non-blank text, the text
    /// joins the transcript at once, a reply becomes awaited, and the text to
    /// dispatch is returned; otherwise nothing changes and `None` comes back
    /// (a submission while a reply is awaited is dropped, not queued).
    pub fn submit(&mut self, text: &str) -> (r: Option<String>)
        requires
            old(self).wf(),
        ensures
            final(self).wf(),
            (!old(self)@.awaiting_response && trimmed_of(text@).len() > 0) ==> {
                &&& r is Some
                &&& r->0@ == text@
                &&& final(self)@ == (UiModel {
                    transcript: old(self)@.transcript.push((Role::User, text@)),
                    awaiting_response: true,
                    ..old(self)@
                })
            },
            (old(self)@.awaiting_response || trimmed_of(text@).len() == 0) ==> {
                &&& r is None
                &&& final(self)@ == old(self)@
            },
    {
        if self.awaiting_response || is_blank(text) {
            return None;
        }
        let ghost before = self@;
        self.transcript.push(Message::new(Role::User, text));
        self.awaiting_response = true;
        assert(self@.transcript =~= before.transcript.push((Role::User, text@)));
        Some(text.to_owned())
    }

    /// A reply arrives: it joins the transcript and the state becomes idle.
    pub fn receive_response(&mut self, reply: &str)
        requires
            old(self).wf(),
        ensures
            final(self).wf(),
            final(self)@ == (UiModel {
                transcript: old(self)@.transcript.push((Role::Assistant, reply@)),
                awaiting_response: false,
                ..old(self)@
            }),
    {
        let ghost before = self@;
        self.transcript.push(Message::new(Role::Assistant, reply));
        self.awaiting_response = false;
        assert(self@.transcript =~= before.transcript.push((Role::Assistant, reply@)));
    }

    /// An assistant message that is not a reply (a greeting): it joins the
    /// transcript and nothing else changes.
    pub fn announce(&mut self, text: &str)
        requires
            old(self).wf(),
        ensures
            final(self).wf(),
            final(self)@ == (UiModel {
                transcript: old(self)@.transcript.push((Role::Assistant, text@)),
                ..old(self)@
            }),
    {
        let ghost before = self@;
        self.transcript.push(Message::new(Role::Assistant, text));
        assert(self@.transcript =~= before.transcript.push((Role::Assistant, text@)));
    }

    /// Empties the visible transcript.
    pub fn clear_transcript(&mut self)
        requires
            old(self).wf(),
        ensures
            final(self).wf(),
            final(self)@ == (UiModel { transcript: Seq::empty(), ..old(self)@ }),
    {
        self.transcript = Vec::new();
        assert(self@.transcript =~= Seq::<MessageModel>::empty());
    }

    /// Shows the panel and restarts its opening animation.
    pub fn show_panel(&mut self)
        requires
            old(self).wf(),
        ensures
            final(self).wf(),
            final(self)@ == (UiModel { panel_visible: true, animation_progress: 0, ..old(self)@ }),
    {
        self.panel_visible = true;
        self.animation_progress = 0;
    }

    /// Hides the panel and resets its animation.
    pub fn hide_panel(&mut self)
        requires
            old(self).wf(),
        ensures
            final(self).wf(),
            final(self)@ == (UiModel { panel_visible: false, animation_progress: 0, ..old(self)@ }),
    {
        self.panel_visible = false;
        self.animation_progress = 0;
    }

    /// Flips the panel's visibility (a double click on the anchor) and
    /// resets its animation.
    pub fn toggle_panel(&mut self)
        requires
            old(self).wf(),
        ensures
            final(self).wf(),
            final(self)@ == (UiModel {
                panel_visible: !old(self)@.panel_visible,
                animation_progress: 0,
                ..old(self)@
            }),
    {
        self.panel_visible = !self.panel_visible;
        self.animation_progress = 0;
    }

    /// The escape key: a visible panel is hidden and its animation jumps to
    /// the end; a hidden one is left as it is. Returns whether it acted.
    pub fn press_escape(&mut self) -> (r: bool)
        requires
            old(self).wf(),
        ensures
            final(self).wf(),
            r == old(self)@.panel_visible,
            r ==> final(self)@ == (UiModel {
                panel_visible: false,
                animation_progress: ANIMATION_FULL as nat,
                ..old(self)@
            }),
            !r ==> final(self)@ == old(self)@,
    {
        if self.panel_visible {
            self.panel_visible = false;
            self.animation_progress = ANIMATION_FULL;
            true
        } else {
            false
        }
    }

    /// One render pass: while the panel is visible the animation advances by
    /// one step, up to "fully shown". Returns whether another pass is wanted.
    pub fn advance_animation(&mut self) -> (r: bool)
        requires
            old(self).wf(),
        ensures
            final(self).wf(),
            final(self)@.animation_progress == if old(self)@.panel_visible {
                min_nat((old(self)@.animation_progress + ANIMATION_STEP) as nat, ANIMATION_FULL as nat)
            } else {
                old(self)@.animation_progress
            },
            final(self)@.animation_progress >= old(self)@.animation_progress,
            final(self)@ == (UiModel {
                animation_progress: final(self)@.animation_progress,
                ..old(self)@
            }),
            r == (old(self)@.panel_visible && old(self)@.animation_progress < ANIMATION_FULL),
    {
        if self.panel_visible && self.animation_progress < ANIMATION_FULL {
            let next = self.animation_progress + ANIMATION_STEP;
            self.animation_progress = if next < ANIMATION_FULL { next } else { ANIMATION_FULL };
            true
        } else {
            false
        }
    }

    /// Whether a reply is awaited.
    pub fn is_thinking(&self) -> (r: bool)
        ensures
            r == self@.awaiting_response,
    {
        self.awaiting_response
    }

    /// Whether the panel is shown.
    pub fn panel_visible(&self) -> (r: bool)
        ensures
            r == self@.panel_visible,
    {
        self.panel_visible
    }

    /// Animation progress in thousandths.
    pub fn animation_progress(&self) -> (r: u32)
        ensures
            r == self@.animation_progress,
    {
        self.animation_progress
    }

    /// How many messages the transcript holds.
    pub fn message_count(&self) -> (r: usize)
        ensures
            r == self@.transcript.len(),
    {
        self.transcript.len()
    }

    /// A copy of the transcript, oldest first.
    pub fn messages(&self) -> (r: Vec<Message>)
        ensures
            r@.map_values(|m: Message| m@) == self@.transcript,
    {
        let mut out: Vec<Message> = Vec::new();
        let mut i: usize = 0;
        while i < self.transcript.len()
            invariant
                i <= self.transcript@.len(),
                out@.len() == i,
                forall|j: int| 0 <= j < i ==> (#[trigger] out@[j])@ == self.transcript@[j]@,
            decreases self.transcript@.len() - i,
        {
            out.push(self.transcript[i].duplicate());
            i = i + 1;
        }
        assert(out@.map_values(|m: Message| m@) =~= self@.transcript);
        out
    }

    /// The text the speech panel shows: the last message, when the assistant
    /// wrote it.
    pub fn bubble_text(&self) -> (r: Option<String>)
        ensures
            match r {
                Some(t) => self@.transcript.len() > 0 && self@.transcript.last() == (
                Role::Assistant, t@),
                None => self@.transcript.len() == 0 || self@.transcript.last().0 != Role::Assistant,
            },
    {
        let n = self.transcript.len();
        if n == 0 {
            return None;
        }
        let last = &self.transcript[n - 1];
        match last.role {
            Role::Assistant => Some(last.content.clone()),
            Role::User => None,
        }
    }
}

pub open spec fn min_nat(a: nat, b: nat) -> nat {
    if a <= b { a } else { b }
}

} // verus!
