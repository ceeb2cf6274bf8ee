//! The transcription state the UI observes: the current provisional
//! text and the accumulated definitive text.
//!
//! A `Partial` event replaces the provisional text; a `Final` event is
//! append-only — successive finals are joined by a single space — and
//! clears the provisional text.

use vstd::prelude::*;
use vstd::string::StringExecFns;
use crate::stt::SttEvent;

verus! {

/// Current transcription state.
#[derive(Debug, Clone)]
pub struct TranscriptionState {
    /// Whether a recording session is active.
    pub is_recording: bool,
    /// The latest provisional text, replaced by each `Partial`.
    pub partial_text: String,
    /// The definitive text, grown by each `Final`.
    pub final_text: String,
}

impl Default for TranscriptionState {
    /// Not recording, with no text.
    fn default() -> (s: TranscriptionState)
        ensures
            !s.is_recording,
            s.partial_text@ == Seq::<char>::empty(),
            s.final_text@ == Seq::<char>::empty(),
    {
        TranscriptionState {
            is_recording: false,
            partial_text: String::new(),
            final_text: String::new(),
        }
    }
}

/// The texts after one event: a `Partial` replaces the provisional
/// text; a `Final` is appended to the definitive text (after a single
/// space when it is not the first) and clears the provisional text.
pub open spec fn apply_event_spec(partial: Seq<char>, final_text: Seq<char>, ev: SttEvent) -> (
    Seq<char>,
    Seq<char>,
) {
    match ev {
        SttEvent::Partial(t) => (t@, final_text),
        SttEvent::Final(t) => (
            Seq::<char>::empty(),
            if final_text.len() == 0 {
                t@
            } else {
                final_text + " "@ + t@
            },
        ),
    }
}

/// The texts after a sequence of events, applied oldest first.
pub open spec fn apply_events_spec(
    partial: Seq<char>,
    final_text: Seq<char>,
    evs: Seq<SttEvent>,
) -> (Seq<char>, Seq<char>)
    decreases evs.len(),
{
    if evs.len() == 0 {
        (partial, final_text)
    } else {
        let stepped = apply_event_spec(partial, final_text, evs[0]);
        apply_events_spec(stepped.0, stepped.1, evs.skip(1))
    }
}

/// The text a session hands on: the definitive text, with a trailing
/// provisional text appended after a single space, before trimming.
pub open spec fn assembled_spec(partial: Seq<char>, final_text: Seq<char>) -> Seq<char> {
    if partial.len() == 0 {
        final_text
    } else if final_text.len() == 0 {
        partial
    } else {
        final_text + " "@ + partial
    }
}

/// Whitespace trimming as `str::trim` computes it; the result depends
/// on the characters alone.
pub uninterp spec fn trim_of(s: Seq<char>) -> Seq<char>;

/// Relies on `str::trim` for Unicode whitespace trimming.
#[verifier::external_body]
fn trim_str(s: &str) -> (r: String)
    ensures
        r@ == trim_of(s@),
{
    s.trim().to_owned()
}

impl TranscriptionState {
    /// Fold one event into the state.
    pub fn apply_event(&mut self, event: SttEvent)
        ensures
            final(self).is_recording == old(self).is_recording,
            (final(self).partial_text@, final(self).final_text@) == apply_event_spec(
                old(self).partial_text@,
                old(self).final_text@,
                event,
            ),
    {
        match event {
            SttEvent::Partial(t) => {
                self.partial_text = t;
            },
            SttEvent::Final(t) => {
                if !self.final_text.as_str().is_empty() {
                    self.final_text.append(" ");
                }
                self.final_text.append(t.as_str());
                self.partial_text = String::new();
            },
        }
    }

    /// Fold a batch of events into the state, oldest first.
    pub fn apply_events(&mut self, events: &Vec<SttEvent>)
        ensures
            final(self).is_recording == old(self).is_recording,
            (final(self).partial_text@, final(self).final_text@) == apply_events_spec(
                old(self).partial_text@,
                old(self).final_text@,
                events@,
            ),
    {
        let mut i: usize = 0;
        proof {
            assert(events@.skip(0) =~= events@);
        }
        while i < events.len()
            invariant
                i <= events@.len(),
                self.is_recording == old(self).is_recording,
                apply_events_spec(
                    self.partial_text@,
                    self.final_text@,
                    events@.skip(i as int),
                ) == apply_events_spec(
                    old(self).partial_text@,
                    old(self).final_text@,
                    events@,
                ),
            decreases events@.len() - i,
        {
            proof {
                assert(events@.skip(i as int)[0] == events@[i as int]);
                assert(events@.skip(i as int).skip(1) =~= events@.skip(i as int + 1));
            }
            let event = events[i].duplicate();
            self.apply_event(event);
            i = i + 1;
        }
        proof {
            assert(events@.skip(events@.len() as int) =~= Seq::<SttEvent>::empty());
        }
    }

    /// The session's text: definitive text, then the remaining
    /// provisional text after a single separating space, trimmed.
    pub fn assembled_text(&self) -> (r: String)
        ensures
            r@ == trim_of(assembled_spec(self.partial_text@, self.final_text@)),
    {
        let mut text = self.final_text.clone();
        if !self.partial_text.as_str().is_empty() {
            if !text.as_str().is_empty() {
                text.append(" ");
            }
            text.append(self.partial_text.as_str());
        }
        trim_str(text.as_str())
    }
}

} // verus!
