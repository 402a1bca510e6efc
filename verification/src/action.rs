//! The action-translation middleware: a stateless transformation that turns
//! intent-level events into concrete injection commands, one event per call.

use vstd::prelude::*;

use crate::event::Event;
use crate::event::Key;
use crate::event::KeySequenceInjectRequest;
use crate::event::TextInjectMode;
use crate::event::TextInjectRequest;
use crate::event::TriggerCompensationEvent;

verus! {

/// The capability the middleware queries to learn, for a given match
/// identifier, an optional forced text-injection mode. It is total: an
/// unknown identifier yields "no override", never an error.
pub trait MatchInfoProvider {
    /// What `get_force_mode` returns for `match_id`.
    spec fn force_mode_spec(&self, match_id: i32) -> Option<TextInjectMode>;

    fn get_force_mode(&self, match_id: i32) -> (r: Option<TextInjectMode>)
        ensures
            r == self.force_mode_spec(match_id),
    ;
}

/// The forced mode paired with the first occurrence of `match_id` in
/// `entries`, or `None` when no entry carries that identifier.
pub open spec fn lookup_force_mode(
    entries: Seq<(i32, TextInjectMode)>,
    match_id: i32,
) -> Option<TextInjectMode>
    decreases entries.len(),
{
    if entries.len() == 0 {
        None
    } else if entries[0].0 == match_id {
        Some(entries[0].1)
    } else {
        lookup_force_mode(entries.drop_first(), match_id)
    }
}

/// A match-info provider backed by a fixed table of (match identifier,
/// forced mode) pairs: the first pair with the queried identifier wins, and
/// identifiers absent from the table get no override. Suited both as a real
/// provider over precomputed match data and as a test double with canned
/// answers.
pub struct StaticMatchInfoProvider {
    pub forced_modes: Vec<(i32, TextInjectMode)>,
}

impl StaticMatchInfoProvider {
    pub fn new(forced_modes: Vec<(i32, TextInjectMode)>) -> (r: Self)
        ensures
            r.forced_modes@ == forced_modes@,
    {
        Self { forced_modes }
    }
}

impl MatchInfoProvider for StaticMatchInfoProvider {
    open spec fn force_mode_spec(&self, match_id: i32) -> Option<TextInjectMode> {
        lookup_force_mode(self.forced_modes@, match_id)
    }

    fn get_force_mode(&self, match_id: i32) -> (r: Option<TextInjectMode>) {
        let mut i: usize = 0;
        proof {
            assert(self.forced_modes@.skip(0) =~= self.forced_modes@);
        }
        while i < self.forced_modes.len()
            invariant
                i <= self.forced_modes@.len(),
                lookup_force_mode(self.forced_modes@, match_id) == lookup_force_mode(
                    self.forced_modes@.skip(i as int),
                    match_id,
                ),
            decreases self.forced_modes@.len() - i,
        {
            proof {
                assert(self.forced_modes@.skip(i as int)[0] == self.forced_modes@[i as int]);
                assert(self.forced_modes@.skip(i as int).drop_first() =~= self.forced_modes@.skip(
                    i as int + 1,
                ));
            }
            if self.forced_modes[i].0 == match_id {
                return Some(self.forced_modes[i].1);
            }
            i = i + 1;
        }
        proof {
            assert(self.forced_modes@.skip(i as int) =~= Seq::<(i32, TextInjectMode)>::empty());
        }
        None
    }
}

/// The character count of the left separator, or zero when it is absent.
pub open spec fn separator_char_count(left_separator: Option<String>) -> nat {
    match left_separator {
        Some(s) => s@.len(),
        None => 0,
    }
}

/// How many backspaces erase the trigger while preserving its left
/// separator: the trigger's character count minus the separator's.
///
/// A separator longer than its trigger breaks the upstream invariant that
/// the separator occupies the left edge of the trigger; the count then
/// clamps to zero so that no wrapped-around, huge backspace count can ever
/// reach live key injection.
pub open spec fn spec_backspace_count(t: TriggerCompensationEvent) -> nat {
    if separator_char_count(t.left_separator) <= t.trigger@.len() {
        (t.trigger@.len() - separator_char_count(t.left_separator)) as nat
    } else {
        0
    }
}

/// With no left separator, trigger compensation erases the whole trigger:
/// the backspace count is exactly the trigger's character count.
pub proof fn lemma_backspace_count_no_separator(t: TriggerCompensationEvent)
    requires
        t.left_separator is None,
    ensures
        spec_backspace_count(t) == t.trigger@.len(),
{
}

/// With a left separator that sits on the left edge of the trigger (a
/// character-count prefix), trigger compensation preserves it: the backspace
/// count is exactly the trigger's character count minus the separator's.
pub proof fn lemma_backspace_count_prefix_separator(t: TriggerCompensationEvent)
    requires
        t.left_separator is Some,
        t.left_separator.unwrap()@.is_prefix_of(t.trigger@),
    ensures
        spec_backspace_count(t) == t.trigger@.len() - t.left_separator.unwrap()@.len(),
{
}

/// Every element of `s` is the key `k`.
pub open spec fn all_keys(s: Seq<Key>, k: Key) -> bool {
    forall|i: int| 0 <= i < s.len() ==> s[i] == k
}

/// Builds the key sequence `[key; count]`.
fn repeated_key(key: Key, count: usize) -> (keys: Vec<Key>)
    ensures
        keys@.len() == count,
        all_keys(keys@, key),
{
    let mut keys: Vec<Key> = Vec::new();
    let mut i: usize = 0;
    while i < count
        invariant
            i <= count,
            keys@.len() == i,
            all_keys(keys@, key),
        decreases count - i,
    {
        keys.push(key);
        i = i + 1;
    }
    keys
}

/// What the action-translation step promises, one clause per input variant:
///
/// - `Rendered` becomes a `TextInject` whose text is the rendered body and
///   whose forced mode is whatever `provider` answers for the match
///   identifier.
/// - `CursorHintCompensation` becomes a `KeySequenceInject` of exactly
///   `cursor_hint_back_count` `ArrowLeft` presses.
/// - `TriggerCompensation` becomes a `KeySequenceInject` of exactly
///   `spec_backspace_count` `Backspace` presses.
/// - Every other variant is returned unchanged.
pub open spec fn spec_translation<P: MatchInfoProvider>(
    provider: P,
    input: Event,
    output: Event,
) -> bool {
    match input {
        Event::Rendered(m) => {
            &&& output matches Event::TextInject(t)
            &&& t.text == m.body
            &&& t.force_mode == provider.force_mode_spec(m.match_id)
        },
        Event::CursorHintCompensation(c) => {
            &&& output matches Event::KeySequenceInject(k)
            &&& k.keys@.len() == c.cursor_hint_back_count
            &&& all_keys(k.keys@, Key::ArrowLeft)
        },
        Event::TriggerCompensation(t) => {
            &&& output matches Event::KeySequenceInject(k)
            &&& k.keys@.len() == spec_backspace_count(t)
            &&& all_keys(k.keys@, Key::Backspace)
        },
        _ => output == input,
    }
}

/// The action-translation middleware: stateless per call, it holds only a
/// reference to the match-info provider for the pipeline's lifetime.
pub struct ActionMiddleware<'a, P: MatchInfoProvider> {
    match_info_provider: &'a P,
}

impl<'a, P: MatchInfoProvider> ActionMiddleware<'a, P> {
    /// The provider this middleware was constructed with.
    pub closed spec fn provider(self) -> P {
        *self.match_info_provider
    }

    pub fn new(match_info_provider: &'a P) -> (r: Self)
        ensures
            r.provider() == *match_info_provider,
    {
        Self { match_info_provider }
    }

    /// The stable name this stage registers under in the host pipeline.
    pub fn name(&self) -> (r: &'static str)
        ensures
            r@ == "action"@,
    {
        "action"
    }

    /// Translates one event. `dispatched` is the pipeline's side channel for
    /// enqueueing extra downstream events; this stage never uses it, and the
    /// contract says so.
    pub fn next(&self, event: Event, dispatched: &mut Vec<Event>) -> (r: Event)
        ensures
            spec_translation(self.provider(), event, r),
            final(dispatched)@ == old(dispatched)@,
    {
        match event {
            Event::Rendered(m_event) => {
                let force_mode = self.match_info_provider.get_force_mode(m_event.match_id);
                Event::TextInject(TextInjectRequest { text: m_event.body, force_mode })
            },
            Event::CursorHintCompensation(m_event) => {
                Event::KeySequenceInject(
                    KeySequenceInjectRequest {
                        keys: repeated_key(Key::ArrowLeft, m_event.cursor_hint_back_count),
                    },
                )
            },
            Event::TriggerCompensation(m_event) => {
                let trigger_count: usize = m_event.trigger.as_str().unicode_len();
                let separator_count: usize = match &m_event.left_separator {
                    Some(separator) => separator.as_str().unicode_len(),
                    None => 0,
                };
                // A separator wider than the trigger would underflow: the
                // count clamps to zero instead of wrapping (see
                // `spec_backspace_count`).
                let backspace_count: usize = if separator_count <= trigger_count {
                    trigger_count - separator_count
                } else {
                    0
                };
                Event::KeySequenceInject(
                    KeySequenceInjectRequest { keys: repeated_key(Key::Backspace, backspace_count) },
                )
            },
            _ => event,
        }
    }
}

} // verus!
