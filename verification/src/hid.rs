//! The media-key report of the keyboard interface: which key is down, and
//! when a report has to be sent to the host.

use vstd::prelude::*;

verus! {

/// The media usages the keyboard interface can report.
#[derive(Copy, Clone, Debug, PartialEq, Eq, Structural)]
pub enum MediaCode {
    VolumeUp,
    VolumeDown,
    PlayPause,
    ScanNext,
    ScanPrev,
    Mute,
}

/// A key of the keyboard interface.
#[derive(Copy, Clone, Debug, PartialEq, Eq, Structural)]
pub enum Key {
    Media(MediaCode),
}

/// The report under construction and the report the host saw last. A report
/// holds at most one key; an empty report says that no key is down.
#[derive(Copy, Clone, Debug)]
pub struct KeyboardReport {
    pending: Option<Key>,
    transmitted: Option<Key>,
}

impl KeyboardReport {
    /// The key in the report under construction.
    pub closed spec fn spec_pending(self) -> Option<Key> {
        self.pending
    }

    /// The key in the report that was sent last.
    pub closed spec fn spec_transmitted(self) -> Option<Key> {
        self.transmitted
    }

    /// No key down, and the host knows it.
    pub fn new() -> (report: KeyboardReport)
        ensures
            report.spec_pending().is_none(),
            report.spec_transmitted().is_none(),
    {
        KeyboardReport { pending: None, transmitted: None }
    }

    /// Puts `key` in the report under construction.
    pub fn add_key(&mut self, key: Key)
        ensures
            final(self).spec_pending() == Some(key),
            final(self).spec_transmitted() == old(self).spec_transmitted(),
    {
        self.pending = Some(key);
    }

    /// Empties the report under construction.
    pub fn reset_report(&mut self)
        ensures
            final(self).spec_pending().is_none(),
            final(self).spec_transmitted() == old(self).spec_transmitted(),
    {
        self.pending = None;
    }

    /// Whether the report under construction differs from the one sent last.
    pub fn report_has_changed(&self) -> (changed: bool)
        ensures
            changed == (self.spec_pending() != self.spec_transmitted()),
    {
        match (self.pending, self.transmitted) {
            (None, None) => false,
            (Some(Key::Media(pending)), Some(Key::Media(transmitted))) => pending != transmitted,
            _ => true,
        }
    }

    /// Hands out the report under construction for sending and records it
    /// as the one sent last.
    pub fn send_media_report(&mut self) -> (report: Option<Key>)
        ensures
            report == old(self).spec_pending(),
            final(self).spec_pending() == old(self).spec_pending(),
            final(self).spec_transmitted() == old(self).spec_pending(),
    {
        self.transmitted = self.pending;
        self.pending
    }

    /// One tick of the keyboard interface: takes the key that is down in
    /// this tick, if any, and returns the report to send where it differs
    /// from the one sent last. The report returned is the key that is down,
    /// or an empty report when the key has gone up.
    pub fn update(&mut self, key: Option<Key>) -> (send: Option<Option<Key>>)
        ensures
            final(self).spec_pending() == key,
            send == spec_report_to_send(old(self).spec_transmitted(), key),
            final(self).spec_transmitted() == key,
    {
        match key {
            Some(k) => self.add_key(k),
            None => self.reset_report(),
        }
        if self.report_has_changed() {
            Some(self.send_media_report())
        } else {
            None
        }
    }
}

/// The report to send in a tick: the key that is down in this tick, where
/// that is not what the host saw last; nothing otherwise.
pub open spec fn spec_report_to_send(transmitted: Option<Key>, key: Option<Key>) -> Option<
    Option<Key>,
> {
    if key != transmitted {
        Some(key)
    } else {
        None
    }
}

/// The reports sent over a run of ticks in which the keys `keys` were down,
/// in order, when the host saw `transmitted` last before the run.
pub open spec fn spec_reports(transmitted: Option<Key>, keys: Seq<Option<Key>>) -> Seq<
    Option<Key>,
>
    decreases keys.len(),
{
    if keys.len() == 0 {
        seq![]
    } else {
        match spec_report_to_send(transmitted, keys[0]) {
            Some(report) => seq![report] + spec_reports(keys[0], keys.drop_first()),
            None => spec_reports(keys[0], keys.drop_first()),
        }
    }
}

/// A key held down is reported once: while the same key stays down for any
/// number of ticks after the host has seen it go down, nothing is sent.
pub proof fn lemma_held_key_is_silent(key: Option<Key>, ticks: nat)
    ensures
        spec_reports(key, Seq::new(ticks, |i: int| key)) == Seq::<Option<Key>>::empty(),
    decreases ticks,
{
    let run = Seq::new(ticks, |i: int| key);
    if ticks > 0 {
        lemma_held_key_is_silent(key, (ticks - 1) as nat);
        assert(run.drop_first() =~= Seq::new((ticks - 1) as nat, |i: int| key));
    }
}

/// A press is one key-down and one key-up: when a key goes down while none
/// was down, stays down for `held` ticks and then goes up, exactly two
/// reports are sent, the key and then the empty report.
pub proof fn lemma_press_is_two_reports(key: Key, held: nat)
    requires
        held >= 1,
    ensures
        spec_reports(None, Seq::new(held, |i: int| Some(key)).push(None)) == seq![
            Some(key),
            None,
        ],
{
    let down = Seq::new(held, |i: int| Some(key));
    let run = down.push(None);
    let rest = Seq::new((held - 1) as nat, |i: int| Some(key));
    assert(run.drop_first() =~= rest.push(None));
    lemma_reports_of_held_then_released(key, (held - 1) as nat);
    assert(spec_reports(None, run) =~= seq![Some(key)] + spec_reports(
        Some(key),
        rest.push(None),
    ));
}

/// While the key the host knows of stays down, then goes up, the one report
/// sent is the empty one.
proof fn lemma_reports_of_held_then_released(key: Key, held: nat)
    ensures
        spec_reports(Some(key), Seq::new(held, |i: int| Some(key)).push(None)) == seq![
            None::<Key>,
        ],
    decreases held,
{
    let run = Seq::new(held, |i: int| Some(key)).push(None);
    if held == 0 {
        assert(run.drop_first() =~= Seq::<Option<Key>>::empty());
        assert(spec_reports(Some(key), run) =~= seq![None::<Key>] + spec_reports(
            None,
            run.drop_first(),
        ));
    } else {
        lemma_reports_of_held_then_released(key, (held - 1) as nat);
        assert(run.drop_first() =~= Seq::new((held - 1) as nat, |i: int| Some(key)).push(None));
    }
}

} // verus!
