//! Lowering the volume of other sounds while a recording runs.
use vstd::prelude::*;
use vstd::string::*;

use crate::text::{self, CharClass};

verus! {

/// The volume and the mute switch before the volume was lowered. The volume is kept as the bits
/// of the number that was read.
#[derive(Debug, Clone, Copy, PartialEq, Eq, Structural)]
pub struct DuckState {
    pub active: bool,
    pub previous_volume_bits: u32,
    pub previous_muted: bool,
}

/// Lowers the volume and restores it, each at most once.
#[derive(Debug)]
pub struct AudioDuckingController {
    pub enabled: bool,
    pub duck_percent: u8,
    pub state: Option<DuckState>,
}

/// A percentage between 5 and 95.
pub open spec fn duck_level(percent: u8) -> u8 {
    if percent < 5 {
        5
    } else if percent > 95 {
        95
    } else {
        percent
    }
}

/// Brings a percentage between 5 and 95.
pub fn clamp_duck_level(percent: u8) -> (r: u8)
    ensures
        r == duck_level(percent),
{
    if percent < 5 {
        5
    } else if percent > 95 {
        95
    } else {
        percent
    }
}

impl AudioDuckingController {
    /// The volume is lowered.
    pub open spec fn is_ducked(self) -> bool {
        self.state matches Some(s) && s.active
    }

    /// The percentage to lower the volume to, if it is to be lowered now.
    pub open spec fn to_duck(self) -> Option<u8> {
        if self.enabled && !self.is_ducked() {
            Some(self.duck_percent)
        } else {
            None
        }
    }

    /// The controller after the volume was lowered from this state.
    pub open spec fn with_ducked(self, volume_bits: u32, muted: bool) -> AudioDuckingController {
        AudioDuckingController {
            state: Some(
                DuckState { active: true, previous_volume_bits: volume_bits, previous_muted: muted },
            ),
            ..self
        }
    }

    /// What is to be restored now, if anything.
    pub open spec fn to_restore(self) -> Option<DuckState> {
        if self.enabled {
            self.state
        } else {
            None
        }
    }

    /// The controller after it was asked to restore.
    pub open spec fn with_restored(self) -> AudioDuckingController {
        if self.enabled {
            AudioDuckingController { state: None, ..self }
        } else {
            self
        }
    }

    /// A controller that has lowered nothing.
    pub fn new(enabled: bool, duck_level_percent: u8) -> (r: AudioDuckingController)
        ensures
            r == (AudioDuckingController {
                enabled,
                duck_percent: duck_level(duck_level_percent),
                state: None,
            }),
    {
        AudioDuckingController {
            enabled,
            duck_percent: clamp_duck_level(duck_level_percent),
            state: None,
        }
    }

    /// The percentage to lower the volume to, if it is to be lowered now.
    pub fn activate(&self) -> (r: Option<u8>)
        ensures
            r == self.to_duck(),
    {
        if !self.enabled {
            return None;
        }
        match self.state {
            Some(s) => if s.active {
                None
            } else {
                Some(self.duck_percent)
            },
            None => Some(self.duck_percent),
        }
    }

    /// The volume was lowered; this is what it was before.
    pub fn ducked(&mut self, previous_volume_bits: u32, previous_muted: bool)
        ensures
            *final(self) == old(self).with_ducked(previous_volume_bits, previous_muted),
    {
        self.state = Some(DuckState { active: true, previous_volume_bits, previous_muted });
    }

    /// What is to be restored now, if anything. It is restored only once.
    pub fn restore(&mut self) -> (r: Option<DuckState>)
        ensures
            r == old(self).to_restore(),
            *final(self) == old(self).with_restored(),
    {
        if !self.enabled {
            return None;
        }
        self.state.take()
    }
}

/// A change that is asked for of the default output. A volume is given by the bits of its number.
#[derive(Debug, Clone, Copy, PartialEq, Eq, Structural)]
pub enum SinkStep {
    SetVolume(u32),
    SetMute(bool),
}

/// The sound of the default output: the bits of its volume and the mute switch.
pub struct SinkView {
    pub volume_bits: u32,
    pub muted: bool,
}

/// The sound after a change.
pub open spec fn sink_after(sink: SinkView, step: SinkStep) -> SinkView {
    match step {
        SinkStep::SetVolume(volume_bits) => SinkView { volume_bits, ..sink },
        SinkStep::SetMute(muted) => SinkView { muted, ..sink },
    }
}

/// The sound after changes, one after the other.
pub open spec fn sink_after_all(sink: SinkView, steps: Seq<SinkStep>) -> SinkView
    decreases steps.len(),
{
    if steps.len() == 0 {
        sink
    } else {
        sink_after(sink_after_all(sink, steps.drop_last()), steps.last())
    }
}

/// The changes that lower the volume.
pub open spec fn ducking(target_bits: u32, differs: bool) -> Seq<SinkStep> {
    if differs {
        seq![SinkStep::SetVolume(target_bits)]
    } else {
        Seq::empty()
    }
}

/// The changes that bring back what the volume and the mute switch were.
pub open spec fn restoring(state: DuckState, differs: bool, muted: bool) -> Seq<SinkStep> {
    let volume = if differs {
        seq![SinkStep::SetVolume(state.previous_volume_bits)]
    } else {
        Seq::empty()
    };
    if muted != state.previous_muted {
        volume.push(SinkStep::SetMute(state.previous_muted))
    } else {
        volume
    }
}

/// The changes that lower the volume to `target_bits`. `differs` says whether the volume that was
/// read is far enough from it to be set at all.
pub fn duck_default_sink(target_bits: u32, differs: bool) -> (r: Vec<SinkStep>)
    ensures
        r@ == ducking(target_bits, differs),
{
    let mut r: Vec<SinkStep> = Vec::new();
    if differs {
        r.push(SinkStep::SetVolume(target_bits));
    }
    assert(r@ =~= ducking(target_bits, differs));
    r
}

/// The changes that bring back what was there before. `differs` says whether the volume that was
/// read is far enough from the earlier one to be set at all, `muted` how the switch was read.
pub fn restore_default_sink(state: DuckState, differs: bool, muted: bool) -> (r: Vec<SinkStep>)
    ensures
        r@ == restoring(state, differs, muted),
{
    let mut r: Vec<SinkStep> = Vec::new();
    if differs {
        r.push(SinkStep::SetVolume(state.previous_volume_bits));
    }
    assert(r@ =~= restoring(state, differs, state.previous_muted));
    if muted != state.previous_muted {
        r.push(SinkStep::SetMute(state.previous_muted));
    }
    r
}

/// What a volume report says: the texts that may be the volume, in order, and whether the sound is
/// muted. The first text that is a number is the volume.
#[derive(Debug)]
pub struct VolumeReport {
    pub candidates: Vec<String>,
    pub muted: bool,
}

/// The words, freed from the characters at their ends that are neither digits nor points, as far
/// as anything is left of them.
pub open spec fn number_texts(words: Seq<Seq<char>>) -> Seq<Seq<char>>
    decreases words.len(),
{
    if words.len() == 0 {
        Seq::empty()
    } else {
        let before = number_texts(words.drop_last());
        let cleaned = text::trim_class(words.last(), CharClass::NotInDecimal);
        if cleaned.len() == 0 {
            before
        } else {
            before.push(cleaned)
        }
    }
}

/// Reads the output of `wpctl get-volume`.
pub fn parse_wpctl_volume(output: &str) -> (r: VolumeReport)
    ensures
        r.muted == text::has_text(text::lowered(output@), "[muted]"@),
        text::views(r.candidates@) == number_texts(text::words_of(output@)),
{
    let muted = text::contains(text::lowercase(output).as_str(), "[muted]");
    let words = text::words(output);
    let ghost all = text::views(words@);
    let mut candidates: Vec<String> = Vec::new();
    let mut i: usize = 0;
    assert(text::views(candidates@) =~= Seq::<Seq<char>>::empty());
    while i < words.len()
        invariant
            i <= words@.len(),
            all == text::views(words@),
            text::views(candidates@) == number_texts(all.take(i as int)),
        decreases words@.len() - i,
    {
        let cleaned = text::trim_both(words[i].as_str(), CharClass::NotInDecimal);
        let ghost before = candidates@;
        assert(all.take(i + 1).drop_last() =~= all.take(i as int));
        assert(all.take(i + 1).last() == words@[i as int]@);
        if !cleaned.as_str().is_empty() {
            candidates.push(cleaned);
            assert(text::views(candidates@) =~= text::views(before).push(cleaned@));
        }
        i += 1;
    }
    assert(all.take(i as int) =~= all);
    VolumeReport { candidates, muted }
}

/// A volume that was lowered is not lowered again before it is restored; restoring gives back
/// what was read before, once, and then the volume can be lowered again.
pub proof fn ducking_is_undone_once(c: AudioDuckingController, volume_bits: u32, muted: bool)
    requires
        c.enabled,
    ensures
        ({
            let lowered = c.with_ducked(volume_bits, muted);
            let restored = lowered.with_restored();
            &&& lowered.to_duck() is None
            &&& lowered.to_restore() == Some(
                DuckState { active: true, previous_volume_bits: volume_bits, previous_muted: muted },
            )
            &&& restored.to_restore() is None
            &&& restored.with_restored() == restored
            &&& restored.to_duck() == Some(c.duck_percent)
        }),
{
}

/// A controller that is switched off neither lowers nor restores anything.
pub proof fn disabled_ducking_does_nothing(c: AudioDuckingController)
    requires
        !c.enabled,
    ensures
        c.to_duck() is None,
        c.to_restore() is None,
        c.with_restored() == c,
{
}

/// Restoring brings the sound back to what it was when the volume was lowered, whatever it is by
/// now: the mute switch is set as it was, and the volume that is asked for is the earlier one, unless
/// it was read as too close to that to be set. Lowering leaves the mute switch alone.
pub proof fn restoring_undoes_ducking(
    c: AudioDuckingController,
    before: SinkView,
    target_bits: u32,
    too_high: bool,
    now: SinkView,
    differs: bool,
)
    requires
        c.enabled,
    ensures
        ({
            let ducked = sink_after_all(before, ducking(target_bits, too_high));
            let kept = c.with_ducked(before.volume_bits, before.muted).to_restore();
            let restored = sink_after_all(now, restoring(kept->0, differs, now.muted));
            &&& ducked.muted == before.muted
            &&& ducked.volume_bits == (if too_high {
                target_bits
            } else {
                before.volume_bits
            })
            &&& kept is Some
            &&& restored.muted == before.muted
            &&& restored.volume_bits == (if differs {
                before.volume_bits
            } else {
                now.volume_bits
            })
        }),
{
    reveal_with_fuel(sink_after_all, 3);
    let kept = c.with_ducked(before.volume_bits, before.muted).to_restore()->0;
    let volume = restoring(kept, differs, kept.previous_muted);
    assert(volume.push(SinkStep::SetMute(kept.previous_muted)).drop_last() =~= volume);
}

} // verus!
