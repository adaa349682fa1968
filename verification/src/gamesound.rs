//! The bookkeeping of the audio player: the name of each clip, and which
//! clip plays on which channel of the mixer. Playing and halting is the
//! audio player's part; here is what it has to remember.

use crate::gamecontext::SoundEffect;
use vstd::prelude::*;

verus! {

/// Number of channels that the mixer is opened with.
pub const CHANNEL_COUNT: usize = 16;

/// The name of the clip of the background music.
pub open spec fn music_clip() -> Seq<char> {
    "bgm"@
}

/// The name of the clip of each sound effect.
pub open spec fn clip_of(effect: SoundEffect) -> Seq<char> {
    match effect {
        SoundEffect::Gulp1 => "gulp1"@,
        SoundEffect::Gulp2 => "gulp2"@,
        SoundEffect::Thunk => "thunk"@,
        SoundEffect::Selfbite => "selfbite"@,
    }
}

/// The name under which the clip of the background music is loaded.
pub fn music_clip_name() -> (name: &'static str)
    ensures
        name@ == music_clip(),
{
    "bgm"
}

/// The name under which the clip of a sound effect is loaded.
pub fn clip_name(effect: SoundEffect) -> (name: &'static str)
    ensures
        name@ == clip_of(effect),
{
    match effect {
        SoundEffect::Gulp1 => "gulp1",
        SoundEffect::Gulp2 => "gulp2",
        SoundEffect::Thunk => "thunk",
        SoundEffect::Selfbite => "selfbite",
    }
}

/// What plays on one channel, as a mathematical value.
pub open spec fn slot_view(slot: Option<String>) -> Option<Seq<char>> {
    match slot {
        Some(name) => Some(name@),
        None => None,
    }
}

/// For each channel of the mixer the name of the clip that was last started
/// on it and not halted since, if any.
pub struct ChannelTable {
    pub channels: Vec<Option<String>>,
}

impl View for ChannelTable {
    type V = Seq<Option<Seq<char>>>;

    open spec fn view(&self) -> Seq<Option<Seq<char>>> {
        self.channels@.map_values(|slot: Option<String>| slot_view(slot))
    }
}

impl ChannelTable {
    /// A table of `CHANNEL_COUNT` channels on which nothing plays.
    pub fn new() -> (table: ChannelTable)
        ensures
            table@ == Seq::new(CHANNEL_COUNT as nat, |i: int| None::<Seq<char>>),
    {
        let mut channels: Vec<Option<String>> = Vec::new();
        while channels.len() < CHANNEL_COUNT
            invariant
                channels.len() <= CHANNEL_COUNT,
                forall|i: int| 0 <= i < channels.len() ==> channels[i] is None,
            decreases CHANNEL_COUNT - channels.len(),
        {
            channels.push(None);
        }
        let table = ChannelTable { channels };
        assert(table@ =~= Seq::new(CHANNEL_COUNT as nat, |i: int| None::<Seq<char>>));
        table
    }

    /// Notes that the clip `name` was started on the channel with the given
    /// number. A number that is no channel of the table is ignored.
    pub fn record(&mut self, channelnum: i32, name: &str)
        ensures
            0 <= channelnum < old(self)@.len() ==> final(self)@ == old(self)@.update(
                channelnum as int,
                Some(name@),
            ),
            !(0 <= channelnum < old(self)@.len()) ==> final(self)@ == old(self)@,
    {
        if channelnum >= 0 && (channelnum as usize) < self.channels.len() {
            self.channels.set(channelnum as usize, Some(name.to_owned()));
            assert(self@ =~= old(self)@.update(channelnum as int, Some(name@)));
        }
    }

    /// Looks for the first channel on which the clip `name` plays. If there
    /// is one, the channel is marked free and its index returned, for the
    /// audio player to halt it. If there is none, nothing changes.
    pub fn release(&mut self, name: &str) -> (found: Option<usize>)
        ensures
            match found {
                Some(channel) => {
                    &&& channel < old(self)@.len()
                    &&& old(self)@[channel as int] == Some(name@)
                    &&& forall|i: int| 0 <= i < channel ==> old(self)@[i] != Some(name@)
                    &&& final(self)@ == old(self)@.update(channel as int, None)
                },
                None => {
                    &&& forall|i: int| 0 <= i < old(self)@.len() ==> old(self)@[i] != Some(name@)
                    &&& final(self)@ == old(self)@
                },
            },
    {
        let wanted = name.to_owned();
        let mut channel_idx: usize = 0;
        while channel_idx < self.channels.len()
            invariant
                channel_idx <= self.channels.len(),
                self.channels@ == old(self).channels@,
                wanted@ == name@,
                forall|i: int| 0 <= i < channel_idx ==> old(self)@[i] != Some(name@),
            decreases self.channels.len() - channel_idx,
        {
            let playing = match &self.channels[channel_idx] {
                Some(clip) => *clip == wanted,
                None => false,
            };
            if playing {
                self.channels.set(channel_idx, None);
                assert(self@ =~= old(self)@.update(channel_idx as int, None));
                return Some(channel_idx);
            }
            channel_idx += 1;
        }
        None
    }
}

} // verus!
