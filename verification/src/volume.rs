//! Per-channel volume levels in the server's own unit.

use vstd::prelude::*;

verus! {

/// The volume of a device or stream: one level per channel, in the order in
/// which the server lists the channels.
///
/// A level is the server's raw value (`0` is silence, `0x10000` is the
/// nominal maximum); turning a level into a percentage and back is left to
/// the caller.
#[derive(Debug, PartialEq, Eq)]
pub struct VolumeLevels {
    levels: Vec<u32>,
}

impl View for VolumeLevels {
    type V = Seq<u32>;

    closed spec fn view(&self) -> Seq<u32> {
        self.levels@
    }
}

/// `channels` channels that all stand at `level`.
pub open spec fn uniform(channels: nat, level: u32) -> Seq<u32> {
    Seq::new(channels, |i: int| level)
}

impl VolumeLevels {
    /// The volume with the given level on each channel.
    pub fn new(levels: Vec<u32>) -> (volume: Self)
        ensures
            volume@ == levels@,
    {
        VolumeLevels { levels }
    }

    /// The level of each channel.
    pub fn levels(&self) -> (levels: &Vec<u32>)
        ensures
            levels@ == self@,
    {
        &self.levels
    }

    /// Puts every channel at `level`. The number of channels stays as it
    /// is, so that what is written back to the server has the shape of what
    /// was read from it.
    pub fn set_level(&mut self, level: u32)
        ensures
            final(self)@ == uniform(old(self)@.len(), level),
    {
        let n: usize = self.levels.len();
        let mut i: usize = 0;
        while i < n
            invariant
                i <= n,
                self.levels@.len() == n,
                forall|k: int| 0 <= k < i ==> self.levels@[k] == level,
            decreases n - i,
        {
            self.levels[i] = level;
            i += 1;
        }
        assert(self.levels@ =~= uniform(n as nat, level));
    }
}

impl Clone for VolumeLevels {
    fn clone(&self) -> (copy: Self)
        ensures
            copy@ == self@,
    {
        VolumeLevels { levels: self.levels.clone() }
    }
}

} // verus!
