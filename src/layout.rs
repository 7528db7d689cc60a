use vstd::prelude::*;

use crate::enums::SioChannelId;

verus! {

/// Most channels a layout can hold.
pub const MAX_CHANNELS: usize = 24;

/// A channel layout: a name and the position of each channel, in order.
#[derive(Debug)]
pub struct ChannelLayout {
    name: String,
    channels: Vec<SioChannelId>,
}

/// Whether some layout of `available` has the channels `chans`.
pub open spec fn contains_channels(available: Seq<ChannelLayout>, chans: Seq<SioChannelId>) -> bool {
    exists|j: int| 0 <= j < available.len() && (#[trigger] available[j]).view() == chans
}

/// Index of the first layout of `preferred` whose channels some layout of
/// `available` has too; `-1` where there is none.
pub open spec fn best_match_index(preferred: Seq<ChannelLayout>, available: Seq<ChannelLayout>) -> int
    decreases preferred.len(),
{
    if preferred.len() == 0 {
        -1
    } else {
        let earlier = best_match_index(preferred.drop_last(), available);
        if earlier >= 0 {
            earlier
        } else if contains_channels(available, preferred.last().view()) {
            preferred.len() - 1
        } else {
            -1
        }
    }
}

impl View for ChannelLayout {
    type V = Seq<SioChannelId>;

    /// The channels of the layout, in order.
    closed spec fn view(&self) -> Seq<SioChannelId> {
        self.channels@
    }
}

impl ChannelLayout {
    /// The layout's name.
    pub closed spec fn spec_name(&self) -> Seq<char> {
        self.name@
    }

    /// Whether the layout holds no more channels than the native record can.
    pub open spec fn wf(&self) -> bool {
        self@.len() <= MAX_CHANNELS
    }

    /// Builds a layout from its name and its channels.
    pub fn new(name: String, channels: Vec<SioChannelId>) -> (r: Self)
        requires
            channels@.len() <= MAX_CHANNELS,
        ensures
            r@ == channels@,
            r.spec_name() == name@,
            r.wf(),
    {
        ChannelLayout { name, channels }
    }

    /// Returns the layout's name.
    pub fn name(&self) -> (r: String)
        ensures
            r@ == self.spec_name(),
    {
        self.name.clone()
    }

    /// Returns the channels of the layout, in order.
    pub fn channels(&self) -> (r: &Vec<SioChannelId>)
        ensures
            r@ == self@,
    {
        &self.channels
    }

    /// Returns the number of channels in the layout.
    pub fn channel_count(&self) -> (r: i32)
        requires
            self.wf(),
        ensures
            r == self@.len(),
    {
        self.channels.len() as i32
    }

    /// Returns the index of `channel` in the layout, or `None` if not found.
    pub fn find_channel(&self, channel: SioChannelId) -> (r: Option<i32>)
        requires
            self.wf(),
        ensures
            r is None <==> !self@.contains(channel),
            r matches Some(i) ==> 0 <= i < self@.len() && self@[i as int] == channel && forall|
                j: int,
            |
                0 <= j < i ==> self@[j] != channel,
    {
        let mut i: usize = 0;
        while i < self.channels.len()
            invariant
                self.wf(),
                i <= self@.len(),
                forall|j: int| 0 <= j < i ==> self@[j] != channel,
            decreases self@.len() - i,
        {
            if self.channels[i] == channel {
                return Some(i as i32);
            }
            i = i + 1;
        }
        None
    }

    /// Returns whether both layouts have the same channels in the same order.
    pub fn same_channels(&self, other: &ChannelLayout) -> (r: bool)
        ensures
            r == (self@ == other@),
    {
        if self.channels.len() != other.channels.len() {
            return false;
        }
        let mut i: usize = 0;
        while i < self.channels.len()
            invariant
                self@.len() == other@.len(),
                i <= self@.len(),
                forall|j: int| 0 <= j < i ==> self@[j] == other@[j],
            decreases self@.len() - i,
        {
            if self.channels[i] != other.channels[i] {
                return false;
            }
            i = i + 1;
        }
        assert(self@ =~= other@);
        true
    }

    /// Returns a layout with the same name and channels.
    pub fn duplicate(&self) -> (r: ChannelLayout)
        ensures
            r@ == self@,
            r.spec_name() == self.spec_name(),
    {
        let mut channels: Vec<SioChannelId> = Vec::new();
        let mut i: usize = 0;
        while i < self.channels.len()
            invariant
                i <= self@.len(),
                channels@ == self@.subrange(0, i as int),
            decreases self@.len() - i,
        {
            channels.push(self.channels[i]);
            i = i + 1;
            assert(channels@ =~= self@.subrange(0, i as int));
        }
        assert(channels@ =~= self@);
        ChannelLayout { name: self.name.clone(), channels }
    }

    /// Iterates over `preferred_layouts`. Returns the first channel layout in
    /// `preferred_layouts` whose channels one of the `available_layouts` has.
    /// Returns `None` if none matches.
    pub fn best_matching_channel_layout(
        preferred_layouts: &[ChannelLayout],
        available_layouts: &[ChannelLayout],
    ) -> (r: Option<ChannelLayout>)
        ensures
            best_match_index(preferred_layouts@, available_layouts@) < 0 <==> r is None,
            r matches Some(l) ==> {
                let i = best_match_index(preferred_layouts@, available_layouts@);
                &&& l@ == preferred_layouts@[i]@
                &&& l.spec_name() == preferred_layouts@[i].spec_name()
            },
    {
        let mut i: usize = 0;
        while i < preferred_layouts.len()
            invariant
                i <= preferred_layouts@.len(),
                best_match_index(preferred_layouts@.subrange(0, i as int), available_layouts@)
                    < 0,
            decreases preferred_layouts@.len() - i,
        {
            let p = &preferred_layouts[i];
            let mut j: usize = 0;
            let mut found = false;
            while j < available_layouts.len()
                invariant_except_break
                    !found,
                    forall|k: int| 0 <= k < j ==> (#[trigger] available_layouts@[k])@ != p@,
                invariant
                    j <= available_layouts@.len(),
                ensures
                    found ==> contains_channels(available_layouts@, p@),
                    !found ==> forall|k: int|
                        0 <= k < available_layouts@.len() ==> (#[trigger] available_layouts@[k])@
                            != p@,
                decreases available_layouts@.len() - j,
            {
                if available_layouts[j].same_channels(p) {
                    found = true;
                    assert(available_layouts@[j as int]@ == p@);
                    break;
                }
                j = j + 1;
            }
            let ghost next = preferred_layouts@.subrange(0, i + 1);
            assert(next.drop_last() =~= preferred_layouts@.subrange(0, i as int));
            assert(next.last() == preferred_layouts@[i as int]);
            if found {
                assert(best_match_index(next, available_layouts@) == i);
                proof {
                    lemma_best_match_prefix(preferred_layouts@, available_layouts@, i as int);
                }
                return Some(p.duplicate());
            }
            assert(!contains_channels(available_layouts@, p@));
            assert(best_match_index(next, available_layouts@) < 0);
            i = i + 1;
        }
        assert(preferred_layouts@.subrange(0, i as int) =~= preferred_layouts@);
        None
    }
}

/// Where no layout of a prefix matches, the first match of a longer prefix
/// is the same as the first match of the whole sequence.
proof fn lemma_best_match_prefix(preferred: Seq<ChannelLayout>, available: Seq<ChannelLayout>, i: int)
    requires
        0 <= i < preferred.len(),
        best_match_index(preferred.subrange(0, i), available) < 0,
        best_match_index(preferred.subrange(0, i + 1), available) >= 0,
    ensures
        best_match_index(preferred, available) == i,
    decreases preferred.len(),
{
    if preferred.len() == i + 1 {
        assert(preferred.subrange(0, i + 1) =~= preferred);
    } else {
        let shorter = preferred.drop_last();
        assert(shorter.subrange(0, i) =~= preferred.subrange(0, i));
        assert(shorter.subrange(0, i + 1) =~= preferred.subrange(0, i + 1));
        lemma_best_match_prefix(shorter, available, i);
    }
}

impl PartialEq for ChannelLayout {
    /// Layouts are equal when they have the same channels in the same order.
    fn eq(&self, other: &ChannelLayout) -> (r: bool) {
        self.same_channels(other)
    }
}

impl vstd::std_specs::cmp::PartialEqSpecImpl for ChannelLayout {
    open spec fn obeys_eq_spec() -> bool {
        true
    }

    open spec fn eq_spec(&self, other: &ChannelLayout) -> bool {
        self@ == other@
    }
}

} // verus!
