use vstd::prelude::*;

use crate::enums::{SioDeviceAim, SioFormat};
use crate::layout::{contains_channels, ChannelLayout};

verus! {

/// An inclusive range of sample rates a device supports.
#[derive(Clone, Copy, Debug, PartialEq, Eq, Structural)]
pub struct SampleRateRange {
    pub min: i32,
    pub max: i32,
}

/// An audio device, as far as a stream depends on it: the native handle it
/// is reached by, whether it plays or records, and what it supports.
#[derive(Debug)]
pub struct Device {
    device: usize,
    aim: SioDeviceAim,
    formats: Vec<SioFormat>,
    layouts: Vec<ChannelLayout>,
    sample_rates: Vec<SampleRateRange>,
}

impl Device {
    /// The native handle of the device.
    pub closed spec fn spec_handle(&self) -> usize {
        self.device
    }

    /// Whether the device records or plays.
    pub closed spec fn spec_aim(&self) -> SioDeviceAim {
        self.aim
    }

    /// The formats the device supports.
    pub closed spec fn spec_formats(&self) -> Seq<SioFormat> {
        self.formats@
    }

    /// The channel layouts the device supports.
    pub closed spec fn spec_layouts(&self) -> Seq<ChannelLayout> {
        self.layouts@
    }

    /// The sample rate ranges the device supports.
    pub closed spec fn spec_sample_rates(&self) -> Seq<SampleRateRange> {
        self.sample_rates@
    }

    /// Whether the device supports format `f`.
    pub open spec fn has_format(&self, f: SioFormat) -> bool {
        self.spec_formats().contains(f)
    }

    /// Whether some range of the device holds `rate`.
    pub open spec fn has_sample_rate(&self, rate: i32) -> bool {
        exists|i: int|
            0 <= i < self.spec_sample_rates().len() && (#[trigger] self.spec_sample_rates()[i]).min
                <= rate <= self.spec_sample_rates()[i].max
    }

    /// Builds a device from its native handle, its aim and what it supports.
    pub fn new(
        dev_ptr: usize,
        aim: SioDeviceAim,
        formats: Vec<SioFormat>,
        layouts: Vec<ChannelLayout>,
        sample_rates: Vec<SampleRateRange>,
    ) -> (r: Self)
        ensures
            r.spec_handle() == dev_ptr,
            r.spec_aim() == aim,
            r.spec_formats() == formats@,
            r.spec_layouts() == layouts@,
            r.spec_sample_rates() == sample_rates@,
    {
        Device { device: dev_ptr, aim, formats, layouts, sample_rates }
    }

    /// Returns the native handle of the device.
    pub fn handle(&self) -> (r: usize)
        ensures
            r == self.spec_handle(),
    {
        self.device
    }

    /// Returns whether the device records or plays.
    pub fn aim(&self) -> (r: SioDeviceAim)
        ensures
            r == self.spec_aim(),
    {
        self.aim
    }

    /// Returns whether `format` is included in the device's supported formats.
    pub fn supports_format(&self, format: SioFormat) -> (r: bool)
        ensures
            r == self.has_format(format),
    {
        let mut i: usize = 0;
        while i < self.formats.len()
            invariant
                i <= self.formats@.len(),
                forall|j: int| 0 <= j < i ==> self.formats@[j] != format,
            decreases self.formats@.len() - i,
        {
            if self.formats[i] == format {
                assert(self.formats@[i as int] == format);
                return true;
            }
            i = i + 1;
        }
        false
    }

    /// Returns whether a layout with the channels of `layout` is included in
    /// the device's supported channel layouts.
    pub fn supports_layout(&self, layout: &ChannelLayout) -> (r: bool)
        ensures
            r == contains_channels(self.spec_layouts(), layout@),
    {
        let mut i: usize = 0;
        while i < self.layouts.len()
            invariant
                i <= self.layouts@.len(),
                forall|j: int| 0 <= j < i ==> (#[trigger] self.layouts@[j])@ != layout@,
            decreases self.layouts@.len() - i,
        {
            if self.layouts[i].same_channels(layout) {
                assert(self.layouts@[i as int]@ == layout@);
                return true;
            }
            i = i + 1;
        }
        false
    }

    /// Returns whether `sample_rate` is included in one of the device's
    /// supported sample rate ranges.
    pub fn supports_sample_rate(&self, sample_rate: i32) -> (r: bool)
        ensures
            r == self.has_sample_rate(sample_rate),
    {
        let mut i: usize = 0;
        while i < self.sample_rates.len()
            invariant
                i <= self.sample_rates@.len(),
                forall|j: int|
                    0 <= j < i ==> !((#[trigger] self.sample_rates@[j]).min <= sample_rate
                        <= self.sample_rates@[j].max),
            decreases self.sample_rates@.len() - i,
        {
            let range = self.sample_rates[i];
            if range.min <= sample_rate && sample_rate <= range.max {
                assert(self.spec_sample_rates()[i as int] == range);
                return true;
            }
            i = i + 1;
        }
        false
    }

    /// Returns a device with the same handle, aim and capabilities.
    pub fn duplicate(&self) -> (r: Device)
        ensures
            r.spec_handle() == self.spec_handle(),
            r.spec_aim() == self.spec_aim(),
            r.spec_formats() == self.spec_formats(),
            r.spec_sample_rates() == self.spec_sample_rates(),
            r.spec_layouts().len() == self.spec_layouts().len(),
            forall|i: int|
                0 <= i < self.spec_layouts().len() ==> (#[trigger] r.spec_layouts()[i])@
                    == self.spec_layouts()[i]@ && r.spec_layouts()[i].spec_name()
                    == self.spec_layouts()[i].spec_name(),
    {
        let mut formats: Vec<SioFormat> = Vec::new();
        let mut i: usize = 0;
        while i < self.formats.len()
            invariant
                i <= self.formats@.len(),
                formats@ == self.formats@.subrange(0, i as int),
            decreases self.formats@.len() - i,
        {
            formats.push(self.formats[i]);
            i = i + 1;
            assert(formats@ =~= self.formats@.subrange(0, i as int));
        }
        assert(formats@ =~= self.formats@);
        let mut sample_rates: Vec<SampleRateRange> = Vec::new();
        let mut i: usize = 0;
        while i < self.sample_rates.len()
            invariant
                i <= self.sample_rates@.len(),
                sample_rates@ == self.sample_rates@.subrange(0, i as int),
            decreases self.sample_rates@.len() - i,
        {
            sample_rates.push(self.sample_rates[i]);
            i = i + 1;
            assert(sample_rates@ =~= self.sample_rates@.subrange(0, i as int));
        }
        assert(sample_rates@ =~= self.sample_rates@);
        let mut layouts: Vec<ChannelLayout> = Vec::new();
        let mut i: usize = 0;
        while i < self.layouts.len()
            invariant
                i <= self.layouts@.len(),
                layouts@.len() == i,
                forall|j: int|
                    0 <= j < i ==> (#[trigger] layouts@[j])@ == self.layouts@[j]@
                        && layouts@[j].spec_name() == self.layouts@[j].spec_name(),
            decreases self.layouts@.len() - i,
        {
            layouts.push(self.layouts[i].duplicate());
            i = i + 1;
        }
        Device { device: self.device, aim: self.aim, formats, layouts, sample_rates }
    }
}

} // verus!
