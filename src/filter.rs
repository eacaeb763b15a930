use vstd::prelude::*;

verus! {

/// Number of filter topologies.
pub const FILTER_TYPE_COUNT: usize = 11;

/// The eleven biquad topologies.
#[derive(Clone, Copy, Debug, PartialEq, Eq, Structural)]
pub enum FilterType {
    LowPass1,
    LowPass2,
    HighPass1,
    HighPass2,
    BandPass,
    Notch,
    FirstOrderAllPass,
    SecondOrderAllPass,
    LowShelf,
    HighShelf,
    Peak,
}

impl FilterType {
    /// Position of the topology in the list of topologies.
    pub open spec fn index_spec(self) -> nat {
        match self {
            FilterType::LowPass1 => 0,
            FilterType::LowPass2 => 1,
            FilterType::HighPass1 => 2,
            FilterType::HighPass2 => 3,
            FilterType::BandPass => 4,
            FilterType::Notch => 5,
            FilterType::FirstOrderAllPass => 6,
            FilterType::SecondOrderAllPass => 7,
            FilterType::LowShelf => 8,
            FilterType::HighShelf => 9,
            FilterType::Peak => 10,
        }
    }

    /// The topology at position `index` (the last one for any larger index).
    pub open spec fn from_index_spec(index: nat) -> Self {
        if index == 0 {
            FilterType::LowPass1
        } else if index == 1 {
            FilterType::LowPass2
        } else if index == 2 {
            FilterType::HighPass1
        } else if index == 3 {
            FilterType::HighPass2
        } else if index == 4 {
            FilterType::BandPass
        } else if index == 5 {
            FilterType::Notch
        } else if index == 6 {
            FilterType::FirstOrderAllPass
        } else if index == 7 {
            FilterType::SecondOrderAllPass
        } else if index == 8 {
            FilterType::LowShelf
        } else if index == 9 {
            FilterType::HighShelf
        } else {
            FilterType::Peak
        }
    }

    /// Display name of the topology.
    pub open spec fn name_spec(self) -> Seq<char> {
        match self {
            FilterType::LowPass1 => "First Order Low-Pass"@,
            FilterType::LowPass2 => "Second Order Low-Pass"@,
            FilterType::HighPass1 => "First Order High-Pass"@,
            FilterType::HighPass2 => "Second Order High-Pass"@,
            FilterType::BandPass => "Band-Pass"@,
            FilterType::Notch => "Notch"@,
            FilterType::FirstOrderAllPass => "First Order All-Pass"@,
            FilterType::SecondOrderAllPass => "Second Order All-Pass"@,
            FilterType::LowShelf => "LowShelf"@,
            FilterType::HighShelf => "HighShelf"@,
            FilterType::Peak => "Peak"@,
        }
    }

    /// Stable short identifier of the topology.
    pub open spec fn id_spec(self) -> Seq<char> {
        match self {
            FilterType::LowPass1 => "lp1"@,
            FilterType::LowPass2 => "lp2"@,
            FilterType::HighPass1 => "hp1"@,
            FilterType::HighPass2 => "hp2"@,
            FilterType::BandPass => "bp"@,
            FilterType::Notch => "notch"@,
            FilterType::FirstOrderAllPass => "ap1"@,
            FilterType::SecondOrderAllPass => "ap2"@,
            FilterType::LowShelf => "ls"@,
            FilterType::HighShelf => "hs"@,
            FilterType::Peak => "peak"@,
        }
    }

    pub fn to_index(self) -> (r: usize)
        ensures
            r == self.index_spec(),
            r < FILTER_TYPE_COUNT,
    {
        match self {
            FilterType::LowPass1 => 0,
            FilterType::LowPass2 => 1,
            FilterType::HighPass1 => 2,
            FilterType::HighPass2 => 3,
            FilterType::BandPass => 4,
            FilterType::Notch => 5,
            FilterType::FirstOrderAllPass => 6,
            FilterType::SecondOrderAllPass => 7,
            FilterType::LowShelf => 8,
            FilterType::HighShelf => 9,
            FilterType::Peak => 10,
        }
    }

    pub fn from_index(index: usize) -> (r: Self)
        requires
            index < FILTER_TYPE_COUNT,
        ensures
            r.index_spec() == index,
            r == Self::from_index_spec(index as nat),
    {
        match index {
            0 => FilterType::LowPass1,
            1 => FilterType::LowPass2,
            2 => FilterType::HighPass1,
            3 => FilterType::HighPass2,
            4 => FilterType::BandPass,
            5 => FilterType::Notch,
            6 => FilterType::FirstOrderAllPass,
            7 => FilterType::SecondOrderAllPass,
            8 => FilterType::LowShelf,
            9 => FilterType::HighShelf,
            _ => FilterType::Peak,
        }
    }

    /// Display names of all topologies, in index order.
    pub fn variants() -> (r: Vec<&'static str>)
        ensures
            r@.len() == FILTER_TYPE_COUNT,
            forall|i: int| 0 <= i < FILTER_TYPE_COUNT ==> (#[trigger] r@[i])@ == Self::from_index_spec(i as nat).name_spec(),
    {
        let mut r: Vec<&'static str> = Vec::new();
        let mut i: usize = 0;
        while i < FILTER_TYPE_COUNT
            invariant
                i <= FILTER_TYPE_COUNT,
                r@.len() == i,
                forall|j: int| 0 <= j < i ==> (#[trigger] r@[j])@ == Self::from_index_spec(j as nat).name_spec(),
            decreases FILTER_TYPE_COUNT - i,
        {
            r.push(FilterType::from_index(i).name());
            i = i + 1;
        }
        r
    }

    /// Short identifiers of all topologies, in index order.
    pub fn ids() -> (r: Vec<&'static str>)
        ensures
            r@.len() == FILTER_TYPE_COUNT,
            forall|i: int| 0 <= i < FILTER_TYPE_COUNT ==> (#[trigger] r@[i])@ == Self::from_index_spec(i as nat).id_spec(),
    {
        let mut r: Vec<&'static str> = Vec::new();
        let mut i: usize = 0;
        while i < FILTER_TYPE_COUNT
            invariant
                i <= FILTER_TYPE_COUNT,
                r@.len() == i,
                forall|j: int| 0 <= j < i ==> (#[trigger] r@[j])@ == Self::from_index_spec(j as nat).id_spec(),
            decreases FILTER_TYPE_COUNT - i,
        {
            r.push(FilterType::from_index(i).id());
            i = i + 1;
        }
        r
    }

    /// Whether the resonance must be clamped before the coefficients are
    /// derived: the second-order all-pass becomes unstable as Q nears zero.
    pub fn clamps_resonance(self) -> (r: bool)
        ensures
            r == (self == FilterType::SecondOrderAllPass),
    {
        match self {
            FilterType::SecondOrderAllPass => true,
            _ => false,
        }
    }

    /// Whether the topology mixes a filtered part with a direct path after
    /// the recurrence (the two shelves).
    pub fn has_post_scale(self) -> (r: bool)
        ensures
            r == (self == FilterType::LowShelf || self == FilterType::HighShelf),
    {
        match self {
            FilterType::LowShelf => true,
            FilterType::HighShelf => true,
            _ => false,
        }
    }

    pub fn name(self) -> (r: &'static str)
        ensures
            r@ == self.name_spec(),
    {
        match self {
            FilterType::LowPass1 => "First Order Low-Pass",
            FilterType::LowPass2 => "Second Order Low-Pass",
            FilterType::HighPass1 => "First Order High-Pass",
            FilterType::HighPass2 => "Second Order High-Pass",
            FilterType::BandPass => "Band-Pass",
            FilterType::Notch => "Notch",
            FilterType::FirstOrderAllPass => "First Order All-Pass",
            FilterType::SecondOrderAllPass => "Second Order All-Pass",
            FilterType::LowShelf => "LowShelf",
            FilterType::HighShelf => "HighShelf",
            FilterType::Peak => "Peak",
        }
    }

    pub fn id(self) -> (r: &'static str)
        ensures
            r@ == self.id_spec(),
    {
        match self {
            FilterType::LowPass1 => "lp1",
            FilterType::LowPass2 => "lp2",
            FilterType::HighPass1 => "hp1",
            FilterType::HighPass2 => "hp2",
            FilterType::BandPass => "bp",
            FilterType::Notch => "notch",
            FilterType::FirstOrderAllPass => "ap1",
            FilterType::SecondOrderAllPass => "ap2",
            FilterType::LowShelf => "ls",
            FilterType::HighShelf => "hs",
            FilterType::Peak => "peak",
        }
    }
}

/// Remembers the topology in use and tells when it changes, since the
/// filter state must be zeroed at a change of topology.
pub struct FilterTypeTracker {
    current: FilterType,
}

impl FilterTypeTracker {
    pub closed spec fn current_spec(&self) -> FilterType {
        self.current
    }

    pub fn new(initial: FilterType) -> (r: Self)
        ensures
            r.current_spec() == initial,
    {
        FilterTypeTracker { current: initial }
    }

    pub fn current(&self) -> (r: FilterType)
        ensures
            r == self.current_spec(),
    {
        self.current
    }

    /// Records `next` as the topology in use; returns whether it differs
    /// from the previous one, that is whether the state must be reset.
    pub fn observe(&mut self, next: FilterType) -> (reset: bool)
        ensures
            reset == (next != old(self).current_spec()),
            final(self).current_spec() == next,
    {
        let reset = next != self.current;
        self.current = next;
        reset
    }
}

/// The history of one channel of a biquad section: the last two inputs
/// `x1`, `x2` and the last two outputs `y1`, `y2` of the recurrence.
#[derive(Clone, Copy, Debug)]
pub struct BiquadState<T> {
    pub x1: T,
    pub x2: T,
    pub y1: T,
    pub y2: T,
}

impl<T: Copy> BiquadState<T> {
    /// A state with every cell equal to `zero`.
    pub fn new(zero: T) -> (r: Self)
        ensures
            r.x1 == zero && r.x2 == zero && r.y1 == zero && r.y2 == zero,
    {
        BiquadState { x1: zero, x2: zero, y1: zero, y2: zero }
    }

    /// Shifts the history after one step of the recurrence took input `x`
    /// and gave output `y`.
    pub fn shift(&mut self, x: T, y: T)
        ensures
            final(self).x1 == x,
            final(self).x2 == old(self).x1,
            final(self).y1 == y,
            final(self).y2 == old(self).y1,
    {
        self.x2 = self.x1;
        self.x1 = x;
        self.y2 = self.y1;
        self.y1 = y;
    }

    /// Zeroes the four cells.
    pub fn reset_filter(&mut self, zero: T)
        ensures
            final(self).x1 == zero && final(self).x2 == zero,
            final(self).y1 == zero && final(self).y2 == zero,
    {
        *self = BiquadState::new(zero);
    }
}

} // verus!
