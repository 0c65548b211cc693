use vstd::prelude::*;

verus! {

/// How a resource is refilled when its refresh timing comes.
#[derive(Debug, Clone, Copy, PartialEq, Eq, Structural)]
pub enum RefreshBy {
    Const(usize),
    ToFull,
    ToEmpty,
}

/// The maximum of a resource: a soft cap (may be exceeded by gains), a hard
/// cap (gains stop there) or no cap at all.
#[derive(Debug, Clone, Copy, PartialEq, Eq, Structural)]
pub enum ResourceCap {
    Soft(usize),
    Hard(usize),
    UnCapped,
}

/// The cap's number, if it has one.
pub open spec fn cap_value(c: ResourceCap) -> Option<usize> {
    match c {
        ResourceCap::Soft(n) => Some(n),
        ResourceCap::Hard(n) => Some(n),
        ResourceCap::UnCapped => None,
    }
}

/// Sum of two caps: uncapped absorbs; soft wins over hard; hard plus hard is hard.
pub open spec fn cap_sum(a: ResourceCap, b: ResourceCap) -> ResourceCap {
    match (a, b) {
        (ResourceCap::UnCapped, _) => ResourceCap::UnCapped,
        (_, ResourceCap::UnCapped) => ResourceCap::UnCapped,
        (ResourceCap::Hard(x), ResourceCap::Hard(y)) => ResourceCap::Hard((x + y) as usize),
        (ResourceCap::Soft(x), ResourceCap::Soft(y)) => ResourceCap::Soft((x + y) as usize),
        (ResourceCap::Soft(x), ResourceCap::Hard(y)) => ResourceCap::Soft((x + y) as usize),
        (ResourceCap::Hard(x), ResourceCap::Soft(y)) => ResourceCap::Soft((x + y) as usize),
    }
}

/// The two caps can be added without overflowing a `usize`.
pub open spec fn cap_sum_fits(a: ResourceCap, b: ResourceCap) -> bool {
    match (cap_value(a), cap_value(b)) {
        (Some(x), Some(y)) => x + y <= usize::MAX,
        _ => true,
    }
}

/// Halving of a cap by a nonzero divisor (the cap's number is always halved).
pub open spec fn cap_half(a: ResourceCap, rhs: usize) -> Option<ResourceCap> {
    if rhs == 0 {
        None
    } else {
        match a {
            ResourceCap::Soft(c) => Some(ResourceCap::Soft((c / 2) as usize)),
            ResourceCap::Hard(c) => Some(ResourceCap::Hard((c / 2) as usize)),
            ResourceCap::UnCapped => Some(ResourceCap::UnCapped),
        }
    }
}

impl ResourceCap {
    /// The cap's number, or `None` when uncapped.
    pub fn cap(&self) -> (r: Option<usize>)
        ensures
            r == cap_value(*self),
    {
        match self {
            ResourceCap::Soft(c) => Some(*c),
            ResourceCap::Hard(c) => Some(*c),
            ResourceCap::UnCapped => None,
        }
    }

    /// Whether there is no cap.
    pub fn is_uncapped(&self) -> (r: bool)
        ensures
            r == (*self is UnCapped),
    {
        match self {
            ResourceCap::UnCapped => true,
            _ => false,
        }
    }
}

impl core::ops::Add<ResourceCap> for ResourceCap {
    type Output = ResourceCap;

    fn add(self, rhs: ResourceCap) -> (r: ResourceCap) {
        match self {
            ResourceCap::Soft(c) => {
                match rhs {
                    ResourceCap::Soft(r) => ResourceCap::Soft(c + r),
                    ResourceCap::Hard(r) => ResourceCap::Soft(c + r),
                    ResourceCap::UnCapped => ResourceCap::UnCapped,
                }
            },
            ResourceCap::Hard(c) => {
                match rhs {
                    ResourceCap::Soft(r) => ResourceCap::Soft(c + r),
                    ResourceCap::Hard(r) => ResourceCap::Hard(c + r),
                    ResourceCap::UnCapped => ResourceCap::UnCapped,
                }
            },
            ResourceCap::UnCapped => ResourceCap::UnCapped,
        }
    }
}

impl vstd::std_specs::ops::AddSpecImpl<ResourceCap> for ResourceCap {
    open spec fn obeys_add_spec() -> bool {
        true
    }

    open spec fn add_req(self, rhs: ResourceCap) -> bool {
        cap_sum_fits(self, rhs)
    }

    open spec fn add_spec(self, rhs: ResourceCap) -> ResourceCap {
        cap_sum(self, rhs)
    }
}

impl core::ops::Div<usize> for ResourceCap {
    type Output = Option<ResourceCap>;

    fn div(self, rhs: usize) -> (r: Option<ResourceCap>) {
        if rhs == 0 {
            None
        } else {
            match self {
                ResourceCap::Soft(c) => Some(ResourceCap::Soft(c / 2)),
                ResourceCap::Hard(c) => Some(ResourceCap::Hard(c / 2)),
                ResourceCap::UnCapped => Some(ResourceCap::UnCapped),
            }
        }
    }
}

impl vstd::std_specs::ops::DivSpecImpl<usize> for ResourceCap {
    open spec fn obeys_div_spec() -> bool {
        true
    }

    open spec fn div_req(self, rhs: usize) -> bool {
        true
    }

    open spec fn div_spec(self, rhs: usize) -> Option<ResourceCap> {
        cap_half(self, rhs)
    }
}

/// How much of a resource is available: a count, or an unlimited amount.
#[derive(Debug, Clone, Copy, PartialEq, Eq, Structural)]
pub enum ResourceCount {
    Count(usize),
    UnCapped,
}

/// Sum of two counts; unlimited absorbs.
pub open spec fn count_sum(a: ResourceCount, b: ResourceCount) -> ResourceCount {
    match (a, b) {
        (ResourceCount::Count(x), ResourceCount::Count(y)) => ResourceCount::Count((x + y) as usize),
        _ => ResourceCount::UnCapped,
    }
}

/// The two counts can be added without overflowing a `usize`.
pub open spec fn count_sum_fits(a: ResourceCount, b: ResourceCount) -> bool {
    match (a, b) {
        (ResourceCount::Count(x), ResourceCount::Count(y)) => x + y <= usize::MAX,
        _ => true,
    }
}

/// A count with its number replaced; an unlimited amount stays unlimited.
pub open spec fn count_set(a: ResourceCount, n: usize) -> ResourceCount {
    match a {
        ResourceCount::Count(_) => ResourceCount::Count(n),
        ResourceCount::UnCapped => ResourceCount::UnCapped,
    }
}

/// Adding a number to a count; unlimited stays unlimited.
pub open spec fn count_plus(a: ResourceCount, n: usize) -> ResourceCount {
    match a {
        ResourceCount::Count(x) => ResourceCount::Count((x + n) as usize),
        ResourceCount::UnCapped => ResourceCount::UnCapped,
    }
}

/// The count stays a `usize` after adding `n`.
pub open spec fn count_plus_fits(a: ResourceCount, n: usize) -> bool {
    match a {
        ResourceCount::Count(x) => x + n <= usize::MAX,
        ResourceCount::UnCapped => true,
    }
}

/// Subtracting a number from a count, stopping at zero; unlimited stays unlimited.
pub open spec fn count_minus(a: ResourceCount, n: usize) -> ResourceCount {
    match a {
        ResourceCount::Count(x) => if n >= x { ResourceCount::Count(0) } else { ResourceCount::Count((x - n) as usize) },
        ResourceCount::UnCapped => ResourceCount::UnCapped,
    }
}

/// A count compared with a number: unlimited is greater than any number.
pub open spec fn count_at_least(a: ResourceCount, n: int) -> bool {
    match a {
        ResourceCount::Count(x) => x >= n,
        ResourceCount::UnCapped => true,
    }
}

/// The count that a full resource of the given cap holds.
pub open spec fn count_of_cap(c: ResourceCap) -> ResourceCount {
    match c {
        ResourceCap::Soft(n) => ResourceCount::Count(n),
        ResourceCap::Hard(n) => ResourceCount::Count(n),
        ResourceCap::UnCapped => ResourceCount::UnCapped,
    }
}

impl ResourceCount {
    /// The number, or `None` when unlimited.
    pub fn count(&self) -> (r: Option<usize>)
        ensures
            r == (match *self { ResourceCount::Count(c) => Some(c), ResourceCount::UnCapped => None }),
    {
        match self {
            ResourceCount::Count(c) => Some(*c),
            ResourceCount::UnCapped => None,
        }
    }

    /// Sets the number of a count; an unlimited amount stays unlimited.
    pub fn set_count(&mut self, count: usize)
        ensures
            *final(self) == count_set(*old(self), count),
    {
        if let ResourceCount::Count(_) = *self {
            *self = ResourceCount::Count(count);
        }
    }

    /// Whether the amount is unlimited.
    pub fn is_uncapped(&self) -> (r: bool)
        ensures
            r == (*self is UnCapped),
    {
        match self {
            ResourceCount::UnCapped => true,
            _ => false,
        }
    }

    /// Whether the amount equals the number `n` (an unlimited amount never does).
    pub fn eq_num(&self, n: usize) -> (r: bool)
        ensures
            r == (*self == ResourceCount::Count(n)),
    {
        match self {
            ResourceCount::Count(c) => *c == n,
            ResourceCount::UnCapped => false,
        }
    }

    /// Whether the amount is at least `n` (an unlimited amount always is).
    pub fn ge_num(&self, n: usize) -> (r: bool)
        ensures
            r == count_at_least(*self, n as int),
    {
        match self {
            ResourceCount::Count(c) => *c >= n,
            ResourceCount::UnCapped => true,
        }
    }

    /// Whether the amount is greater than `n` (an unlimited amount always is).
    pub fn gt_num(&self, n: usize) -> (r: bool)
        ensures
            r == count_at_least(*self, n + 1),
    {
        match self {
            ResourceCount::Count(c) => *c > n,
            ResourceCount::UnCapped => true,
        }
    }

    /// Whether the amount is what a full resource of cap `cap` holds:
    /// a count equal to the cap's number, or unlimited for no cap.
    pub fn eq_cap(&self, cap: &ResourceCap) -> (r: bool)
        ensures
            r == (*self == count_of_cap(*cap)),
    {
        match self {
            ResourceCount::Count(c) => {
                match cap {
                    ResourceCap::Soft(n) => *c == *n,
                    ResourceCap::Hard(n) => *c == *n,
                    ResourceCap::UnCapped => false,
                }
            },
            ResourceCount::UnCapped => cap.is_uncapped(),
        }
    }

    /// Adds `rhs` to the amount in place; an unlimited amount stays unlimited.
    pub fn add_num(&mut self, rhs: usize)
        requires
            count_plus_fits(*old(self), rhs),
        ensures
            *final(self) == count_plus(*old(self), rhs),
    {
        if let ResourceCount::Count(c) = *self {
            *self = ResourceCount::Count(c + rhs);
        }
    }

    /// Subtracts `rhs` from the amount in place, stopping at zero.
    pub fn sub_num(&mut self, rhs: usize)
        ensures
            *final(self) == count_minus(*old(self), rhs),
    {
        if let ResourceCount::Count(c) = *self {
            if rhs >= c {
                *self = ResourceCount::Count(0);
            } else {
                *self = ResourceCount::Count(c - rhs);
            }
        }
    }
}

impl core::ops::Add<ResourceCount> for ResourceCount {
    type Output = ResourceCount;

    fn add(self, rhs: ResourceCount) -> (r: ResourceCount) {
        match self {
            ResourceCount::Count(l) => {
                match rhs {
                    ResourceCount::Count(r) => ResourceCount::Count(l + r),
                    ResourceCount::UnCapped => ResourceCount::UnCapped,
                }
            },
            ResourceCount::UnCapped => ResourceCount::UnCapped,
        }
    }
}

impl vstd::std_specs::ops::AddSpecImpl<ResourceCount> for ResourceCount {
    open spec fn obeys_add_spec() -> bool {
        true
    }

    open spec fn add_req(self, rhs: ResourceCount) -> bool {
        count_sum_fits(self, rhs)
    }

    open spec fn add_spec(self, rhs: ResourceCount) -> ResourceCount {
        count_sum(self, rhs)
    }
}

impl core::ops::Add<usize> for ResourceCount {
    type Output = ResourceCount;

    fn add(self, rhs: usize) -> (r: ResourceCount) {
        match self {
            ResourceCount::Count(c) => ResourceCount::Count(c + rhs),
            ResourceCount::UnCapped => ResourceCount::UnCapped,
        }
    }
}

impl vstd::std_specs::ops::AddSpecImpl<usize> for ResourceCount {
    open spec fn obeys_add_spec() -> bool {
        true
    }

    open spec fn add_req(self, rhs: usize) -> bool {
        count_plus_fits(self, rhs)
    }

    open spec fn add_spec(self, rhs: usize) -> ResourceCount {
        count_plus(self, rhs)
    }
}

impl core::ops::Sub<usize> for ResourceCount {
    type Output = ResourceCount;

    fn sub(self, rhs: usize) -> (r: ResourceCount) {
        match self {
            ResourceCount::Count(c) => {
                if rhs >= c {
                    ResourceCount::Count(0)
                } else {
                    ResourceCount::Count(c - rhs)
                }
            },
            ResourceCount::UnCapped => ResourceCount::UnCapped,
        }
    }
}

impl vstd::std_specs::ops::SubSpecImpl<usize> for ResourceCount {
    open spec fn obeys_sub_spec() -> bool {
        true
    }

    open spec fn sub_req(self, rhs: usize) -> bool {
        true
    }

    open spec fn sub_spec(self, rhs: usize) -> ResourceCount {
        count_minus(self, rhs)
    }
}

impl From<ResourceCap> for ResourceCount {
    fn from(value: ResourceCap) -> (r: ResourceCount) {
        match value {
            ResourceCap::Soft(c) => ResourceCount::Count(c),
            ResourceCap::Hard(c) => ResourceCount::Count(c),
            ResourceCap::UnCapped => ResourceCount::UnCapped,
        }
    }
}

impl vstd::std_specs::convert::FromSpecImpl<ResourceCap> for ResourceCount {
    open spec fn obeys_from_spec() -> bool {
        true
    }

    open spec fn from_spec(v: ResourceCap) -> ResourceCount {
        count_of_cap(v)
    }
}

/// Subtracting after adding the same number gives back a count (never less
/// than it was), and subtracting never makes a count grow.
pub proof fn lemma_count_add_sub(a: ResourceCount, n: usize)
    requires
        count_plus_fits(a, n),
    ensures
        count_minus(count_plus(a, n), n) == a,
        match (count_minus(a, n), a) {
            (ResourceCount::Count(y), ResourceCount::Count(x)) => y <= x,
            (ResourceCount::UnCapped, ResourceCount::UnCapped) => true,
            _ => false,
        },
{
}

/// Adding caps does not depend on their order.
pub proof fn lemma_cap_sum_commutative(a: ResourceCap, b: ResourceCap)
    ensures
        cap_sum(a, b) == cap_sum(b, a),
{
}

} // verus!
