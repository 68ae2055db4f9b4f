//! Interrupt telemetry as the host's provider collects it, and the values of
//! mathematics that it stands for.

use vstd::prelude::*;

pub mod counts;

verus! {

/// Which interrupt a line of counts is about.
pub enum InterruptKind {
    /// A numbered interrupt line.
    Common(u32),
    /// An interrupt that the architecture names.
    ArchSpecific(Seq<char>),
}

/// How one interrupt line is routed.
pub struct IrqRouting {
    pub number: u32,
    pub smp_affinity: Option<Seq<char>>,
    pub smp_affinity_list: Option<Seq<char>>,
    pub node: Option<Seq<char>>,
}

/// How often one interrupt fired, on each CPU.
pub struct InterruptCounts {
    pub kind: InterruptKind,
    pub description: Seq<char>,
    pub per_cpu: Seq<u64>,
}

/// Which interrupt a line of counts is about.
#[derive(Clone, Debug, PartialEq, Eq)]
pub enum InterruptType {
    /// A numbered interrupt line.
    Common(u32),
    /// An interrupt that the architecture names (`NMI`, `LOC`, ...).
    ArchSpecific(String),
}

/// How one interrupt line is routed. A fact that the kernel does not expose
/// for the line is `None`.
#[derive(Clone, Debug, PartialEq, Eq)]
pub struct IrqDetails {
    pub irq_number: u32,
    pub smp_affinity: Option<String>,
    pub smp_affinity_list: Option<String>,
    pub node: Option<String>,
}

/// How often one interrupt fired, on each CPU.
#[derive(Clone, Debug, PartialEq, Eq)]
pub struct InterruptDetails {
    pub cpu_counts: Vec<u64>,
    pub interrupt_type: InterruptType,
    pub description: String,
}

impl View for InterruptType {
    type V = InterruptKind;

    open spec fn view(&self) -> InterruptKind {
        match self {
            InterruptType::Common(irq) => InterruptKind::Common(*irq),
            InterruptType::ArchSpecific(name) => InterruptKind::ArchSpecific(name@),
        }
    }
}

impl View for IrqDetails {
    type V = IrqRouting;

    open spec fn view(&self) -> IrqRouting {
        IrqRouting {
            number: self.irq_number,
            smp_affinity: self.smp_affinity.deep_view(),
            smp_affinity_list: self.smp_affinity_list.deep_view(),
            node: self.node.deep_view(),
        }
    }
}

impl DeepView for IrqDetails {
    type V = IrqRouting;

    open spec fn deep_view(&self) -> IrqRouting {
        self@
    }
}

impl View for InterruptDetails {
    type V = InterruptCounts;

    open spec fn view(&self) -> InterruptCounts {
        InterruptCounts {
            kind: self.interrupt_type@,
            description: self.description@,
            per_cpu: self.cpu_counts@,
        }
    }
}

impl DeepView for InterruptDetails {
    type V = InterruptCounts;

    open spec fn deep_view(&self) -> InterruptCounts {
        self@
    }
}

// ---------------------------------------------------------------------------
// The increase between two samples
// ---------------------------------------------------------------------------

/// How much each CPU's count grew from `before` to `after`. A count that
/// fell, as after a reset of the counter, grew by nothing; a CPU that the
/// earlier sample does not know is counted from zero.
pub open spec fn increase_per_cpu(before: Seq<u64>, after: Seq<u64>) -> Seq<u64> {
    Seq::new(
        after.len(),
        |i: int|
            if i < before.len() {
                if after[i] >= before[i] {
                    (after[i] - before[i]) as u64
                } else {
                    0
                }
            } else {
                after[i]
            },
    )
}

/// The counts that `sample` holds for the interrupt `kind`: those of the
/// first record of that kind, and none where there is no such record.
pub open spec fn counts_of(sample: Seq<InterruptCounts>, kind: InterruptKind) -> Seq<u64>
    decreases sample.len(),
{
    if sample.len() == 0 {
        Seq::empty()
    } else if sample[0].kind == kind {
        sample[0].per_cpu
    } else {
        counts_of(sample.drop_first(), kind)
    }
}

/// What happened between two samples: the records of the later sample, in
/// its order, each with the increase of its counts over the earlier sample.
pub open spec fn spec_count_increase(
    before: Seq<InterruptCounts>,
    after: Seq<InterruptCounts>,
) -> Seq<InterruptCounts> {
    Seq::new(
        after.len(),
        |i: int|
            InterruptCounts {
                kind: after[i].kind,
                description: after[i].description,
                per_cpu: increase_per_cpu(counts_of(before, after[i].kind), after[i].per_cpu),
            },
    )
}

impl InterruptType {
    /// Whether the two are the same interrupt.
    pub fn same_as(&self, other: &InterruptType) -> (r: bool)
        ensures
            r == (self@ == other@),
    {
        match (self, other) {
            (InterruptType::Common(a), InterruptType::Common(b)) => *a == *b,
            (InterruptType::ArchSpecific(a), InterruptType::ArchSpecific(b)) => *a == *b,
            _ => false,
        }
    }
}

/// The record of `sample` that is about the interrupt `kind`, if there is
/// one.
fn find_counts<'a>(sample: &'a Vec<InterruptDetails>, kind: &InterruptType) -> (r: Option<
    &'a Vec<u64>,
>)
    ensures
        match r {
            Some(counts) => counts@ == counts_of(sample.deep_view(), kind@),
            None => counts_of(sample.deep_view(), kind@) == Seq::<u64>::empty(),
        },
{
    let ghost all = sample.deep_view();
    let n = sample.len();
    let mut i: usize = 0;
    assert(all.skip(0) == all);
    while i < n
        invariant
            i <= n,
            n == sample@.len(),
            all == sample.deep_view(),
            counts_of(all, kind@) == counts_of(all.skip(i as int), kind@),
        decreases n - i,
    {
        let ghost rest = all.skip(i as int);
        assert(rest.drop_first() == all.skip(i + 1));
        if sample[i].interrupt_type.same_as(kind) {
            return Some(&sample[i].cpu_counts);
        }
        i += 1;
    }
    None
}

/// How much each CPU's count grew from `before` to `after`.
fn increase(before: &Vec<u64>, after: &Vec<u64>) -> (r: Vec<u64>)
    ensures
        r@ == increase_per_cpu(before@, after@),
{
    let mut out: Vec<u64> = Vec::new();
    let n = after.len();
    let mut i: usize = 0;
    while i < n
        invariant
            i <= n,
            n == after@.len(),
            out@.len() == i,
            forall|j: int| 0 <= j < i ==> out@[j] == increase_per_cpu(before@, after@)[j],
        decreases n - i,
    {
        let grown = if i < before.len() {
            if after[i] >= before[i] {
                after[i] - before[i]
            } else {
                0
            }
        } else {
            after[i]
        };
        out.push(grown);
        i += 1;
    }
    out
}

/// What happened between two samples of the interrupt counts: for each
/// interrupt of the later sample, how much each CPU's count grew since the
/// earlier one. An interrupt that the earlier sample does not know is
/// counted from zero.
pub fn count_increase(before: &Vec<InterruptDetails>, after: &Vec<InterruptDetails>) -> (r: Vec<
    InterruptDetails,
>)
    ensures
        r.deep_view() == spec_count_increase(before.deep_view(), after.deep_view()),
{
    let ghost expected = spec_count_increase(before.deep_view(), after.deep_view());
    let mut out: Vec<InterruptDetails> = Vec::new();
    let n = after.len();
    let mut i: usize = 0;
    while i < n
        invariant
            i <= n,
            n == after@.len(),
            out@.len() == i,
            expected == spec_count_increase(before.deep_view(), after.deep_view()),
            forall|j: int| 0 <= j < i ==> (#[trigger] out@[j])@ == expected[j],
        decreases n - i,
    {
        let later = &after[i];
        let cpu_counts = match find_counts(before, &later.interrupt_type) {
            Some(earlier) => increase(earlier, &later.cpu_counts),
            None => {
                let none: Vec<u64> = Vec::new();
                increase(&none, &later.cpu_counts)
            },
        };
        let interrupt_type = match &later.interrupt_type {
            InterruptType::Common(irq) => InterruptType::Common(*irq),
            InterruptType::ArchSpecific(name) => InterruptType::ArchSpecific(name.clone()),
        };
        let description = later.description.clone();
        out.push(InterruptDetails { cpu_counts, interrupt_type, description });
        i += 1;
    }
    out
}

} // verus!
