//! Interrupt telemetry as a guest sees it.
//!
//! A guest's record holds the facts of the host's record, each under the
//! guest's name for it: the two stand for the same value.

use crate::error::CollectError;
use crate::interrupt::{InterruptCounts, InterruptDetails, InterruptKind, IrqDetails, IrqRouting};
use vstd::prelude::*;

verus! {

/// Which interrupt a line of counts is about.
#[derive(Clone, Debug, PartialEq, Eq)]
pub enum InterruptType {
    Common(u32),
    ArchSpecific(String),
}

/// How one interrupt line is routed.
#[derive(Clone, Debug, PartialEq, Eq)]
pub struct InterruptInfo {
    pub number: u32,
    pub smp_affinity: Option<String>,
    pub smp_affinity_list: Option<String>,
    pub node: Option<String>,
}

/// How often one interrupt fired, on each CPU.
#[derive(Clone, Debug, PartialEq, Eq)]
pub struct InterruptStat {
    pub interrupt_type: InterruptType,
    pub description: String,
    pub per_cpu_counts: Vec<u64>,
}

impl View for InterruptType {
    type V = InterruptKind;

    open spec fn view(&self) -> InterruptKind {
        match self {
            InterruptType::Common(irq) => InterruptKind::Common(*irq),
            InterruptType::ArchSpecific(name) => InterruptKind::ArchSpecific(name@),
        }
    }
}

impl View for InterruptInfo {
    type V = IrqRouting;

    open spec fn view(&self) -> IrqRouting {
        IrqRouting {
            number: self.number,
            smp_affinity: self.smp_affinity.deep_view(),
            smp_affinity_list: self.smp_affinity_list.deep_view(),
            node: self.node.deep_view(),
        }
    }
}

impl DeepView for InterruptInfo {
    type V = IrqRouting;

    open spec fn deep_view(&self) -> IrqRouting {
        self@
    }
}

impl View for InterruptStat {
    type V = InterruptCounts;

    open spec fn view(&self) -> InterruptCounts {
        InterruptCounts {
            kind: self.interrupt_type@,
            description: self.description@,
            per_cpu: self.per_cpu_counts@,
        }
    }
}

impl DeepView for InterruptStat {
    type V = InterruptCounts;

    open spec fn deep_view(&self) -> InterruptCounts {
        self@
    }
}

/// The guest's record of an interrupt's kind.
pub open spec fn guest_type(value: crate::interrupt::InterruptType) -> InterruptType {
    match value {
        crate::interrupt::InterruptType::Common(irq) => InterruptType::Common(irq),
        crate::interrupt::InterruptType::ArchSpecific(irq) => InterruptType::ArchSpecific(irq),
    }
}

/// The guest's record of an interrupt line's routing.
pub open spec fn guest_info(value: IrqDetails) -> InterruptInfo {
    InterruptInfo {
        number: value.irq_number,
        smp_affinity: value.smp_affinity,
        smp_affinity_list: value.smp_affinity_list,
        node: value.node,
    }
}

/// The guest's record of an interrupt's counts.
pub open spec fn guest_stat(value: InterruptDetails) -> InterruptStat {
    InterruptStat {
        interrupt_type: guest_type(value.interrupt_type),
        description: value.description,
        per_cpu_counts: value.cpu_counts,
    }
}

impl From<&crate::interrupt::InterruptType> for InterruptType {
    fn from(value: &crate::interrupt::InterruptType) -> (r: InterruptType)
        ensures
            r@ == value@,
    {
        match value {
            crate::interrupt::InterruptType::Common(irq) => InterruptType::Common(*irq),
            crate::interrupt::InterruptType::ArchSpecific(irq) => InterruptType::ArchSpecific(
                irq.clone(),
            ),
        }
    }
}

impl vstd::std_specs::convert::FromSpecImpl<&crate::interrupt::InterruptType> for InterruptType {
    open spec fn obeys_from_spec() -> bool {
        true
    }

    open spec fn from_spec(value: &crate::interrupt::InterruptType) -> InterruptType {
        guest_type(*value)
    }
}

impl From<crate::interrupt::InterruptType> for InterruptType {
    fn from(value: crate::interrupt::InterruptType) -> (r: InterruptType)
        ensures
            r@ == value@,
    {
        match value {
            crate::interrupt::InterruptType::Common(irq) => InterruptType::Common(irq),
            crate::interrupt::InterruptType::ArchSpecific(irq) => InterruptType::ArchSpecific(irq),
        }
    }
}

impl vstd::std_specs::convert::FromSpecImpl<crate::interrupt::InterruptType> for InterruptType {
    open spec fn obeys_from_spec() -> bool {
        true
    }

    open spec fn from_spec(value: crate::interrupt::InterruptType) -> InterruptType {
        guest_type(value)
    }
}

impl From<&IrqDetails> for InterruptInfo {
    fn from(value: &IrqDetails) -> (r: InterruptInfo)
        ensures
            r@ == value@,
    {
        InterruptInfo {
            number: value.irq_number,
            smp_affinity: value.smp_affinity.clone(),
            smp_affinity_list: value.smp_affinity_list.clone(),
            node: value.node.clone(),
        }
    }
}

impl vstd::std_specs::convert::FromSpecImpl<&IrqDetails> for InterruptInfo {
    open spec fn obeys_from_spec() -> bool {
        true
    }

    open spec fn from_spec(value: &IrqDetails) -> InterruptInfo {
        guest_info(*value)
    }
}

impl From<IrqDetails> for InterruptInfo {
    fn from(value: IrqDetails) -> (r: InterruptInfo)
        ensures
            r@ == value@,
    {
        InterruptInfo {
            number: value.irq_number,
            smp_affinity: value.smp_affinity,
            smp_affinity_list: value.smp_affinity_list,
            node: value.node,
        }
    }
}

impl vstd::std_specs::convert::FromSpecImpl<IrqDetails> for InterruptInfo {
    open spec fn obeys_from_spec() -> bool {
        true
    }

    open spec fn from_spec(value: IrqDetails) -> InterruptInfo {
        guest_info(value)
    }
}

impl From<&InterruptDetails> for InterruptStat {
    fn from(value: &InterruptDetails) -> (r: InterruptStat)
        ensures
            r@ == value@,
            r.interrupt_type == guest_type(value.interrupt_type),
            r.description == value.description,
    {
        InterruptStat {
            interrupt_type: InterruptType::from(&value.interrupt_type),
            description: value.description.clone(),
            per_cpu_counts: value.cpu_counts.clone(),
        }
    }
}

/// The counts are a copy of the host's vector: equal in what it holds, and
/// another vector. So the copy is stated by its view, and not as
/// `guest_stat` of the host's record.
impl vstd::std_specs::convert::FromSpecImpl<&InterruptDetails> for InterruptStat {
    open spec fn obeys_from_spec() -> bool {
        false
    }

    open spec fn from_spec(value: &InterruptDetails) -> InterruptStat {
        guest_stat(*value)
    }
}

impl From<InterruptDetails> for InterruptStat {
    fn from(value: InterruptDetails) -> (r: InterruptStat)
        ensures
            r@ == value@,
    {
        InterruptStat {
            interrupt_type: InterruptType::from(value.interrupt_type),
            description: value.description,
            per_cpu_counts: value.cpu_counts,
        }
    }
}

impl vstd::std_specs::convert::FromSpecImpl<InterruptDetails> for InterruptStat {
    open spec fn obeys_from_spec() -> bool {
        true
    }

    open spec fn from_spec(value: InterruptDetails) -> InterruptStat {
        guest_stat(value)
    }
}

/// What a guest is told for a call of `info`: the routing of each interrupt
/// line in the host's order, or the host's failure in words.
pub fn info(collected: Result<Vec<IrqDetails>, CollectError>) -> (r: Result<
    Vec<InterruptInfo>,
    String,
>)
    ensures
        match collected {
            Ok(list) => r matches Ok(out) && out.deep_view() == list.deep_view(),
            Err(e) => r matches Err(text) && text@ == e.spec_message(),
        },
{
    match collected {
        Ok(list) => {
            let mut out: Vec<InterruptInfo> = Vec::new();
            let n = list.len();
            let mut i: usize = 0;
            while i < n
                invariant
                    i <= n,
                    n == list@.len(),
                    out@.len() == i,
                    forall|j: int| 0 <= j < i ==> (#[trigger] out@[j])@ == list@[j]@,
                decreases n - i,
            {
                out.push(InterruptInfo::from(&list[i]));
                i += 1;
            }
            Ok(out)
        },
        Err(e) => Err(e.message()),
    }
}

/// What a guest is told for a call of `stat`: the counts of each interrupt
/// in the host's order, or the host's failure in words.
pub fn stat(collected: Result<Vec<InterruptDetails>, CollectError>) -> (r: Result<
    Vec<InterruptStat>,
    String,
>)
    ensures
        match collected {
            Ok(list) => r matches Ok(out) && out.deep_view() == list.deep_view(),
            Err(e) => r matches Err(text) && text@ == e.spec_message(),
        },
{
    match collected {
        Ok(list) => {
            let mut out: Vec<InterruptStat> = Vec::new();
            let n = list.len();
            let mut i: usize = 0;
            while i < n
                invariant
                    i <= n,
                    n == list@.len(),
                    out@.len() == i,
                    forall|j: int| 0 <= j < i ==> (#[trigger] out@[j])@ == list@[j]@,
                decreases n - i,
            {
                out.push(InterruptStat::from(&list[i]));
                i += 1;
            }
            Ok(out)
        },
        Err(e) => Err(e.message()),
    }
}

} // verus!
