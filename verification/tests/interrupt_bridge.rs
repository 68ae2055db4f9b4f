use psh::bridge::interrupt::{info, stat, InterruptInfo, InterruptStat, InterruptType};
use psh::error::{CollectError, CounterFile};
use psh::interrupt::{InterruptDetails, IrqDetails};

fn irq(number: u32) -> IrqDetails {
    IrqDetails {
        irq_number: number,
        smp_affinity: Some("ff".to_string()),
        smp_affinity_list: Some("0-7".to_string()),
        node: None,
    }
}

fn counts(kind: psh::interrupt::InterruptType, per_cpu: Vec<u64>) -> InterruptDetails {
    InterruptDetails { cpu_counts: per_cpu, interrupt_type: kind, description: "timer".to_string() }
}

#[test]
fn interrupt_type_goes_over_as_it_is() {
    let common = psh::interrupt::InterruptType::Common(17);
    let named = psh::interrupt::InterruptType::ArchSpecific("NMI".to_string());
    assert_eq!(InterruptType::from(&common), InterruptType::Common(17));
    assert_eq!(InterruptType::from(&named), InterruptType::ArchSpecific("NMI".to_string()));
    assert_eq!(InterruptType::from(common), InterruptType::Common(17));
    assert_eq!(InterruptType::from(named), InterruptType::ArchSpecific("NMI".to_string()));
}

#[test]
fn interrupt_info_has_each_fact_under_the_guest_name() {
    let host = IrqDetails {
        irq_number: 42,
        smp_affinity: Some("0f".to_string()),
        smp_affinity_list: None,
        node: Some("0".to_string()),
    };
    let expected = InterruptInfo {
        number: 42,
        smp_affinity: Some("0f".to_string()),
        smp_affinity_list: None,
        node: Some("0".to_string()),
    };
    assert_eq!(InterruptInfo::from(&host), expected);
    assert_eq!(InterruptInfo::from(host), expected);
}

#[test]
fn interrupt_stat_has_each_fact_under_the_guest_name() {
    let kind = psh::interrupt::InterruptType::ArchSpecific("LOC".to_string());
    let host = counts(kind, vec![1, 2, 3]);
    let expected = InterruptStat {
        interrupt_type: InterruptType::ArchSpecific("LOC".to_string()),
        description: "timer".to_string(),
        per_cpu_counts: vec![1, 2, 3],
    };
    assert_eq!(InterruptStat::from(&host), expected);
    assert_eq!(InterruptStat::from(host), expected);
}

#[test]
fn info_hands_over_each_line_in_order() {
    let reply = info(Ok(vec![irq(1), irq(9), irq(4)])).unwrap();
    let numbers: Vec<u32> = reply.iter().map(|i| i.number).collect();
    assert_eq!(numbers, vec![1, 9, 4]);
    assert_eq!(reply[1], InterruptInfo::from(irq(9)));
    assert_eq!(info(Ok(vec![])), Ok(vec![]));
}

#[test]
fn info_turns_a_failure_into_text() {
    assert_eq!(
        info(Err(CollectError::Unreadable("permission denied".to_string()))),
        Err("permission denied".to_string())
    );
    assert_eq!(
        info(Err(CollectError::Malformed(CounterFile::MemInfo))),
        Err("No key/value pair in memory info.".to_string())
    );
}

#[test]
fn stat_hands_over_each_interrupt_in_order() {
    let first = counts(psh::interrupt::InterruptType::Common(0), vec![10, 20]);
    let second = counts(psh::interrupt::InterruptType::ArchSpecific("NMI".to_string()), vec![]);
    let reply = stat(Ok(vec![first.clone(), second.clone()])).unwrap();
    assert_eq!(reply, vec![InterruptStat::from(first), InterruptStat::from(second)]);
    assert_eq!(reply[0].per_cpu_counts, vec![10, 20]);
}

#[test]
fn stat_turns_a_failure_into_text() {
    assert_eq!(stat(Err(CollectError::Unreadable("gone".to_string()))), Err("gone".to_string()));
}
