use psh::error::{CollectError, CounterFile};
use psh::interrupt::counts::parse_interrupts;
use psh::interrupt::{count_increase, InterruptDetails, InterruptType};

fn counts(kind: InterruptType, description: &str, per_cpu: Vec<u64>) -> InterruptDetails {
    InterruptDetails {
        cpu_counts: per_cpu,
        interrupt_type: kind,
        description: description.to_string(),
    }
}

fn named(name: &str) -> InterruptType {
    InterruptType::ArchSpecific(name.to_string())
}

#[test]
fn same_interrupt_is_one_of_the_same_kind_and_name() {
    assert!(InterruptType::Common(3).same_as(&InterruptType::Common(3)));
    assert!(!InterruptType::Common(3).same_as(&InterruptType::Common(4)));
    assert!(named("NMI").same_as(&named("NMI")));
    assert!(!named("NMI").same_as(&named("LOC")));
    assert!(!named("3").same_as(&InterruptType::Common(3)));
    assert!(!InterruptType::Common(3).same_as(&named("3")));
}

#[test]
fn increase_is_the_growth_of_each_count() {
    let before = vec![
        counts(InterruptType::Common(0), "timer", vec![100, 200]),
        counts(named("LOC"), "local timer", vec![7, 7]),
    ];
    let after = vec![
        counts(named("LOC"), "local timer", vec![10, 7]),
        counts(InterruptType::Common(0), "timer", vec![150, 260]),
    ];
    assert_eq!(
        count_increase(&before, &after),
        vec![
            counts(named("LOC"), "local timer", vec![3, 0]),
            counts(InterruptType::Common(0), "timer", vec![50, 60]),
        ]
    );
}

#[test]
fn increase_of_an_interrupt_that_is_new_counts_from_zero() {
    let before = vec![counts(InterruptType::Common(1), "kbd", vec![5])];
    let after = vec![
        counts(InterruptType::Common(1), "kbd", vec![6]),
        counts(InterruptType::Common(9), "acpi", vec![4, 2]),
    ];
    assert_eq!(
        count_increase(&before, &after),
        vec![
            counts(InterruptType::Common(1), "kbd", vec![1]),
            counts(InterruptType::Common(9), "acpi", vec![4, 2]),
        ]
    );
}

#[test]
fn increase_of_a_count_that_fell_is_nothing() {
    let before = vec![counts(named("NMI"), "", vec![50, u64::MAX])];
    let after = vec![counts(named("NMI"), "", vec![49, 0])];
    assert_eq!(count_increase(&before, &after), vec![counts(named("NMI"), "", vec![0, 0])]);
}

#[test]
fn increase_on_a_cpu_that_is_new_counts_from_zero() {
    let before = vec![counts(InterruptType::Common(2), "x", vec![1])];
    let after = vec![counts(InterruptType::Common(2), "x", vec![4, 9, 0])];
    assert_eq!(
        count_increase(&before, &after),
        vec![counts(InterruptType::Common(2), "x", vec![3, 9, 0])]
    );
    let before = vec![counts(InterruptType::Common(2), "x", vec![1, 1, 1])];
    let after = vec![counts(InterruptType::Common(2), "x", vec![4])];
    assert_eq!(
        count_increase(&before, &after),
        vec![counts(InterruptType::Common(2), "x", vec![3])]
    );
}

#[test]
fn increase_goes_by_the_first_record_of_an_interrupt() {
    let before = vec![
        counts(InterruptType::Common(2), "first", vec![10]),
        counts(InterruptType::Common(2), "second", vec![90]),
    ];
    let after = vec![counts(InterruptType::Common(2), "now", vec![100])];
    assert_eq!(
        count_increase(&before, &after),
        vec![counts(InterruptType::Common(2), "now", vec![90])]
    );
}

#[test]
fn increase_over_nothing_is_the_later_sample() {
    let after = vec![counts(named("RES"), "rescheduling", vec![1, 2, 3])];
    assert_eq!(count_increase(&Vec::new(), &after), after);
    assert_eq!(count_increase(&after, &Vec::new()), Vec::new());
}

const INTERRUPTS: &str = "\
           CPU0       CPU1       CPU2       CPU3
  0:         36          0          0          0   IO-APIC   2-edge      timer
  8:          0          0          1          0   IO-APIC   8-edge      rtc0
 24:       1024      65536 4294967296          7   PCI-MSI 524288-edge      nvme0q0
NMI:          0          0          0          0   Non-maskable interrupts
LOC:     123456     654321     111111     222222   Local timer interrupts
ERR:          0
MIS:          0
";

fn told(kind: InterruptType, per_cpu: Vec<u64>, description: &str) -> InterruptDetails {
    counts(kind, description, per_cpu)
}

#[test]
fn interrupt_file_tells_of_each_interrupt_in_order() {
    let found = parse_interrupts(INTERRUPTS).unwrap();
    assert_eq!(
        found,
        vec![
            told(InterruptType::Common(0), vec![36, 0, 0, 0], "IO-APIC   2-edge      timer"),
            told(InterruptType::Common(8), vec![0, 0, 1, 0], "IO-APIC   8-edge      rtc0"),
            told(
                InterruptType::Common(24),
                vec![1024, 65536, 4294967296, 7],
                "PCI-MSI 524288-edge      nvme0q0"
            ),
            told(named("NMI"), vec![0, 0, 0, 0], "Non-maskable interrupts"),
            told(named("LOC"), vec![123456, 654321, 111111, 222222], "Local timer interrupts"),
            told(named("ERR"), vec![0], ""),
            told(named("MIS"), vec![0], ""),
        ]
    );
}

#[test]
fn interrupt_line_without_a_colon_fails_the_whole_file() {
    let content = " CPU0\n  0: 5 timer\n  1  7 kbd\n  2: 9 x\n";
    assert_eq!(
        parse_interrupts(content),
        Err(CollectError::Malformed(CounterFile::Interrupts))
    );
    assert_eq!(
        parse_interrupts(" CPU0\n\n"),
        Err(CollectError::Malformed(CounterFile::Interrupts))
    );
    assert_eq!(
        CollectError::Malformed(CounterFile::Interrupts).message(),
        "No key/value pair in interrupt counts."
    );
}

#[test]
fn interrupt_file_without_lines_tells_of_nothing() {
    assert_eq!(parse_interrupts(""), Ok(Vec::new()));
    assert_eq!(parse_interrupts("  CPU0  CPU1\n"), Ok(Vec::new()));
    assert_eq!(parse_interrupts("no header: 1 2"), Ok(Vec::new()));
}

#[test]
fn counts_are_the_leading_numbers_as_far_as_there_are_cpus() {
    let found = parse_interrupts(
        "CPU0 CPU1\n 7: 1 2 3 rest\n 8: 4 edge 5\n 9:\nX : 6\n4294967296: 1 1\n+5: 0 0 plus\n",
    )
    .unwrap();
    assert_eq!(
        found,
        vec![
            told(InterruptType::Common(7), vec![1, 2], "3 rest"),
            told(InterruptType::Common(8), vec![4], "edge 5"),
            told(InterruptType::Common(9), vec![], ""),
            told(named("X"), vec![6], ""),
            told(named("4294967296"), vec![1, 1], ""),
            told(InterruptType::Common(5), vec![0, 0], "plus"),
        ]
    );
}

#[test]
fn file_for_no_cpu_has_descriptions_only() {
    let found = parse_interrupts("\n 1: 2 3 timer\n").unwrap();
    assert_eq!(found, vec![told(InterruptType::Common(1), vec![], "2 3 timer")]);
}
