//! Reading the kernel's interrupt counter file.
//!
//! The first line names the CPUs, one word each. Every later line is about
//! one interrupt: its number or its name, a colon, the counts of the CPUs,
//! and a description.
//!
//! ```text
//!            CPU0       CPU1
//!   0:         36          0   IO-APIC   2-edge      timer
//! NMI:          0          0   Non-maskable interrupts
//! ERR:          0
//! ```

use crate::error::{CollectError, CounterFile};
use crate::interrupt::{InterruptCounts, InterruptDetails, InterruptKind, InterruptType};
use crate::text::{
    chars_of, next_word, parse_u64, spec_lines, spec_next_word, spec_parse_u64, spec_split_once,
    spec_trim, spec_word_count, split_line, split_once, string_of, trim, word_count,
};
use vstd::prelude::*;

verus! {

/// The interrupt that a key names: a numbered line where the key is a
/// number of 32 bits, and else the interrupt that the architecture calls so.
pub open spec fn spec_kind(key: Seq<char>) -> InterruptKind {
    match spec_parse_u64(key) {
        Some(n) => if n <= u32::MAX {
            InterruptKind::Common(n as u32)
        } else {
            InterruptKind::ArchSpecific(key)
        },
        None => InterruptKind::ArchSpecific(key),
    }
}

/// The counts that `text` starts with, and what follows them: the leading
/// words that are numbers, as far as there are CPUs to count for.
pub open spec fn spec_counts(text: Seq<char>, cpus: nat) -> (Seq<u64>, Seq<char>)
    decreases cpus,
{
    if cpus == 0 {
        (Seq::empty(), text)
    } else {
        match spec_next_word(text) {
            Some((word, rest)) => match spec_parse_u64(word) {
                Some(n) => (
                    seq![n] + spec_counts(rest, (cpus - 1) as nat).0,
                    spec_counts(rest, (cpus - 1) as nat).1,
                ),
                None => (Seq::empty(), text),
            },
            None => (Seq::empty(), text),
        }
    }
}

/// What a line tells of its interrupt, in a file of `cpus` CPUs. A line
/// without a colon tells nothing.
pub open spec fn spec_interrupt_line(line: Seq<char>, cpus: nat) -> Option<InterruptCounts> {
    match spec_split_once(spec_trim(line), ':') {
        Some((key, value)) => Some(
            InterruptCounts {
                kind: spec_kind(spec_trim(key)),
                description: spec_trim(spec_counts(value, cpus).1),
                per_cpu: spec_counts(value, cpus).0,
            },
        ),
        None => None,
    }
}

/// What the lines tell, in order; nothing where one of them has no colon.
pub open spec fn spec_interrupt_lines(lines: Seq<Seq<char>>, cpus: nat) -> Option<
    Seq<InterruptCounts>,
>
    decreases lines.len(),
{
    if lines.len() == 0 {
        Some(Seq::empty())
    } else {
        match (
            spec_interrupt_line(lines[0], cpus),
            spec_interrupt_lines(lines.drop_first(), cpus),
        ) {
            (Some(first), Some(rest)) => Some(seq![first] + rest),
            _ => None,
        }
    }
}

/// What an interrupt counter file tells: of each line after the first, the
/// interrupt and its counts, for as many CPUs as the first line names.
pub open spec fn spec_parse_interrupts(content: Seq<char>) -> Option<Seq<InterruptCounts>> {
    let lines = spec_lines(content);
    if lines.len() == 0 {
        Some(Seq::empty())
    } else {
        spec_interrupt_lines(lines.drop_first(), spec_word_count(lines[0]))
    }
}

/// Lines tell of their interrupts exactly when each of them has a colon.
pub proof fn lemma_interrupt_lines_fail(lines: Seq<Seq<char>>, cpus: nat)
    ensures
        spec_interrupt_lines(lines, cpus) is None <==> exists|i: int|
            0 <= i < lines.len() && spec_interrupt_line(#[trigger] lines[i], cpus) is None,
        spec_interrupt_lines(lines, cpus) matches Some(list) ==> list.len() == lines.len(),
    decreases lines.len(),
{
    if lines.len() > 0 {
        let rest = lines.drop_first();
        lemma_interrupt_lines_fail(rest, cpus);
        if spec_interrupt_line(lines[0], cpus) is Some && spec_interrupt_lines(rest, cpus) is Some {
            assert forall|i: int| 0 <= i < lines.len() implies spec_interrupt_line(
                #[trigger] lines[i],
                cpus,
            ) is Some by {
                if i > 0 {
                    assert(lines[i] == rest[i - 1]);
                }
            }
        }
    }
}

/// A file tells of its interrupts exactly when each line after the first
/// has a colon.
pub proof fn lemma_file_fails(content: Seq<char>)
    ensures
        spec_parse_interrupts(content) is None <==> exists|i: int|
            1 <= i < spec_lines(content).len() && spec_split_once(
                spec_trim(#[trigger] spec_lines(content)[i]),
                ':',
            ) is None,
{
    let all = spec_lines(content);
    if all.len() > 0 {
        let lines = all.drop_first();
        let cpus = spec_word_count(all[0]);
        lemma_interrupt_lines_fail(lines, cpus);
        if exists|i: int|
            1 <= i < all.len() && spec_split_once(spec_trim(#[trigger] all[i]), ':') is None {
            let i = choose|i: int|
                1 <= i < all.len() && spec_split_once(spec_trim(#[trigger] all[i]), ':') is None;
            assert(spec_interrupt_line(lines[i - 1], cpus) is None);
        }
    }
}

/// The interrupt that a key names.
fn kind_of(key: &[char]) -> (r: InterruptType)
    ensures
        r@ == spec_kind(key@),
{
    match parse_u64(key) {
        Some(n) => {
            if n <= 0xffff_ffff {
                InterruptType::Common(n as u32)
            } else {
                InterruptType::ArchSpecific(string_of(key))
            }
        },
        None => InterruptType::ArchSpecific(string_of(key)),
    }
}

/// The counts that `text` starts with, and what follows them.
fn read_counts<'a>(text: &'a [char], cpus: usize) -> (r: (Vec<u64>, &'a [char]))
    ensures
        r.0@ == spec_counts(text@, cpus as nat).0,
        r.1@ == spec_counts(text@, cpus as nat).1,
        r.0@.len() <= cpus,
{
    let mut counts: Vec<u64> = Vec::new();
    let mut rest = text;
    let mut left = cpus;
    while left > 0
        invariant
            counts@.len() + left == cpus,
            spec_counts(text@, cpus as nat).0 == counts@ + spec_counts(rest@, left as nat).0,
            spec_counts(text@, cpus as nat).1 == spec_counts(rest@, left as nat).1,
        decreases left,
    {
        let n = match next_word(rest) {
            Some((word, after)) => match parse_u64(word) {
                Some(n) => {
                    rest = after;
                    n
                },
                None => {
                    return (counts, rest);
                },
            },
            None => {
                return (counts, rest);
            },
        };
        counts.push(n);
        left -= 1;
    }
    (counts, rest)
}

/// What a line tells of its interrupt, in a file of `cpus` CPUs.
fn read_line(line: &[char], cpus: usize) -> (r: Option<InterruptDetails>)
    ensures
        match r {
            Some(details) => spec_interrupt_line(line@, cpus as nat) == Some(details@)
                && details.cpu_counts@.len() <= cpus,
            None => spec_interrupt_line(line@, cpus as nat) is None,
        },
{
    match split_once(trim(line), ':') {
        Some((key, value)) => {
            let (cpu_counts, after) = read_counts(value, cpus);
            Some(
                InterruptDetails {
                    cpu_counts,
                    interrupt_type: kind_of(trim(key)),
                    description: string_of(trim(after)),
                },
            )
        },
        None => None,
    }
}

/// Reads a whole interrupt counter file: what each line after the first
/// tells of its interrupt, in the file's order. One line without a colon
/// fails the whole file.
pub fn parse_interrupts(content: &str) -> (r: Result<Vec<InterruptDetails>, CollectError>)
    ensures
        match spec_parse_interrupts(content@) {
            Some(list) => r matches Ok(found) && found.deep_view() == list,
            None => r == Err::<Vec<InterruptDetails>, CollectError>(
                CollectError::Malformed(CounterFile::Interrupts),
            ),
        },
        r is Err <==> exists|i: int|
            1 <= i < spec_lines(content@).len() && spec_split_once(
                spec_trim(#[trigger] spec_lines(content@)[i]),
                ':',
            ) is None,
        r matches Ok(found) ==> forall|i: int|
            0 <= i < found@.len() ==> (#[trigger] found@[i]).cpu_counts@.len() <= spec_word_count(
                spec_lines(content@)[0],
            ),
{
    let chars = chars_of(content);
    let all = chars.as_slice();
    let mut found: Vec<InterruptDetails> = Vec::new();
    let (header, body) = match split_line(all) {
        Some(pair) => pair,
        None => {
            return Ok(found);
        },
    };
    let cpus = word_count(header);
    let ghost lines = spec_lines(all@).drop_first();
    assert(lines == spec_lines(body@));
    let mut rest = body;
    loop
        invariant
            forall|i: int|
                0 <= i < found@.len() ==> (#[trigger] found@[i]).cpu_counts@.len() <= cpus,
            cpus == spec_word_count(spec_lines(content@)[0]),
            spec_parse_interrupts(content@) == spec_interrupt_lines(lines, cpus as nat),
            spec_interrupt_lines(lines, cpus as nat) == match spec_interrupt_lines(
                spec_lines(rest@),
                cpus as nat,
            ) {
                Some(later) => Some(found.deep_view() + later),
                None => None,
            },
        decreases rest@.len(),
    {
        proof {
            lemma_file_fails(content@);
        }
        let (line, after) = match split_line(rest) {
            Some(pair) => pair,
            None => {
                return Ok(found);
            },
        };
        proof {
            let here = spec_lines(rest@);
            assert(here.drop_first() == spec_lines(after@));
        }
        match read_line(line, cpus) {
            Some(details) => {
                proof {
                    match spec_interrupt_lines(spec_lines(after@), cpus as nat) {
                        Some(later) => {
                            assert(found.deep_view() + (seq![details@] + later)
                                == found.deep_view().push(details@) + later);
                        },
                        None => {},
                    }
                }
                found.push(details);
            },
            None => {
                return Err(CollectError::Malformed(CounterFile::Interrupts));
            },
        }
        rest = after;
    }
}

} // verus!
