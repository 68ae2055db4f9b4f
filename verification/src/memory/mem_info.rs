//! Reading the kernel's memory counter file.
//!
//! The file is a list of lines, each a key, a colon, and a value: a number,
//! and for most counters its unit, as in `MemTotal:       16215456 kB` and
//! in `HugePages_Total:       0`. A line is trimmed of white space first,
//! so a carriage return before the line feed does no harm.

use crate::error::{CollectError, CounterFile};
use crate::memory::{lemma_with_get, MemInfo, MemKey};
use crate::text::{
    chars_of, next_word, parse_u64, spec_lines, spec_next_word, spec_parse_u64, spec_split_once,
    spec_trim, split_line, split_once, trim,
};
use vstd::prelude::*;

verus! {

/// The key and the value of a line: what stands before the first colon of
/// the trimmed line, and what stands after it. A line without a colon has
/// neither.
pub open spec fn spec_key_value(line: Seq<char>) -> Option<(Seq<char>, Seq<char>)> {
    spec_split_once(spec_trim(line), ':')
}

/// The number that a value writes: its first word, read as a decimal
/// number of 64 bits, whether a unit follows it or not. A value without a
/// word, or whose first word is no such number, writes none.
pub open spec fn spec_value(value: Seq<char>) -> Option<u64> {
    match spec_next_word(value) {
        Some((word, _)) => spec_parse_u64(word),
        None => None,
    }
}

/// Whether a line is malformed: it has no colon, or its key names a counter
/// and its value writes no number. What stands behind a key that names no
/// counter is not looked at.
pub open spec fn spec_malformed(line: Seq<char>) -> bool {
    match spec_key_value(line) {
        Some((key, value)) => MemKey::spec_from_name(key) is Some && spec_value(value) is None,
        None => true,
    }
}

/// The snapshot after one more line: the counter that the line's key names
/// takes the number that the line's value writes; a line whose key names no
/// counter changes nothing; a malformed line gives no snapshot.
pub open spec fn spec_apply_line(info: MemInfo, line: Seq<char>) -> Option<MemInfo> {
    match spec_key_value(line) {
        Some((key, value)) => match MemKey::spec_from_name(key) {
            Some(k) => match spec_value(value) {
                Some(n) => Some(info.with(k, n)),
                None => None,
            },
            None => Some(info),
        },
        None => None,
    }
}

/// The snapshot after the lines, taken in order; none where one of them is
/// malformed.
pub open spec fn spec_apply_lines(info: MemInfo, lines: Seq<Seq<char>>) -> Option<MemInfo>
    decreases lines.len(),
{
    if lines.len() == 0 {
        Some(info)
    } else {
        match spec_apply_line(info, lines[0]) {
            Some(next) => spec_apply_lines(next, lines.drop_first()),
            None => None,
        }
    }
}

/// The snapshot that a counter file gives.
pub open spec fn spec_parse_meminfo(content: Seq<char>) -> Option<MemInfo> {
    spec_apply_lines(MemInfo::spec_new(), spec_lines(content))
}

/// Lines give a snapshot exactly when none of them is malformed.
pub proof fn lemma_apply_lines_fails(info: MemInfo, lines: Seq<Seq<char>>)
    ensures
        spec_apply_lines(info, lines) is None <==> exists|i: int|
            0 <= i < lines.len() && spec_malformed(#[trigger] lines[i]),
    decreases lines.len(),
{
    if lines.len() > 0 {
        let rest = lines.drop_first();
        match spec_apply_line(info, lines[0]) {
            Some(next) => {
                lemma_apply_lines_fails(next, rest);
                if spec_apply_lines(info, lines) is Some {
                    assert forall|i: int| 0 <= i < lines.len() implies !spec_malformed(
                        #[trigger] lines[i],
                    ) by {
                        if i > 0 {
                            assert(lines[i] == rest[i - 1]);
                        }
                    }
                }
            },
            None => {},
        }
    }
}

/// The counter that a line is about, where it is about one.
pub open spec fn spec_line_key(line: Seq<char>) -> Option<MemKey> {
    match spec_key_value(line) {
        Some((key, _)) => MemKey::spec_from_name(key),
        None => None,
    }
}

/// The number that a line gives to its counter, where its value writes
/// one.
pub open spec fn spec_line_value(line: Seq<char>) -> Option<u64> {
    match spec_key_value(line) {
        Some((_, value)) => spec_value(value),
        None => None,
    }
}

/// Whether line `i` is about the counter `key` and no later line is.
pub open spec fn is_last_line_of(lines: Seq<Seq<char>>, key: MemKey, i: int) -> bool {
    &&& 0 <= i < lines.len()
    &&& spec_line_key(lines[i]) == Some(key)
    &&& forall|j: int| i < j < lines.len() ==> spec_line_key(#[trigger] lines[j]) != Some(key)
}

/// What a snapshot holds for a counter after some lines is what the last
/// line about that counter gives; a counter that no line is about is as it
/// was before.
pub proof fn lemma_last_line_holds(info: MemInfo, lines: Seq<Seq<char>>, key: MemKey)
    requires
        spec_apply_lines(info, lines) is Some,
    ensures
        (forall|j: int| 0 <= j < lines.len() ==> spec_line_key(#[trigger] lines[j]) != Some(key))
            ==> spec_apply_lines(info, lines)->0.spec_get(key) == info.spec_get(key),
        forall|i: int|
            is_last_line_of(lines, key, i) ==> spec_line_value(lines[i]) is Some
                && spec_apply_lines(info, lines)->0.spec_get(key) == spec_line_value(lines[i]),
    decreases lines.len(),
{
    if lines.len() > 0 {
        let next = spec_apply_line(info, lines[0])->0;
        let rest = lines.drop_first();
        lemma_last_line_holds(next, rest, key);
        match spec_line_key(lines[0]) {
            Some(k) => {
                lemma_with_get(info, k, spec_line_value(lines[0])->0, key);
            },
            None => {},
        }
        assert forall|i: int| is_last_line_of(lines, key, i) implies spec_line_value(
            lines[i],
        ) is Some && spec_apply_lines(info, lines)->0.spec_get(key) == spec_line_value(
            lines[i],
        ) by {
            if i > 0 {
                assert(is_last_line_of(rest, key, i - 1));
            }
        }
    }
}

/// What a file of the lines `lines` says of the counter `key`: the number
/// that the last line about the counter gives, and where no line is about
/// it, what an untouched snapshot holds.
pub open spec fn spec_counter(lines: Seq<Seq<char>>, key: MemKey) -> Option<u64> {
    if exists|i: int| is_last_line_of(lines, key, i) {
        spec_line_value(lines[choose|i: int| is_last_line_of(lines, key, i)])
    } else {
        MemInfo::spec_new().spec_get(key)
    }
}

/// Among the lines about a counter there is a last one.
proof fn lemma_has_last_line(lines: Seq<Seq<char>>, key: MemKey)
    requires
        exists|j: int| 0 <= j < lines.len() && spec_line_key(#[trigger] lines[j]) == Some(key),
    ensures
        exists|i: int| is_last_line_of(lines, key, i),
    decreases lines.len(),
{
    let last = lines.len() - 1;
    if spec_line_key(lines[last]) == Some(key) {
        assert(is_last_line_of(lines, key, last));
    } else {
        let front = lines.drop_last();
        let j = choose|j: int|
            0 <= j < lines.len() && spec_line_key(#[trigger] lines[j]) == Some(key);
        assert(front[j] == lines[j]);
        lemma_has_last_line(front, key);
        let i = choose|i: int| is_last_line_of(front, key, i);
        assert forall|k: int| i < k < lines.len() implies spec_line_key(#[trigger] lines[k])
            != Some(key) by {
            if k < last {
                assert(front[k] == lines[k]);
            }
        }
        assert(is_last_line_of(lines, key, i));
    }
}

/// The snapshot that the lines of a file give holds for each counter what
/// the file says of it.
pub proof fn lemma_counter(lines: Seq<Seq<char>>, key: MemKey)
    requires
        spec_apply_lines(MemInfo::spec_new(), lines) is Some,
    ensures
        spec_apply_lines(MemInfo::spec_new(), lines)->0.spec_get(key) == spec_counter(lines, key),
{
    lemma_last_line_holds(MemInfo::spec_new(), lines, key);
    if exists|j: int| 0 <= j < lines.len() && spec_line_key(#[trigger] lines[j]) == Some(key) {
        lemma_has_last_line(lines, key);
    }
}

/// The number that a value writes.
fn read_value(value: &[char]) -> (r: Option<u64>)
    ensures
        r == spec_value(value@),
{
    match next_word(value) {
        Some((word, _)) => parse_u64(word),
        None => None,
    }
}

/// Takes one line into the snapshot.
fn apply_chars(info: &mut MemInfo, line: &[char]) -> (r: Result<(), CollectError>)
    ensures
        match spec_apply_line(*old(info), line@) {
            Some(next) => r is Ok && *final(info) == next,
            None => r == Err::<(), CollectError>(CollectError::Malformed(CounterFile::MemInfo))
                && *final(info) == *old(info),
        },
{
    match split_once(trim(line), ':') {
        Some((key, value)) => match MemKey::from_chars(key) {
            Some(k) => match read_value(value) {
                Some(number) => {
                    info.set(k, number);
                    Ok(())
                },
                None => Err(CollectError::Malformed(CounterFile::MemInfo)),
            },
            None => Ok(()),
        },
        None => Err(CollectError::Malformed(CounterFile::MemInfo)),
    }
}

impl MemInfo {
    /// Takes one line of the counter file into the snapshot. A malformed
    /// line (one without a colon, or one whose key names a counter and whose
    /// value writes no number) is refused, and the snapshot stays as it was.
    pub fn apply_line(&mut self, line: &str) -> (r: Result<(), CollectError>)
        ensures
            match spec_apply_line(*old(self), line@) {
                Some(next) => r is Ok && *final(self) == next,
                None => r == Err::<(), CollectError>(
                    CollectError::Malformed(CounterFile::MemInfo),
                ) && *final(self) == *old(self),
            },
    {
        let chars = chars_of(line);
        apply_chars(self, chars.as_slice())
    }
}

/// Reads a whole counter file. Each line sets the counter that its key
/// names to the number that its value writes; where a key comes twice the
/// later line holds; a line whose key names no counter is passed over. One
/// malformed line (one without a colon, or one whose key names a counter
/// and whose value writes no number) fails the whole file: no snapshot is
/// made of the lines before it, and no counter reads 0 for want of a
/// number.
pub fn parse_meminfo(content: &str) -> (r: Result<MemInfo, CollectError>)
    ensures
        match spec_parse_meminfo(content@) {
            Some(info) => r == Ok::<MemInfo, CollectError>(info),
            None => r == Err::<MemInfo, CollectError>(
                CollectError::Malformed(CounterFile::MemInfo),
            ),
        },
        r is Err <==> exists|i: int|
            0 <= i < spec_lines(content@).len() && spec_malformed(
                #[trigger] spec_lines(content@)[i],
            ),
        r matches Ok(info) ==> forall|key: MemKey| #[trigger]
            info.spec_get(key) == spec_counter(spec_lines(content@), key),
{
    let chars = chars_of(content);
    let mut rest = chars.as_slice();
    let mut info = MemInfo::new();
    loop
        invariant
            chars@ == content@,
            spec_parse_meminfo(content@) == spec_apply_lines(info, spec_lines(rest@)),
        decreases rest@.len(),
    {
        proof {
            lemma_apply_lines_fails(MemInfo::spec_new(), spec_lines(content@));
            if spec_parse_meminfo(content@) is Some {
                assert forall|key: MemKey| #[trigger]
                    spec_parse_meminfo(content@)->0.spec_get(key) == spec_counter(
                        spec_lines(content@),
                        key,
                    ) by {
                    lemma_counter(spec_lines(content@), key);
                }
            }
        }
        let (line, after) = match split_line(rest) {
            Some(pair) => pair,
            None => {
                return Ok(info);
            },
        };
        proof {
            let lines = spec_lines(rest@);
            assert(lines.drop_first() == spec_lines(after@));
        }
        match apply_chars(&mut info, line) {
            Ok(()) => {},
            Err(e) => {
                return Err(e);
            },
        }
        rest = after;
    }
}

} // verus!
