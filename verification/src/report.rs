//! The manifest and the statistics of a run: one line for each file, in the order of the
//! files, and the totals over all of them.

use vstd::prelude::*;
use vstd::string::*;

use crate::hex::{decimal_fixed, decimal_of_nat, push_decimal, push_decimal_fixed};
use crate::outcome::{outcome_view, DigestView, HashError, HashResult};

verus! {

/// One file to hash, as the traversal of the tree names it.
#[derive(Debug)]
pub struct FileTask {
    /// The path by which the file is opened, as text.
    pub path: String,
    /// The path relative to the root of the tree, as text.
    pub relative_path: String,
}

/// The manifest line of one file: the digest, ` *..\`, the relative path and a line feed
/// for a file that was hashed; `[ERROR] `, the path, `: `, the message and a line feed for
/// one that was not.
pub open spec fn manifest_line_model(
    path: Seq<char>,
    relative_path: Seq<char>,
    outcome: Result<DigestView, HashError>,
) -> Seq<char> {
    match outcome {
        Ok(digest) => digest.digest + " *..\\"@ + relative_path + "\n"@,
        Err(error) => "[ERROR] "@ + path + ": "@ + error.spec_message() + "\n"@,
    }
}

/// The manifest line for `task` with the outcome `outcome`.
pub fn manifest_line(task: &FileTask, outcome: &HashResult) -> (line: String)
    ensures
        line@ == manifest_line_model(task.path@, task.relative_path@, outcome_view(*outcome)),
{
    let mut line = String::new();
    match outcome {
        Ok(digest) => {
            line.append(digest.digest.as_str());
            line.append(" *..\\");
            line.append(task.relative_path.as_str());
            line.append("\n");
            assert(line@ =~= digest.digest@ + " *..\\"@ + task.relative_path@ + "\n"@);
        },
        Err(error) => {
            let message = error.message();
            line.append("[ERROR] ");
            line.append(task.path.as_str());
            line.append(": ");
            line.append(message.as_str());
            line.append("\n");
            assert(line@ =~= "[ERROR] "@ + task.path@ + ": "@ + error.spec_message() + "\n"@);
        },
    }
    line
}

/// The manifest: the line of each task, in the order of the tasks. A run without files has
/// an empty manifest.
pub fn manifest(tasks: &Vec<FileTask>, outcomes: &Vec<HashResult>) -> (lines: Vec<String>)
    requires
        tasks@.len() == outcomes@.len(),
    ensures
        lines@.len() == tasks@.len(),
        forall|i: int|
            0 <= i < tasks@.len() ==> (#[trigger] lines@[i])@ == manifest_line_model(
                tasks@[i].path@,
                tasks@[i].relative_path@,
                outcome_view(outcomes@[i]),
            ),
{
    let mut lines: Vec<String> = Vec::new();
    let mut i: usize = 0;
    while i < tasks.len()
        invariant
            i <= tasks@.len(),
            tasks@.len() == outcomes@.len(),
            lines@.len() == i,
            forall|j: int|
                0 <= j < i ==> (#[trigger] lines@[j])@ == manifest_line_model(
                    tasks@[j].path@,
                    tasks@[j].relative_path@,
                    outcome_view(outcomes@[j]),
                ),
        decreases tasks@.len() - i,
    {
        lines.push(manifest_line(&tasks[i], &outcomes[i]));
        i = i + 1;
    }
    lines
}

/// The totals of a run.
#[derive(Clone, Copy, Debug, PartialEq, Eq, Structural)]
pub struct RunStatistics {
    /// The number of files.
    pub total_files: u64,
    /// The number of files without a digest.
    pub total_errors: u64,
    /// The bytes of the files that have a digest.
    pub total_bytes: u64,
    /// The wall time that the run took, in nanoseconds.
    pub elapsed_nanos: u128,
}

/// The number of outcomes that are errors.
pub open spec fn count_errors(outcomes: Seq<HashResult>) -> nat
    decreases outcomes.len(),
{
    if outcomes.len() == 0 {
        0
    } else {
        count_errors(outcomes.drop_last()) + if outcomes.last() is Err {
            1nat
        } else {
            0nat
        }
    }
}

/// The sum of `bytes_hashed` over the outcomes that are digests.
pub open spec fn sum_bytes(outcomes: Seq<HashResult>) -> nat
    decreases outcomes.len(),
{
    if outcomes.len() == 0 {
        0
    } else {
        sum_bytes(outcomes.drop_last()) + match outcomes.last() {
            Ok(digest) => digest.bytes_hashed as nat,
            Err(_) => 0nat,
        }
    }
}

/// The sum of the sizes in `sizes` over the files that have a digest in `outcomes`.
pub open spec fn sum_hashed_sizes(outcomes: Seq<HashResult>, sizes: Seq<u64>) -> nat
    decreases outcomes.len(),
{
    if outcomes.len() == 0 || sizes.len() == 0 {
        0
    } else {
        sum_hashed_sizes(outcomes.drop_last(), sizes.drop_last()) + if outcomes.last() is Ok {
            sizes.last() as nat
        } else {
            0nat
        }
    }
}

/// The bytes of the first `n` outcomes are never more than the bytes of all of them.
pub proof fn lemma_sum_bytes_prefix(outcomes: Seq<HashResult>, n: int)
    requires
        0 <= n <= outcomes.len(),
    ensures
        sum_bytes(outcomes.subrange(0, n)) <= sum_bytes(outcomes),
    decreases outcomes.len() - n,
{
    if n == outcomes.len() {
        assert(outcomes.subrange(0, n) =~= outcomes);
    } else {
        lemma_sum_bytes_prefix(outcomes, n + 1);
        assert(outcomes.subrange(0, n + 1).drop_last() =~= outcomes.subrange(0, n));
    }
}

/// Byte accounting. Where every digest carries the size that its file had when it was
/// read, the total of the digests' bytes is the total size of the files that were hashed.
pub proof fn lemma_byte_accounting(outcomes: Seq<HashResult>, sizes: Seq<u64>)
    requires
        outcomes.len() == sizes.len(),
        forall|i: int|
            0 <= i < outcomes.len() ==> (#[trigger] outcomes[i] matches Ok(digest)
                ==> digest.bytes_hashed == sizes[i]),
    ensures
        sum_bytes(outcomes) == sum_hashed_sizes(outcomes, sizes),
    decreases outcomes.len(),
{
    if outcomes.len() > 0 {
        let head = outcomes.drop_last();
        let head_sizes = sizes.drop_last();
        assert forall|i: int| 0 <= i < head.len() implies (#[trigger] head[i] matches Ok(digest)
            ==> digest.bytes_hashed == head_sizes[i]) by {
            assert(head[i] == outcomes[i]);
        }
        lemma_byte_accounting(head, head_sizes);
        assert(outcomes.last() == outcomes[outcomes.len() - 1]);
    }
}

/// Folds the outcomes of a run that took `elapsed_nanos` nanoseconds into its totals.
///
/// There are totals unless the bytes add up to more than 64 bits hold.
pub fn summarize(outcomes: &Vec<HashResult>, elapsed_nanos: u128) -> (totals: Option<
    RunStatistics,
>)
    ensures
        totals is Some <==> sum_bytes(outcomes@) <= u64::MAX,
        totals matches Some(t) ==> t.total_files == outcomes@.len() && t.total_errors
            == count_errors(outcomes@) && t.total_bytes == sum_bytes(outcomes@)
            && t.elapsed_nanos == elapsed_nanos,
{
    let mut total_errors: u64 = 0;
    let mut total_bytes: u64 = 0;
    let mut i: usize = 0;
    while i < outcomes.len()
        invariant
            i <= outcomes@.len(),
            total_errors == count_errors(outcomes@.subrange(0, i as int)),
            total_errors <= i,
            total_bytes == sum_bytes(outcomes@.subrange(0, i as int)),
        decreases outcomes@.len() - i,
    {
        proof {
            assert(outcomes@.subrange(0, i + 1).drop_last() =~= outcomes@.subrange(0, i as int));
            assert(outcomes@.subrange(0, i + 1).last() == outcomes@[i as int]);
        }
        match &outcomes[i] {
            Ok(digest) => {
                match total_bytes.checked_add(digest.bytes_hashed) {
                    Some(sum) => {
                        total_bytes = sum;
                    },
                    None => {
                        proof {
                            lemma_sum_bytes_prefix(outcomes@, i + 1);
                        }
                        return None;
                    },
                }
            },
            Err(_) => {
                total_errors = total_errors + 1;
            },
        }
        i = i + 1;
    }
    assert(outcomes@.subrange(0, i as int) =~= outcomes@);
    Some(
        RunStatistics {
            total_files: outcomes.len() as u64,
            total_errors,
            total_bytes,
            elapsed_nanos,
        },
    )
}

/// Bytes per second over a run: `total_bytes` divided by the elapsed time, rounded down
/// and held to 64 bits; zero for a run that took no time.
pub open spec fn throughput_model(total_bytes: u64, elapsed_nanos: u128) -> nat {
    if elapsed_nanos == 0 {
        0
    } else {
        let rate = (total_bytes as nat * 1000000000) / (elapsed_nanos as nat);
        if rate <= u64::MAX {
            rate
        } else {
            u64::MAX as nat
        }
    }
}

/// The average rate of a run in bytes per second, from its bytes and its elapsed time in
/// nanoseconds. Never divides by zero: a run that took no time has rate zero.
pub fn throughput(total_bytes: u64, elapsed_nanos: u128) -> (rate: u64)
    ensures
        rate == throughput_model(total_bytes, elapsed_nanos),
{
    if elapsed_nanos == 0 {
        return 0;
    }
    let scaled: u128 = (total_bytes as u128) * 1000000000;
    let rate: u128 = scaled / elapsed_nanos;
    if rate <= u64::MAX as u128 {
        rate as u64
    } else {
        u64::MAX
    }
}

impl RunStatistics {
    /// The average rate of the run in bytes per second; zero for a run that took no time.
    pub fn throughput(&self) -> (rate: u64)
        ensures
            rate == throughput_model(self.total_bytes, self.elapsed_nanos),
    {
        throughput(self.total_bytes, self.elapsed_nanos)
    }
}

/// The index of the unit in which an amount of `n` bytes is shown: the largest of B, KiB,
/// MiB, GiB, TiB and PiB that is not more than the amount.
pub open spec fn unit_index(n: nat) -> nat {
    if n < 1024 {
        0
    } else if n < 1048576 {
        1
    } else if n < 1073741824 {
        2
    } else if n < 1099511627776 {
        3
    } else if n < 1125899906842624 {
        4
    } else {
        5
    }
}

/// The number of bytes in the unit with index `index`: 1024 to the power `index`.
pub open spec fn unit_size(index: nat) -> nat {
    if index == 0 {
        1
    } else if index == 1 {
        1024
    } else if index == 2 {
        1048576
    } else if index == 3 {
        1073741824
    } else if index == 4 {
        1099511627776
    } else {
        1125899906842624
    }
}

/// The name of the unit with index `index`.
pub open spec fn unit_name(index: nat) -> Seq<char> {
    if index == 0 {
        "B"@
    } else if index == 1 {
        "KiB"@
    } else if index == 2 {
        "MiB"@
    } else if index == 3 {
        "GiB"@
    } else if index == 4 {
        "TiB"@
    } else {
        "PiB"@
    }
}

/// `num / den` rounded to the nearest whole number, a tie going to the even one.
pub open spec fn round_half_even(num: nat, den: nat) -> nat
    recommends
        den > 0,
{
    let quotient = num / den;
    let rest = num % den;
    if 2 * rest > den || (2 * rest == den && quotient % 2 == 1) {
        quotient + 1
    } else {
        quotient
    }
}

/// The distance between neighbouring numbers of 53 significant bits at the size of `n`: 1
/// below 2^53, and doubling with each further bit.
pub open spec fn significand_spacing(n: nat) -> nat {
    if n < 0x20000000000000 {
        1
    } else if n < 0x40000000000000 {
        2
    } else if n < 0x80000000000000 {
        4
    } else if n < 0x100000000000000 {
        8
    } else if n < 0x200000000000000 {
        16
    } else if n < 0x400000000000000 {
        32
    } else if n < 0x800000000000000 {
        64
    } else if n < 0x1000000000000000 {
        128
    } else if n < 0x2000000000000000 {
        256
    } else if n < 0x4000000000000000 {
        512
    } else if n < 0x8000000000000000 {
        1024
    } else {
        2048
    }
}

/// `n` rounded to 53 significant bits, a tie going to the even significand: the amount as a
/// double-precision number carries it. For `n` below 2^53 this is `n`.
pub open spec fn to_53_bits(n: nat) -> nat {
    round_half_even(n, significand_spacing(n)) * significand_spacing(n)
}

/// The amount of `n` bytes in hundredths of its unit, rounded to the nearest hundredth, a
/// tie going to the even one.
pub open spec fn hundredths(n: nat) -> nat {
    round_half_even(to_53_bits(n) * 100, unit_size(unit_index(n)))
}

/// An amount of bytes for a reader: the amount in its unit with two decimal places, a
/// space, and the name of the unit.
pub open spec fn human_readable_model(n: nat) -> Seq<char> {
    decimal_of_nat(hundredths(n) / 100) + "."@ + decimal_fixed(hundredths(n) % 100, 2) + " "@
        + unit_name(unit_index(n))
}

fn divide_half_even(num: u128, den: u128) -> (rounded: u128)
    requires
        den > 0,
        num / den < u128::MAX,
        den <= u64::MAX,
    ensures
        rounded == round_half_even(num as nat, den as nat),
{
    let quotient = num / den;
    let rest = num % den;
    if 2 * rest > den || (2 * rest == den && quotient % 2 == 1) {
        quotient + 1
    } else {
        quotient
    }
}

fn spacing_of(n: u64) -> (spacing: u64)
    ensures
        spacing == significand_spacing(n as nat),
        1 <= spacing <= 2048,
{
    if n < 0x20000000000000 {
        1
    } else if n < 0x40000000000000 {
        2
    } else if n < 0x80000000000000 {
        4
    } else if n < 0x100000000000000 {
        8
    } else if n < 0x200000000000000 {
        16
    } else if n < 0x400000000000000 {
        32
    } else if n < 0x800000000000000 {
        64
    } else if n < 0x1000000000000000 {
        128
    } else if n < 0x2000000000000000 {
        256
    } else if n < 0x4000000000000000 {
        512
    } else if n < 0x8000000000000000 {
        1024
    } else {
        2048
    }
}

fn unit_of(n: u64) -> (unit: (u64, &'static str))
    ensures
        unit.0 == unit_size(unit_index(n as nat)),
        unit.1@ == unit_name(unit_index(n as nat)),
        1 <= unit.0 <= 1125899906842624,
{
    if n < 1024 {
        (1, "B")
    } else if n < 1048576 {
        (1024, "KiB")
    } else if n < 1073741824 {
        (1048576, "MiB")
    } else if n < 1099511627776 {
        (1073741824, "GiB")
    } else if n < 1125899906842624 {
        (1099511627776, "TiB")
    } else {
        (1125899906842624, "PiB")
    }
}

/// An amount of bytes for a reader, in binary units with two decimal places: `1.50 KiB`.
///
/// The amount is shown as a double-precision number would carry it: rounded to 53
/// significant bits first, then to the nearest hundredth of the unit, ties to even.
pub fn human_readable(num_bytes: u64) -> (text: String)
    ensures
        text@ == human_readable_model(num_bytes as nat),
{
    let spacing = spacing_of(num_bytes);
    let steps = divide_half_even(num_bytes as u128, spacing as u128);
    assert(steps <= 0x10000000000000000);
    assert(steps * spacing <= 0x10000000000000000 * 2048) by (nonlinear_arith)
        requires
            steps <= 0x10000000000000000,
            spacing <= 2048,
    ;
    let carried: u128 = steps * (spacing as u128);
    let (size, name) = unit_of(num_bytes);
    let amount = divide_half_even(carried * 100, size as u128);
    let mut text = String::new();
    push_decimal(&mut text, amount / 100);
    text.append(".");
    push_decimal_fixed(&mut text, amount % 100, 2);
    text.append(" ");
    text.append(name);
    assert(text@ =~= human_readable_model(num_bytes as nat));
    text
}

} // verus!
