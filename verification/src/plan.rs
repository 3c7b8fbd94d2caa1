//! The part plan of a multipart upload: how a file of a known size splits
//! into numbered, contiguous byte ranges, and how parts group into the
//! fixed-size batches that the workers take on.

use vstd::prelude::*;
use vstd::arithmetic::div_mod::lemma_fundamental_div_mod;

verus! {

/// Number of parts a file of `size` bytes splits into with parts of
/// `part_size` bytes: the quotient, plus one when a remainder is left.
pub open spec fn spec_part_count(size: int, part_size: int) -> int {
    size / part_size + if size % part_size == 0 {
        0int
    } else {
        1int
    }
}

/// Length of the final part: the remainder when one is left, else a whole
/// part.
pub open spec fn spec_last_part_len(size: int, part_size: int) -> int {
    if size % part_size == 0 {
        part_size
    } else {
        size % part_size
    }
}

/// The arithmetic behind a part plan: at least one part, every part before
/// the last is whole, and the last part ends exactly at the file size.
pub proof fn lemma_plan_arith(size: int, part_size: int)
    requires
        size > 0,
        part_size > 0,
    ensures
        spec_part_count(size, part_size) >= 1,
        1 <= spec_last_part_len(size, part_size) <= part_size,
        (spec_part_count(size, part_size) - 1) * part_size == size - spec_last_part_len(
            size,
            part_size,
        ),
{
    lemma_fundamental_div_mod(size, part_size);
    let q = size / part_size;
    let r = size % part_size;
    assert(size == part_size * q + r);
    if r == 0 {
        assert(q >= 1) by (nonlinear_arith)
            requires
                size == part_size * q,
                size > 0,
                part_size > 0,
        ;
        assert((q - 1) * part_size == part_size * q - part_size) by (nonlinear_arith);
    } else {
        assert(q >= 0);
        assert(q * part_size == part_size * q) by (nonlinear_arith);
    }
}

/// One planned part: its 1-based number and the byte range it covers.
pub struct PartSpec {
    pub part_number: u16,
    pub offset: u64,
    pub length: u64,
}

/// The ordered list of parts for one file, generated once from the file
/// size and a fixed part size.
pub struct PartPlan {
    pub file_size: u64,
    pub part_size: u64,
    pub parts: Vec<PartSpec>,
}

impl PartPlan {
    /// Part numbers are contiguous from 1, offsets step by whole parts, and
    /// the last part absorbs the remainder.
    pub open spec fn wf(self) -> bool {
        let n = self.parts.len() as int;
        &&& self.part_size > 0
        &&& self.file_size > 0
        &&& n == spec_part_count(self.file_size as int, self.part_size as int)
        &&& n <= 0xffff
        &&& forall|i: int| 0 <= i < n ==> (#[trigger] self.parts@[i]).part_number == i + 1
        &&& forall|i: int|
            0 <= i < n ==> (#[trigger] self.parts@[i]).offset == i * self.part_size
        &&& forall|i: int| 0 <= i < n - 1 ==> (#[trigger] self.parts@[i]).length == self.part_size
        &&& self.parts@[n - 1].length == spec_last_part_len(
            self.file_size as int,
            self.part_size as int,
        )
    }

    pub open spec fn part_count(self) -> int {
        self.parts.len() as int
    }

    /// Plans the parts of one file.
    pub fn new(file_size: u64, part_size: u64) -> (r: PartPlan)
        requires
            file_size > 0,
            part_size > 0,
            spec_part_count(file_size as int, part_size as int) <= 0xffff,
        ensures
            r.wf(),
            r.file_size == file_size,
            r.part_size == part_size,
    {
        proof {
            lemma_plan_arith(file_size as int, part_size as int);
        }
        let n = count_parts(file_size, part_size);
        let ghost last_len = spec_last_part_len(file_size as int, part_size as int);
        let mut parts: Vec<PartSpec> = Vec::new();
        let mut offset: u64 = 0;
        let mut i: u64 = 0;
        while i < n
            invariant
                n as int == spec_part_count(file_size as int, part_size as int),
                1 <= n <= 0xffff,
                (n - 1) * part_size == file_size - last_len,
                1 <= last_len <= part_size,
                part_size > 0,
                file_size > 0,
                i <= n,
                parts@.len() == i,
                offset == i * part_size || (i == n && offset == file_size),
                forall|j: int| 0 <= j < i ==> (#[trigger] parts@[j]).part_number == j + 1,
                forall|j: int| 0 <= j < i ==> (#[trigger] parts@[j]).offset == j * part_size,
                forall|j: int|
                    0 <= j < i && j < n - 1 ==> (#[trigger] parts@[j]).length == part_size,
                i == n ==> parts@[n - 1 as int].length == last_len,
            decreases n - i,
        {
            proof {
                assert(i < n);
                assert(i as int * part_size <= (n - 1) * part_size) by (nonlinear_arith)
                    requires
                        i as int <= n as int - 1,
                        part_size > 0,
                ;
                assert(offset == i * part_size);
            }
            let length: u64 = if i < n - 1 {
                proof {
                    assert((i + 1) * part_size == i as int * part_size + part_size)
                        by (nonlinear_arith);
                    assert((i + 1) * part_size <= (n - 1) * part_size) by (nonlinear_arith)
                        requires
                            i as int + 1 <= n as int - 1,
                            part_size > 0,
                    ;
                }
                part_size
            } else {
                file_size - offset
            };
            parts.push(
                PartSpec { part_number: (i + 1) as u16, offset, length },
            );
            offset = offset + length;
            i = i + 1;
            proof {
                assert((i as int) * part_size == (i - 1) * part_size + part_size)
                    by (nonlinear_arith);
            }
        }
        PartPlan { file_size, part_size, parts }
    }
}

/// Computes `spec_part_count` without overflow.
pub fn count_parts(file_size: u64, part_size: u64) -> (r: u64)
    requires
        file_size > 0,
        part_size > 0,
    ensures
        r as int == spec_part_count(file_size as int, part_size as int),
        r >= 1,
{
    let q = file_size / part_size;
    let rem = file_size % part_size;
    if rem == 0 {
        proof {
            lemma_plan_arith(file_size as int, part_size as int);
        }
        q
    } else {
        proof {
            lemma_fundamental_div_mod(file_size as int, part_size as int);
            assert(part_size >= 2);
            assert(file_size as int >= 2 * (q as int)) by (nonlinear_arith)
                requires
                    file_size as int == part_size as int * (q as int) + rem as int,
                    part_size >= 2,
                    rem >= 0,
                    q >= 0,
            ;
        }
        q + 1
    }
}

/// The batches the parts are grouped into: `batch_size` parts per batch,
/// the last batch taking what is left. Each range is `[start, end)` over
/// part indices, in order.
pub fn batch_ranges(n_parts: usize, batch_size: usize) -> (r: Vec<(usize, usize)>)
    requires
        batch_size > 0,
    ensures
        n_parts == 0 ==> r@.len() == 0,
        n_parts > 0 ==> r@.len() == spec_part_count(n_parts as int, batch_size as int),
        forall|i: int| 0 <= i < r@.len() ==> (#[trigger] r@[i]).0 == i * batch_size,
        forall|i: int|
            0 <= i < r@.len() ==> (#[trigger] r@[i]).1 == if (i + 1) * batch_size <= n_parts {
                (i + 1) * batch_size
            } else {
                n_parts as int
            },
{
    let mut r: Vec<(usize, usize)> = Vec::new();
    if n_parts == 0 {
        return r;
    }
    proof {
        lemma_plan_arith(n_parts as int, batch_size as int);
    }
    let ghost n_batches = spec_part_count(n_parts as int, batch_size as int);
    let ghost last_len = spec_last_part_len(n_parts as int, batch_size as int);
    let mut start: usize = 0;
    while start < n_parts
        invariant
            batch_size > 0,
            n_parts > 0,
            n_batches == spec_part_count(n_parts as int, batch_size as int),
            (n_batches - 1) * batch_size == n_parts - last_len,
            1 <= last_len <= batch_size,
            start == r@.len() * batch_size || (start == n_parts && r@.len() == n_batches),
            start <= n_parts,
            r@.len() <= n_batches,
            forall|i: int| 0 <= i < r@.len() ==> (#[trigger] r@[i]).0 == i * batch_size,
            forall|i: int|
                0 <= i < r@.len() ==> (#[trigger] r@[i]).1 == if (i + 1) * batch_size <= n_parts {
                    (i + 1) * batch_size
                } else {
                    n_parts as int
                },
        decreases n_parts - start,
    {
        let ghost k = r@.len() as int;
        proof {
            assert(start == k * batch_size);
            assert(k < n_batches) by (nonlinear_arith)
                requires
                    start == k * batch_size,
                    start < n_parts,
                    (n_batches - 1) * batch_size == n_parts - last_len,
                    1 <= last_len <= batch_size,
                    batch_size > 0,
                    k >= 0,
            ;
            assert((k + 1) * batch_size == k * batch_size + batch_size) by (nonlinear_arith);
            assert(k + 1 < n_batches ==> (k + 1) * batch_size <= (n_batches - 1) * batch_size)
                by (nonlinear_arith)
                requires
                    batch_size > 0,
            ;
        }
        let end: usize = if n_parts - start > batch_size {
            proof {
                assert(k + 1 < n_batches) by (nonlinear_arith)
                    requires
                        n_parts - start > batch_size,
                        start == k * batch_size,
                        (n_batches - 1) * batch_size == n_parts - last_len,
                        1 <= last_len <= batch_size,
                        batch_size > 0,
                        k >= 0,
                ;
            }
            start + batch_size
        } else {
            n_parts
        };
        r.push((start, end));
        start = end;
    }
    proof {
        assert(r@.len() == n_batches) by (nonlinear_arith)
            requires
                start == r@.len() * batch_size || (start == n_parts && r@.len() == n_batches),
                start == n_parts,
                (n_batches - 1) * batch_size == n_parts - last_len,
                1 <= last_len <= batch_size,
                batch_size > 0,
                r@.len() <= n_batches,
        ;
    }
    r
}

/// The final part carries `size mod part_size` bytes when that is nonzero,
/// else exactly `part_size`, for every valid plan.
pub proof fn lemma_last_part_length(plan: PartPlan)
    requires
        plan.wf(),
    ensures
        plan.parts@[plan.part_count() - 1].length == if plan.file_size as int % plan.part_size
            as int == 0 {
            plan.part_size as int
        } else {
            plan.file_size as int % plan.part_size as int
        },
{
}

/// Part numbers are contiguous from 1 to the part count, with no gaps and
/// no duplicates, for every valid plan.
pub proof fn lemma_part_numbers_contiguous(plan: PartPlan)
    requires
        plan.wf(),
    ensures
        forall|i: int|
            0 <= i < plan.part_count() ==> (#[trigger] plan.parts@[i]).part_number == i + 1,
        forall|i: int, j: int|
            0 <= i < plan.part_count() && 0 <= j < plan.part_count() && i != j
                ==> plan.parts@[i].part_number != plan.parts@[j].part_number,
{
    assert forall|i: int, j: int|
        0 <= i < plan.part_count() && 0 <= j < plan.part_count() && i != j implies plan.parts@[i].part_number
        != plan.parts@[j].part_number by {
        assert(plan.parts@[i].part_number == i + 1);
        assert(plan.parts@[j].part_number == j + 1);
    }
}

/// The planned ranges tile the file: the first part starts at byte zero,
/// every part ends where the next begins, and the last ends at the file
/// size.
pub proof fn lemma_parts_tile_file(plan: PartPlan)
    requires
        plan.wf(),
    ensures
        plan.parts@[0].offset == 0,
        forall|i: int|
            0 <= i < plan.part_count() - 1 ==> (#[trigger] plan.parts@[i]).offset
                + plan.parts@[i].length == plan.parts@[i + 1].offset,
        plan.parts@[plan.part_count() - 1].offset + plan.parts@[plan.part_count() - 1].length
            == plan.file_size,
{
    let n = plan.part_count();
    let ps = plan.part_size as int;
    lemma_plan_arith(plan.file_size as int, ps);
    assert forall|i: int| 0 <= i < n - 1 implies (#[trigger] plan.parts@[i]).offset
        + plan.parts@[i].length == plan.parts@[i + 1].offset by {
        assert((i + 1) * ps == i * ps + ps) by (nonlinear_arith);
    }
}

} // verus!
