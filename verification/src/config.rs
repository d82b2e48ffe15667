use vstd::prelude::*;
use vstd::string::StringExecFns;

verus! {

/// The designator that names standard input.
pub fn stdin_sentinel() -> (s: String)
    ensures
        s@ == "-"@,
{
    String::from_str("-")
}

/// Test whether a designator is the stdin sentinel.
pub fn is_stdin_sentinel(designator: &str) -> (r: bool)
    ensures
        r == (designator@ == "-"@),
{
    proof {
        reveal_strlit("-");
    }
    if designator.unicode_len() == 1 {
        let c = designator.get_char(0);
        proof {
            if c == '-' {
                assert(designator@ =~= "-"@);
            }
        }
        c == '-'
    } else {
        false
    }
}

/// How one input is to be acquired: read standard input as a stream, map
/// standard input's duplicated descriptor into memory, open a file for
/// streaming reads, or open a file and map it into memory.
#[derive(Clone, Copy, Debug, PartialEq, Eq, Structural)]
pub enum AcquirePlan {
    ReadStdin,
    MapStdin,
    OpenFile,
    MapFile,
}

/// Choose the acquisition strategy for one designator: the stdin sentinel
/// selects a stream or a mapping of the duplicated stdin descriptor; any
/// other designator selects an opened file, mapped when mapping is requested.
pub fn acquire_plan(designator: &str, mmap: bool) -> (p: AcquirePlan)
    ensures
        designator@ == "-"@ && mmap ==> p == AcquirePlan::MapStdin,
        designator@ == "-"@ && !mmap ==> p == AcquirePlan::ReadStdin,
        designator@ != "-"@ && mmap ==> p == AcquirePlan::MapFile,
        designator@ != "-"@ && !mmap ==> p == AcquirePlan::OpenFile,
{
    if is_stdin_sentinel(designator) {
        if mmap {
            AcquirePlan::MapStdin
        } else {
            AcquirePlan::ReadStdin
        }
    } else {
        if mmap {
            AcquirePlan::MapFile
        } else {
            AcquirePlan::OpenFile
        }
    }
}

/// The inputs a run actually processes: the given designators in their given
/// order, or standard input exactly once when none were given.
pub fn effective_inputs(inputs: Vec<String>) -> (r: Vec<String>)
    ensures
        inputs@.len() > 0 ==> r@ == inputs@,
        inputs@.len() == 0 ==> r@.len() == 1 && r@[0]@ == "-"@,
{
    if inputs.len() == 0 {
        let mut v: Vec<String> = Vec::new();
        v.push(stdin_sentinel());
        v
    } else {
        inputs
    }
}

/// A requested digest length in bits is valid when it is nonzero,
/// at most 512, and a whole number of bytes.
pub open spec fn valid_length_bits(bits: usize) -> bool {
    bits != 0 && bits <= 512 && bits % 8 == 0
}

/// Validate the digest-length option: nonzero, at most 512 bits,
/// and a multiple of 8.
pub fn check_length_bits(bits: usize) -> (r: bool)
    ensures
        r == valid_length_bits(bits),
{
    bits != 0 && bits <= 512 && bits % 8 == 0
}

/// Convert a validated bit length into the digest length in bytes.
pub fn length_bytes(bits: usize) -> (r: usize)
    requires
        valid_length_bits(bits),
    ensures
        r == bits / 8,
        1 <= r <= 64,
        r * 8 == bits,
{
    bits / 8
}

} // verus!
