//! Reading named cockpit parameters out of the host's parameter listing,
//! one `name:value` entry per line.
use vstd::prelude::*;
use crate::indication::{split, split_bytes, trim_start, occurs_at_exec, copy_range, skip_space};

verus! {

/// What can go wrong between the orchestrator and the host.
#[derive(Debug, PartialEq, Eq)]
pub enum Error {
    /// What was asked for is not there.
    IndexError,
    /// The other side of a channel is gone.
    CommError,
    /// Text did not have the expected shape; the offending line is kept.
    ParseError(Vec<u8>),
    /// A host call failed.
    HostError,
}

/// `line`, once its leading whitespace is gone, starts with `name:`.
pub open spec fn names_param(line: Seq<u8>, name: Seq<u8>) -> bool {
    let t = trim_start(line);
    let pat = name.push(58u8);
    t.len() >= pat.len() && t.subrange(0, pat.len() as int) == pat
}

/// The first line at or after `k` that names parameter `name`.
pub open spec fn first_param_line(lines: Seq<Seq<u8>>, name: Seq<u8>, k: int) -> Option<int>
    decreases lines.len() - k,
{
    if k < 0 || k >= lines.len() {
        None
    } else if names_param(lines[k], name) {
        Some(k)
    } else {
        first_param_line(lines, name, k + 1)
    }
}

/// Find the text of parameter `name` in a listing: the part of its line
/// between the first and the second colon.
pub fn get_cockpit_param(params: &[u8], name: &[u8]) -> (r: Result<Vec<u8>, Error>)
    ensures
        match first_param_line(split(params@, seq![10u8]), name@, 0) {
            None => r matches Err(Error::IndexError),
            Some(k) => {
                let line = split(params@, seq![10u8])[k];
                let pieces = split(line, seq![58u8]);
                if pieces.len() < 2 {
                    r matches Err(Error::ParseError(l)) && l@ == line
                } else {
                    r matches Ok(v) && v@ == pieces[1]
                }
            },
        },
{
    let mut newline: Vec<u8> = Vec::new();
    newline.push(10u8);
    let mut colon: Vec<u8> = Vec::new();
    colon.push(58u8);
    let mut pattern = copy_range(name, 0, name.len());
    pattern.push(58u8);
    proof {
        assert(newline@ =~= seq![10u8]);
        assert(colon@ =~= seq![58u8]);
        assert(name@.subrange(0, name@.len() as int) =~= name@);
    }
    let lines = split_bytes(params, newline.as_slice());
    let ghost lv = lines@.map_values(|v: Vec<u8>| v@);
    let mut k: usize = 0;
    while k < lines.len()
        invariant
            lv == lines@.map_values(|v: Vec<u8>| v@),
            lv == split(params@, seq![10u8]),
            pattern@ == name@.push(58u8),
            colon@ == seq![58u8],
            0 <= k <= lv.len(),
            first_param_line(lv, name@, 0) == first_param_line(lv, name@, k as int),
        decreases lv.len() - k,
    {
        let line = lines[k].as_slice();
        proof {
            assert(line@ == lv[k as int]);
        }
        let n = line.len();
        let mut start: usize = 0;
        while start < n && (line[start] == 32u8 || (9u8 <= line[start] && line[start] <= 13u8))
            invariant
                n == line@.len(),
                0 <= start <= n,
                skip_space(line@, start as int) == skip_space(line@, 0),
            decreases n - start,
        {
            start = start + 1;
        }
        let trimmed = copy_range(line, start, n);
        if occurs_at_exec(trimmed.as_slice(), pattern.as_slice(), 0) {
            let pieces = split_bytes(line, colon.as_slice());
            proof {
                assert(pieces@.map_values(|v: Vec<u8>| v@).len() == pieces@.len());
            }
            if pieces.len() < 2 {
                return Err(Error::ParseError(copy_range(line, 0, n)));
            }
            proof {
                assert(pieces@.map_values(|v: Vec<u8>| v@)[1] == pieces@[1]@);
                assert(line@.subrange(0, n as int) =~= line@);
            }
            return Ok(pieces[1].clone());
        }
        k = k + 1;
    }
    Err(Error::IndexError)
}

} // verus!
