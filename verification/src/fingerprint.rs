//! Fingerprint checks deciding whether the provisioned environment is
//! current: an exact comparison of the runtime's version probe output and a
//! byte-for-byte comparison of the installed dependency list against the
//! bundled one. Both checks are total: a missing file or a failed probe is a
//! normal mismatch, never an error.

use vstd::prelude::*;

verus! {

/// A byte counted as whitespace when trimming a version probe's output.
pub open spec fn is_ascii_space(b: u8) -> bool {
    b == 32 || b == 9 || b == 10 || b == 11 || b == 12 || b == 13
}

/// `s` with every leading and trailing whitespace byte removed.
pub open spec fn trimmed(s: Seq<u8>) -> Seq<u8>
    decreases s.len(),
{
    if s.len() == 0 {
        s
    } else if is_ascii_space(s[0]) {
        trimmed(s.subrange(1, s.len() as int))
    } else if is_ascii_space(s[s.len() - 1]) {
        trimmed(s.subrange(0, s.len() - 1))
    } else {
        s
    }
}

/// The byte contents of an optional byte vector, as mathematical sequences.
pub open spec fn opt_view(o: Option<Vec<u8>>) -> Option<Seq<u8>> {
    match o {
        Option::Some(v) => Option::Some(v@),
        Option::None => Option::None,
    }
}

/// The probe succeeded and its output, trimmed, is exactly the expected line.
pub open spec fn runtime_matches_spec(probe: Option<Seq<u8>>, expected: Seq<u8>) -> bool {
    match probe {
        Option::Some(output) => trimmed(output) == expected,
        Option::None => false,
    }
}

/// The installed dependency list was readable and is byte-identical to the
/// bundled one; nothing is normalized.
pub open spec fn dependencies_match_spec(installed: Option<Seq<u8>>, bundled: Seq<u8>) -> bool {
    installed == Option::Some(bundled)
}

/// `s.subrange(i, j)` is the trimmed form of `s` whenever everything outside
/// `i..j` is whitespace and the ends inside are not.
proof fn lemma_trimmed_is_subrange(s: Seq<u8>, i: int, j: int)
    requires
        0 <= i <= j <= s.len(),
        forall|k: int| 0 <= k < i ==> is_ascii_space(s[k]),
        forall|k: int| j <= k < s.len() ==> is_ascii_space(s[k]),
        i < j ==> !is_ascii_space(s[i]) && !is_ascii_space(s[j - 1]),
    ensures
        trimmed(s) == s.subrange(i, j),
    decreases s.len(),
{
    if s.len() == 0 {
        assert(s.subrange(i, j) =~= s);
    } else if is_ascii_space(s[0]) {
        let t = s.subrange(1, s.len() as int);
        if i == 0 {
            assert(i == j);
            lemma_trimmed_is_subrange(t, 0, 0);
            assert(s.subrange(0, 0) =~= t.subrange(0, 0));
        } else {
            lemma_trimmed_is_subrange(t, i - 1, j - 1);
            assert(s.subrange(i, j) =~= t.subrange(i - 1, j - 1));
        }
    } else if is_ascii_space(s[s.len() - 1]) {
        let t = s.subrange(0, s.len() - 1);
        assert(i == 0);
        assert(j < s.len());
        lemma_trimmed_is_subrange(t, 0, j);
        assert(s.subrange(0, j) =~= t.subrange(0, j));
    } else {
        assert(i == 0);
        assert(j == s.len());
        assert(s.subrange(0, s.len() as int) =~= s);
    }
}

/// A sequence with no surrounding whitespace is its own trimmed form; in
/// particular a well-formed expected version line comes back unchanged from
/// the probe comparison's trimming.
pub proof fn lemma_trimmed_fixed_point(s: Seq<u8>)
    requires
        s.len() > 0 ==> !is_ascii_space(s[0]) && !is_ascii_space(s[s.len() - 1]),
    ensures
        trimmed(s) == s,
{
    lemma_trimmed_is_subrange(s, 0, s.len() as int);
    assert(s.subrange(0, s.len() as int) =~= s);
}

fn is_space(b: u8) -> (r: bool)
    ensures
        r == is_ascii_space(b),
{
    b == 32 || b == 9 || b == 10 || b == 11 || b == 12 || b == 13
}

/// True iff the two slices hold the same bytes.
fn bytes_equal(a: &[u8], b: &[u8]) -> (r: bool)
    ensures
        r == (a@ == b@),
{
    if a.len() != b.len() {
        return false;
    }
    let mut k: usize = 0;
    while k < a.len()
        invariant
            0 <= k <= a@.len(),
            a@.len() == b@.len(),
            forall|m: int| 0 <= m < k ==> a@[m] == b@[m],
        decreases a@.len() - k,
    {
        let x = *vstd::slice::slice_index_get(a, k);
        let y = *vstd::slice::slice_index_get(b, k);
        if x != y {
            return false;
        }
        k += 1;
    }
    proof {
        assert(a@ =~= b@);
    }
    true
}

/// Decides whether the installed runtime is the expected one from the output
/// of its version probe: true iff the probe succeeded and its output, with
/// surrounding whitespace trimmed, equals `expected` exactly. A failed probe
/// (`None`) is an ordinary mismatch — the expected state on a fresh machine —
/// and never an error.
pub fn runtime_matches(probe_output: &Option<Vec<u8>>, expected: &Vec<u8>) -> (r: bool)
    ensures
        r == runtime_matches_spec(opt_view(*probe_output), expected@),
{
    match probe_output {
        Option::None => false,
        Option::Some(out) => {
            let n = out.len();
            let mut i: usize = 0;
            loop
                invariant
                    n == out@.len(),
                    0 <= i <= n,
                    forall|k: int| 0 <= k < i ==> is_ascii_space(out@[k]),
                ensures
                    0 <= i <= n,
                    forall|k: int| 0 <= k < i ==> is_ascii_space(out@[k]),
                    i < n ==> !is_ascii_space(out@[i as int]),
                decreases n - i,
            {
                if i < n {
                    if is_space(out[i]) {
                        i += 1;
                    } else {
                        break;
                    }
                } else {
                    break;
                }
            }
            let mut j: usize = n;
            loop
                invariant
                    n == out@.len(),
                    i <= j <= n,
                    i < n ==> !is_ascii_space(out@[i as int]),
                    forall|k: int| j <= k < n ==> is_ascii_space(out@[k]),
                ensures
                    i <= j <= n,
                    forall|k: int| j <= k < n ==> is_ascii_space(out@[k]),
                    i < j ==> !is_ascii_space(out@[j - 1]),
                decreases j,
            {
                if j > i {
                    if is_space(out[j - 1]) {
                        j -= 1;
                    } else {
                        break;
                    }
                } else {
                    break;
                }
            }
            proof {
                lemma_trimmed_is_subrange(out@, i as int, j as int);
            }
            bytes_equal(vstd::slice::slice_subrange(out.as_slice(), i, j), expected.as_slice())
        }
    }
}

/// Decides whether the installed dependency list is up to date: true iff it
/// could be read and is byte-identical to the bundled list. A missing file on
/// the installed side is an ordinary mismatch, never an error.
pub fn dependencies_match(installed: &Option<Vec<u8>>, bundled: &Vec<u8>) -> (r: bool)
    ensures
        r == dependencies_match_spec(opt_view(*installed), bundled@),
{
    match installed {
        Option::None => false,
        Option::Some(contents) => bytes_equal(contents.as_slice(), bundled.as_slice()),
    }
}

} // verus!
