//! Schema drift checking.
//!
//! A freshly introspected schema document is compared byte for byte against
//! the checked-in expected copy. On a mismatch the expected copy is to be
//! replaced with the actual document and a warning raised; matching files
//! are left untouched. The decision and the replacement content are computed
//! here; reading and writing the two files is the shell's part.

use vstd::prelude::*;

verus! {

/// Whether the introspected schema and the expected copy agree byte for byte.
pub open spec fn schema_matches(actual: Seq<u8>, expected: Seq<u8>) -> bool {
    actual == expected
}

/// What the expected copy holds after one comparison: untouched when it
/// matched, replaced with the actual document when it did not.
pub open spec fn expected_after_check(actual: Seq<u8>, expected: Seq<u8>) -> Seq<u8> {
    if schema_matches(actual, expected) {
        expected
    } else {
        actual
    }
}

/// The outcome of one schema comparison.
pub struct SchemaCheck {
    /// True when no discrepancy was found; no file is to be written and no
    /// warning raised.
    pub in_sync: bool,
    /// What the expected copy must hold afterwards.
    pub expected_after: Vec<u8>,
}

/// Compares the introspected schema against the expected copy and says what
/// the expected copy must hold afterwards. Exactly on a mismatch the caller
/// overwrites the expected file and warns that the update must be committed.
pub fn compare_schema(actual: &Vec<u8>, expected: &Vec<u8>) -> (r: SchemaCheck)
    ensures
        r.in_sync == schema_matches(actual@, expected@),
        r.expected_after@ == expected_after_check(actual@, expected@),
{
    let in_sync = bytes_equal(actual, expected);
    let expected_after = if in_sync {
        clone_bytes(expected)
    } else {
        clone_bytes(actual)
    };
    SchemaCheck { in_sync, expected_after }
}

/// After one comparison the expected copy equals the actual document
/// exactly, so a second run over the same document finds no discrepancy:
/// the check is idempotent.
pub proof fn lemma_schema_check_idempotent(actual: Seq<u8>, expected: Seq<u8>)
    ensures
        expected_after_check(actual, expected) == actual,
        schema_matches(actual, expected_after_check(actual, expected)),
        expected_after_check(actual, expected_after_check(actual, expected))
            == expected_after_check(actual, expected),
{
}

fn bytes_equal(a: &Vec<u8>, b: &Vec<u8>) -> (r: bool)
    ensures
        r == (a@ == b@),
{
    if a.len() != b.len() {
        return false;
    }
    let mut i: usize = 0;
    while i < a.len()
        invariant
            a@.len() == b@.len(),
            i <= a@.len(),
            forall|k: int| 0 <= k < i ==> a@[k] == b@[k],
        decreases a.len() - i,
    {
        if a[i] != b[i] {
            return false;
        }
        i = i + 1;
    }
    proof {
        assert(a@ =~= b@);
    }
    true
}

fn clone_bytes(v: &Vec<u8>) -> (r: Vec<u8>)
    ensures
        r@ == v@,
{
    let mut out: Vec<u8> = Vec::new();
    let mut i: usize = 0;
    while i < v.len()
        invariant
            i <= v@.len(),
            out@ == v@.take(i as int),
        decreases v.len() - i,
    {
        out.push(v[i]);
        proof {
            assert(v@.take(i as int + 1) =~= v@.take(i as int).push(v@[i as int]));
        }
        i = i + 1;
    }
    proof {
        assert(v@.take(v@.len() as int) =~= v@);
    }
    out
}

} // verus!
