//! The determinism check: two runs of one scene with the same arguments are
//! compared line by line, stdout with stdout and stderr with stderr, and the
//! first pair of lines that differ is reported.

use vstd::prelude::*;

use crate::text::texts;

verus! {

/// Whether line `i` is where two streams first differ, among the lines that
/// both of them printed.
pub open spec fn first_difference(a: Seq<Seq<char>>, b: Seq<Seq<char>>, i: int) -> bool {
    &&& 0 <= i < a.len()
    &&& i < b.len()
    &&& a[i] != b[i]
    &&& forall|j: int| 0 <= j < i ==> a[j] == b[j]
}

/// Whether two streams agree on every line that both of them printed.
pub open spec fn agree(a: Seq<Seq<char>>, b: Seq<Seq<char>>) -> bool {
    forall|j: int| 0 <= j < a.len() && j < b.len() ==> a[j] == b[j]
}

/// Compares one pair of lines: the pair itself where they differ.
pub fn compare_lines(a: &String, b: &String) -> (r: Option<(String, String)>)
    ensures
        a@ == b@ ==> r is None,
        a@ != b@ ==> (r matches Some((x, y)) && x@ == a@ && y@ == b@),
{
    if a.eq(b) {
        None
    } else {
        Some((a.clone(), b.clone()))
    }
}

/// The first pair of lines, in lockstep, at which two streams differ.
pub fn first_mismatch(a: &Vec<String>, b: &Vec<String>) -> (r: Option<(String, String)>)
    ensures
        r is None <==> agree(texts(a@), texts(b@)),
        r matches Some((x, y)) ==> exists|i: int|
            first_difference(texts(a@), texts(b@), i) && x@ == (#[trigger] a@[i])@ && y@ == b@[i]@,
{
    let mut i: usize = 0;
    while i < a.len() && i < b.len()
        invariant
            i <= a.len(),
            i <= b.len(),
            forall|j: int| 0 <= j < i ==> #[trigger] texts(a@)[j] == texts(b@)[j],
        decreases a.len() - i,
    {
        if let Some(pair) = compare_lines(&a[i], &b[i]) {
            assert(first_difference(texts(a@), texts(b@), i as int));
            return Some(pair);
        }
        assert(texts(a@)[i as int] == texts(b@)[i as int]);
        i = i + 1;
    }
    None
}

/// The report of a check: the success line, or the lines that describe the
/// mismatch and the failure.
pub fn verdict(mismatch: &Option<(String, String)>) -> (r: Result<String, Vec<String>>)
    ensures
        mismatch is None ==> (r matches Ok(line) && line@ == "determinism check successful"@),
        mismatch matches Some((x, y)) ==> (r matches Err(lines) && texts(lines@) == seq![
            "mismatch:\n\t1: "@ + x@ + "\n\t2: "@ + y@,
            "scene produced non-deterministic output"@,
        ]),
{
    match mismatch {
        None => Ok(String::from_str("determinism check successful")),
        Some((x, y)) => {
            let mut lines: Vec<String> = Vec::new();
            lines.push(
                String::from_str("mismatch:\n\t1: ").concat(x.as_str()).concat("\n\t2: ").concat(
                    y.as_str(),
                ),
            );
            lines.push(String::from_str("scene produced non-deterministic output"));
            assert(texts(lines@) =~= seq![
                "mismatch:\n\t1: "@ + x@ + "\n\t2: "@ + y@,
                "scene produced non-deterministic output"@,
            ]);
            Err(lines)
        },
    }
}

} // verus!
