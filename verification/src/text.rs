use vstd::prelude::*;
use vstd::string::StringSliceAdditionalSpecFns;
use vstd::utf8::encode_utf8_decode_utf8;

verus! {

/// Whether two string slices hold the same text.
pub fn same_text(a: &str, b: &str) -> (r: bool)
    ensures
        r == (a@ == b@),
{
    let x = a.as_bytes();
    let y = b.as_bytes();
    proof {
        encode_utf8_decode_utf8(a@);
        encode_utf8_decode_utf8(b@);
    }
    if x.len() != y.len() {
        return false;
    }
    let mut i: usize = 0;
    while i < x.len()
        invariant
            x.len() == y.len(),
            i <= x.len(),
            x@ == a.spec_bytes(),
            y@ == b.spec_bytes(),
            forall|j: int| 0 <= j < i ==> x@[j] == y@[j],
        decreases x.len() - i,
    {
        if x[i] != y[i] {
            return false;
        }
        i += 1;
    }
    assert(x@ =~= y@);
    true
}

/// A copy of an optional string.
pub fn copy_text(a: &Option<String>) -> (r: Option<String>)
    ensures
        r == *a,
{
    a.clone()
}

/// A copy of a list of strings.
pub fn copy_text_list(a: &Vec<String>) -> (r: Vec<String>)
    ensures
        r.deep_view() == a.deep_view(),
{
    a.clone()
}

/// A copy of an optional list of strings.
pub fn copy_texts(a: &Option<Vec<String>>) -> (r: Option<Vec<String>>)
    ensures
        r.deep_view() == a.deep_view(),
{
    a.clone()
}

} // verus!
