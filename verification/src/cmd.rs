use vstd::prelude::*;
use crate::text::{owned, str_views};

verus! {

/// What a finished system command (`schtasks`, `reg`, ...) reports.
#[derive(Debug, Clone)]
pub struct CommandOutput {
    pub success: bool,
    pub stdout: Vec<u8>,
    pub stderr: Vec<u8>,
}

pub open spec fn string_views(v: Seq<String>) -> Seq<Seq<char>> {
    v.map_values(|s: String| s@)
}

/// The strings as owned values, in order.
pub fn string_list(items: &[&str]) -> (r: Vec<String>)
    ensures
        string_views(r@) == str_views(items@),
{
    let mut r: Vec<String> = Vec::new();
    let mut i: usize = 0;
    while i < items.len()
        invariant
            i <= items.len(),
            string_views(r@) == str_views(items@.take(i as int)),
        decreases items.len() - i,
    {
        r.push(owned(items[i]));
        assert(str_views(items@.take(i as int + 1)) == str_views(items@.take(i as int)).push(items@[i as int]@));
        i = i + 1;
    }
    assert(items@.take(items@.len() as int) == items@);
    r
}

/// The text `String::from_utf8_lossy` makes of `b`.
pub uninterp spec fn utf8_lossy(b: Seq<u8>) -> Seq<char>;

/// Calls `String::from_utf8_lossy`, which decodes UTF-8 and puts U+FFFD in place of each
/// invalid sequence. The result is named, not described.
#[verifier::external_body]
pub(crate) fn decode_lossy(b: &[u8]) -> (r: String)
    ensures
        r@ == utf8_lossy(b@),
{
    String::from_utf8_lossy(b).into_owned()
}

} // verus!
