//! The image sizes that the generation service accepts.

use vstd::prelude::*;
use vstd::string::*;

use crate::text::same_text;

verus! {

/// One accepted size: its `WIDTHxHEIGHT` name and its dimensions in pixels.
pub struct SupportedSize {
    pub name: String,
    pub width: u32,
    pub height: u32,
}

/// The accepted sizes, as (name, width, height), widest first.
pub open spec fn size_table() -> Seq<(Seq<char>, u32, u32)> {
    seq![
        ("1664x928"@, 1664u32, 928u32),
        ("1472x1140"@, 1472u32, 1140u32),
        ("1328x1328"@, 1328u32, 1328u32),
        ("1140x1472"@, 1140u32, 1472u32),
        ("928x1664"@, 928u32, 1664u32),
    ]
}

/// The size used when the requested one is not accepted: the square.
pub open spec fn default_size() -> Seq<char> {
    "1328x1328"@
}

/// Whether `s` names one of the accepted sizes.
pub open spec fn is_canonical(s: Seq<char>) -> bool {
    exists|i: int| 0 <= i < size_table().len() && #[trigger] size_table()[i].0 == s
}

/// The size that a request for `s` is sent with.
pub open spec fn resolved_size(s: Seq<char>) -> Seq<char> {
    if is_canonical(s) {
        s
    } else {
        default_size()
    }
}

/// Each accepted size is sent as requested; any other request is sent
/// with the default size, and so every job is sent with an accepted size.
pub proof fn lemma_size_policy(s: Seq<char>)
    ensures
        is_canonical(s) ==> resolved_size(s) == s,
        !is_canonical(s) ==> resolved_size(s) == default_size(),
        is_canonical(resolved_size(s)),
        forall|i: int|
            0 <= i < size_table().len() ==> resolved_size(#[trigger] size_table()[i].0)
                == size_table()[i].0,
{
    assert(size_table()[2].0 == default_size());
    assert forall|i: int| 0 <= i < size_table().len() implies resolved_size(
        #[trigger] size_table()[i].0,
    ) == size_table()[i].0 by {
        assert(is_canonical(size_table()[i].0));
    }
}

/// The accepted sizes, in the order of `size_table`.
pub fn get_supported_sizes() -> (r: Vec<SupportedSize>)
    ensures
        r@.len() == size_table().len(),
        forall|i: int|
            0 <= i < r@.len() ==> (#[trigger] r@[i]).name@ == size_table()[i].0
                && r@[i].width == size_table()[i].1 && r@[i].height == size_table()[i].2,
{
    let mut sizes: Vec<SupportedSize> = Vec::new();
    sizes.push(SupportedSize { name: String::from_str("1664x928"), width: 1664, height: 928 });
    sizes.push(SupportedSize { name: String::from_str("1472x1140"), width: 1472, height: 1140 });
    sizes.push(SupportedSize { name: String::from_str("1328x1328"), width: 1328, height: 1328 });
    sizes.push(SupportedSize { name: String::from_str("1140x1472"), width: 1140, height: 1472 });
    sizes.push(SupportedSize { name: String::from_str("928x1664"), width: 928, height: 1664 });
    sizes
}

/// The size to send for a requested one, and whether the request was
/// replaced by the default because it is not an accepted size.
pub fn resolve_size(requested: &str) -> (r: (String, bool))
    ensures
        r.0@ == resolved_size(requested@),
        r.1 == !is_canonical(requested@),
{
    let sizes = get_supported_sizes();
    let mut i: usize = 0;
    while i < sizes.len()
        invariant
            sizes@.len() == size_table().len(),
            forall|k: int|
                0 <= k < sizes@.len() ==> (#[trigger] sizes@[k]).name@ == size_table()[k].0,
            i <= sizes@.len(),
            forall|k: int| 0 <= k < i ==> size_table()[k].0 != requested@,
        decreases sizes@.len() - i,
    {
        if same_text(sizes[i].name.as_str(), requested) {
            assert(size_table()[i as int].0 == requested@);
            return (String::from_str(requested), false);
        }
        i = i + 1;
    }
    (String::from_str("1328x1328"), true)
}

} // verus!
