use vstd::prelude::*;

verus! {

/// How the read-only byte view over an opened file is to be established.
#[derive(Clone, Copy, Debug, PartialEq, Eq, Structural)]
pub enum ViewPlan {
    /// Use the empty view directly, without a memory mapping.
    EmptyView,
    /// Map the whole file into one contiguous read-only range.
    MapWholeFile,
}

/// Decides the view for an opened file of the given length. A zero-length
/// file is special-cased to the empty view: mapping zero bytes would fail
/// rather than produce a valid view, and digests over zero bytes must still
/// be well defined. Every other file is mapped whole.
pub fn plan_view(file_len: u64) -> (r: ViewPlan)
    ensures
        r is EmptyView <==> file_len == 0,
        r is MapWholeFile <==> file_len != 0,
{
    if file_len == 0 {
        ViewPlan::EmptyView
    } else {
        ViewPlan::MapWholeFile
    }
}

} // verus!
