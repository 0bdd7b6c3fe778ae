use vstd::prelude::*;

verus! {

/// Whether `s` starts with `prefix`.
pub open spec fn has_prefix(s: Seq<char>, prefix: Seq<char>) -> bool {
    prefix.len() <= s.len() && s.take(prefix.len() as int) == prefix
}

/// The asset paths of `paths` that lie under `prefix`, in order.
pub open spec fn spec_assets_under(paths: Seq<Seq<char>>, prefix: Seq<char>) -> Seq<Seq<char>>
    decreases paths.len(),
{
    if paths.len() == 0 {
        Seq::empty()
    } else if has_prefix(paths.last(), prefix) {
        spec_assets_under(paths.drop_last(), prefix).push(paths.last())
    } else {
        spec_assets_under(paths.drop_last(), prefix)
    }
}

/// Whether `s` starts with `prefix`.
pub fn starts_with(s: &str, prefix: &str) -> (b: bool)
    ensures
        b == has_prefix(s@, prefix@),
{
    let n = prefix.unicode_len();
    let len = s.unicode_len();
    if n > len {
        return false;
    }
    let mut i: usize = 0;
    while i < n
        invariant
            0 <= i <= n <= len,
            n == prefix@.len(),
            len == s@.len(),
            forall|j: int| 0 <= j < i ==> s@[j] == prefix@[j],
        decreases n - i,
    {
        if s.get_char(i) != prefix.get_char(i) {
            proof {
                assert(s@.take(n as int)[i as int] != prefix@[i as int]);
            }
            return false;
        }
        i = i + 1;
    }
    proof {
        assert(s@.take(n as int) =~= prefix@);
    }
    true
}

/// The embedded asset paths under `prefix`, as the asset source lists them.
pub fn assets_under(paths: &Vec<String>, prefix: &str) -> (under: Vec<String>)
    ensures
        under.deep_view() == spec_assets_under(paths.deep_view(), prefix@),
{
    let ghost all = paths.deep_view();
    let mut under: Vec<String> = Vec::new();
    let mut i: usize = 0;
    while i < paths.len()
        invariant
            0 <= i <= paths@.len(),
            all == paths.deep_view(),
            under.deep_view() == spec_assets_under(all.take(i as int), prefix@),
        decreases paths@.len() - i,
    {
        proof {
            assert(all.take(i + 1).drop_last() =~= all.take(i as int));
        }
        if starts_with(paths[i].as_str(), prefix) {
            under.push(paths[i].clone());
            proof {
                assert(under.deep_view() =~= spec_assets_under(all.take(i + 1), prefix@));
            }
        }
        i = i + 1;
    }
    proof {
        assert(all.take(paths@.len() as int) =~= all);
    }
    under
}

/// Whether an asset request is answered with no asset at all: the empty path.
pub fn is_empty_asset_path(path: &str) -> (empty: bool)
    ensures
        empty == (path@.len() == 0),
{
    path.unicode_len() == 0
}

} // verus!
