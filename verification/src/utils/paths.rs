use vstd::prelude::*;

verus! {

/// Path joining as `std::path::PathBuf::push` documents it for Unix: an absolute
/// `seg` replaces `base`; otherwise `seg` follows `base`, with a `/` in between
/// unless `base` is empty or already ends with one.
pub open spec fn spec_join(base: Seq<char>, seg: Seq<char>) -> Seq<char> {
    if seg.len() > 0 && seg[0] == '/' {
        seg
    } else if base.len() == 0 {
        seg
    } else if base.last() == '/' {
        base + seg
    } else {
        base + seq!['/'] + seg
    }
}

/// `std::path::PathBuf::add_extension` for a file name: `.ext` is appended, unless
/// `ext` is empty.
pub open spec fn spec_add_extension(name: Seq<char>, ext: Seq<char>) -> Seq<char> {
    if ext.len() == 0 {
        name
    } else {
        name + seq!['.'] + ext
    }
}

/// Join `seg` onto `base`.
pub fn join(base: &str, seg: &str) -> (p: String)
    ensures
        p@ == spec_join(base@, seg@),
{
    let seg_len = seg.unicode_len();
    if seg_len > 0 && seg.get_char(0) == '/' {
        return String::from_str(seg);
    }
    let base_len = base.unicode_len();
    if base_len == 0 {
        return String::from_str(seg);
    }
    let mut p = String::from_str(base);
    if base.get_char(base_len - 1) != '/' {
        p.append("/");
        proof {
            reveal_strlit("/");
        }
    }
    p.append(seg);
    p
}

/// Append the extension `ext` to the file name `name`.
pub fn add_extension(name: &str, ext: &str) -> (r: String)
    ensures
        r@ == spec_add_extension(name@, ext@),
{
    let mut r = String::from_str(name);
    if ext.unicode_len() != 0 {
        r.append(".");
        r.append(ext);
        proof {
            reveal_strlit(".");
        }
    }
    r
}

} // verus!
