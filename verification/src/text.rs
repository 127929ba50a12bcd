use vstd::prelude::*;

verus! {

/// Whether an entry name ends with the manifest suffix `.content`.
pub open spec fn is_content_name(s: Seq<char>) -> bool {
    &&& s.len() >= 8
    &&& s.subrange(s.len() - 8, s.len() as int) == ".content"@
}

/// The notebook identifier derived from a manifest entry name: the name with
/// the `.content` suffix stripped.
pub open spec fn spec_uuid_of_content_name(s: Seq<char>) -> Seq<char> {
    s.subrange(0, s.len() - 8)
}

/// Tests whether an archive entry name is the notebook's manifest entry.
pub fn has_content_suffix(s: &str) -> (r: bool)
    ensures
        r == is_content_name(s@),
{
    proof {
        reveal_strlit(".content");
    }
    let n = s.unicode_len();
    if n < 8 {
        return false;
    }
    let suffix = ".content";
    let mut i: usize = 0;
    while i < 8
        invariant
            8 <= n == s@.len(),
            i <= 8,
            suffix@ == ".content"@,
            forall|j: int| 0 <= j < i ==> s@[n - 8 + j] == ".content"@[j],
        decreases 8 - i,
    {
        proof {
            reveal_strlit(".content");
        }
        if s.get_char(n - 8 + i) != suffix.get_char(i) {
            proof {
                if is_content_name(s@) {
                    assert(s@.subrange(n - 8, n as int)[i as int] == s@[n - 8 + i]);
                    assert(false);
                }
            }
            return false;
        }
        i += 1;
    }
    proof {
        assert(s@.subrange(n - 8, n as int) =~= ".content"@);
    }
    true
}

/// Strips the `.content` suffix from a manifest entry name, yielding the
/// notebook identifier.
pub fn strip_content_suffix(s: &str) -> (r: String)
    requires
        is_content_name(s@),
    ensures
        r@ == spec_uuid_of_content_name(s@),
{
    let n = s.unicode_len();
    s.substring_char(0, n - 8).to_owned()
}

/// Concatenates two strings.
pub fn concat2(a: &str, b: &str) -> (r: String)
    ensures
        r@ == a@ + b@,
{
    let mut s = a.to_owned();
    s.append(b);
    s
}

/// Concatenates four strings.
pub fn concat4(a: &str, b: &str, c: &str, d: &str) -> (r: String)
    ensures
        r@ == a@ + b@ + c@ + d@,
{
    let mut s = a.to_owned();
    s.append(b);
    s.append(c);
    s.append(d);
    s
}

} // verus!
