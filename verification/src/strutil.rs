//! Small verified string helpers used throughout the library.

use vstd::prelude::*;

verus! {

/// `s` starts with `prefix` (as character sequences).
pub open spec fn spec_starts_with(s: Seq<char>, prefix: Seq<char>) -> bool {
    prefix.len() <= s.len() && s.subrange(0, prefix.len() as int) == prefix
}

/// The characters of `s` after its last `/`; all of `s` when it holds no
/// `/`, and empty when it ends with one.
pub open spec fn spec_base_name(s: Seq<char>) -> Seq<char>
    decreases s.len(),
{
    if s.len() == 0 {
        Seq::empty()
    } else if s[s.len() - 1] == '/' {
        Seq::empty()
    } else {
        spec_base_name(s.take(s.len() - 1)).push(s[s.len() - 1])
    }
}

/// Past the last separator, the base name is the remaining suffix.
proof fn lemma_base_name_suffix(s: Seq<char>, cut: int)
    requires
        0 <= cut <= s.len(),
        cut > 0 ==> s[cut - 1] == '/',
        forall|j: int| cut <= j < s.len() ==> s[j] != '/',
    ensures
        spec_base_name(s) == s.skip(cut),
    decreases s.len(),
{
    if s.len() == 0 {
        assert(s.skip(cut) =~= Seq::<char>::empty());
    } else if cut == s.len() {
        assert(s[s.len() - 1] == '/');
        assert(s.skip(cut) =~= Seq::<char>::empty());
    } else {
        assert(s[s.len() - 1] != '/');
        let t = s.take(s.len() - 1);
        assert(cut > 0 ==> t[cut - 1] == s[cut - 1]);
        lemma_base_name_suffix(t, cut);
        assert(t.skip(cut).push(s[s.len() - 1]) =~= s.skip(cut));
    }
}

/// The file-name component of a path: what stands after the last `/`
/// separator.
pub fn base_name(path: &str) -> (r: String)
    ensures
        r@ == spec_base_name(path@),
{
    let len = path.unicode_len();
    let mut cut: usize = len;
    while cut > 0 && path.get_char(cut - 1) != '/'
        invariant
            cut <= len,
            len == path@.len(),
            forall|j: int| cut <= j < len ==> path@[j] != '/',
        decreases cut,
    {
        cut -= 1;
    }
    proof {
        lemma_base_name_suffix(path@, cut as int);
    }
    path.substring_char(cut, len).to_owned()
}

/// Character-by-character equality of two string slices.
pub fn str_eq(a: &str, b: &str) -> (r: bool)
    ensures
        r == (a@ == b@),
{
    let alen = a.unicode_len();
    let blen = b.unicode_len();
    if alen != blen {
        assert(a@ != b@) by {
            assert(a@.len() != b@.len());
        }
        return false;
    }
    let mut i: usize = 0;
    while i < alen
        invariant
            alen == a@.len(),
            blen == b@.len(),
            alen == blen,
            i <= alen,
            forall|j: int| 0 <= j < i ==> a@[j] == b@[j],
        decreases alen - i,
    {
        if a.get_char(i) != b.get_char(i) {
            return false;
        }
        i += 1;
    }
    proof {
        assert(a@ =~= b@);
    }
    true
}

/// `s` starts with `prefix`, character by character.
pub fn str_starts_with(s: &str, prefix: &str) -> (r: bool)
    ensures
        r == spec_starts_with(s@, prefix@),
{
    let slen = s.unicode_len();
    let plen = prefix.unicode_len();
    if plen > slen {
        return false;
    }
    let mut i: usize = 0;
    while i < plen
        invariant
            slen == s@.len(),
            plen == prefix@.len(),
            plen <= slen,
            i <= plen,
            forall|j: int| 0 <= j < i ==> s@[j] == prefix@[j],
        decreases plen - i,
    {
        if s.get_char(i) != prefix.get_char(i) {
            assert(!spec_starts_with(s@, prefix@)) by {
                assert(s@.subrange(0, plen as int)[i as int] != prefix@[i as int]);
            }
            return false;
        }
        i += 1;
    }
    proof {
        assert(s@.subrange(0, plen as int) =~= prefix@);
    }
    true
}

} // verus!
