use vstd::prelude::*;

verus! {

/// An image reference `name[:tag]`.
#[derive(Debug, PartialEq, Eq)]
pub struct ImageRef {
    pub name: String,
    pub tag: String,
}

/// Position of the first `c` in `s`, if any.
pub open spec fn first_index_of(s: Seq<char>, c: char) -> Option<int> {
    if exists|i: int| 0 <= i < s.len() && s[i] == c {
        Some(choose|i: int| 0 <= i < s.len() && s[i] == c && forall|j: int| 0 <= j < i ==> s[j] != c)
    } else {
        None
    }
}

/// The part of `s` before the first `c`, or all of `s`.
pub open spec fn before_char(s: Seq<char>, c: char) -> Seq<char> {
    match first_index_of(s, c) {
        Some(i) => s.subrange(0, i),
        None => s,
    }
}

/// The tag a reference names when none is given.
pub open spec fn default_tag() -> Seq<char> {
    seq!['l', 'a', 't', 'e', 's', 't']
}

/// The name of a reference: everything before the first `:`.
pub open spec fn ref_name(s: Seq<char>) -> Seq<char> {
    before_char(s, ':')
}

/// The tag of a reference: the segment after the first `:` up to the next
/// one, or `latest` when there is no `:`.
pub open spec fn ref_tag(s: Seq<char>) -> Seq<char> {
    match first_index_of(s, ':') {
        Some(i) => before_char(s.subrange(i + 1, s.len() as int), ':'),
        None => default_tag(),
    }
}

/// Index of the first `c` in `s` at or after `from`, or the length of `s`.
fn find_char(s: &str, c: char, from: usize) -> (r: usize)
    requires
        from <= s@.len(),
    ensures
        from <= r <= s@.len(),
        forall|j: int| from <= j < r ==> s@[j] != c,
        r < s@.len() ==> s@[r as int] == c,
{
    let n = s.unicode_len();
    let mut i: usize = from;
    while i < n
        invariant
            n == s@.len(),
            from <= i <= n,
            forall|j: int| from <= j < i ==> s@[j] != c,
        decreases n - i,
    {
        if s.get_char(i) == c {
            return i;
        }
        i = i + 1;
    }
    i
}

proof fn lemma_first_index(s: Seq<char>, c: char, k: int)
    requires
        0 <= k <= s.len(),
        forall|j: int| 0 <= j < k ==> s[j] != c,
        k < s.len() ==> s[k] == c,
    ensures
        k < s.len() ==> first_index_of(s, c) == Some(k),
        k == s.len() ==> first_index_of(s, c) is None,
{
    if k < s.len() {
        let i = choose|i: int| 0 <= i < s.len() && s[i] == c && forall|j: int| 0 <= j < i ==> s[j] != c;
        assert(0 <= k < s.len() && s[k] == c && forall|j: int| 0 <= j < k ==> s[j] != c);
        if i < k {
        } else if i > k {
            assert(s[k] != c);
        }
    }
}

/// Splits `name[:tag]` into its name and tag; the tag is `latest` when absent.
pub fn parse_image_ref(reference: &str) -> (r: ImageRef)
    ensures
        r.name@ == ref_name(reference@),
        r.tag@ == ref_tag(reference@),
{
    let n = reference.unicode_len();
    let k = find_char(reference, ':', 0);
    proof {
        lemma_first_index(reference@, ':', k as int);
    }
    let name = String::from_str(reference.substring_char(0, k));
    if k == n {
        let tag = String::from_str("latest");
        proof {
            reveal_strlit("latest");
            assert(tag@ =~= default_tag());
        }
        return ImageRef { name, tag };
    }
    let rest = reference.substring_char(k + 1, n);
    let m = find_char(rest, ':', 0);
    proof {
        lemma_first_index(rest@, ':', m as int);
    }
    let tag = rest.substring_char(0, m);
    ImageRef { name, tag: String::from_str(tag) }
}

} // verus!
