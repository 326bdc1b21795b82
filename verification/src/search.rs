use vstd::prelude::*;
use vstd::string::*;

verus! {

/// The whitespace characters that `skip_spaces` removes before matching.
pub open spec fn is_space_char(c: char) -> bool {
    c == ' ' || c == '\t' || c == '\n' || c == '\r'
}

pub(crate) fn is_space(c: char) -> (r: bool)
    ensures
        r == is_space_char(c),
{
    c == ' ' || c == '\t' || c == '\n' || c == '\r'
}

/// The lowercase form of a piece of text, as Unicode case mapping defines it.
pub uninterp spec fn lower_of(s: Seq<char>) -> Seq<char>;

/// Relies on str::to_lowercase: the lowercase form depends on the characters
/// of the input alone.
#[verifier::external_body]
fn lowercase(s: &str) -> (r: String)
    ensures
        r@ == lower_of(s@),
{
    s.to_lowercase()
}

/// Relies on String::push: it appends the one character at the end.
#[verifier::external_body]
pub(crate) fn push_char(s: &mut String, c: char)
    ensures
        final(s)@ == old(s)@.push(c),
{
    s.push(c)
}

/// Builds the string spelled by a sequence of characters.
pub(crate) fn string_of_chars(v: &Vec<char>) -> (r: String)
    ensures
        r@ == v@,
{
    let mut r = String::new();
    let mut i: usize = 0;
    while i < v.len()
        invariant
            i <= v@.len(),
            r@ == v@.subrange(0, i as int),
        decreases v@.len() - i,
    {
        push_char(&mut r, v[i]);
        proof {
            assert(v@.subrange(0, i as int).push(v@[i as int]) =~= v@.subrange(0, i + 1));
        }
        i += 1;
    }
    proof {
        assert(v@.subrange(0, v@.len() as int) =~= v@);
    }
    r
}

/// The characters of a string, one by one.
pub(crate) fn chars_vec(s: &str) -> (r: Vec<char>)
    ensures
        r@ == s@,
{
    let n = s.unicode_len();
    let mut r: Vec<char> = Vec::new();
    let mut i: usize = 0;
    while i < n
        invariant
            n == s@.len(),
            i <= n,
            r@ == s@.subrange(0, i as int),
        decreases n - i,
    {
        r.push(s.get_char(i));
        proof {
            assert(s@.subrange(0, i as int).push(s@[i as int]) =~= s@.subrange(0, i + 1));
        }
        i += 1;
    }
    proof {
        assert(s@.subrange(0, n as int) =~= s@);
    }
    r
}

/// The text with every whitespace character removed.
pub open spec fn strip_spaces(s: Seq<char>) -> Seq<char> {
    s.filter(|c: char| !is_space_char(c))
}

fn strip_spaces_chars(v: &Vec<char>) -> (r: Vec<char>)
    ensures
        r@ == strip_spaces(v@),
{
    let mut r: Vec<char> = Vec::new();
    let mut i: usize = 0;
    proof {
        reveal(Seq::filter);
    }
    while i < v.len()
        invariant
            i <= v@.len(),
            r@ == v@.subrange(0, i as int).filter(|c: char| !is_space_char(c)),
        decreases v@.len() - i,
    {
        let c = v[i];
        proof {
            reveal(Seq::filter);
            let pre = v@.subrange(0, i as int);
            let post = v@.subrange(0, i + 1);
            assert(post.drop_last() =~= pre);
            assert(post.last() == v@[i as int]);
        }
        if !is_space(c) {
            r.push(c);
        }
        i += 1;
    }
    proof {
        assert(v@.subrange(0, v@.len() as int) =~= v@);
    }
    r
}

/// The needle occurs in the haystack starting at position `i`.
pub open spec fn seq_contains_at(h: Seq<char>, n: Seq<char>, i: int) -> bool {
    0 <= i && i + n.len() <= h.len() && h.subrange(i, i + n.len()) == n
}

/// The needle occurs somewhere in the haystack.
pub open spec fn seq_contains(h: Seq<char>, n: Seq<char>) -> bool {
    exists|i: int| seq_contains_at(h, n, i)
}

fn contains_chars(h: &Vec<char>, n: &Vec<char>) -> (r: bool)
    ensures
        r == seq_contains(h@, n@),
{
    let hn = h.len();
    let nn = n.len();
    if nn > hn {
        proof {
            assert(forall|i: int| !seq_contains_at(h@, n@, i));
        }
        return false;
    }
    let bound = hn - nn;
    let mut i: usize = 0;
    loop
        invariant
            hn == h@.len(),
            nn == n@.len(),
            nn <= hn,
            bound == hn - nn,
            i <= bound + 1,
            forall|k: int| 0 <= k < i ==> !seq_contains_at(h@, n@, k),
        decreases bound + 1 - i,
    {
        if i > bound {
            proof {
                assert(forall|k: int| seq_contains_at(h@, n@, k) ==> 0 <= k <= bound);
            }
            return false;
        }
        let mut j: usize = 0;
        let mut matched = true;
        while j < nn && matched
            invariant
                hn == h@.len(),
                nn == n@.len(),
                i + nn <= hn,
                j <= nn,
                matched ==> forall|t: int| 0 <= t < j ==> h@[i + t] == n@[t],
                !matched ==> !seq_contains_at(h@, n@, i as int) && nn > 0,
            decreases
                    (if matched {
                        1int
                    } else {
                        0int
                    }),
                    nn - j,
        {
            if h[i + j] != n[j] {
                proof {
                    if seq_contains_at(h@, n@, i as int) {
                        assert(h@.subrange(i as int, i + n@.len())[j as int] == n@[j as int]);
                    }
                }
                matched = false;
            } else {
                j += 1;
            }
        }
        if matched {
            proof {
                assert forall|t: int| 0 <= t < n@.len() implies h@.subrange(
                    i as int,
                    i + n@.len(),
                )[t] == n@[t] by {
                    assert(h@[i + t] == n@[t]);
                }
                assert(h@.subrange(i as int, i + n@.len()) =~= n@);
                assert(seq_contains_at(h@, n@, i as int));
            }
            return true;
        }
        i += 1;
    }
}

/// The normal form of a piece of text: lowercased when `any_case` holds, and
/// stripped of whitespace when `skip_spaces` holds.
pub open spec fn normalize(s: Seq<char>, any_case: bool, skip_spaces: bool) -> Seq<char> {
    let cased = if any_case {
        lower_of(s)
    } else {
        s
    };
    if skip_spaces {
        strip_spaces(cased)
    } else {
        cased
    }
}

/// The target occurs in the source once both are put in normal form.
pub open spec fn spec_str_contains(
    source: Seq<char>,
    target: Seq<char>,
    any_case: bool,
    skip_spaces: bool,
) -> bool {
    seq_contains(
        normalize(source, any_case, skip_spaces),
        normalize(target, any_case, skip_spaces),
    )
}

/// Literal substring containment after independent normalization of both
/// strings: lowercasing when `any_case` holds, whitespace removal when
/// `skip_spaces` holds.
pub fn str_contains(source: &str, target: &str, any_case: bool, skip_spaces: bool) -> (r: bool)
    ensures
        r == spec_str_contains(source@, target@, any_case, skip_spaces),
{
    let s: String = if any_case {
        lowercase(source)
    } else {
        source.to_owned()
    };
    let t: String = if any_case {
        lowercase(target)
    } else {
        target.to_owned()
    };
    let sv = chars_vec(s.as_str());
    let tv = chars_vec(t.as_str());
    if skip_spaces {
        let sv = strip_spaces_chars(&sv);
        let tv = strip_spaces_chars(&tv);
        contains_chars(&sv, &tv)
    } else {
        contains_chars(&sv, &tv)
    }
}

/// Some textual facet of the entity contains the target.
pub open spec fn spec_matches_any(
    facets: Seq<Seq<char>>,
    target: Seq<char>,
    any_case: bool,
    skip_spaces: bool,
) -> bool {
    exists|k: int|
        0 <= k < facets.len() && spec_str_contains(#[trigger] facets[k], target, any_case, skip_spaces)
}

/// No target before position `k` matches the entity.
pub open spec fn no_match_before(
    facets: Seq<Seq<char>>,
    targets: Seq<Seq<char>>,
    k: int,
    any_case: bool,
    skip_spaces: bool,
) -> bool {
    forall|j: int|
        0 <= j < k ==> !spec_matches_any(facets, #[trigger] targets[j], any_case, skip_spaces)
}

/// Whether two strings spell the same characters.
pub fn str_eq(a: &str, b: &str) -> (r: bool)
    ensures
        r == (a@ == b@),
{
    let an = a.unicode_len();
    let bn = b.unicode_len();
    if an != bn {
        return false;
    }
    let mut i: usize = 0;
    while i < an
        invariant
            an == a@.len(),
            an == b@.len(),
            i <= an,
            forall|t: int| 0 <= t < i ==> a@[t] == b@[t],
        decreases an - i,
    {
        if a.get_char(i) != b.get_char(i) {
            return false;
        }
        i += 1;
    }
    proof {
        assert(a@ =~= b@);
    }
    true
}

/// A match against the facets of two entities side by side is a match against
/// either one.
pub proof fn lemma_matches_any_concat(
    a: Seq<Seq<char>>,
    b: Seq<Seq<char>>,
    target: Seq<char>,
    any_case: bool,
    skip_spaces: bool,
)
    ensures
        spec_matches_any(a + b, target, any_case, skip_spaces) <==> (spec_matches_any(
            a,
            target,
            any_case,
            skip_spaces,
        ) || spec_matches_any(b, target, any_case, skip_spaces)),
{
    let c = a + b;
    if spec_matches_any(c, target, any_case, skip_spaces) {
        let k = choose|k: int|
            0 <= k < c.len() && spec_str_contains(#[trigger] c[k], target, any_case, skip_spaces);
        if k < a.len() {
            assert(a[k] == c[k]);
        } else {
            assert(b[k - a.len()] == c[k]);
        }
    }
    if spec_matches_any(a, target, any_case, skip_spaces) {
        let k = choose|k: int|
            0 <= k < a.len() && spec_str_contains(#[trigger] a[k], target, any_case, skip_spaces);
        assert(c[k] == a[k]);
    }
    if spec_matches_any(b, target, any_case, skip_spaces) {
        let k = choose|k: int|
            0 <= k < b.len() && spec_str_contains(#[trigger] b[k], target, any_case, skip_spaces);
        assert(c[k + a.len()] == b[k]);
    }
}

/// A single facet matches exactly when it contains the target.
pub proof fn lemma_matches_any_singleton(
    x: Seq<char>,
    target: Seq<char>,
    any_case: bool,
    skip_spaces: bool,
)
    ensures
        spec_matches_any(seq![x], target, any_case, skip_spaces) == spec_str_contains(
            x,
            target,
            any_case,
            skip_spaces,
        ),
{
    assert(seq![x][0] == x);
}

/// An entity whose textual facets can be searched for a target substring: a
/// match against any one facet counts as a match of the whole entity.
pub trait Search {
    /// The textual facets of the entity, each as its sequence of characters.
    spec fn facets(&self) -> Seq<Seq<char>>;

    /// Whether any facet of the entity contains the target, under the chosen
    /// normalization.
    fn search_contains(&self, target: &str, any_case: bool, skip_spaces: bool) -> (r: bool)
        ensures
            r == spec_matches_any(self.facets(), target@, any_case, skip_spaces),
    ;

    /// The first target in order that the entity matches, if any.
    fn search(&self, targets: &Vec<String>, any_case: bool, skip_spaces: bool) -> (r: Option<
        String,
    >)
        ensures
            match r {
                None => no_match_before(
                    self.facets(),
                    targets.deep_view(),
                    targets.deep_view().len() as int,
                    any_case,
                    skip_spaces,
                ),
                Some(w) => exists|k: int|
                    0 <= k < targets.deep_view().len() && w@ == #[trigger] targets.deep_view()[k]
                        && spec_matches_any(
                        self.facets(),
                        targets.deep_view()[k],
                        any_case,
                        skip_spaces,
                    ) && no_match_before(
                        self.facets(),
                        targets.deep_view(),
                        k,
                        any_case,
                        skip_spaces,
                    ),
            },
    {
        let mut k: usize = 0;
        while k < targets.len()
            invariant
                k <= targets@.len(),
                targets.deep_view().len() == targets@.len(),
                forall|i: int| 0 <= i < targets@.len() ==> targets.deep_view()[i] == targets@[i]@,
                no_match_before(self.facets(), targets.deep_view(), k as int, any_case, skip_spaces),
            decreases targets@.len() - k,
        {
            if self.search_contains(targets[k].as_str(), any_case, skip_spaces) {
                let w = targets[k].clone();
                proof {
                    let kk = k as int;
                    assert(0 <= kk < targets.deep_view().len() && w@ == targets.deep_view()[kk]
                        && spec_matches_any(
                        self.facets(),
                        targets.deep_view()[kk],
                        any_case,
                        skip_spaces,
                    ) && no_match_before(
                        self.facets(),
                        targets.deep_view(),
                        kk,
                        any_case,
                        skip_spaces,
                    ));
                }
                return Some(w);
            }
            k += 1;
        }
        None
    }
}

} // verus!
