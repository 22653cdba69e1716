use vstd::prelude::*;
use vstd::string::*;

verus! {

/// Whether `p` is an absolute Unix path (it starts at the root).
pub open spec fn spec_is_absolute(p: Seq<char>) -> bool {
    p.len() > 0 && p[0] == '/'
}

/// Appending one component to a path, the way a Unix path buffer grows:
/// an absolute component replaces the path, otherwise a `/` separator is
/// inserted unless the path is empty or already ends with one.
pub open spec fn spec_join(base: Seq<char>, part: Seq<char>) -> Seq<char> {
    if spec_is_absolute(part) {
        part
    } else if base.len() == 0 || base.last() == '/' {
        base + part
    } else {
        base + seq!['/'] + part
    }
}

/// A path built from an empty one by appending each component in turn.
pub open spec fn spec_collect(parts: Seq<Seq<char>>) -> Seq<char>
    decreases parts.len(),
{
    if parts.len() == 0 {
        Seq::empty()
    } else {
        spec_join(spec_collect(parts.drop_last()), parts.last())
    }
}

/// Appends the component `part` to the path `base`.
pub fn join_path(base: &str, part: &str) -> (res: String)
    ensures
        res@ == spec_join(base@, part@),
{
    let part_len = part.unicode_len();
    if part_len > 0 && part.get_char(0) == '/' {
        return String::from_str(part);
    }
    let base_len = base.unicode_len();
    if base_len == 0 || base.get_char(base_len - 1) == '/' {
        String::from_str(base).concat(part)
    } else {
        let res = String::from_str(base).concat("/").concat(part);
        proof {
            reveal_strlit("/");
        }
        assert(res@ =~= base@ + seq!['/'] + part@);
        res
    }
}

/// Builds the path that results from appending the three components in order.
pub fn collect3(a: &str, b: &str, c: &str) -> (res: String)
    ensures
        res@ == spec_collect(seq![a@, b@, c@]),
{
    let ab = join_path(a, b);
    let res = join_path(ab.as_str(), c);
    proof {
        let parts = seq![a@, b@, c@];
        assert(parts.drop_last() =~= seq![a@, b@]);
        assert(seq![a@, b@].drop_last() =~= seq![a@]);
        assert(seq![a@].drop_last() =~= Seq::<Seq<char>>::empty());
        assert(spec_join(Seq::empty(), a@) =~= a@);
        assert(spec_collect(Seq::<Seq<char>>::empty()) == Seq::<char>::empty());
        assert(spec_collect(seq![a@]) == spec_join(Seq::empty(), a@));
        assert(spec_collect(seq![a@]) == a@);
        assert(spec_collect(seq![a@, b@]) == ab@);
        assert(spec_collect(parts) == res@);
    }
    res
}

/// Builds the path that results from appending the two components in order.
pub fn collect2(a: &str, b: &str) -> (res: String)
    ensures
        res@ == spec_collect(seq![a@, b@]),
{
    let res = join_path(a, b);
    proof {
        assert(seq![a@, b@].drop_last() =~= seq![a@]);
        assert(seq![a@].drop_last() =~= Seq::<Seq<char>>::empty());
        assert(spec_join(Seq::empty(), a@) =~= a@);
        assert(spec_collect(Seq::<Seq<char>>::empty()) == Seq::<char>::empty());
        assert(spec_collect(seq![a@]) == spec_join(Seq::empty(), a@));
        assert(spec_collect(seq![a@]) == a@);
    }
    res
}

/// Concatenation of two strings.
pub fn concat2(a: &str, b: &str) -> (res: String)
    ensures
        res@ == a@ + b@,
{
    String::from_str(a).concat(b)
}

/// Concatenation of three strings.
pub fn concat3(a: &str, b: &str, c: &str) -> (res: String)
    ensures
        res@ == a@ + b@ + c@,
{
    String::from_str(a).concat(b).concat(c)
}

/// `k` is the position of the last `/` in `p`.
pub open spec fn is_last_slash(p: Seq<char>, k: int) -> bool {
    &&& 0 <= k < p.len()
    &&& p[k] == '/'
    &&& forall|j: int| k < j < p.len() ==> p[j] != '/'
}

/// The last component of a path that does not end with `/`: what follows its
/// last `/`, or the whole path when it has none.
pub open spec fn spec_file_name(p: Seq<char>) -> Seq<char> {
    if exists|k: int| is_last_slash(p, k) {
        p.skip((choose|k: int| is_last_slash(p, k)) + 1)
    } else {
        p
    }
}

/// The last component of the path `p`, which must not end with `/`.
pub fn file_name(p: &str) -> (res: String)
    ensures
        res@ == spec_file_name(p@),
{
    let len = p.unicode_len();
    let mut i = len;
    while i > 0
        invariant
            i <= len,
            len == p@.len(),
            forall|j: int| i <= j < len ==> p@[j] != '/',
        decreases i,
    {
        if p.get_char(i - 1) == '/' {
            let k = i - 1;
            assert(is_last_slash(p@, k as int));
            proof {
                let c = choose|k: int| is_last_slash(p@, k);
                assert(is_last_slash(p@, c));
                if c < k {
                    assert(p@[k as int] != '/');
                } else if c > k {
                    assert(p@[c] != '/');
                }
                assert(c == k);
            }
            let res = String::from_str(p.substring_char(i, len));
            assert(res@ =~= p@.skip(i as int));
            return res;
        }
        i = i - 1;
    }
    assert(!exists|k: int| is_last_slash(p@, k));
    String::from_str(p)
}

} // verus!
