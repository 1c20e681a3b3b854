//! Verified helpers over strings, association lists and `/`-separated
//! path strings. All contracts are stated over `Seq<char>` views.

use vstd::prelude::*;

verus! {

/// Character-wise equality of two string slices.
pub fn str_eq(a: &str, b: &str) -> (r: bool)
    ensures
        r == (a@ == b@),
{
    let alen = a.unicode_len();
    let blen = b.unicode_len();
    if alen != blen {
        assert(a@ != b@);
        return false;
    }
    let mut i: usize = 0;
    while i < alen
        invariant
            alen == a@.len(),
            blen == b@.len(),
            alen == blen,
            i <= alen,
            forall|j: int| 0 <= j < i ==> a@[j] == b@[j],
        decreases alen - i,
    {
        if a.get_char(i) != b.get_char(i) {
            assert(a@[i as int] != b@[i as int]);
            assert(a@ != b@);
            return false;
        }
        i = i + 1;
    }
    assert(a@ =~= b@);
    true
}

/// Whether a character occurs in a string slice.
pub fn str_contains_char(s: &str, c: char) -> (r: bool)
    ensures
        r == s@.contains(c),
{
    let len = s.unicode_len();
    let mut i: usize = 0;
    while i < len
        invariant
            len == s@.len(),
            i <= len,
            forall|j: int| 0 <= j < i ==> s@[j] != c,
        decreases len - i,
    {
        if s.get_char(i) == c {
            assert(s@[i as int] == c);
            return true;
        }
        i = i + 1;
    }
    assert(forall|j: int| 0 <= j < s@.len() ==> s@[j] != c);
    false
}

/// An association list holds a key when some entry's key reads the same.
pub open spec fn alist_has<V>(m: Seq<(String, V)>, k: Seq<char>) -> bool {
    exists|i: int| 0 <= i < m.len() && #[trigger] m[i].0@ == k
}

/// The index of the first entry with the given key, or the length if none.
pub open spec fn alist_idx<V>(m: Seq<(String, V)>, k: Seq<char>) -> int
    decreases m.len(),
{
    if m.len() == 0 {
        0
    } else if m[0].0@ == k {
        0
    } else {
        1 + alist_idx(m.drop_first(), k)
    }
}

proof fn lemma_alist_idx_bounds<V>(m: Seq<(String, V)>, k: Seq<char>)
    ensures
        0 <= alist_idx(m, k) <= m.len(),
        alist_has(m, k) <==> alist_idx(m, k) < m.len(),
        alist_idx(m, k) < m.len() ==> m[alist_idx(m, k)].0@ == k,
        forall|j: int| 0 <= j < alist_idx(m, k) ==> m[j].0@ != k,
    decreases m.len(),
{
    if m.len() == 0 {
    } else if m[0].0@ == k {
    } else {
        lemma_alist_idx_bounds(m.drop_first(), k);
        assert forall|j: int| 0 <= j < alist_idx(m, k) implies m[j].0@ != k by {
            if j > 0 {
                assert(m.drop_first()[j - 1].0@ != k);
            }
        }
        if alist_idx(m, k) < m.len() {
            assert(m.drop_first()[alist_idx(m.drop_first(), k)].0@ == k);
        }
        if alist_has(m, k) {
            let i = choose|i: int| 0 <= i < m.len() && #[trigger] m[i].0@ == k;
            assert(m.drop_first()[i - 1].0@ == k);
            assert(alist_has(m.drop_first(), k));
        }
    }
}

/// Finds the first entry with the given key and returns its index.
pub fn alist_find<V>(m: &Vec<(String, V)>, k: &str) -> (r: Option<usize>)
    ensures
        match r {
            Some(i) => i == alist_idx(m@, k@) && i < m@.len() && m@[i as int].0@ == k@,
            None => !alist_has(m@, k@),
        },
{
    proof {
        lemma_alist_idx_bounds(m@, k@);
    }
    let mut i: usize = 0;
    while i < m.len()
        invariant
            i <= m@.len(),
            forall|j: int| 0 <= j < i ==> m@[j].0@ != k@,
            0 <= alist_idx(m@, k@) <= m@.len(),
            alist_has(m@, k@) <==> alist_idx(m@, k@) < m@.len(),
            alist_idx(m@, k@) < m@.len() ==> m@[alist_idx(m@, k@)].0@ == k@,
            forall|j: int| 0 <= j < alist_idx(m@, k@) ==> m@[j].0@ != k@,
        decreases m@.len() - i,
    {
        if str_eq(m[i].0.as_str(), k) {
            assert(i == alist_idx(m@, k@)) by {
                if i < alist_idx(m@, k@) {
                    assert(m@[i as int].0@ != k@);
                }
                if i > alist_idx(m@, k@) {
                    assert(m@[alist_idx(m@, k@)].0@ != k@);
                }
            }
            return Some(i);
        }
        i = i + 1;
    }
    assert(!alist_has(m@, k@));
    None
}

} // verus!

verus! {

/// Index of the first `/` in a path, or the length when there is none.
pub open spec fn first_slash(s: Seq<char>) -> int
    decreases s.len(),
{
    if s.len() == 0 {
        0
    } else if s[0] == '/' {
        0
    } else {
        1 + first_slash(s.drop_first())
    }
}

pub proof fn lemma_first_slash(s: Seq<char>)
    ensures
        0 <= first_slash(s) <= s.len(),
        first_slash(s) < s.len() ==> s[first_slash(s)] == '/',
        forall|j: int| 0 <= j < first_slash(s) ==> s[j] != '/',
    decreases s.len(),
{
    if s.len() == 0 {
    } else if s[0] == '/' {
    } else {
        lemma_first_slash(s.drop_first());
        assert forall|j: int| 0 <= j < first_slash(s) implies s[j] != '/' by {
            if j > 0 {
                assert(s.drop_first()[j - 1] != '/');
            }
        }
    }
}

/// The components of a path, split on `/`. Splitting the empty path
/// yields one empty component.
pub open spec fn split_slash(s: Seq<char>) -> Seq<Seq<char>>
    decreases s.len(),
{
    let i = first_slash(s);
    if 0 <= i < s.len() {
        proof {
            lemma_first_slash(s);
        }
        seq![s.subrange(0, i)] + split_slash(s.subrange(i + 1, s.len() as int))
    } else {
        seq![s]
    }
}

/// If the first `j` characters hold no slash and position `j` is a slash
/// (or the end), the split begins with exactly that prefix.
proof fn lemma_first_slash_at(s: Seq<char>, j: int)
    requires
        0 <= j <= s.len(),
        forall|k: int| 0 <= k < j ==> s[k] != '/',
        j < s.len() ==> s[j] == '/',
    ensures
        first_slash(s) == j,
    decreases s.len(),
{
    if s.len() == 0 {
    } else if s[0] == '/' {
    } else {
        assert forall|k: int| 0 <= k < j - 1 implies s.drop_first()[k] != '/' by {
            assert(s[k + 1] != '/');
        }
        lemma_first_slash_at(s.drop_first(), j - 1);
    }
}

/// Splits a path string into its `/`-separated components.
pub fn split_slash_exec(s: &str) -> (r: Vec<String>)
    ensures
        r.deep_view() == split_slash(s@),
{
    let len = s.unicode_len();
    let mut r: Vec<String> = Vec::new();
    let mut start: usize = 0;
    let mut i: usize = 0;
    proof {
        assert(s@.subrange(0, len as int) =~= s@);
        assert(r.deep_view() =~= Seq::<Seq<char>>::empty());
        assert(Seq::<Seq<char>>::empty() + split_slash(s@) =~= split_slash(s@));
    }
    while i < len
        invariant
            len == s@.len(),
            start <= i <= len,
            forall|k: int| start <= k < i ==> s@[k] != '/',
            r.deep_view() + split_slash(s@.subrange(start as int, len as int)) == split_slash(s@),
        decreases len - i,
    {
        if s.get_char(i) == '/' {
            let comp = s.substring_char(start, i).to_owned();
            proof {
                let tail = s@.subrange(start as int, len as int);
                assert forall|k: int| 0 <= k < i - start implies tail[k] != '/' by {
                    assert(s@[start + k] != '/');
                }
                assert(tail[i - start] == '/');
                lemma_first_slash_at(tail, i - start);
                assert(comp@ =~= tail.subrange(0, i - start));
                assert(tail.subrange(i - start + 1, tail.len() as int) =~= s@.subrange(
                    i + 1,
                    len as int,
                ));
                assert(split_slash(tail) == seq![comp@] + split_slash(
                    s@.subrange(i + 1, len as int),
                ));
                assert((r.deep_view().push(comp@)) + split_slash(s@.subrange(i + 1, len as int))
                    =~= r.deep_view() + split_slash(tail));
            }
            let ghost old_r = r.deep_view();
            r.push(comp);
            proof {
                assert(r.deep_view() =~= old_r.push(r@[r@.len() - 1].deep_view()));
            }
            start = i + 1;
        }
        i = i + 1;
    }
    let comp = s.substring_char(start, len).to_owned();
    proof {
        let tail = s@.subrange(start as int, len as int);
        assert forall|k: int| 0 <= k < tail.len() implies tail[k] != '/' by {
            assert(s@[start + k] != '/');
        }
        lemma_first_slash_at(tail, tail.len() as int);
        assert(split_slash(tail) == seq![tail]);
        assert(comp@ =~= tail);
        assert(r.deep_view() + seq![comp@] =~= r.deep_view().push(comp@));
    }
    let ghost old_r = r.deep_view();
    r.push(comp);
    proof {
        assert(r.deep_view() =~= old_r.push(r@[r@.len() - 1].deep_view()));
    }
    r
}

} // verus!

verus! {

/// Lexical normalization over components: empty and `.` components are
/// dropped, `..` removes the last kept component (or is dropped when none
/// is left), anything else is kept.
pub open spec fn norm_fold(cs: Seq<Seq<char>>, acc: Seq<Seq<char>>) -> Seq<Seq<char>>
    decreases cs.len(),
{
    if cs.len() == 0 {
        acc
    } else {
        let c = cs[0];
        let rest = cs.drop_first();
        if c.len() == 0 || c == seq!['.'] {
            norm_fold(rest, acc)
        } else if c == seq!['.', '.'] {
            norm_fold(rest, if acc.len() > 0 {
                acc.drop_last()
            } else {
                acc
            })
        } else {
            norm_fold(rest, acc.push(c))
        }
    }
}

/// Joins components with `/`, without a leading separator.
pub open spec fn join_rel(cs: Seq<Seq<char>>) -> Seq<char>
    decreases cs.len(),
{
    if cs.len() == 0 {
        Seq::empty()
    } else if cs.len() == 1 {
        cs[0]
    } else {
        join_rel(cs.drop_last()) + seq!['/'] + cs.last()
    }
}

/// A lexically normalized path: `.` and `..` segments resolved, repeated
/// separators dropped, a leading `/` kept.
pub open spec fn normalize_spec(s: Seq<char>) -> Seq<char> {
    let comps = norm_fold(split_slash(s), Seq::empty());
    if s.len() > 0 && s[0] == '/' {
        seq!['/'] + join_rel(comps)
    } else {
        join_rel(comps)
    }
}

/// Joins components with `/` into a fresh string.
fn join_rel_exec(cs: &Vec<String>) -> (r: String)
    ensures
        r@ == join_rel(cs.deep_view()),
{
    let mut r = String::new();
    let mut i: usize = 0;
    proof {
        assert(cs.deep_view().subrange(0, 0) =~= Seq::<Seq<char>>::empty());
    }
    while i < cs.len()
        invariant
            i <= cs@.len(),
            cs.deep_view().len() == cs@.len(),
            r@ == join_rel(cs.deep_view().subrange(0, i as int)),
        decreases cs@.len() - i,
    {
        if i > 0 {
            r.append("/");
        }
        r.append(cs[i].as_str());
        proof {
            let pre = cs.deep_view().subrange(0, i as int);
            let cur = cs.deep_view().subrange(0, i + 1 as int);
            assert(cur.drop_last() =~= pre);
            assert(cur.last() == cs.deep_view()[i as int]);
            if i > 0 {
                reveal_strlit("/");
                assert("/"@ =~= seq!['/']);
                assert(join_rel(cur) == join_rel(pre) + seq!['/'] + cs.deep_view()[i as int]);
            } else {
                assert(cur.len() == 1);
                assert(join_rel(pre) =~= Seq::<char>::empty());
                assert(r@ =~= cs.deep_view()[0]);
            }
        }
        i = i + 1;
    }
    proof {
        assert(cs.deep_view().subrange(0, cs@.len() as int) =~= cs.deep_view());
    }
    r
}

/// Resolves `.` and `..` segments of a path lexically, mirroring how a
/// build tool derives one canonical location for a filesystem source.
pub fn normalize_path(s: &str) -> (r: String)
    ensures
        r@ == normalize_spec(s@),
{
    let comps = split_slash_exec(s);
    let ghost all = comps.deep_view();
    let mut stack: Vec<String> = Vec::new();
    let mut i: usize = 0;
    proof {
        assert(all.subrange(0, all.len() as int) =~= all);
        assert(all.subrange(i as int, all.len() as int) =~= all);
        assert(stack.deep_view() =~= Seq::<Seq<char>>::empty());
    }
    while i < comps.len()
        invariant
            i <= comps@.len(),
            all == comps.deep_view(),
            all.len() == comps@.len(),
            norm_fold(all, Seq::empty()) == norm_fold(
                all.subrange(i as int, all.len() as int),
                stack.deep_view(),
            ),
        decreases comps@.len() - i,
    {
        let c = &comps[i];
        let ghost rest = all.subrange(i as int, all.len() as int);
        proof {
            assert(rest[0] == all[i as int]);
            assert(rest.drop_first() =~= all.subrange(i + 1 as int, all.len() as int));
        }
        if c.as_str().unicode_len() == 0 || str_eq(c.as_str(), ".") {
            proof {
                reveal_strlit(".");
                assert("."@ =~= seq!['.']);
                assert(all[i as int].len() == 0 || all[i as int] == seq!['.']);
            }
        } else if str_eq(c.as_str(), "..") {
            proof {
                reveal_strlit("..");
                reveal_strlit(".");
                assert(".."@ =~= seq!['.', '.']);
                assert(all[i as int] == seq!['.', '.']);
                assert(all[i as int] != seq!['.']) by {
                    assert(seq!['.', '.'].len() == 2);
                }
            }
            let ghost old_stack = stack.deep_view();
            if stack.len() > 0 {
                stack.pop();
                proof {
                    assert(stack.deep_view() =~= old_stack.drop_last());
                }
            }
        } else {
            let ghost old_stack = stack.deep_view();
            stack.push(c.clone());
            proof {
                reveal_strlit(".");
                reveal_strlit("..");
                assert(all[i as int].len() != 0);
                assert(all[i as int] != seq!['.']) by {
                    assert("."@ =~= seq!['.']);
                }
                assert(all[i as int] != seq!['.', '.']) by {
                    assert(".."@ =~= seq!['.', '.']);
                }
                assert(stack.deep_view() =~= old_stack.push(all[i as int]));
            }
        }
        i = i + 1;
    }
    proof {
        assert(all.subrange(comps@.len() as int, all.len() as int) =~= Seq::<Seq<char>>::empty());
        assert(norm_fold(Seq::empty(), stack.deep_view()) == stack.deep_view());
    }
    let joined = join_rel_exec(&stack);
    let abs = if s.unicode_len() > 0 {
        s.get_char(0) == '/'
    } else {
        false
    };
    if abs {
        let mut r = String::new();
        r.append("/");
        r.append(joined.as_str());
        proof {
            reveal_strlit("/");
            assert("/"@ =~= seq!['/']);
            assert(r@ =~= seq!['/'] + joined@);
        }
        r
    } else {
        joined
    }
}

} // verus!

verus! {

/// Index of the last `/` in a path, or `-1` when there is none.
pub open spec fn last_slash(s: Seq<char>) -> int
    decreases s.len(),
{
    if s.len() == 0 {
        -1
    } else if s.last() == '/' {
        s.len() - 1
    } else {
        last_slash(s.drop_last())
    }
}

pub proof fn lemma_last_slash(s: Seq<char>)
    ensures
        -1 <= last_slash(s) < s.len(),
        last_slash(s) >= 0 ==> s[last_slash(s)] == '/',
        forall|j: int| last_slash(s) < j < s.len() ==> s[j] != '/',
    decreases s.len(),
{
    if s.len() == 0 {
    } else if s.last() == '/' {
    } else {
        lemma_last_slash(s.drop_last());
        assert forall|j: int| last_slash(s) < j < s.len() implies s[j] != '/' by {
            if j < s.len() - 1 {
                assert(s.drop_last()[j] != '/');
            }
        }
    }
}

proof fn lemma_last_slash_at(s: Seq<char>, j: int)
    requires
        -1 <= j < s.len(),
        j >= 0 ==> s[j] == '/',
        forall|k: int| j < k < s.len() ==> s[k] != '/',
    ensures
        last_slash(s) == j,
    decreases s.len(),
{
    if s.len() == 0 {
    } else if s.last() == '/' {
        assert(j == s.len() - 1);
    } else {
        assert(j < s.len() - 1);
        assert forall|k: int| j < k < s.len() - 1 implies s.drop_last()[k] != '/' by {
            assert(s[k] != '/');
        }
        lemma_last_slash_at(s.drop_last(), j);
    }
}

/// Finds the last `/`; `None` when the path has none.
pub fn find_last_slash(s: &str) -> (r: Option<usize>)
    ensures
        match r {
            Some(i) => i == last_slash(s@) && i < s@.len(),
            None => last_slash(s@) == -1,
        },
{
    let len = s.unicode_len();
    let mut i: usize = len;
    while i > 0
        invariant
            len == s@.len(),
            i <= len,
            forall|j: int| i <= j < len ==> s@[j] != '/',
        decreases i,
    {
        i = i - 1;
        if s.get_char(i) == '/' {
            proof {
                lemma_last_slash_at(s@, i as int);
            }
            return Some(i);
        }
    }
    proof {
        lemma_last_slash_at(s@, -1);
    }
    None
}

/// The directory part of a path: everything before the last `/`, the
/// root `/` when the slash is leading, and empty when there is no `/`.
pub open spec fn parent_dir_spec(s: Seq<char>) -> Seq<char> {
    let i = last_slash(s);
    if i < 0 {
        Seq::empty()
    } else if i == 0 {
        seq!['/']
    } else {
        s.subrange(0, i)
    }
}

/// Returns the directory part of a path string.
pub fn parent_dir(s: &str) -> (r: String)
    ensures
        r@ == parent_dir_spec(s@),
{
    proof {
        lemma_last_slash(s@);
    }
    match find_last_slash(s) {
        None => String::new(),
        Some(0) => {
            let mut r = String::new();
            r.append("/");
            proof {
                reveal_strlit("/");
                assert(r@ =~= seq!['/']);
            }
            r
        },
        Some(i) => s.substring_char(0, i).to_owned(),
    }
}

/// The file part of a path: everything after the last `/`.
pub open spec fn file_name_spec(s: Seq<char>) -> Seq<char> {
    s.subrange(last_slash(s) + 1, s.len() as int)
}

/// Returns the file part of a path string.
pub fn file_name(s: &str) -> (r: String)
    ensures
        r@ == file_name_spec(s@),
{
    proof {
        lemma_last_slash(s@);
    }
    let len = s.unicode_len();
    match find_last_slash(s) {
        None => {
            let r = s.to_owned();
            proof {
                assert(s@.subrange(0, len as int) =~= s@);
            }
            r
        },
        Some(i) => s.substring_char(i + 1, len).to_owned(),
    }
}

/// Joining a path onto a base: an absolute path replaces the base, and
/// an empty base leaves the path as it is.
pub open spec fn join_path_spec(base: Seq<char>, p: Seq<char>) -> Seq<char> {
    if p.len() > 0 && p[0] == '/' {
        p
    } else if base.len() == 0 {
        p
    } else {
        base + seq!['/'] + p
    }
}

/// Joins a path string onto a base path string.
pub fn join_path(base: &str, p: &str) -> (r: String)
    ensures
        r@ == join_path_spec(base@, p@),
{
    let p_abs = p.unicode_len() > 0 && p.get_char(0) == '/';
    if p_abs || base.unicode_len() == 0 {
        p.to_owned()
    } else {
        let mut r = base.to_owned();
        r.append("/");
        r.append(p);
        proof {
            reveal_strlit("/");
            assert("/"@ =~= seq!['/']);
            assert(r@ =~= base@ + seq!['/'] + p@);
        }
        r
    }
}

/// Whether `p` lies at or below `base`, compared component-wise.
pub open spec fn path_has_prefix(p: Seq<char>, base: Seq<char>) -> bool {
    p == base || (p.len() > base.len() && p.subrange(0, base.len() as int) == base && p[base.len() as int] == '/')
}

/// Checks whether a path lies at or below a base path.
pub fn is_path_prefix(p: &str, base: &str) -> (r: bool)
    ensures
        r == path_has_prefix(p@, base@),
{
    let plen = p.unicode_len();
    let blen = base.unicode_len();
    if plen < blen {
        assert(!path_has_prefix(p@, base@));
        return false;
    }
    let mut i: usize = 0;
    while i < blen
        invariant
            plen == p@.len(),
            blen == base@.len(),
            blen <= plen,
            i <= blen,
            forall|j: int| 0 <= j < i ==> p@[j] == base@[j],
        decreases blen - i,
    {
        if p.get_char(i) != base.get_char(i) {
            assert(p@[i as int] != base@[i as int]);
            assert(p@ != base@);
            assert(p@.subrange(0, blen as int) != base@) by {
                assert(p@.subrange(0, blen as int)[i as int] != base@[i as int]);
            }
            return false;
        }
        i = i + 1;
    }
    if plen == blen {
        assert(p@ =~= base@);
        true
    } else {
        let sep = p.get_char(blen) == '/';
        proof {
            assert(p@.subrange(0, blen as int) =~= base@);
            assert(p@ != base@) by {
                assert(p@.len() != base@.len());
            }
        }
        sep
    }
}

} // verus!

verus! {

/// Index of the first occurrence of a character, or the length.
pub open spec fn first_char(s: Seq<char>, c: char) -> int
    decreases s.len(),
{
    if s.len() == 0 {
        0
    } else if s[0] == c {
        0
    } else {
        1 + first_char(s.drop_first(), c)
    }
}

pub proof fn lemma_first_char(s: Seq<char>, c: char)
    ensures
        0 <= first_char(s, c) <= s.len(),
        first_char(s, c) < s.len() ==> s[first_char(s, c)] == c,
        forall|j: int| 0 <= j < first_char(s, c) ==> s[j] != c,
    decreases s.len(),
{
    if s.len() == 0 {
    } else if s[0] == c {
    } else {
        lemma_first_char(s.drop_first(), c);
        assert forall|j: int| 0 <= j < first_char(s, c) implies s[j] != c by {
            if j > 0 {
                assert(s.drop_first()[j - 1] != c);
            }
        }
    }
}

/// Finds the first occurrence of a character.
pub fn find_first_char(s: &str, c: char) -> (r: Option<usize>)
    ensures
        match r {
            Some(i) => i == first_char(s@, c) && i < s@.len() && s@[i as int] == c,
            None => first_char(s@, c) == s@.len() && !s@.contains(c),
        },
{
    proof {
        lemma_first_char(s@, c);
    }
    let len = s.unicode_len();
    let mut i: usize = 0;
    while i < len
        invariant
            len == s@.len(),
            i <= len,
            forall|j: int| 0 <= j < i ==> s@[j] != c,
            0 <= first_char(s@, c) <= s@.len(),
            first_char(s@, c) < s@.len() ==> s@[first_char(s@, c)] == c,
            forall|j: int| 0 <= j < first_char(s@, c) ==> s@[j] != c,
        decreases len - i,
    {
        if s.get_char(i) == c {
            assert(i == first_char(s@, c)) by {
                if i < first_char(s@, c) {
                    assert(s@[i as int] != c);
                }
                if i > first_char(s@, c) {
                    assert(s@[first_char(s@, c)] != c);
                }
            }
            return Some(i);
        }
        i = i + 1;
    }
    assert(first_char(s@, c) == s@.len()) by {
        if first_char(s@, c) < s@.len() {
            assert(s@[first_char(s@, c)] != c);
        }
    }
    assert(!s@.contains(c)) by {
        if s@.contains(c) {
            let w = choose|j: int| 0 <= j < s@.len() && s@[j] == c;
            assert(s@[w] != c);
        }
    }
    None
}

/// Whether the text holds a `://` scheme marker.
pub open spec fn has_scheme_marker(s: Seq<char>) -> bool {
    exists|i: int|
        0 <= i && i + 2 < s.len() && s[i] == ':' && #[trigger] s[i + 1] == '/' && s[i + 2] == '/'
}

/// Scans for a `://` scheme marker.
pub fn contains_scheme_marker(s: &str) -> (r: bool)
    ensures
        r == has_scheme_marker(s@),
{
    let len = s.unicode_len();
    if len < 3 {
        return false;
    }
    let mut i: usize = 0;
    while i + 2 < len
        invariant
            len == s@.len(),
            i + 2 <= len,
            forall|j: int|
                0 <= j < i ==> !(s@[j] == ':' && #[trigger] s@[j + 1] == '/' && s@[j + 2] == '/'),
        decreases len - i,
    {
        if s.get_char(i) == ':' && s.get_char(i + 1) == '/' && s.get_char(i + 2) == '/' {
            assert(has_scheme_marker(s@)) by {
                assert(s@[i as int] == ':' && s@[i + 1 as int] == '/' && s@[i + 2 as int] == '/');
            }
            return true;
        }
        i = i + 1;
    }
    assert(!has_scheme_marker(s@)) by {
        if has_scheme_marker(s@) {
            let w = choose|j: int|
                0 <= j && j + 2 < s@.len() && s@[j] == ':' && #[trigger] s@[j + 1] == '/' && s@[j
                    + 2] == '/';
            assert(!(s@[w] == ':' && s@[w + 1] == '/' && s@[w + 2] == '/'));
        }
    }
    false
}

} // verus!

verus! {

/// Equality of two optional strings, read at the view level.
pub fn opt_str_eq(a: &Option<String>, b: &Option<String>) -> (r: bool)
    ensures
        r == (a.deep_view() == b.deep_view()),
{
    match (a, b) {
        (None, None) => true,
        (Some(x), Some(y)) => str_eq(x.as_str(), y.as_str()),
        _ => false,
    }
}

} // verus!

verus! {

/// Copies an optional string.
pub fn clone_opt_string(o: &Option<String>) -> (r: Option<String>)
    ensures
        r == *o,
{
    match o {
        Some(s) => Some(s.clone()),
        None => None,
    }
}

/// Copies a list of strings.
pub fn clone_string_vec(v: &Vec<String>) -> (r: Vec<String>)
    ensures
        r@ == v@,
        r.deep_view() == v.deep_view(),
{
    let mut r: Vec<String> = Vec::new();
    let mut i: usize = 0;
    while i < v.len()
        invariant
            i <= v@.len(),
            r@ == v@.subrange(0, i as int),
        decreases v@.len() - i,
    {
        r.push(v[i].clone());
        proof {
            assert(r@ =~= v@.subrange(0, i + 1));
        }
        i = i + 1;
    }
    proof {
        assert(v@.subrange(0, v@.len() as int) =~= v@);
    }
    r
}

/// Copies an optional list of strings.
pub fn clone_opt_string_vec(o: &Option<Vec<String>>) -> (r: Option<Vec<String>>)
    ensures
        r.deep_view() == o.deep_view(),
        match (r, o) {
            (Some(a), Some(b)) => a@ == b@,
            (None, None) => true,
            _ => false,
        },
{
    match o {
        Some(v) => Some(clone_string_vec(v)),
        None => None,
    }
}

} // verus!

verus! {

/// Count of leading whitespace characters.
pub open spec fn leading_ws(s: Seq<char>) -> int
    decreases s.len(),
{
    if s.len() == 0 {
        0
    } else if !crate::ext::char_whitespace(s[0]) {
        0
    } else {
        1 + leading_ws(s.drop_first())
    }
}

/// Count of trailing whitespace characters.
pub open spec fn trailing_ws(s: Seq<char>) -> int
    decreases s.len(),
{
    if s.len() == 0 {
        0
    } else if !crate::ext::char_whitespace(s.last()) {
        0
    } else {
        1 + trailing_ws(s.drop_last())
    }
}

proof fn lemma_leading_ws(s: Seq<char>)
    ensures
        0 <= leading_ws(s) <= s.len(),
        forall|j: int| 0 <= j < leading_ws(s) ==> crate::ext::char_whitespace(s[j]),
        leading_ws(s) < s.len() ==> !crate::ext::char_whitespace(s[leading_ws(s)]),
    decreases s.len(),
{
    if s.len() == 0 {
    } else if !crate::ext::char_whitespace(s[0]) {
    } else {
        lemma_leading_ws(s.drop_first());
        assert forall|j: int| 0 <= j < leading_ws(s) implies crate::ext::char_whitespace(
            s[j],
        ) by {
            if j > 0 {
                assert(crate::ext::char_whitespace(s.drop_first()[j - 1]));
            }
        }
        if leading_ws(s) < s.len() {
            assert(s.drop_first()[leading_ws(s.drop_first())] == s[leading_ws(s)]);
        }
    }
}

proof fn lemma_trailing_ws(s: Seq<char>)
    ensures
        0 <= trailing_ws(s) <= s.len(),
        forall|j: int| s.len() - trailing_ws(s) <= j < s.len() ==> crate::ext::char_whitespace(s[j]),
        trailing_ws(s) < s.len() ==> !crate::ext::char_whitespace(s[s.len() - trailing_ws(s) - 1]),
    decreases s.len(),
{
    if s.len() == 0 {
    } else if !crate::ext::char_whitespace(s.last()) {
    } else {
        lemma_trailing_ws(s.drop_last());
        assert forall|j: int| s.len() - trailing_ws(s) <= j < s.len() implies
            crate::ext::char_whitespace(s[j]) by {
            if j < s.len() - 1 {
                assert(crate::ext::char_whitespace(s.drop_last()[j]));
            }
        }
        if trailing_ws(s) < s.len() {
            assert(s.drop_last()[s.drop_last().len() - trailing_ws(s.drop_last()) - 1] == s[s.len()
                - trailing_ws(s) - 1]);
        }
    }
}

/// The text with leading and trailing whitespace removed.
pub open spec fn trim_spec(s: Seq<char>) -> Seq<char> {
    if leading_ws(s) == s.len() {
        Seq::empty()
    } else {
        s.subrange(leading_ws(s), s.len() - trailing_ws(s))
    }
}

/// Strips leading and trailing whitespace.
pub fn str_trim(s: &str) -> (r: String)
    ensures
        r@ == trim_spec(s@),
{
    proof {
        lemma_leading_ws(s@);
        lemma_trailing_ws(s@);
    }
    let len = s.unicode_len();
    let mut start: usize = 0;
    #[verifier::loop_isolation(false)]
    while start < len && crate::ext::is_whitespace_char(s.get_char(start))
        invariant
            len == s@.len(),
            start <= len,
            forall|j: int| 0 <= j < start ==> crate::ext::char_whitespace(s@[j]),
            start <= leading_ws(s@),
        decreases len - start,
    {
        start = start + 1;
        proof {
            if start > leading_ws(s@) {
                assert(crate::ext::char_whitespace(s@[leading_ws(s@)]));
            }
        }
    }
    if start == len {
        proof {
            if leading_ws(s@) < s@.len() {
                assert(crate::ext::char_whitespace(s@[leading_ws(s@)]));
            }
        }
        return String::new();
    }
    proof {
        assert(start == leading_ws(s@)) by {
            if start < leading_ws(s@) {
                assert(crate::ext::char_whitespace(s@[start as int]));
            }
        }
    }
    let mut end: usize = len;
    #[verifier::loop_isolation(false)]
    while end > start && crate::ext::is_whitespace_char(s.get_char(end - 1))
        invariant
            len == s@.len(),
            start <= end <= len,
            start == leading_ws(s@),
            !crate::ext::char_whitespace(s@[start as int]),
            forall|j: int| end <= j < len ==> crate::ext::char_whitespace(s@[j]),
            len - end <= trailing_ws(s@),
        decreases end,
    {
        end = end - 1;
        proof {
            if len - end > trailing_ws(s@) {
                assert(!crate::ext::char_whitespace(s@[s@.len() - trailing_ws(s@) - 1]));
                assert(s@.len() - trailing_ws(s@) - 1 >= end);
                assert(crate::ext::char_whitespace(s@[s@.len() - trailing_ws(s@) - 1]));
            }
        }
    }
    proof {
        assert(end > start);
        assert(len - end == trailing_ws(s@)) by {
            if len - end < trailing_ws(s@) {
                assert(crate::ext::char_whitespace(s@[s@.len() - trailing_ws(s@)]));
                assert(s@.len() - trailing_ws(s@) >= end);
                assert(!crate::ext::char_whitespace(s@[end - 1]));
                if s@.len() - trailing_ws(s@) == end {
                } else {
                    assert(crate::ext::char_whitespace(s@[end as int]));
                }
            }
        }
    }
    s.substring_char(start, end).to_owned()
}

} // verus!
