use vstd::prelude::*;
use crate::text::{chars_of, string_of, chars_eq, string_from, is_prefix};

verus! {

/// The path separator.
pub open spec fn sep() -> char {
    '/'
}

/// The maximal runs of non-separator characters of a path, in order.
pub open spec fn char_runs(s: Seq<char>) -> Seq<Seq<char>>
    decreases s.len(),
{
    if s.len() == 0 {
        seq![]
    } else {
        let prev = char_runs(s.drop_last());
        let c = s.last();
        if c == sep() {
            prev
        } else if s.len() == 1 || s[s.len() - 2] == sep() {
            prev.push(seq![c])
        } else {
            prev.update(prev.len() - 1, prev.last().push(c))
        }
    }
}

/// The last component of a list of path components that is not `.`.
pub open spec fn last_normal(parts: Seq<Seq<char>>) -> Option<Seq<char>>
    decreases parts.len(),
{
    if parts.len() == 0 {
        None
    } else if parts.last() == seq!['.'] {
        last_normal(parts.drop_last())
    } else {
        Some(parts.last())
    }
}

/// The final component of a path, if it names a file or directory: the last
/// component other than `.`, unless the path has none or it is `..`.
pub open spec fn file_name(s: Seq<char>) -> Option<Seq<char>> {
    match last_normal(char_runs(s)) {
        Some(x) => if x == seq!['.', '.'] {
            None
        } else {
            Some(x)
        },
        None => None,
    }
}

/// The path `base` extended by `p`: `p` itself when it is absolute, otherwise
/// `p` after `base` with one separator between them when `base` is not empty
/// and does not already end in one.
pub open spec fn join(base: Seq<char>, p: Seq<char>) -> Seq<char> {
    if p.len() > 0 && p[0] == sep() {
        p
    } else if base.len() > 0 && base.last() != sep() {
        base + seq![sep()] + p
    } else {
        base + p
    }
}

/// The runs of non-separator characters of a path.
pub fn path_runs(v: &Vec<char>) -> (r: Vec<Vec<char>>)
    ensures
        r@.map_values(|x: Vec<char>| x@) == char_runs(v@),
{
    let mut r: Vec<Vec<char>> = Vec::new();
    let mut i: usize = 0;
    assert(v@.subrange(0, 0) =~= Seq::<char>::empty());
    while i < v.len()
        invariant
            i <= v.len(),
            r@.map_values(|x: Vec<char>| x@) == char_runs(v@.subrange(0, i as int)),
        decreases v.len() - i,
    {
        let c = v[i];
        let ghost pre = v@.subrange(0, i as int);
        let ghost cur = v@.subrange(0, i + 1);
        assert(cur.drop_last() =~= pre);
        let ghost prev = r@.map_values(|x: Vec<char>| x@);
        if c == '/' {
        } else if i == 0 || v[i - 1] == '/' {
            let mut one: Vec<char> = Vec::new();
            one.push(c);
            r.push(one);
            assert(r@.map_values(|x: Vec<char>| x@) =~= prev.push(seq![c]));
        } else {
            proof {
                assert(cur[cur.len() - 2] == v@[i - 1]);
                assert(char_runs(pre).len() > 0) by {
                    lemma_runs_nonempty_when_last_not_sep(pre);
                }
            }
            let last_index = r.len() - 1;
            let mut last = r.remove(last_index);
            last.push(c);
            r.push(last);
            assert(r@.map_values(|x: Vec<char>| x@) =~= prev.update(prev.len() - 1, prev.last().push(c)));
        }
        i = i + 1;
    }
    assert(v@.subrange(0, v.len() as int) =~= v@);
    r
}

proof fn lemma_runs_nonempty_when_last_not_sep(s: Seq<char>)
    requires
        s.len() > 0,
        s.last() != sep(),
    ensures
        char_runs(s).len() > 0,
    decreases s.len(),
{
    if s.len() > 1 && s[s.len() - 2] != sep() {
        let t = s.drop_last();
        assert(t.last() == s[s.len() - 2]);
        lemma_runs_nonempty_when_last_not_sep(t);
    }
}

/// The final component of a path, if it names a file or directory.
pub fn path_file_name(path: &str) -> (r: Option<String>)
    ensures
        match r {
            Some(x) => file_name(path@) == Some(x@),
            None => file_name(path@) is None,
        },
{
    let v = chars_of(path);
    let runs = path_runs(&v);
    let ghost views = runs@.map_values(|x: Vec<char>| x@);
    let mut dot: Vec<char> = Vec::new();
    dot.push('.');
    let mut k: usize = runs.len();
    assert(views.subrange(0, k as int) =~= views);
    while k > 0
        invariant
            k <= runs.len(),
            views == runs@.map_values(|x: Vec<char>| x@),
            dot@ == seq!['.'],
            last_normal(views) == last_normal(views.subrange(0, k as int)),
        ensures
            k > 0 ==> runs@[k - 1]@ != seq!['.'],
            last_normal(views) == last_normal(views.subrange(0, k as int)),
        decreases k,
    {
        let ghost sub = views.subrange(0, k as int);
        assert(sub.last() == runs@[k - 1]@);
        if !chars_eq(&runs[k - 1], &dot) {
            break;
        }
        assert(sub.drop_last() =~= views.subrange(0, k - 1));
        k = k - 1;
    }
    if k == 0 {
        assert(views.subrange(0, 0) =~= Seq::<Seq<char>>::empty());
        return None;
    }
    let ghost sub = views.subrange(0, k as int);
    assert(sub.last() == runs@[k - 1]@);
    let mut dotdot: Vec<char> = Vec::new();
    dotdot.push('.');
    dotdot.push('.');
    assert(dotdot@ =~= seq!['.', '.']);
    if chars_eq(&runs[k - 1], &dotdot) {
        None
    } else {
        Some(string_of(&runs[k - 1]))
    }
}

/// The path `base` extended by `p`.
pub fn path_join(base: &str, p: &str) -> (r: String)
    ensures
        r@ == join(base@, p@),
{
    let b = chars_of(base);
    let q = chars_of(p);
    let mut out: Vec<char> = Vec::new();
    if q.len() > 0 && q[0] == '/' {
        return string_of(&q);
    }
    let mut i: usize = 0;
    while i < b.len()
        invariant
            i <= b.len(),
            out@ == b@.subrange(0, i as int),
        decreases b.len() - i,
    {
        out.push(b[i]);
        i = i + 1;
        assert(out@ =~= b@.subrange(0, i as int));
    }
    assert(out@ =~= b@);
    if b.len() > 0 && b[b.len() - 1] != '/' {
        out.push('/');
    }
    let ghost mid = out@;
    let mut j: usize = 0;
    while j < q.len()
        invariant
            j <= q.len(),
            out@ == mid + q@.subrange(0, j as int),
        decreases q.len() - j,
    {
        out.push(q[j]);
        j = j + 1;
        assert(out@ =~= mid + q@.subrange(0, j as int));
    }
    assert(q@.subrange(0, q.len() as int) =~= q@);
    string_of(&out)
}


/// Whether a name joined to a directory stays inside it: the name is
/// relative and none of its components is `..`.
pub open spec fn stays_inside(n: Seq<char>) -> bool {
    !(n.len() > 0 && n[0] == sep()) && !char_runs(n).contains(seq!['.', '.'])
}

/// The name under which a file given as `n` is placed in a directory: `n`
/// itself when it stays inside the directory, otherwise its file name; the
/// empty name, which names the directory itself, when it has none.
pub open spec fn confined_name(n: Seq<char>) -> Seq<char> {
    if stays_inside(n) {
        n
    } else {
        match file_name(n) {
            Some(x) => x,
            None => seq![],
        }
    }
}

proof fn lemma_runs_shape(s: Seq<char>)
    ensures
        forall|i: int| 0 <= i < char_runs(s).len() ==> (#[trigger] char_runs(s)[i]).len() > 0
            && forall|j: int| 0 <= j < char_runs(s)[i].len() ==> char_runs(s)[i][j] != sep(),
    decreases s.len(),
{
    if s.len() > 0 {
        let t = s.drop_last();
        lemma_runs_shape(t);
        let prev = char_runs(t);
        let c = s.last();
        if c == sep() {
        } else if s.len() == 1 || s[s.len() - 2] == sep() {
            let r = prev.push(seq![c]);
            assert(char_runs(s) == r);
            assert forall|i: int| 0 <= i < r.len() implies (#[trigger] r[i]).len() > 0
                && forall|j: int| 0 <= j < r[i].len() ==> r[i][j] != sep() by {
                if i < prev.len() {
                    assert(r[i] == prev[i]);
                }
            }
        } else {
            assert(t.last() == s[s.len() - 2]);
            lemma_runs_nonempty_when_last_not_sep(t);
            let k = prev.len() - 1;
            let r = prev.update(k, prev.last().push(c));
            assert(char_runs(s) == r);
            assert forall|i: int| 0 <= i < r.len() implies (#[trigger] r[i]).len() > 0
                && forall|j: int| 0 <= j < r[i].len() ==> r[i][j] != sep() by {
                if i != k {
                    assert(r[i] == prev[i]);
                } else {
                    assert(r[i] == prev[k].push(c));
                    assert forall|j: int| 0 <= j < r[i].len() implies r[i][j] != sep() by {
                        if j < prev[k].len() {
                            assert(r[i][j] == prev[k][j]);
                        }
                    }
                }
            }
        }
    }
}

proof fn lemma_last_normal_member(parts: Seq<Seq<char>>)
    ensures
        last_normal(parts) matches Some(x) ==> parts.contains(x),
    decreases parts.len(),
{
    if parts.len() > 0 && parts.last() == seq!['.'] {
        let t = parts.drop_last();
        lemma_last_normal_member(t);
        if let Some(x) = last_normal(t) {
            let i = choose|i: int| 0 <= i < t.len() && t[i] == x;
            assert(parts[i] == t[i]);
        }
    } else if parts.len() > 0 {
        assert(parts[parts.len() - 1] == parts.last());
    }
}

proof fn lemma_single_run(x: Seq<char>)
    requires
        x.len() > 0,
        forall|j: int| 0 <= j < x.len() ==> x[j] != sep(),
    ensures
        char_runs(x) =~= seq![x],
    decreases x.len(),
{
    let c = x.last();
    assert(c == x[x.len() - 1]);
    if x.len() > 1 {
        let t = x.drop_last();
        assert forall|j: int| 0 <= j < t.len() implies t[j] != sep() by {
            assert(t[j] == x[j]);
        }
        lemma_single_run(t);
        let prev = char_runs(t);
        assert(x[x.len() - 2] == t[t.len() - 1]);
        assert(x[x.len() - 2] != sep());
        assert(char_runs(x) == prev.update(prev.len() - 1, prev.last().push(c)));
        assert(t.push(c) =~= x);
        assert(prev.update(prev.len() - 1, prev.last().push(c)) =~= seq![x]);
    } else {
        let t = x.drop_last();
        assert(t =~= Seq::<char>::empty());
        assert(char_runs(t) =~= Seq::<Seq<char>>::empty());
        assert(char_runs(x) == char_runs(t).push(seq![c]));
        assert(seq![c] =~= x);
    }
}

/// Every name a file is placed under stays inside the directory.
pub proof fn law_confined_name_stays_inside(n: Seq<char>)
    ensures
        stays_inside(confined_name(n)),
{
    if !stays_inside(n) {
        assert(char_runs(Seq::<char>::empty()) =~= Seq::<Seq<char>>::empty());
        if let Some(x) = file_name(n) {
            let runs = char_runs(n);
            lemma_runs_shape(n);
            lemma_last_normal_member(runs);
            let i = choose|i: int| 0 <= i < runs.len() && runs[i] == x;
            assert(runs[i] == x);
            lemma_single_run(x);
            assert(x[0] != sep());
            if seq![x].contains(seq!['.', '.']) {
                let k = choose|k: int| 0 <= k < 1 && seq![x][k] == seq!['.', '.'];
                assert(seq![x][k] == x);
            }
        }
    }
}

/// A file placed in a directory under a name that stays inside it has a path
/// that starts with the directory's.
pub proof fn law_join_inside_starts_with_base(base: Seq<char>, q: Seq<char>)
    requires
        stays_inside(q),
    ensures
        is_prefix(base, join(base, q)),
{
    let p = join(base, q);
    if base.len() > 0 && base.last() != sep() {
        assert(p.subrange(0, base.len() as int) =~= base);
    } else {
        assert(p.subrange(0, base.len() as int) =~= base);
    }
}

/// The name under which a file given as `name` is placed in a directory.
pub fn confine_name(name: &str) -> (r: String)
    ensures
        r@ == confined_name(name@),
{
    let v = chars_of(name);
    if v.len() > 0 && v[0] == '/' {
        return file_name_or_empty(name);
    }
    let runs = path_runs(&v);
    let ghost views = runs@.map_values(|x: Vec<char>| x@);
    let mut dotdot: Vec<char> = Vec::new();
    dotdot.push('.');
    dotdot.push('.');
    assert(dotdot@ =~= seq!['.', '.']);
    let mut i: usize = 0;
    while i < runs.len()
        invariant
            i <= runs.len(),
            views == runs@.map_values(|x: Vec<char>| x@),
            views == char_runs(name@),
            dotdot@ == seq!['.', '.'],
            forall|k: int| 0 <= k < i ==> views[k] != seq!['.', '.'],
        decreases runs.len() - i,
    {
        if chars_eq(&runs[i], &dotdot) {
            assert(views[i as int] == seq!['.', '.']);
            assert(!stays_inside(name@));
            return file_name_or_empty(name);
        }
        i = i + 1;
    }
    assert(!views.contains(seq!['.', '.']));
    string_from(name)
}

/// The file name of a path, or the empty name when it has none.
fn file_name_or_empty(name: &str) -> (r: String)
    ensures
        r@ == match file_name(name@) {
            Some(x) => x,
            None => seq![],
        },
{
    match path_file_name(name) {
        Some(x) => x,
        None => String::new(),
    }
}

} // verus!
