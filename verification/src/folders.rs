//! The folder rail of one root: every directory that holds an indexed file,
//! with its ancestors, as a tree whose children appear in path order.
use vstd::prelude::*;
use crate::dto::FolderNode;
use crate::text::concat2;

verus! {

/// The volume-relative prefix that the images of a folder start with.
pub open spec fn spec_folder_prefix(root_rel: Seq<char>, folder: Seq<char>) -> Seq<char> {
    (if root_rel.len() > 0 { root_rel + seq!['/'] } else { seq![] }) + (if folder.len() > 0 {
        folder + seq!['/']
    } else {
        seq![]
    })
}

pub fn folder_prefix(root_rel: &str, folder: &str) -> (r: String)
    ensures
        r@ == spec_folder_prefix(root_rel@, folder@),
{
    let mut p = String::new();
    if root_rel.unicode_len() > 0 {
        p.append(root_rel);
        p.append("/");
        proof {
            reveal_strlit("/");
        }
    }
    if folder.unicode_len() > 0 {
        p.append(folder);
        p.append("/");
        proof {
            reveal_strlit("/");
        }
    }
    p
}

/// The index of the last `/` of `s`, or -1.
pub open spec fn last_sep(s: Seq<char>) -> int
    decreases s.len(),
{
    if s.len() == 0 {
        -1
    } else if s.last() == '/' {
        s.len() - 1
    } else {
        last_sep(s.drop_last())
    }
}

proof fn lemma_last_sep_bounds(s: Seq<char>)
    ensures
        -1 <= last_sep(s) < s.len(),
        last_sep(s) >= 0 ==> s[last_sep(s)] == '/',
    decreases s.len(),
{
    if s.len() > 0 && s.last() != '/' {
        lemma_last_sep_bounds(s.drop_last());
    }
}

/// A directory's parent: the text before its last separator.
pub open spec fn parent_of(d: Seq<char>) -> Option<Seq<char>> {
    if last_sep(d) < 0 {
        None
    } else {
        Some(d.subrange(0, last_sep(d)))
    }
}

/// A directory's name: the text after its last separator.
pub open spec fn name_of(d: Seq<char>) -> Seq<char> {
    d.subrange(last_sep(d) + 1, d.len() as int)
}

pub open spec fn views(dirs: Seq<String>) -> Seq<Seq<char>> {
    dirs.map_values(|s: String| s@)
}

pub open spec fn child_of(d: Seq<char>) -> spec_fn(Seq<char>) -> bool {
    |c: Seq<char>| parent_of(c) == Some(d)
}

pub open spec fn top_in(dirs: Seq<Seq<char>>) -> spec_fn(Seq<char>) -> bool {
    |c: Seq<char>| !(parent_of(c) matches Some(p) && dirs.contains(p))
}

/// The directories whose parent is `d`, in order.
pub open spec fn kids(dirs: Seq<Seq<char>>, d: Seq<char>) -> Seq<Seq<char>> {
    dirs.filter(child_of(d))
}

/// The directories whose parent is not itself listed, in order.
pub open spec fn tops(dirs: Seq<Seq<char>>) -> Seq<Seq<char>> {
    dirs.filter(top_in(dirs))
}

/// `n` is the node of directory `d`: named by its last component, with one
/// child node for each listed directory whose parent is `d`, in order.
pub open spec fn node_is(n: FolderNode, dirs: Seq<Seq<char>>, d: Seq<char>, depth: nat) -> bool
    decreases depth,
{
    &&& n.rel_path@ == d
    &&& n.name@ == name_of(d)
    &&& n.children@.len() == kids(dirs, d).len()
    &&& depth > 0 ==> forall|k: int| 0 <= k < n.children@.len() ==> node_is(
        #[trigger] n.children@[k],
        dirs,
        kids(dirs, d)[k],
        (depth - 1) as nat,
    )
}

fn last_sep_index(s: &str) -> (r: Option<usize>)
    ensures
        match r {
            Some(i) => last_sep(s@) == i && i < s@.len(),
            None => last_sep(s@) == -1,
        },
{
    let n = s.unicode_len();
    let mut k = n;
    assert(s@.subrange(0, n as int) =~= s@);
    while k > 0
        invariant
            k <= n == s@.len(),
            last_sep(s@) == last_sep(s@.subrange(0, k as int)),
        decreases k,
    {
        proof {
            assert(s@.subrange(0, k as int).drop_last() =~= s@.subrange(0, k - 1));
        }
        if s.get_char(k - 1) == '/' {
            return Some(k - 1);
        }
        k -= 1;
    }
    None
}

/// Whether `c`'s parent is exactly `d`.
fn parent_is(c: &str, d: &str) -> (r: bool)
    ensures
        r == (parent_of(c@) == Some(d@)),
{
    match last_sep_index(c) {
        None => false,
        Some(i) => {
            let dn = d.unicode_len();
            if dn != i {
                proof {
                    assert(c@.subrange(0, i as int).len() == i);
                }
                return false;
            }
            let mut k: usize = 0;
            while k < i
                invariant
                    i < c@.len(),
                    last_sep(c@) == i,
                    dn == i == d@.len(),
                    k <= i,
                    forall|j: int| 0 <= j < k ==> c@[j] == d@[j],
                decreases i - k,
            {
                if c.get_char(k) != d.get_char(k) {
                    proof {
                        assert(c@.subrange(0, i as int) != d@) by {
                            assert(c@.subrange(0, i as int)[k as int] == c@[k as int]);
                        }
                    }
                    return false;
                }
                k += 1;
            }
            proof {
                assert(c@.subrange(0, i as int) =~= d@);
            }
            true
        },
    }
}

fn name_text(d: &str) -> (r: String)
    ensures
        r@ == name_of(d@),
{
    let n = d.unicode_len();
    let start = match last_sep_index(d) {
        Some(i) => i + 1,
        None => 0,
    };
    String::from_str(d.substring_char(start, n))
}


/// The length of the longest directory.
pub open spec fn max_len(dirs: Seq<Seq<char>>) -> nat
    decreases dirs.len(),
{
    if dirs.len() == 0 {
        0
    } else {
        let m = max_len(dirs.drop_last());
        if dirs.last().len() > m { dirs.last().len() } else { m }
    }
}

proof fn lemma_max_len(dirs: Seq<Seq<char>>, i: int)
    requires
        0 <= i < dirs.len(),
    ensures
        dirs[i].len() <= max_len(dirs),
    decreases dirs.len(),
{
    if i < dirs.len() - 1 {
        lemma_max_len(dirs.drop_last(), i);
    }
}

pub open spec fn node_paths(nodes: Seq<FolderNode>) -> Seq<Seq<char>> {
    nodes.map_values(|n: FolderNode| n.rel_path@)
}

fn node_for(dirs: &Vec<String>, i: usize) -> (r: FolderNode)
    requires
        i < dirs@.len(),
    ensures
        forall|depth: nat| node_is(r, views(dirs@), dirs@[i as int]@, depth),
    decreases max_len(views(dirs@)) - dirs@[i as int]@.len(),
{
    let d = dirs[i].as_str();
    let ghost vd = views(dirs@);
    let mut children: Vec<FolderNode> = Vec::new();
    let n = dirs.len();
    for j in 0..n
        invariant
            n == dirs@.len(),
            i < n,
            vd == views(dirs@),
            d@ == dirs@[i as int]@,
            node_paths(children@) == kids(vd.subrange(0, j as int), d@),
            forall|k: int| 0 <= k < children@.len() ==> forall|depth: nat| node_is(
                #[trigger] children@[k],
                vd,
                children@[k].rel_path@,
                depth,
            ),
    {
        proof {
            let p = vd.subrange(0, j as int);
            assert(vd.subrange(0, j + 1) =~= p.push(vd[j as int]));
            p.lemma_filter_push(vd[j as int], child_of(d@));
            assert(vd[j as int] == dirs@[j as int]@);
        }
        if parent_is(dirs[j].as_str(), d) {
            proof {
                lemma_last_sep_bounds(dirs@[j as int]@);
                lemma_max_len(vd, j as int);
                lemma_max_len(vd, i as int);
                assert(vd[i as int] == dirs@[i as int]@);
            }
            let child = node_for(dirs, j);
            let ghost before = children@;
            children.push(child);
            proof {
                assert(node_is(child, vd, dirs@[j as int]@, 0));
                assert(node_paths(children@) =~= node_paths(before).push(child.rel_path@));
                assert forall|k: int| 0 <= k < children@.len() implies forall|depth: nat| node_is(
                    #[trigger] children@[k],
                    vd,
                    children@[k].rel_path@,
                    depth,
                ) by {
                    if k < before.len() {
                        assert(children@[k] == before[k]);
                    }
                }
            }
        }
    }
    proof {
        assert(vd.subrange(0, n as int) =~= vd);
    }
    let r = FolderNode { name: name_text(d), rel_path: String::from_str(d), children };
    proof {
        assert forall|depth: nat| node_is(r, vd, dirs@[i as int]@, depth) by {
            if depth > 0 {
                assert forall|k: int| 0 <= k < r.children@.len() implies node_is(
                    #[trigger] r.children@[k],
                    vd,
                    kids(vd, d@)[k],
                    (depth - 1) as nat,
                ) by {
                    assert(node_paths(r.children@)[k] == r.children@[k].rel_path@);
                }
            }
        }
    }
    r
}

/// The folder tree of the listed directories: one node per directory,
/// under its parent when the parent is listed and at the top otherwise,
/// every list in the order the directories are given.
pub fn build_tree(dirs: &Vec<String>) -> (r: Vec<FolderNode>)
    ensures
        node_paths(r@) == tops(views(dirs@)),
        forall|k: int| 0 <= k < r@.len() ==> forall|depth: nat| node_is(#[trigger] r@[k], views(dirs@), r@[k].rel_path@, depth),
{
    let ghost vd = views(dirs@);
    let mut roots: Vec<FolderNode> = Vec::new();
    let n = dirs.len();
    for j in 0..n
        invariant
            n == dirs@.len(),
            vd == views(dirs@),
            node_paths(roots@) == vd.subrange(0, j as int).filter(top_in(vd)),
            forall|k: int| 0 <= k < roots@.len() ==> forall|depth: nat| node_is(
                #[trigger] roots@[k],
                vd,
                roots@[k].rel_path@,
                depth,
            ),
    {
        proof {
            let p = vd.subrange(0, j as int);
            assert(vd.subrange(0, j + 1) =~= p.push(vd[j as int]));
            p.lemma_filter_push(vd[j as int], top_in(vd));
            assert(vd[j as int] == dirs@[j as int]@);
        }
        let d = dirs[j].as_str();
        let top = match last_sep_index(d) {
            None => true,
            Some(_) => {
                let mut listed = false;
                let mut k: usize = 0;
                while k < n
                    invariant
                        n == dirs@.len(),
                        k <= n,
                        vd == views(dirs@),
                        j < n,
                        d@ == vd[j as int],
                        listed == exists|m: int| 0 <= m < k && #[trigger] child_of(vd[m])(d@),
                    decreases n - k,
                {
                    proof {
                        assert(vd[k as int] == dirs@[k as int]@);
                    }
                    if parent_is(d, dirs[k].as_str()) {
                        listed = true;
                        proof {
                            assert(child_of(vd[k as int])(d@));
                        }
                    }
                    k += 1;
                }
                proof {
                    if listed {
                        let m = choose|m: int| 0 <= m < n && #[trigger] child_of(vd[m])(d@);
                        assert(vd.contains(vd[m]));
                    } else {
                        if parent_of(d@) is Some && vd.contains(parent_of(d@).unwrap()) {
                            let p = parent_of(d@).unwrap();
                            let m = choose|m: int| 0 <= m < vd.len() && vd[m] == p;
                            assert(child_of(vd[m])(d@));
                        }
                    }
                }
                !listed
            },
        };
        if top {
            let node = node_for(dirs, j);
            let ghost before = roots@;
            roots.push(node);
            proof {
                assert(node_is(node, vd, dirs@[j as int]@, 0));
                assert(node_paths(roots@) =~= node_paths(before).push(node.rel_path@));
                assert forall|k: int| 0 <= k < roots@.len() implies forall|depth: nat| node_is(
                    #[trigger] roots@[k],
                    vd,
                    roots@[k].rel_path@,
                    depth,
                ) by {
                    if k < before.len() {
                        assert(roots@[k] == before[k]);
                    }
                }
            }
        }
    }
    proof {
        assert(vd.subrange(0, n as int) =~= vd);
    }
    roots
}

// ---------------------------------------------------------------------------
// Path order
// ---------------------------------------------------------------------------

/// `a` and `b` agree on their first `k` characters.
pub open spec fn same_prefix(a: Seq<char>, b: Seq<char>, k: int) -> bool {
    forall|j: int| 0 <= j < k ==> #[trigger] a[j] == b[j]
}

/// `a` and `b` part at position `k`, with `a` first.
pub open spec fn parts_before(a: Seq<char>, b: Seq<char>, k: int) -> bool {
    &&& 0 <= k <= a.len()
    &&& k <= b.len()
    &&& same_prefix(a, b, k)
    &&& ((k == a.len() && k < b.len()) || (k < a.len() && k < b.len() && a[k] < b[k]))
}

/// The order in which text sorts: by code point, a proper prefix first.
pub open spec fn lex_less(a: Seq<char>, b: Seq<char>) -> bool {
    exists|k: int| #[trigger] parts_before(a, b, k)
}

/// Text order is transitive.
pub proof fn lemma_lex_transitive(a: Seq<char>, b: Seq<char>, c: Seq<char>)
    requires
        lex_less(a, b),
        lex_less(b, c),
    ensures
        lex_less(a, c),
{
    let k1 = choose|k: int| #[trigger] parts_before(a, b, k);
    let k2 = choose|k: int| #[trigger] parts_before(b, c, k);
    if k1 < k2 {
        assert(b[k1] == c[k1]);
        assert(parts_before(a, c, k1));
    } else if k2 < k1 {
        assert(a[k2] == b[k2]);
        assert(parts_before(a, c, k2));
    } else {
        assert(parts_before(a, c, k1));
    }
}

proof fn lemma_lex_total_from(a: Seq<char>, b: Seq<char>, i: int)
    requires
        0 <= i <= a.len(),
        i <= b.len(),
        same_prefix(a, b, i),
        a != b,
    ensures
        lex_less(a, b) || lex_less(b, a),
    decreases a.len() - i,
{
    if i == a.len() && i == b.len() {
        assert(a =~= b);
    } else if i == a.len() {
        assert(parts_before(a, b, i));
    } else if i == b.len() {
        assert(parts_before(b, a, i));
    } else if a[i] == b[i] {
        lemma_lex_total_from(a, b, i + 1);
    } else if a[i] < b[i] {
        assert(parts_before(a, b, i));
    } else {
        assert(parts_before(b, a, i));
    }
}

/// Of two different texts, one sorts before the other.
pub proof fn lemma_lex_total(a: Seq<char>, b: Seq<char>)
    requires
        a != b,
    ensures
        lex_less(a, b) || lex_less(b, a),
{
    lemma_lex_total_from(a, b, 0);
}

/// `a` sorts before `b`.
pub fn text_less(a: &str, b: &str) -> (r: bool)
    ensures
        r == lex_less(a@, b@),
{
    let an = a.unicode_len();
    let bn = b.unicode_len();
    let mut i: usize = 0;
    while i < an && i < bn
        invariant
            an == a@.len(),
            bn == b@.len(),
            i <= an,
            i <= bn,
            same_prefix(a@, b@, i as int),
        decreases an - i,
    {
        let x = a.get_char(i);
        let y = b.get_char(i);
        if x != y {
            let less = x < y;
            proof {
                if less {
                    assert(parts_before(a@, b@, i as int));
                } else if lex_less(a@, b@) {
                    let k = choose|k: int| #[trigger] parts_before(a@, b@, k);
                    if k > i {
                        assert(a@[i as int] == b@[i as int]);
                    }
                }
            }
            return less;
        }
        i += 1;
    }
    let less = i == an && i < bn;
    proof {
        if less {
            assert(parts_before(a@, b@, i as int));
        } else if lex_less(a@, b@) {
            let k = choose|k: int| #[trigger] parts_before(a@, b@, k);
            assert(parts_before(a@, b@, k));
        }
    }
    less
}

/// Each entry sorts before every later one: in order, nothing twice.
pub open spec fn sorted_strict(s: Seq<Seq<char>>) -> bool {
    forall|i: int, j: int| 0 <= i < j < s.len() ==> lex_less(#[trigger] s[i], #[trigger] s[j])
}

/// Add `x` to a sorted list of texts unless it is there already.
pub fn insert_sorted(v: &mut Vec<String>, x: String)
    requires
        sorted_strict(views(old(v)@)),
    ensures
        sorted_strict(views(final(v)@)),
        forall|d: Seq<char>| views(final(v)@).contains(d) <==> (views(old(v)@).contains(d) || d == x@),
{
    let ghost before = views(v@);
    let n = v.len();
    let mut p: usize = 0;
    while p < n && text_less(v[p].as_str(), x.as_str())
        invariant
            n == v@.len(),
            p <= n,
            before == views(v@),
            forall|i: int| 0 <= i < p ==> lex_less(#[trigger] before[i], x@),
        decreases n - p,
    {
        proof {
            assert(before[p as int] == v@[p as int]@);
        }
        p += 1;
    }
    if p < n && crate::text::str_eq(v[p].as_str(), x.as_str()) {
        proof {
            assert(before[p as int] == v@[p as int]@);
            assert(before.contains(x@));
        }
        return;
    }
    proof {
        if p < n {
            assert(before[p as int] == v@[p as int]@);
            lemma_lex_total(before[p as int], x@);
            assert forall|j: int| p <= j < before.len() implies lex_less(x@, #[trigger] before[j]) by {
                if j > p {
                    assert(lex_less(before[p as int], before[j]));
                    lemma_lex_transitive(x@, before[p as int], before[j]);
                }
            }
        }
    }
    let ghost xv = x@;
    v.insert(p, x);
    proof {
        let after = views(v@);
        assert(after =~= before.insert(p as int, xv));
        assert forall|i: int, j: int| 0 <= i < j < after.len() implies lex_less(#[trigger] after[i], #[trigger] after[j]) by {
            if j < p {
                assert(after[i] == before[i] && after[j] == before[j]);
            } else if j == p {
                assert(after[i] == before[i]);
            } else if i < p {
                assert(after[i] == before[i] && after[j] == before[j - 1]);
                if i < p {
                    lemma_lex_transitive(before[i], xv, before[j - 1]);
                }
            } else if i == p {
                assert(after[j] == before[j - 1]);
            } else {
                assert(after[i] == before[i - 1] && after[j] == before[j - 1]);
            }
        }
        assert forall|d: Seq<char>| after.contains(d) <==> (before.contains(d) || d == xv) by {
            if after.contains(d) {
                let k = choose|k: int| 0 <= k < after.len() && after[k] == d;
                if k < p {
                    assert(before[k] == d);
                } else if k > p {
                    assert(before[k - 1] == d);
                }
            }
            if before.contains(d) {
                let k = choose|k: int| 0 <= k < before.len() && before[k] == d;
                if k < p {
                    assert(after[k] == d);
                } else {
                    assert(after[k + 1] == d);
                }
            }
            if d == xv {
                assert(after[p as int] == d);
            }
        }
    }
}

// ---------------------------------------------------------------------------
// The folder rail
// ---------------------------------------------------------------------------

/// How many leading characters of a volume-relative path name the root:
/// the root's own path and the separator after it.
pub open spec fn root_prefix_len(root_rel: Seq<char>) -> int {
    if root_rel.len() == 0 { 0 } else { root_rel.len() + 1int }
}

/// `d` is a directory of path `rel`: the root-relative text before one of
/// its separators.
pub open spec fn dir_at(rel: Seq<char>, root_rel: Seq<char>, m: int) -> bool {
    root_prefix_len(root_rel) <= m < rel.len() && rel[m] == '/'
}

pub open spec fn dir_of_rel(rel: Seq<char>, root_rel: Seq<char>, d: Seq<char>) -> bool {
    exists|m: int| #[trigger] dir_at(rel, root_rel, m) && d == rel.subrange(root_prefix_len(root_rel), m)
}

/// `d` is a directory of one of the paths.
pub open spec fn listed_dir(rels: Seq<Seq<char>>, root_rel: Seq<char>, d: Seq<char>) -> bool {
    exists|i: int| 0 <= i < rels.len() && dir_of_rel(#[trigger] rels[i], root_rel, d)
}

/// Every directory that holds one of the paths, or lies above one that
/// does, relative to the root and in path order. Each path is taken to
/// start with the root's path and a separator; a path shorter than that
/// contributes nothing.
pub fn ancestor_dirs(rels: &Vec<String>, root_rel: &str) -> (r: Vec<String>)
    ensures
        sorted_strict(views(r@)),
        forall|d: Seq<char>| views(r@).contains(d) <==> listed_dir(views(rels@), root_rel@, d),
{
    let ghost vr = views(rels@);
    let rn = root_rel.unicode_len();
    let mut dirs: Vec<String> = Vec::new();
    let n = rels.len();
    for i in 0..n
        invariant
            n == rels@.len(),
            vr == views(rels@),
            rn == root_rel@.len(),
            sorted_strict(views(dirs@)),
            forall|d: Seq<char>| views(dirs@).contains(d) <==> (exists|k: int| 0 <= k < i && dir_of_rel(#[trigger] vr[k], root_rel@, d)),
    {
        let rel = rels[i].as_str();
        let len = rel.unicode_len();
        proof {
            assert(vr[i as int] == rel@);
        }
        if rn == 0 || rn < len {
            let start: usize = if rn == 0 { 0 } else { rn + 1 };
            let mut j: usize = start;
            while j < len
                invariant
                    n == rels@.len(),
                    vr == views(rels@),
                    i < n,
                    vr[i as int] == rel@,
                    len == rel@.len(),
                    start == root_prefix_len(root_rel@),
                    start <= j <= len,
                    sorted_strict(views(dirs@)),
                    forall|d: Seq<char>| views(dirs@).contains(d) <==> ((exists|k: int| 0 <= k < i && dir_of_rel(#[trigger] vr[k], root_rel@, d))
                        || (exists|m: int| #[trigger] dir_at(rel@, root_rel@, m) && m < j && d == rel@.subrange(start as int, m))),
                decreases len - j,
            {
                let ghost old_dirs = views(dirs@);
                if rel.get_char(j) == '/' {
                    let d = String::from_str(rel.substring_char(start, j));
                    insert_sorted(&mut dirs, d);
                    proof {
                        assert(dir_at(rel@, root_rel@, j as int));
                    }
                }
                proof {
                    assert forall|d: Seq<char>| views(dirs@).contains(d) <==> ((exists|k: int| 0 <= k < i && dir_of_rel(#[trigger] vr[k], root_rel@, d))
                        || (exists|m: int| #[trigger] dir_at(rel@, root_rel@, m) && m < j + 1 && d == rel@.subrange(start as int, m))) by {
                        if exists|m: int| #[trigger] dir_at(rel@, root_rel@, m) && m < j + 1 && d == rel@.subrange(start as int, m) {
                            let m = choose|m: int| #[trigger] dir_at(rel@, root_rel@, m) && m < j + 1 && d == rel@.subrange(start as int, m);
                            if m < j {
                                assert(old_dirs.contains(d));
                            }
                        }
                    }
                }
                j += 1;
            }
        }
        proof {
            assert forall|d: Seq<char>| views(dirs@).contains(d) <==> (exists|k: int| 0 <= k < i + 1 && dir_of_rel(#[trigger] vr[k], root_rel@, d)) by {
                if exists|k: int| 0 <= k < i + 1 && dir_of_rel(#[trigger] vr[k], root_rel@, d) {
                    let k = choose|k: int| 0 <= k < i + 1 && dir_of_rel(#[trigger] vr[k], root_rel@, d);
                    if k == i {
                        let m = choose|m: int| #[trigger] dir_at(rel@, root_rel@, m) && d == rel@.subrange(root_prefix_len(root_rel@), m);
                        assert(dir_at(rel@, root_rel@, m));
                    }
                }
                if views(dirs@).contains(d) && !(exists|k: int| 0 <= k < i && dir_of_rel(#[trigger] vr[k], root_rel@, d)) {
                    let m = choose|m: int| #[trigger] dir_at(rel@, root_rel@, m) && m < len && d == rel@.subrange(root_prefix_len(root_rel@), m);
                    assert(dir_of_rel(vr[i as int], root_rel@, d));
                }
            }
        }
    }
    dirs
}

/// The folder rail of one root from the volume-relative paths of its
/// active files: the tree over every directory that holds a file or lies
/// above one, each list in path order.
pub fn folder_tree(rels: &Vec<String>, root_rel: &str) -> (r: Vec<FolderNode>)
    ensures
        exists|dirs: Seq<Seq<char>>| {
            &&& sorted_strict(dirs)
            &&& forall|d: Seq<char>| dirs.contains(d) <==> listed_dir(views(rels@), root_rel@, d)
            &&& node_paths(r@) == tops(dirs)
            &&& forall|k: int| 0 <= k < r@.len() ==> forall|depth: nat| node_is(#[trigger] r@[k], dirs, r@[k].rel_path@, depth)
        },
{
    let dirs = ancestor_dirs(rels, root_rel);
    let r = build_tree(&dirs);
    proof {
        let w = views(dirs@);
        assert(sorted_strict(w));
    }
    r
}

} // verus!
