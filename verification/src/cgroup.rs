//! Choice of the cgroups that scope interception, from the lines of
//! `/proc/self/cgroup` (`hierarchy-id:controllers:path`).
//!
//! The hooks are attached to the pod's cgroup, the parent of the sidecar
//! container's cgroup, so that the traffic of every container of the pod is
//! intercepted; the sidecar container's own cgroup is the one whose traffic
//! is left alone.
use vstd::prelude::*;

verus! {

/// Mount point of the cgroup v2 hierarchy.
pub open spec fn spec_cgroup_root() -> Seq<char> {
    seq!['/', 's', 'y', 's', '/', 'f', 's', '/', 'c', 'g', 'r', 'o', 'u', 'p']
}

/// No `:` in `s[lo..hi]`.
pub open spec fn spec_colon_free(s: Seq<char>, lo: int, hi: int) -> bool {
    forall|k: int| lo <= k < hi ==> s[k] != ':'
}

/// `i` and `j` are the positions of the first two `:` of `line`.
pub open spec fn spec_first_two_colons(line: Seq<char>, i: int, j: int) -> bool {
    &&& 0 <= i < j < line.len()
    &&& line[i] == ':'
    &&& line[j] == ':'
    &&& spec_colon_free(line, 0, i)
    &&& spec_colon_free(line, i + 1, j)
}

/// The third field of a line split at its first two `:` (what
/// `line.splitn(3, ':')` yields third), if the line has two `:`.
pub open spec fn spec_entry_path(line: Seq<char>) -> Option<Seq<char>> {
    if exists|i: int, j: int| spec_first_two_colons(line, i, j) {
        let (i, j) = choose|i: int, j: int| spec_first_two_colons(line, i, j);
        Some(line.subrange(j + 1, line.len() as int))
    } else {
        None
    }
}

/// A line that names a cgroup below the root (the root itself, `/`, is what
/// cgroup v1 hierarchies that the container does not use report).
pub open spec fn spec_is_container_entry(line: Seq<char>) -> bool {
    &&& spec_entry_path(line) is Some
    &&& spec_entry_path(line)->0.len() > 0
    &&& spec_entry_path(line)->0 != seq!['/']
}

/// The path of the sidecar container's cgroup: that of the first line that
/// names a cgroup below the root.
pub open spec fn spec_container_entry(lines: Seq<Seq<char>>) -> Option<Seq<char>>
    decreases lines.len(),
{
    if lines.len() == 0 {
        None
    } else if spec_is_container_entry(lines[0]) {
        spec_entry_path(lines[0])
    } else {
        spec_container_entry(lines.drop_first())
    }
}

/// The text of each line.
pub open spec fn spec_lines(lines: Seq<String>) -> Seq<Seq<char>> {
    lines.map_values(|s: String| s@)
}

/// An absolute path in plain form: it starts with `/`, has at least one
/// component, and has no empty component (`//` or a trailing `/`), no `.`
/// component and no backslash.
pub open spec fn spec_is_plain_absolute_path(p: Seq<char>) -> bool {
    &&& p.len() >= 2
    &&& p[0] == '/'
    &&& p.last() != '/'
    &&& forall|i: int| 0 <= i < p.len() - 1 ==> !(#[trigger] p[i] == '/' && p[i + 1] == '/')
    &&& forall|i: int|
        1 <= i < p.len() && #[trigger] p[i] == '.' ==> !(p[i - 1] == '/' && (i + 1 == p.len()
            || p[i + 1] == '/'))
    &&& forall|i: int| 0 <= i < p.len() ==> #[trigger] p[i] != '\\'
}

/// The position of the last `/` of `p`.
pub open spec fn spec_last_slash(p: Seq<char>) -> int {
    choose|k: int| 0 <= k < p.len() && p[k] == '/' && forall|m: int| k < m < p.len() ==> p[m] != '/'
}

/// A plain absolute path without its final component.
pub open spec fn spec_parent(p: Seq<char>) -> Seq<char> {
    if spec_last_slash(p) == 0 {
        seq!['/']
    } else {
        p.subrange(0, spec_last_slash(p))
    }
}

/// What `Path::parent` gives for the path `p` (as text), a function of `p`
/// alone.
pub uninterp spec fn spec_path_parent(p: Seq<char>) -> Option<Seq<char>>;

/// The parent of `p`, or `p` itself when it has none.
pub open spec fn spec_parent_or_self(p: Seq<char>) -> Seq<char> {
    match spec_path_parent(p) {
        Some(q) => q,
        None => p,
    }
}

/// `Path::parent` followed by `to_string_lossy` (which changes nothing on
/// text that came from a `&str`).  The result is named `spec_path_parent`.
/// The standard library documents `parent` as the path without its final
/// component; the contract spells that out for plain absolute paths (see
/// `spec_is_plain_absolute_path`), where it is the text before the last `/`
/// (or `/` itself).
#[verifier::external_body]
fn path_parent(p: &str) -> (r: Option<String>)
    ensures
        r is Some <==> spec_path_parent(p@) is Some,
        r is Some ==> r->0@ == spec_path_parent(p@)->0,
        spec_is_plain_absolute_path(p@) ==> r is Some && r->0@ == spec_parent(p@),
{
    std::path::Path::new(p).parent().map(|q| q.to_string_lossy().into_owned())
}

/// The third `:`-separated field of a `/proc/self/cgroup` line (the field
/// after the second `:`, which may itself hold `:`), or `None` when the line
/// has fewer than three fields.
pub fn cgroup_entry_path(line: &str) -> (r: Option<String>)
    ensures
        r is Some <==> spec_entry_path(line@) is Some,
        r matches Some(p) ==> p@ == spec_entry_path(line@)->0,
{
    let n = line.unicode_len();
    let mut i: usize = 0;
    while i < n && line.get_char(i) != ':'
        invariant
            n == line@.len(),
            i <= n,
            spec_colon_free(line@, 0, i as int),
        decreases n - i,
    {
        i = i + 1;
    }
    if i == n {
        assert(!exists|a: int, b: int| spec_first_two_colons(line@, a, b)) by {
            assert forall|a: int, b: int| !spec_first_two_colons(line@, a, b) by {
                if spec_first_two_colons(line@, a, b) {
                    assert(line@[a] != ':');
                }
            }
        }
        return None;
    }
    let mut j: usize = i + 1;
    while j < n && line.get_char(j) != ':'
        invariant
            n == line@.len(),
            i < j <= n,
            line@[i as int] == ':',
            spec_colon_free(line@, 0, i as int),
            spec_colon_free(line@, i + 1, j as int),
        decreases n - j,
    {
        j = j + 1;
    }
    if j == n {
        assert(!exists|a: int, b: int| spec_first_two_colons(line@, a, b)) by {
            assert forall|a: int, b: int| !spec_first_two_colons(line@, a, b) by {
                if spec_first_two_colons(line@, a, b) {
                    if a < i {
                        assert(line@[a] != ':');
                    } else if a > i {
                        assert(line@[i as int] != ':');
                    } else {
                        assert(line@[b] != ':');
                    }
                }
            }
        }
        return None;
    }
    assert(spec_first_two_colons(line@, i as int, j as int));
    let ghost (ci, cj) = choose|a: int, b: int| spec_first_two_colons(line@, a, b);
    assert(ci == i && cj == j) by {
        if ci < i {
            assert(line@[ci] != ':');
        } else if ci > i {
            assert(line@[i as int] != ':');
        }
        if cj < j {
            assert(line@[cj] != ':');
        } else if cj > j {
            assert(line@[j as int] != ':');
        }
    }
    let rest = line.substring_char(j + 1, n);
    Some(String::from_str(rest))
}

/// The line's path, when it names a cgroup below the root.
fn container_entry_path(line: &str) -> (r: Option<String>)
    ensures
        r is Some <==> spec_is_container_entry(line@),
        r matches Some(p) ==> p@ == spec_entry_path(line@)->0,
{
    match cgroup_entry_path(line) {
        Some(path) => {
            let n = path.as_str().unicode_len();
            if n == 0 {
                None
            } else if n == 1 && path.as_str().get_char(0) == '/' {
                assert(path@ =~= seq!['/']);
                None
            } else {
                assert(path@ != seq!['/']) by {
                    if path@ == seq!['/'] {
                        assert(path@.len() == 1);
                    }
                }
                Some(path)
            }
        },
        None => None,
    }
}

/// The path of the first line whose third field names a cgroup below the root
/// (non-empty and not `/`), or `None` when no line does.
pub fn container_cgroup_entry(lines: &Vec<String>) -> (r: Option<String>)
    ensures
        r is Some <==> spec_container_entry(spec_lines(lines@)) is Some,
        r matches Some(p) ==> p@ == spec_container_entry(spec_lines(lines@))->0,
{
    let ghost all = spec_lines(lines@);
    assert(all.skip(0) =~= all);
    let mut i: usize = 0;
    while i < lines.len()
        invariant
            i <= lines.len(),
            all == spec_lines(lines@),
            spec_container_entry(all) == spec_container_entry(all.skip(i as int)),
        decreases lines.len() - i,
    {
        assert(all.skip(i as int).drop_first() =~= all.skip(i + 1));
        assert(all.skip(i as int)[0] == lines@[i as int]@);
        if let Some(path) = container_entry_path(lines[i].as_str()) {
            return Some(path);
        }
        i = i + 1;
    }
    assert(all.skip(i as int).len() == 0);
    None
}

/// The cgroup that the interception hooks are attached to: the parent of
/// the path made of `base` joined with the container's cgroup path (the
/// pod's cgroup), or that joined path itself when it has no parent.
pub open spec fn spec_hook_cgroup(base: Seq<char>, entry: Seq<char>) -> Seq<char> {
    spec_parent_or_self(base + entry)
}

/// The sidecar container's own cgroup directory.
pub open spec fn spec_container_cgroup_dir(entry: Seq<char>) -> Seq<char> {
    spec_cgroup_root() + entry
}

/// The cgroup to attach the interception hooks to, given the lines of
/// `/proc/self/cgroup` read so far: for the first line that names a cgroup
/// below the root, the parent of the path made of `base` joined with that
/// line's path (the pod's cgroup; the joined path itself when it has no
/// parent); `None` when no line names one.
pub fn find_pod_cgroup_path(base: &str, lines: &Vec<String>) -> (r: Option<String>)
    ensures
        r is Some <==> spec_container_entry(spec_lines(lines@)) is Some,
        spec_container_entry(spec_lines(lines@)) matches Some(entry) ==> r->0@ == spec_hook_cgroup(
            base@,
            entry,
        ),
        spec_container_entry(spec_lines(lines@)) matches Some(entry) ==> (
        spec_is_plain_absolute_path(base@ + entry) ==> r->0@ == spec_parent(base@ + entry)),
{
    match container_cgroup_entry(lines) {
        Some(path) => {
            let full = String::from_str(base).concat(path.as_str());
            match path_parent(full.as_str()) {
                Some(parent) => Some(parent),
                None => Some(full),
            }
        },
        None => None,
    }
}

/// The cgroup to attach the interception hooks to: the one of
/// [`find_pod_cgroup_path`], or `base` itself when no line names one.
pub fn detect_cgroup_path(base: &str, lines: &Vec<String>) -> (r: String)
    ensures
        spec_container_entry(spec_lines(lines@)) is None ==> r@ == base@,
        spec_container_entry(spec_lines(lines@)) matches Some(entry) ==> r@ == spec_hook_cgroup(
            base@,
            entry,
        ),
        spec_container_entry(spec_lines(lines@)) matches Some(entry) ==> (
        spec_is_plain_absolute_path(base@ + entry) ==> r@ == spec_parent(base@ + entry)),
{
    match find_pod_cgroup_path(base, lines) {
        Some(p) => p,
        None => String::from_str(base),
    }
}

/// The sidecar container's own cgroup directory: `/sys/fs/cgroup` followed by
/// the path of the first line that names a cgroup below the root, or `None`
/// when no line does.
pub fn container_cgroup_path(lines: &Vec<String>) -> (r: Option<String>)
    ensures
        r is Some <==> spec_container_entry(spec_lines(lines@)) is Some,
        r matches Some(p) ==> p@ == spec_container_cgroup_dir(
            spec_container_entry(spec_lines(lines@))->0,
        ),
{
    match container_cgroup_entry(lines) {
        Some(path) => {
            let root = "/sys/fs/cgroup";
            proof {
                reveal_strlit("/sys/fs/cgroup");
            }
            assert(root@ =~= spec_cgroup_root());
            Some(String::from_str(root).concat(path.as_str()))
        },
        None => None,
    }
}

/// Law: the hooks are attached to the parent of the cgroup that is exempted
/// as the sidecar's own.  For the lines of `/proc/self/cgroup`, whenever a
/// container cgroup is found, the cgroup chosen under `/sys/fs/cgroup` for
/// the hooks (`detect_cgroup_path`) and the container's cgroup directory
/// (`container_cgroup_path`) come from the same line: the former is the
/// parent of the latter (or the latter itself when it has no parent), and
/// for a path in plain form the latter without its last component.
pub proof fn lemma_hooks_attach_to_container_parent(lines: Seq<Seq<char>>)
    requires
        spec_container_entry(lines) is Some,
    ensures
        spec_hook_cgroup(spec_cgroup_root(), spec_container_entry(lines)->0)
            == spec_parent_or_self(spec_container_cgroup_dir(spec_container_entry(lines)->0)),
{
}

/// Law: a `/proc/self/cgroup` line is read by its third field alone.  For
/// any hierarchy id `h` and controller list `c` (neither holding `:`) and any
/// path `p` (which may hold `:`), the line `h:c:p` has path `p`, and it
/// names the container's cgroup exactly when `p` is non-empty and not `/`;
/// the hierarchy id and the controllers play no part.  When such a line
/// comes first, its path is the container's cgroup path.
pub proof fn lemma_entry_is_third_field(
    h: Seq<char>,
    c: Seq<char>,
    p: Seq<char>,
    rest: Seq<Seq<char>>,
)
    requires
        spec_colon_free(h, 0, h.len() as int),
        spec_colon_free(c, 0, c.len() as int),
    ensures
        spec_entry_path(h + seq![':'] + c + seq![':'] + p) == Some(p),
        spec_is_container_entry(h + seq![':'] + c + seq![':'] + p) <==> (p.len() > 0 && p
            != seq!['/']),
        p.len() > 0 && p != seq!['/'] ==> spec_container_entry(
            seq![h + seq![':'] + c + seq![':'] + p] + rest,
        ) == Some(p),
{
    let line = h + seq![':'] + c + seq![':'] + p;
    let i = h.len() as int;
    let j = (h.len() + 1 + c.len()) as int;
    assert(line[i] == ':');
    assert(line[j] == ':');
    assert(spec_colon_free(line, 0, i)) by {
        assert forall|k: int| 0 <= k < i implies line[k] != ':' by {
            assert(line[k] == h[k]);
        }
    }
    assert(spec_colon_free(line, i + 1, j)) by {
        assert forall|k: int| i + 1 <= k < j implies line[k] != ':' by {
            assert(line[k] == c[k - i - 1]);
        }
    }
    assert(spec_first_two_colons(line, i, j));
    let (ci, cj) = choose|a: int, b: int| spec_first_two_colons(line, a, b);
    assert(ci == i && cj == j) by {
        if ci < i {
            assert(line[ci] != ':');
        } else if ci > i {
            assert(line[i] != ':');
        }
        if cj < j {
            assert(line[cj] != ':');
        } else if cj > j {
            assert(line[j] != ':');
        }
    }
    assert(line.subrange(j + 1, line.len() as int) =~= p);
    let lines = seq![line] + rest;
    assert(lines[0] == line);
}

} // verus!
