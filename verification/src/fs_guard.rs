//! File jail: the path decisions that keep file access under one root.
//!
//! Paths follow Unix `std::path` semantics: a path is its sequence of
//! components (root, a leading `.`, then the non-empty segments other than
//! `.`), `join` replaces the base with an absolute argument, and
//! `starts_with` compares whole components.
use vstd::prelude::*;
use crate::text::{append_str, chars_of, copy_str, push_char};

verus! {

/// Why the jail refused a request.
#[derive(Debug, Clone, Copy, PartialEq, Eq, Structural)]
pub enum JailError {
    /// The proposed root is not a directory.
    RootNotADirectory,
    /// The resolved path lies outside the jail root.
    OutsideJail,
    /// The opened file turned out to be a symbolic link.
    SymlinkDetected,
}

impl JailError {
    /// The message the error carries.
    pub fn message(&self) -> (r: &'static str)
        ensures
            r@ == jail_error_message(*self),
    {
        match self {
            JailError::RootNotADirectory => "Jail root must be a directory",
            JailError::OutsideJail => "Access Denied: Path outside of jail",
            JailError::SymlinkDetected => "Access Denied: Symbolic link detected after open",
        }
    }
}

/// The message of each jail error.
pub open spec fn jail_error_message(e: JailError) -> Seq<char> {
    match e {
        JailError::RootNotADirectory => "Jail root must be a directory"@,
        JailError::OutsideJail => "Access Denied: Path outside of jail"@,
        JailError::SymlinkDetected => "Access Denied: Symbolic link detected after open"@,
    }
}

/// A segment that is a component (not empty, not `.`).
pub open spec fn is_component_segment(seg: Seq<char>) -> bool {
    seg.len() > 0 && seg != seq!['.']
}

/// The component segments of `s`, given the unfinished segment `cur`.
pub open spec fn segments_acc(s: Seq<char>, cur: Seq<char>) -> Seq<Seq<char>>
    decreases s.len(),
{
    if s.len() == 0 {
        if is_component_segment(cur) {
            seq![cur]
        } else {
            Seq::empty()
        }
    } else if s[0] == '/' {
        (if is_component_segment(cur) {
            seq![cur]
        } else {
            Seq::<Seq<char>>::empty()
        }) + segments_acc(s.drop_first(), Seq::empty())
    } else {
        segments_acc(s.drop_first(), cur.push(s[0]))
    }
}

/// The path is absolute.
pub open spec fn is_absolute(s: Seq<char>) -> bool {
    s.len() > 0 && s[0] == '/'
}

/// A relative path whose first segment is `.`.
pub open spec fn has_leading_cur_dir(s: Seq<char>) -> bool {
    !is_absolute(s) && s.len() > 0 && s[0] == '.' && (s.len() == 1 || s[1] == '/')
}

/// The components of a Unix path: `/` for the root, `.` for a leading
/// current-directory segment, then every non-empty segment other than `.`.
pub open spec fn components(s: Seq<char>) -> Seq<Seq<char>> {
    (if is_absolute(s) {
        seq![seq!['/']]
    } else {
        Seq::<Seq<char>>::empty()
    }) + (if has_leading_cur_dir(s) {
        seq![seq!['.']]
    } else {
        Seq::<Seq<char>>::empty()
    }) + segments_acc(s, Seq::empty())
}

/// `Path::starts_with`: the components of `base` begin the components of `p`.
pub open spec fn path_starts_with(p: Seq<char>, base: Seq<char>) -> bool {
    let cp = components(p);
    let cb = components(base);
    cb.len() <= cp.len() && cp.take(cb.len() as int) == cb
}

/// `Path::join` on Unix: an absolute `rel` replaces `base`; otherwise `rel`
/// is appended after a `/` unless `base` is empty or already ends in `/`.
pub open spec fn path_join(base: Seq<char>, rel: Seq<char>) -> Seq<char> {
    if is_absolute(rel) {
        rel
    } else if base.len() == 0 || base.last() == '/' {
        base + rel
    } else {
        base + seq!['/'] + rel
    }
}

fn segments_of(v: &Vec<char>) -> (r: Vec<Vec<char>>)
    ensures
        r@.len() == segments_acc(v@, Seq::empty()).len(),
        forall|k: int| 0 <= k < r@.len() ==> #[trigger] r@[k]@ == segments_acc(v@, Seq::empty())[k],
{
    let mut out: Vec<Vec<char>> = Vec::new();
    let mut cur: Vec<char> = Vec::new();
    let ghost done: Seq<Seq<char>> = Seq::empty();
    let mut i: usize = 0;
    proof {
        assert(v@.skip(0) =~= v@);
        assert(cur@ =~= Seq::<char>::empty());
        assert(done + segments_acc(v@.skip(0), cur@) =~= segments_acc(v@, Seq::empty()));
    }
    while i < v.len()
        invariant
            i <= v@.len(),
            out@.len() == done.len(),
            forall|k: int| 0 <= k < out@.len() ==> #[trigger] out@[k]@ == done[k],
            segments_acc(v@, Seq::empty()) == done + segments_acc(v@.skip(i as int), cur@),
        decreases v.len() - i,
    {
        let c = v[i];
        proof {
            assert(v@.skip(i as int).drop_first() =~= v@.skip(i as int + 1));
        }
        if c == '/' {
            let keep = cur.len() > 0 && !(cur.len() == 1 && cur[0] == '.');
            proof {
                if cur.len() == 1 && cur[0] == '.' {
                    assert(cur@ =~= seq!['.']);
                }
                if cur@ == seq!['.'] {
                    assert(cur@.len() == 1);
                }
            }
            if keep {
                proof {
                    assert(done.push(cur@) + segments_acc(v@.skip(i as int + 1), Seq::empty())
                        =~= done + (seq![cur@] + segments_acc(v@.skip(i as int + 1), Seq::empty())));
                    done = done.push(cur@);
                }
                out.push(cur);
            } else {
                proof {
                    assert(done + (Seq::<Seq<char>>::empty() + segments_acc(v@.skip(i as int + 1), Seq::empty()))
                        =~= done + segments_acc(v@.skip(i as int + 1), Seq::empty()));
                }
            }
            cur = Vec::new();
            proof {
                assert(cur@ =~= Seq::<char>::empty());
            }
        } else {
            cur.push(c);
        }
        i = i + 1;
    }
    proof {
        assert(v@.skip(i as int) =~= Seq::<char>::empty());
    }
    let keep = cur.len() > 0 && !(cur.len() == 1 && cur[0] == '.');
    proof {
        if cur.len() == 1 && cur[0] == '.' {
            assert(cur@ =~= seq!['.']);
        }
        if cur@ == seq!['.'] {
            assert(cur@.len() == 1);
        }
    }
    if keep {
        proof {
            assert(done.push(cur@) =~= done + seq![cur@]);
            done = done.push(cur@);
        }
        out.push(cur);
    } else {
        proof {
            assert(done + Seq::<Seq<char>>::empty() =~= done);
        }
    }
    out
}

/// The components of the path `s`.
pub fn path_components(s: &str) -> (r: Vec<Vec<char>>)
    ensures
        r@.len() == components(s@).len(),
        forall|k: int| 0 <= k < r@.len() ==> #[trigger] r@[k]@ == components(s@)[k],
{
    let v = chars_of(s);
    let segs = segments_of(&v);
    let mut out: Vec<Vec<char>> = Vec::new();
    let ghost pre: Seq<Seq<char>> = Seq::empty();
    let absolute = v.len() > 0 && v[0] == '/';
    if absolute {
        let mut r: Vec<char> = Vec::new();
        r.push('/');
        proof {
            pre = pre.push(r@);
        }
        out.push(r);
    }
    let cur_dir = !absolute && v.len() > 0 && v[0] == '.' && (v.len() == 1 || v[1] == '/');
    if cur_dir {
        let mut d: Vec<char> = Vec::new();
        d.push('.');
        proof {
            pre = pre.push(d@);
        }
        out.push(d);
    }
    proof {
        let a = if is_absolute(s@) { seq![seq!['/']] } else { Seq::<Seq<char>>::empty() };
        let b = if has_leading_cur_dir(s@) { seq![seq!['.']] } else { Seq::<Seq<char>>::empty() };
        assert(pre =~= a + b);
        assert(out@.len() == pre.len());
        assert forall|k: int| 0 <= k < out@.len() implies #[trigger] out@[k]@ == pre[k] by {
            if absolute && k == 0 {
                assert(out@[0]@ =~= seq!['/']);
            }
            if cur_dir {
                assert(out@[out@.len() - 1]@ =~= seq!['.']);
            }
        }
    }
    let n0 = out.len();
    let mut j: usize = 0;
    while j < segs.len()
        invariant
            j <= segs@.len(),
            n0 == pre.len(),
            segs@.len() == segments_acc(s@, Seq::empty()).len(),
            forall|k: int| 0 <= k < segs@.len() ==> #[trigger] segs@[k]@ == segments_acc(s@, Seq::empty())[k],
            out@.len() == n0 + j,
            forall|k: int| 0 <= k < out@.len() ==> #[trigger] out@[k]@ == (pre + segments_acc(s@, Seq::empty()))[k],
        decreases segs.len() - j,
    {
        let seg = string_vec(&segs[j]);
        out.push(seg);
        j = j + 1;
    }
    out
}

fn string_vec(v: &Vec<char>) -> (r: Vec<char>)
    ensures
        r@ == v@,
{
    let mut r: Vec<char> = Vec::new();
    let mut i: usize = 0;
    while i < v.len()
        invariant
            i <= v@.len(),
            r@ == v@.take(i as int),
        decreases v.len() - i,
    {
        r.push(v[i]);
        i = i + 1;
        proof {
            assert(r@ =~= v@.take(i as int));
        }
    }
    proof {
        assert(v@.take(v@.len() as int) =~= v@);
    }
    r
}

/// Whether `p` starts, component by component, with `base`.
pub fn starts_with_path(p: &str, base: &str) -> (r: bool)
    ensures
        r == path_starts_with(p@, base@),
{
    let cp = path_components(p);
    let cb = path_components(base);
    if cb.len() > cp.len() {
        return false;
    }
    let mut i: usize = 0;
    while i < cb.len()
        invariant
            cb@.len() <= cp@.len(),
            i <= cb@.len(),
            cp@.len() == components(p@).len(),
            cb@.len() == components(base@).len(),
            forall|k: int| 0 <= k < cp@.len() ==> #[trigger] cp@[k]@ == components(p@)[k],
            forall|k: int| 0 <= k < cb@.len() ==> #[trigger] cb@[k]@ == components(base@)[k],
            forall|k: int| 0 <= k < i ==> components(p@)[k] == components(base@)[k],
        decreases cb.len() - i,
    {
        if !crate::text::seq_eq(cp[i].as_slice(), cb[i].as_slice()) {
            proof {
                assert(components(p@).take(components(base@).len() as int)[i as int] != components(base@)[i as int]);
            }
            return false;
        }
        i = i + 1;
    }
    proof {
        assert(components(p@).take(components(base@).len() as int) =~= components(base@));
    }
    true
}

/// The parent-directory component `..`.
pub open spec fn parent_dir() -> Seq<char> {
    seq!['.', '.']
}

/// Whether one of the components of `p` is `..`.
pub fn has_parent_component(p: &str) -> (r: bool)
    ensures
        r == components(p@).contains(parent_dir()),
{
    let cp = path_components(p);
    let mut i: usize = 0;
    while i < cp.len()
        invariant
            i <= cp@.len(),
            cp@.len() == components(p@).len(),
            forall|k: int| 0 <= k < cp@.len() ==> #[trigger] cp@[k]@ == components(p@)[k],
            forall|k: int| 0 <= k < i ==> components(p@)[k] != parent_dir(),
        decreases cp.len() - i,
    {
        let c = &cp[i];
        if c.len() == 2 && c[0] == '.' && c[1] == '.' {
            proof {
                assert(cp@[i as int]@ =~= parent_dir());
                assert(components(p@)[i as int] == parent_dir());
            }
            return true;
        }
        proof {
            if cp@[i as int]@ == parent_dir() {
                assert(cp@[i as int]@.len() == 2);
            }
        }
        i = i + 1;
    }
    proof {
        if components(p@).contains(parent_dir()) {
            let k = choose|k: int| 0 <= k < components(p@).len() && components(p@)[k] == parent_dir();
            assert(components(p@)[k] != parent_dir());
        }
    }
    false
}

/// Joins `rel` onto `base` as `Path::join` does.
pub fn join_path(base: &str, rel: &str) -> (r: String)
    ensures
        r@ == path_join(base@, rel@),
{
    let rv = chars_of(rel);
    if rv.len() > 0 && rv[0] == '/' {
        return copy_str(rel);
    }
    let bv = chars_of(base);
    let mut r = copy_str(base);
    if !(bv.len() == 0 || bv[bv.len() - 1] == '/') {
        push_char(&mut r, '/');
    }
    append_str(&mut r, rel);
    r
}

/// A directory under which all file access is confined.
#[derive(Clone, Debug)]
pub struct Jail {
    root: String,
}

impl Jail {
    /// The jail root.
    pub closed spec fn root_path(&self) -> Seq<char> {
        self.root@
    }

    /// Creates a jail on the canonical root `root_canonical`, which must be a
    /// directory (`is_dir`).
    pub fn new(root_canonical: &str, is_dir: bool) -> (r: Result<Jail, JailError>)
        ensures
            is_dir ==> (r matches Ok(j) && j.root_path() == root_canonical@),
            !is_dir ==> r == Err::<Jail, JailError>(JailError::RootNotADirectory),
    {
        if !is_dir {
            return Err(JailError::RootNotADirectory);
        }
        Ok(Jail { root: copy_str(root_canonical) })
    }

    /// The jail root.
    pub fn root(&self) -> (r: &str)
        ensures
            r@ == self.root_path(),
    {
        self.root.as_str()
    }

    /// Where a request points before resolution: an absolute request as
    /// given, a relative one joined onto the root.
    pub fn base_path(&self, requested: &str) -> (r: String)
        ensures
            r@ == path_join(self.root_path(), requested@),
    {
        join_path(self.root.as_str(), requested)
    }

    /// Admits `full_path` only if it lies under the root, component by component.
    pub fn check_within(&self, full_path: &str) -> (r: Result<(), JailError>)
        ensures
            r is Ok <==> path_starts_with(full_path@, self.root_path()),
            r is Err ==> r == Err::<(), JailError>(JailError::OutsideJail),
    {
        if starts_with_path(full_path, self.root.as_str()) {
            Ok(())
        } else {
            Err(JailError::OutsideJail)
        }
    }

    /// The directory `create_dir_all` may create for `requested`: the joined
    /// path, admitted when it lies under the root and has no `..` component
    /// (a `..` could climb out of the root once the directories exist).
    pub fn create_dir_target(&self, requested: &str) -> (r: Result<String, JailError>)
        ensures
            r matches Ok(p) ==> p@ == path_join(self.root_path(), requested@)
                && path_starts_with(p@, self.root_path())
                && !components(p@).contains(parent_dir()),
            r is Ok <==> path_starts_with(path_join(self.root_path(), requested@), self.root_path())
                && !components(path_join(self.root_path(), requested@)).contains(parent_dir()),
            r is Err ==> r == Err::<String, JailError>(JailError::OutsideJail),
    {
        let full = self.base_path(requested);
        if has_parent_component(full.as_str()) {
            return Err(JailError::OutsideJail);
        }
        match self.check_within(full.as_str()) {
            Ok(()) => Ok(full),
            Err(e) => Err(e),
        }
    }

    /// After opening: refuses a file whose metadata reports a symbolic link.
    pub fn check_opened(is_symlink: bool) -> (r: Result<(), JailError>)
        ensures
            r is Ok <==> !is_symlink,
            r is Err ==> r == Err::<(), JailError>(JailError::SymlinkDetected),
    {
        if is_symlink {
            Err(JailError::SymlinkDetected)
        } else {
            Ok(())
        }
    }
}

/// A path admitted by `check_within` (or by `create_dir_target`) lies under
/// the root: its components begin with the root's components.
pub proof fn law_admitted_paths_stay_in_jail(j: Jail, full_path: Seq<char>)
    requires
        path_starts_with(full_path, j.root_path()),
    ensures
        components(j.root_path()).len() <= components(full_path).len(),
        forall|k: int| 0 <= k < components(j.root_path()).len()
            ==> #[trigger] components(full_path)[k] == components(j.root_path())[k],
{
    let cp = components(full_path);
    let cb = components(j.root_path());
    assert forall|k: int| 0 <= k < cb.len() implies #[trigger] cp[k] == cb[k] by {
        assert(cp.take(cb.len() as int)[k] == cp[k]);
    }
}

} // verus!
