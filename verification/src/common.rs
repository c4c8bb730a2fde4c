//! Project classification and path filtering shared by the scanners.
use vstd::prelude::*;
use crate::text::chars_of;

verus! {

/// The kind of project in a directory.
#[derive(Debug, Clone, Copy, PartialEq, Eq, Structural)]
pub enum ProjectType {
    Rust,
    Python,
    Unknown,
}

/// A `Cargo.toml` makes a Rust project; otherwise `requirements.txt` or
/// `pyproject.toml` makes a Python project.
pub open spec fn project_type_of(
    has_cargo_toml: bool,
    has_requirements_txt: bool,
    has_pyproject_toml: bool,
) -> ProjectType {
    if has_cargo_toml {
        ProjectType::Rust
    } else if has_requirements_txt || has_pyproject_toml {
        ProjectType::Python
    } else {
        ProjectType::Unknown
    }
}

/// Classifies a project from which marker files exist in it.
pub fn detect_project_type(
    has_cargo_toml: bool,
    has_requirements_txt: bool,
    has_pyproject_toml: bool,
) -> (r: ProjectType)
    ensures
        r == project_type_of(has_cargo_toml, has_requirements_txt, has_pyproject_toml),
{
    if has_cargo_toml {
        return ProjectType::Rust;
    }
    if has_requirements_txt || has_pyproject_toml {
        return ProjectType::Python;
    }
    ProjectType::Unknown
}

/// A path segment that names no file: empty (repeated or trailing `/`) or `.`.
pub open spec fn is_skipped_segment(seg: Seq<char>) -> bool {
    seg.len() == 0 || seg == seq!['.']
}

/// The file name a last path segment gives: none (empty) for `..`.
pub open spec fn judged_segment(seg: Seq<char>) -> Seq<char> {
    if seg == seq!['.', '.'] {
        Seq::empty()
    } else {
        seg
    }
}

/// `Path::file_name` on Unix, scanning `s` backwards with `seg` the
/// characters seen after the last `/`; the empty sequence stands for `None`.
pub open spec fn file_name_acc(s: Seq<char>, seg: Seq<char>) -> Seq<char>
    decreases s.len(),
{
    if s.len() == 0 {
        if is_skipped_segment(seg) {
            Seq::empty()
        } else {
            judged_segment(seg)
        }
    } else if s.last() == '/' {
        if is_skipped_segment(seg) {
            file_name_acc(s.drop_last(), Seq::empty())
        } else {
            judged_segment(seg)
        }
    } else {
        file_name_acc(s.drop_last(), seq![s.last()] + seg)
    }
}

/// The final component of a path, or empty when it has none
/// (`Path::file_name(..)` with `None` read as `""`).
pub open spec fn file_name(s: Seq<char>) -> Seq<char> {
    file_name_acc(s, Seq::empty())
}

/// Directory names the scanners never enter.
pub open spec fn ignored_names() -> Seq<Seq<char>> {
    seq![
        "target"@, "node_modules"@, "venv"@, ".venv"@, "__pycache__"@, "dist"@, "build"@,
    ]
}

/// A hidden entry (name starting with `.`) or an ignored directory name.
pub open spec fn ignored_name(name: Seq<char>) -> bool {
    (name.len() > 0 && name[0] == '.') || ignored_names().contains(name)
}

fn ignored_name_at(i: usize) -> (w: &'static str)
    requires
        i < 7,
    ensures
        w@ == ignored_names()[i as int],
{
    match i {
        0 => "target",
        1 => "node_modules",
        2 => "venv",
        3 => ".venv",
        4 => "__pycache__",
        5 => "dist",
        _ => "build",
    }
}

/// The file name of `path` (characters after the last meaningful `/`),
/// empty when the path has none.
pub fn path_file_name(path: &str) -> (r: Vec<char>)
    ensures
        r@ == file_name(path@),
{
    let v = chars_of(path);
    let mut i = v.len();
    let mut seg: Vec<char> = Vec::new();
    proof {
        assert(v@.take(i as int) =~= v@);
        assert(seg@ =~= Seq::<char>::empty());
    }
    while i > 0
        invariant
            i <= v@.len(),
            v@ == path@,
            file_name(path@) == file_name_acc(v@.take(i as int), seg@),
        decreases i,
    {
        proof {
            assert(v@.take(i as int).drop_last() =~= v@.take(i - 1));
        }
        let c = v[i - 1];
        if c == '/' {
            let skipped = seg.len() == 0 || (seg.len() == 1 && seg[0] == '.');
            proof {
                if seg.len() == 1 && seg[0] == '.' {
                    assert(seg@ =~= seq!['.']);
                }
                if seg@ == seq!['.'] {
                    assert(seg@.len() == 1);
                }
            }
            if skipped {
                seg = Vec::new();
            } else {
                return judge_segment(seg);
            }
        } else {
            let mut next: Vec<char> = Vec::new();
            next.push(c);
            let mut k: usize = 0;
            while k < seg.len()
                invariant
                    k <= seg@.len(),
                    next@ == seq![c] + seg@.take(k as int),
                decreases seg.len() - k,
            {
                next.push(seg[k]);
                k = k + 1;
                proof {
                    assert(next@ =~= seq![c] + seg@.take(k as int));
                }
            }
            proof {
                assert(seg@.take(seg@.len() as int) =~= seg@);
            }
            seg = next;
        }
        i = i - 1;
    }
    proof {
        assert(v@.take(0) =~= Seq::<char>::empty());
    }
    let skipped = seg.len() == 0 || (seg.len() == 1 && seg[0] == '.');
    proof {
        if seg.len() == 1 && seg[0] == '.' {
            assert(seg@ =~= seq!['.']);
        }
        if seg@ == seq!['.'] {
            assert(seg@.len() == 1);
        }
    }
    if skipped {
        Vec::new()
    } else {
        judge_segment(seg)
    }
}

fn judge_segment(seg: Vec<char>) -> (r: Vec<char>)
    ensures
        r@ == judged_segment(seg@),
{
    if seg.len() == 2 && seg[0] == '.' && seg[1] == '.' {
        proof {
            assert(seg@ =~= seq!['.', '.']);
        }
        Vec::new()
    } else {
        proof {
            if seg@ == seq!['.', '.'] {
                assert(seg@.len() == 2);
            }
        }
        seg
    }
}

/// Whether the path's file name is hidden (starts with `.`) or is an
/// ignored directory name (`target`, `node_modules`, `venv`, `.venv`,
/// `__pycache__`, `dist`, `build`).
pub fn is_ignored_path(path: &str) -> (r: bool)
    ensures
        r == ignored_name(file_name(path@)),
{
    let name = path_file_name(path);
    if name.len() > 0 && name[0] == '.' {
        return true;
    }
    let mut i: usize = 0;
    while i < 7
        invariant
            i <= 7,
            name@ == file_name(path@),
            !(name@.len() > 0 && name@[0] == '.'),
            forall|k: int| 0 <= k < i ==> ignored_names()[k] != name@,
        decreases 7 - i,
    {
        let w = chars_of(ignored_name_at(i));
        if crate::text::seq_eq(name.as_slice(), w.as_slice()) {
            proof {
                assert(ignored_names()[i as int] == name@);
                assert(ignored_names().contains(name@));
            }
            return true;
        }
        i = i + 1;
    }
    proof {
        if ignored_names().contains(name@) {
            let k = choose|k: int| 0 <= k < ignored_names().len() && ignored_names()[k] == name@;
            assert(ignored_names()[k] != name@);
        }
    }
    false
}

} // verus!
