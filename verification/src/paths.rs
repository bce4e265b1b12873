//! Workspace paths: a path is taken apart into its components (by std's
//! `Path::components`), normalized lexically, and checked to stay inside the
//! workspace root. Paths use `/` as the separator.
use vstd::prelude::*;

use crate::error::{not_found_message, CoreError, CoreResult, STATUS_BAD_REQUEST, STATUS_NOT_FOUND};
use crate::text::{chars_of, str_eq};

verus! {

/// A component of a path.
#[derive(Debug)]
pub enum PathPart {
    /// A Windows prefix such as `C:`.
    Prefix(String),
    /// The root directory `/`.
    Root,
    /// `.`
    Current,
    /// `..`
    Parent,
    /// A file or directory name.
    Normal(String),
}

/// A path component as the contracts see it.
pub enum PartView {
    Prefix(Seq<char>),
    Root,
    Current,
    Parent,
    Normal(Seq<char>),
}

impl View for PathPart {
    type V = PartView;

    open spec fn view(&self) -> PartView {
        match self {
            PathPart::Prefix(p) => PartView::Prefix(p@),
            PathPart::Root => PartView::Root,
            PathPart::Current => PartView::Current,
            PathPart::Parent => PartView::Parent,
            PathPart::Normal(n) => PartView::Normal(n@),
        }
    }
}

/// The views of a list of components.
pub open spec fn parts_view(parts: Seq<PathPart>) -> Seq<PartView> {
    parts.map_values(|p: PathPart| p@)
}

/// The components std's `Path::components` yields for the path `path` (the
/// parse of the target the library is built for; this library uses `/`).
pub uninterp spec fn components_of(path: Seq<char>) -> Seq<PartView>;

/// Calls `std::path::Path::components` and converts each component.
#[verifier::external_body]
pub(crate) fn path_components(path: &str) -> (r: Vec<PathPart>)
    ensures
        parts_view(r@) == components_of(path@),
{
    let mut parts = Vec::new();
    for component in std::path::Path::new(path).components() {
        parts.push(match component {
            std::path::Component::Prefix(p) => PathPart::Prefix(p.as_os_str().to_string_lossy().into_owned()),
            std::path::Component::RootDir => PathPart::Root,
            std::path::Component::CurDir => PathPart::Current,
            std::path::Component::ParentDir => PathPart::Parent,
            std::path::Component::Normal(n) => PathPart::Normal(n.to_string_lossy().into_owned()),
        });
    }
    parts
}

/// The components after pushing `part` onto a normalized path, as
/// `PathBuf::push` would: a root or prefix starts the path anew.
pub open spec fn pushed(prev: Seq<PartView>, part: PartView) -> Seq<PartView> {
    match part {
        PartView::Root => if prev.len() > 0 && prev[0] is Prefix {
            seq![prev[0], PartView::Root]
        } else {
            seq![PartView::Root]
        },
        PartView::Prefix(_) => seq![part],
        _ => prev.push(part),
    }
}

/// A path normalized lexically: `.` is dropped, and `..` drops the last
/// name before it (at the root, or with no name left, it is dropped).
pub open spec fn normalized(parts: Seq<PartView>) -> Seq<PartView>
    decreases parts.len(),
{
    if parts.len() == 0 {
        Seq::empty()
    } else {
        let prev = normalized(parts.drop_last());
        match parts.last() {
            PartView::Current => prev,
            PartView::Parent => if prev.len() > 0 && prev.last() is Normal {
                prev.drop_last()
            } else {
                prev
            },
            part => pushed(prev, part),
        }
    }
}

/// A normalized path has no `.` or `..` in it.
pub open spec fn is_normal_form(parts: Seq<PartView>) -> bool {
    forall|i: int| 0 <= i < parts.len() ==> !(#[trigger] parts[i] is Current) && !(parts[i] is Parent)
}

/// `prefix` is a leading run of `parts`, component by component.
pub open spec fn parts_start_with(parts: Seq<PartView>, prefix: Seq<PartView>) -> bool {
    prefix.len() <= parts.len() && parts.take(prefix.len() as int) == prefix
}

/// `parts` joined with `/` after the root, as a path is displayed.
pub open spec fn rendered(parts: Seq<PartView>) -> Seq<char>
    decreases parts.len(),
{
    if parts.len() == 0 {
        Seq::empty()
    } else {
        let prev = rendered(parts.drop_last());
        let piece = match parts.last() {
            PartView::Prefix(p) => p,
            PartView::Root => Seq::empty(),
            PartView::Current => seq!['.'],
            PartView::Parent => seq!['.', '.'],
            PartView::Normal(n) => n,
        };
        if parts.last() is Root {
            prev + seq!['/']
        } else if parts.len() == 1 || prev.len() == 0 || prev.last() == '/' {
            prev + piece
        } else {
            prev + seq!['/'] + piece
        }
    }
}

fn clone_part(p: &PathPart) -> (r: PathPart)
    ensures
        r@ == p@,
{
    match p {
        PathPart::Prefix(s) => PathPart::Prefix(s.clone()),
        PathPart::Root => PathPart::Root,
        PathPart::Current => PathPart::Current,
        PathPart::Parent => PathPart::Parent,
        PathPart::Normal(s) => PathPart::Normal(s.clone()),
    }
}

/// Normalizes the components of a path lexically.
pub fn normalize_parts(parts: &[PathPart]) -> (r: Vec<PathPart>)
    ensures
        parts_view(r@) == normalized(parts_view(parts@)),
{
    let mut out: Vec<PathPart> = Vec::new();
    let mut i: usize = 0;
    while i < parts.len()
        invariant
            i <= parts.len(),
            parts_view(out@) == normalized(parts_view(parts@.take(i as int))),
        decreases parts.len() - i,
    {
        let ghost prev = parts_view(out@);
        proof {
            assert(parts_view(parts@.take(i + 1)).drop_last() =~= parts_view(parts@.take(i as int)));
            assert(parts_view(parts@.take(i + 1)).last() == parts@[i as int]@);
        }
        match &parts[i] {
            PathPart::Current => {},
            PathPart::Parent => {
                let n = out.len();
                if n > 0 {
                    let last_is_name = match &out[n - 1] {
                        PathPart::Normal(_) => true,
                        _ => false,
                    };
                    if last_is_name {
                        out.pop();
                        proof {
                            assert(parts_view(out@) =~= prev.drop_last());
                        }
                    }
                }
            },
            PathPart::Root => {
                let keep_prefix = out.len() > 0 && match &out[0] {
                    PathPart::Prefix(_) => true,
                    _ => false,
                };
                if keep_prefix {
                    let first = clone_part(&out[0]);
                    out = Vec::new();
                    out.push(first);
                    out.push(PathPart::Root);
                } else {
                    out = Vec::new();
                    out.push(PathPart::Root);
                }
                proof {
                    assert(parts_view(out@) =~= pushed(prev, PartView::Root));
                }
            },
            PathPart::Prefix(p) => {
                out = Vec::new();
                out.push(PathPart::Prefix(p.clone()));
                proof {
                    assert(parts_view(out@) =~= pushed(prev, parts@[i as int]@));
                }
            },
            PathPart::Normal(n) => {
                out.push(PathPart::Normal(n.clone()));
                proof {
                    assert(parts_view(out@) =~= prev.push(parts@[i as int]@));
                }
            },
        }
        i = i + 1;
    }
    proof {
        assert(parts@.take(parts.len() as int) =~= parts@);
    }
    out
}

/// Displays normalized components as a path.
pub fn render_parts(parts: &[PathPart]) -> (r: String)
    ensures
        r@ == rendered(parts_view(parts@)),
{
    let mut out = String::new();
    let mut i: usize = 0;
    while i < parts.len()
        invariant
            i <= parts.len(),
            out@ == rendered(parts_view(parts@.take(i as int))),
        decreases parts.len() - i,
    {
        let ghost prev = out@;
        proof {
            assert(parts_view(parts@.take(i + 1)).drop_last() =~= parts_view(parts@.take(i as int)));
            assert(parts_view(parts@.take(i + 1)).last() == parts@[i as int]@);
            reveal_strlit("/");
            reveal_strlit(".");
            reveal_strlit("..");
        }
        let ends_with_slash = {
            let n = out.unicode_len();
            n > 0 && out.as_str().get_char(n - 1) == '/'
        };
        match &parts[i] {
            PathPart::Root => {
                out.append("/");
            },
            part => {
                if i > 0 && out.unicode_len() > 0 && !ends_with_slash {
                    out.append("/");
                }
                match part {
                    PathPart::Prefix(p) => out.append(p.as_str()),
                    PathPart::Current => out.append("."),
                    PathPart::Parent => out.append(".."),
                    PathPart::Normal(n) => out.append(n.as_str()),
                    PathPart::Root => {},
                }
            },
        }
        proof {
            assert(out@ =~= rendered(parts_view(parts@.take(i + 1))));
        }
        i = i + 1;
    }
    proof {
        assert(parts@.take(parts.len() as int) =~= parts@);
    }
    out
}

fn same_part(a: &PathPart, b: &PathPart) -> (r: bool)
    ensures
        r == (a@ == b@),
{
    match (a, b) {
        (PathPart::Prefix(x), PathPart::Prefix(y)) => str_eq(x.as_str(), y.as_str()),
        (PathPart::Root, PathPart::Root) => true,
        (PathPart::Current, PathPart::Current) => true,
        (PathPart::Parent, PathPart::Parent) => true,
        (PathPart::Normal(x), PathPart::Normal(y)) => str_eq(x.as_str(), y.as_str()),
        _ => false,
    }
}

/// Whether `prefix` is a leading run of `parts`, component by component.
pub fn starts_with_parts(parts: &[PathPart], prefix: &[PathPart]) -> (r: bool)
    ensures
        r == parts_start_with(parts_view(parts@), parts_view(prefix@)),
{
    if prefix.len() > parts.len() {
        return false;
    }
    let mut i: usize = 0;
    while i < prefix.len()
        invariant
            i <= prefix.len() <= parts.len(),
            forall|k: int| 0 <= k < i ==> parts@[k]@ == prefix@[k]@,
        decreases prefix.len() - i,
    {
        if !same_part(&parts[i], &prefix[i]) {
            proof {
                assert(parts_view(parts@).take(prefix.len() as int)[i as int] != parts_view(prefix@)[i as int]);
            }
            return false;
        }
        i = i + 1;
    }
    proof {
        assert(parts_view(parts@).take(prefix.len() as int) =~= parts_view(prefix@));
    }
    true
}

/// The normalized components of `candidate` taken from the workspace root:
/// an absolute candidate stands for itself, a relative one is joined onto
/// the root (as `Path::join` does).
pub open spec fn joined_parts(root: Seq<PartView>, candidate: Seq<PartView>) -> Seq<PartView> {
    if candidate.len() > 0 && candidate[0] is Root {
        normalized(candidate)
    } else {
        normalized(root + candidate)
    }
}

/// The message of the error for a path outside the workspace.
pub open spec fn outside_message(path: Seq<char>, root: Seq<char>) -> Seq<char> {
    "path "@ + path + " is outside the workspace root "@ + root
}

/// The normalized components of `candidate` joined onto `root` (see
/// `joined_parts`).
fn join_parts(root_parts: &Vec<PathPart>, candidate_parts: &Vec<PathPart>) -> (r: Vec<PathPart>)
    ensures
        parts_view(r@) == joined_parts(parts_view(root_parts@), parts_view(candidate_parts@)),
{
    let absolute = candidate_parts.len() > 0 && match &candidate_parts[0] {
        PathPart::Root => true,
        _ => false,
    };
    if absolute {
        normalize_parts(candidate_parts.as_slice())
    } else {
        let mut all: Vec<PathPart> = Vec::new();
        let mut k: usize = 0;
        while k < root_parts.len()
            invariant
                k <= root_parts.len(),
                parts_view(all@) == parts_view(root_parts@.take(k as int)),
            decreases root_parts.len() - k,
        {
            let ghost prev = all@;
            all.push(clone_part(&root_parts[k]));
            proof {
                assert(root_parts@.take(k + 1) =~= root_parts@.take(k as int).push(root_parts@[k as int]));
                assert(parts_view(all@) =~= parts_view(prev).push(root_parts@[k as int]@));
                assert(parts_view(root_parts@.take(k + 1)) =~= parts_view(root_parts@.take(k as int)).push(root_parts@[k as int]@));
            }
            k = k + 1;
        }
        let mut j: usize = 0;
        proof {
            assert(root_parts@.take(root_parts.len() as int) =~= root_parts@);
            assert(parts_view(candidate_parts@).take(0) =~= Seq::<PartView>::empty());
        }
        while j < candidate_parts.len()
            invariant
                j <= candidate_parts.len(),
                parts_view(all@) == parts_view(root_parts@) + parts_view(candidate_parts@).take(j as int),
            decreases candidate_parts.len() - j,
        {
            let ghost prev = all@;
            all.push(clone_part(&candidate_parts[j]));
            proof {
                assert(parts_view(all@) =~= parts_view(prev).push(candidate_parts@[j as int]@));
                assert(parts_view(candidate_parts@).take(j + 1) =~= parts_view(candidate_parts@).take(j as int).push(candidate_parts@[j as int]@));
            }
            j = j + 1;
        }
        proof {
            assert(parts_view(candidate_parts@).take(candidate_parts.len() as int) =~= parts_view(candidate_parts@));
        }
        normalize_parts(all.as_slice())
    }
}

/// `candidate` joined onto `root` and normalized lexically, with no check
/// of where it lies.
pub fn join_normalized(root: &str, candidate: &str) -> (r: String)
    ensures
        r@ == rendered(joined_parts(components_of(root@), components_of(candidate@))),
{
    let root_parts = path_components(root);
    let candidate_parts = path_components(candidate);
    let parts = join_parts(&root_parts, &candidate_parts);
    render_parts(parts.as_slice())
}

/// What resolving `candidate` lexically against `root` gives: the joined
/// path, normalized, when it lies inside the root; else a 400 error saying
/// it is outside.
pub open spec fn lexical_outcome(root: Seq<char>, candidate: Seq<char>, r: CoreResult<String>) -> bool {
    let q = joined_parts(components_of(root), components_of(candidate));
    match r {
        Ok(p) => p@ == rendered(q) && parts_start_with(q, components_of(root)),
        Err(e) => {
            &&& e.status == STATUS_BAD_REQUEST
            &&& !parts_start_with(q, components_of(root))
            &&& e.message@ == outside_message(rendered(q), root)
        },
    }
}

/// Resolves `candidate` against the (canonical) workspace root `root`
/// lexically: the joined path, normalized, which must lie inside the root.
pub fn resolve_lexically(root: &str, candidate: &str) -> (r: CoreResult<String>)
    ensures
        lexical_outcome(root@, candidate@, r),
{
    let root_parts = path_components(root);
    let candidate_parts = path_components(candidate);
    let normalized_parts = join_parts(&root_parts, &candidate_parts);
    let path = render_parts(normalized_parts.as_slice());
    if starts_with_parts(normalized_parts.as_slice(), root_parts.as_slice()) {
        Ok(path)
    } else {
        let mut message = String::from_str("path ");
        message.append(path.as_str());
        message.append(" is outside the workspace root ");
        message.append(root);
        Err(CoreError::new(STATUS_BAD_REQUEST, message))
    }
}

/// What std's `Path::strip_prefix` gives for `path` and `base`: `None` when
/// it refuses, else the text it leaves of `path` once the leading
/// components `base` are taken off, as `Path::display` shows it.
pub uninterp spec fn remainder_text(path: Seq<char>, base: Seq<char>) -> Option<Seq<char>>;

/// No component of `parts` is a Windows prefix such as `C:`.
pub open spec fn no_prefix(parts: Seq<PartView>) -> bool {
    forall|i: int| 0 <= i < parts.len() ==> !(#[trigger] parts[i] is Prefix)
}

/// Calls `std::path::Path::strip_prefix` and displays what is left. std
/// documents that it considers whole components only; where neither path
/// has a prefix component (how std compares prefixes is not documented), it
/// succeeds exactly when `base` is a leading run of the components of
/// `path`. The text left over is named, not stated.
#[verifier::external_body]
pub(crate) fn strip_path_prefix(path: &str, base: &str) -> (r: Option<String>)
    ensures
        match r {
            Some(t) => remainder_text(path@, base@) == Some(t@),
            None => remainder_text(path@, base@) is None,
        },
        no_prefix(components_of(path@)) && no_prefix(components_of(base@)) ==> (r is Some
            <==> parts_start_with(components_of(path@), components_of(base@))),
{
    match std::path::Path::new(path).strip_prefix(base) {
        Ok(rest) => Some(rest.display().to_string()),
        Err(_) => None,
    }
}

/// `target` shown relative to `root`: the text `strip_prefix` leaves after
/// the root, when it succeeds and something is left, else `fallback`.
pub open spec fn relative_or(root: Seq<char>, target: Seq<char>, fallback: Seq<char>) -> Seq<char> {
    match remainder_text(target, root) {
        Some(t) => if t.len() > 0 {
            t
        } else {
            fallback
        },
        None => fallback,
    }
}

/// `target` shown relative to the workspace root, or as given when it is
/// not inside it.
pub fn display_relative_path(workspace_root: &str, target: &str) -> (r: String)
    ensures
        r@ == relative_or(workspace_root@, target@, target@),
{
    match strip_path_prefix(target, workspace_root) {
        Some(t) => if chars_of(t.as_str()).len() > 0 { t } else { String::from_str(target) },
        None => String::from_str(target),
    }
}

/// `target` shown relative to the workspace root, or `.` when it is not
/// strictly inside it.
pub fn to_relative(workspace_root: &str, target: &str) -> (r: String)
    ensures
        r@ == relative_or(workspace_root@, target@, "."@),
{
    match strip_path_prefix(target, workspace_root) {
        Some(t) => if chars_of(t.as_str()).len() > 0 { t } else { String::from_str(".") },
        None => String::from_str("."),
    }
}

/// What the file system says of a path that is to exist: it is missing,
/// it exists but cannot be resolved (with the error's text), or it resolves
/// to this canonical path.
#[derive(Debug)]
pub enum PathProbe {
    Missing,
    Unresolved(String),
    Canonical(String),
}

/// A path probe as the contracts see it.
pub enum ProbeView {
    Missing,
    Unresolved(Seq<char>),
    Canonical(Seq<char>),
}

impl View for PathProbe {
    type V = ProbeView;

    open spec fn view(&self) -> ProbeView {
        match self {
            PathProbe::Missing => ProbeView::Missing,
            PathProbe::Unresolved(m) => ProbeView::Unresolved(m@),
            PathProbe::Canonical(c) => ProbeView::Canonical(c@),
        }
    }
}

/// The status of the error for a workspace root that cannot be resolved.
pub const STATUS_WORKSPACE_ROOT: u16 = 500;

/// The message of the error for a workspace root that cannot be resolved.
pub open spec fn root_failure_message(root: Seq<char>, error: Seq<char>) -> Seq<char> {
    "failed to resolve workspace root "@ + root + ": "@ + error
}

/// The message of the error for an existing path that cannot be resolved.
pub open spec fn path_failure_message(path: Seq<char>, error: Seq<char>) -> Seq<char> {
    "failed to resolve path "@ + path + ": "@ + error
}

/// `p` is a path inside `root`: a normalized path (no `.` or `..`) whose
/// leading components are the root's.
pub open spec fn inside_root(p: Seq<char>, root: Seq<char>) -> bool {
    exists|q: Seq<PartView>|
        #[trigger] rendered(q) == p && is_normal_form(q) && parts_start_with(q, components_of(root))
}

/// Resolves a path of the workspace for a tool. `canonical_root` is what
/// canonicalizing `workspace_root` gave (its error's text on failure), and
/// `probe` what the file system says of `join_normalized` of that root and
/// `candidate` (used only when the path must exist). The root failing is a
/// 500 error. A path that may be missing is resolved lexically. A path that
/// must exist is a 404 error when missing, a 400 error when it cannot be
/// resolved, and otherwise its canonical form, which must lie inside the
/// root.
pub fn resolve_workspace_path(
    workspace_root: &str,
    canonical_root: Result<String, String>,
    candidate: &str,
    allow_missing: bool,
    probe: PathProbe,
) -> (r: CoreResult<String>)
    ensures
        match canonical_root {
            Err(m) => r matches Err(e) && e.status == STATUS_WORKSPACE_ROOT && e.message@
                == root_failure_message(workspace_root@, m@),
            Ok(root) => if allow_missing {
                lexical_outcome(root@, candidate@, r)
            } else {
                match probe@ {
                    ProbeView::Missing => r matches Err(e) && e.status == STATUS_NOT_FOUND
                        && e.message@ == not_found_message("path"@),
                    ProbeView::Unresolved(m) => r matches Err(e) && e.status
                        == STATUS_BAD_REQUEST && e.message@ == path_failure_message(
                        rendered(joined_parts(components_of(root@), components_of(candidate@))),
                        m,
                    ),
                    ProbeView::Canonical(c) => lexical_outcome(root@, c, r),
                }
            },
        },
        r matches Ok(p) ==> canonical_root matches Ok(root) && inside_root(p@, root@),
{
    let root = match canonical_root {
        Ok(root) => root,
        Err(error) => {
            let mut message = String::from_str("failed to resolve workspace root ");
            message.append(workspace_root);
            message.append(": ");
            message.append(error.as_str());
            return Err(CoreError::new(STATUS_WORKSPACE_ROOT, message));
        },
    };
    let r = if allow_missing {
        resolve_lexically(root.as_str(), candidate)
    } else {
        match probe {
            PathProbe::Missing => Err(CoreError::not_found("path")),
            PathProbe::Unresolved(error) => {
                let joined = join_normalized(root.as_str(), candidate);
                let mut message = String::from_str("failed to resolve path ");
                message.append(joined.as_str());
                message.append(": ");
                message.append(error.as_str());
                Err(CoreError::bad_request(message.as_str()))
            },
            PathProbe::Canonical(canonical) => resolve_lexically(root.as_str(), canonical.as_str()),
        }
    };
    proof {
        if r is Ok {
            let x = if allow_missing {
                candidate@
            } else {
                match probe@ {
                    ProbeView::Canonical(c) => c,
                    _ => candidate@,
                }
            };
            let q = joined_parts(components_of(root@), components_of(x));
            if components_of(x).len() > 0 && components_of(x)[0] is Root {
                crate::laws::law_normalized_shape(components_of(x));
            } else {
                crate::laws::law_normalized_shape(components_of(root@) + components_of(x));
            }
            assert(rendered(q) == r->Ok_0@);
        }
    }
    r
}

/// Normalizes a path lexically and displays it.
pub fn normalize_path(path: &str) -> (r: String)
    ensures
        r@ == rendered(normalized(components_of(path@))),
{
    let parts = path_components(path);
    let normal = normalize_parts(parts.as_slice());
    render_parts(normal.as_slice())
}

} // verus!
