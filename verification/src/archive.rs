//! Archive codec model: which entries of a bundle may touch the filesystem,
//! and where.
//!
//! Extraction never trusts an archive.  Every entry path runs through a
//! sanitiser before any filesystem effect: absolute paths and
//! parent-directory components are rejected, current-directory and empty
//! components are skipped, and the reconstructed path must still sit under
//! the destination root.  Directory entries become directories, regular
//! files are written with their recorded mode, and symbolic links are
//! rejected outright.

use vstd::prelude::*;
use crate::paths::{
    seg_split, spec_is_abs, spec_join, spec_join_all, lemma_seg_split_nonempty, split_segments,
    join_path, starts_with_str,
};

verus! {

/// Why an archive entry was rejected.
#[derive(Debug, Clone, Copy, PartialEq, Eq, Structural)]
pub enum ArchiveError {
    /// The entry path is absolute.
    AbsolutePath,
    /// The entry path contains a parent-directory component.
    ParentComponent,
    /// The reconstructed path escapes the destination root.
    EscapesSandbox,
    /// The entry is a symbolic link, which the bundle format forbids.
    SymlinkEntry,
}

/// The error families of the pipeline, as callers report them.
#[derive(Debug, Clone, Copy, PartialEq, Eq, Structural)]
pub enum ErrorClass {
    InvalidInput,
    PermissionDenied,
    Other,
}

impl ArchiveError {
    /// Which error family the rejection belongs to.
    pub fn class(&self) -> (r: ErrorClass)
        ensures
            r == ErrorClass::InvalidInput <==> (*self == ArchiveError::AbsolutePath || *self
                == ArchiveError::ParentComponent),
            r == ErrorClass::PermissionDenied <==> *self == ArchiveError::EscapesSandbox,
            r == ErrorClass::Other <==> *self == ArchiveError::SymlinkEntry,
    {
        match self {
            ArchiveError::AbsolutePath => ErrorClass::InvalidInput,
            ArchiveError::ParentComponent => ErrorClass::InvalidInput,
            ArchiveError::EscapesSandbox => ErrorClass::PermissionDenied,
            ArchiveError::SymlinkEntry => ErrorClass::Other,
        }
    }

    /// The human-readable description of the rejection.
    pub fn message(&self) -> (r: String)
        ensures
            *self == ArchiveError::AbsolutePath ==> r@ == "Absolute paths not allowed"@,
            *self == ArchiveError::ParentComponent ==> r@ == "Parent components not allowed"@,
            *self == ArchiveError::EscapesSandbox ==> r@ == "Path escapes sandbox"@,
            *self == ArchiveError::SymlinkEntry ==> r@ == "Symlinks not allowed in archive"@,
    {
        match self {
            ArchiveError::AbsolutePath => String::from_str("Absolute paths not allowed"),
            ArchiveError::ParentComponent => String::from_str("Parent components not allowed"),
            ArchiveError::EscapesSandbox => String::from_str("Path escapes sandbox"),
            ArchiveError::SymlinkEntry => String::from_str("Symlinks not allowed in archive"),
        }
    }
}

/// A parent-directory segment: `..`.
pub open spec fn is_parent_seg(seg: Seq<char>) -> bool {
    seg =~= seq!['.', '.']
}

/// A segment the sanitiser silently skips: empty, or the current directory.
pub open spec fn is_skipped_seg(seg: Seq<char>) -> bool {
    seg.len() == 0 || seg =~= seq!['.']
}

/// A segment that names a real directory or file.
pub open spec fn is_normal_seg(seg: Seq<char>) -> bool {
    !is_parent_seg(seg) && !is_skipped_seg(seg)
}

/// The normal segments of a segment list, in order.
pub open spec fn normal_segs(segs: Seq<Seq<char>>) -> Seq<Seq<char>>
    decreases segs.len(),
{
    if segs.len() == 0 {
        Seq::empty()
    } else {
        let rest = normal_segs(segs.drop_last());
        if is_normal_seg(segs.last()) {
            rest.push(segs.last())
        } else {
            rest
        }
    }
}

/// Whether any segment is a parent-directory component.
pub open spec fn has_parent_seg(segs: Seq<Seq<char>>) -> bool {
    exists|i: int| 0 <= i < segs.len() && is_parent_seg(segs[i])
}

/// What the sanitiser makes of an entry path against a destination root:
/// the destination with the entry's normal segments joined under it, or the
/// rejection.
pub open spec fn spec_sanitize(entry: Seq<char>, dest: Seq<char>) -> Result<Seq<char>, ArchiveError> {
    if spec_is_abs(entry) {
        Err(ArchiveError::AbsolutePath)
    } else if has_parent_seg(seg_split(entry)) {
        Err(ArchiveError::ParentComponent)
    } else {
        Ok(spec_join_all(dest, normal_segs(seg_split(entry))))
    }
}

pub proof fn lemma_prefix_transitive(a: Seq<char>, b: Seq<char>, c: Seq<char>)
    requires
        a.is_prefix_of(b),
        b.is_prefix_of(c),
    ensures
        a.is_prefix_of(c),
{
    assert(a =~= c.subrange(0, a.len() as int));
}

pub proof fn lemma_join_prefix(base: Seq<char>, child: Seq<char>)
    ensures
        base.is_prefix_of(spec_join(base, child)),
{
    if base.len() == 0 {
        assert(base =~= spec_join(base, child).subrange(0, 0));
    } else if base.last() == '/' {
        assert(base =~= (base + child).subrange(0, base.len() as int));
    } else {
        assert(base =~= (base + seq!['/'] + child).subrange(0, base.len() as int));
    }
}

pub proof fn lemma_join_all_prefix(base: Seq<char>, segs: Seq<Seq<char>>)
    ensures
        base.is_prefix_of(spec_join_all(base, segs)),
    decreases segs.len(),
{
    if segs.len() == 0 {
        assert(base =~= spec_join_all(base, segs).subrange(0, base.len() as int));
    } else {
        lemma_join_prefix(base, segs.first());
        lemma_join_all_prefix(spec_join(base, segs.first()), segs.drop_first());
        lemma_prefix_transitive(
            base,
            spec_join(base, segs.first()),
            spec_join_all(spec_join(base, segs.first()), segs.drop_first()),
        );
    }
}

/// Joining one more segment at the end of a segment list joins it at the
/// end of the path.
pub proof fn lemma_join_all_snoc(base: Seq<char>, segs: Seq<Seq<char>>, seg: Seq<char>)
    ensures
        spec_join_all(base, segs.push(seg)) == spec_join(spec_join_all(base, segs), seg),
    decreases segs.len(),
{
    if segs.len() == 0 {
        assert(segs.push(seg).first() == seg);
        assert(segs.push(seg).drop_first() =~= Seq::<Seq<char>>::empty());
        assert(spec_join_all(base, segs.push(seg)) == spec_join_all(
            spec_join(base, seg),
            Seq::<Seq<char>>::empty(),
        ));
        assert(spec_join_all(spec_join(base, seg), Seq::<Seq<char>>::empty()) == spec_join(
            base,
            seg,
        ));
    } else {
        assert(segs.push(seg).first() == segs.first());
        assert(segs.push(seg).drop_first() =~= segs.drop_first().push(seg));
        lemma_join_all_snoc(spec_join(base, segs.first()), segs.drop_first(), seg);
    }
}

/// Law: a sanitised entry path always stays under the destination root.
/// Whatever the archive holds, an accepted entry resolves to a path that
/// the destination prefixes.
pub proof fn lemma_sanitize_no_escape(entry: Seq<char>, dest: Seq<char>)
    ensures
        spec_sanitize(entry, dest) matches Ok(p) ==> dest.is_prefix_of(p),
{
    if spec_sanitize(entry, dest) is Ok {
        lemma_join_all_prefix(dest, normal_segs(seg_split(entry)));
    }
}

/// The sanitiser, computed.  Skips empty and current-directory segments,
/// rejects absolute paths and parent components, and checks that the
/// reconstructed path still starts with the destination root.
pub fn sanitize_entry_path(entry_path: &str, dest: &str) -> (r: Result<String, ArchiveError>)
    ensures
        r matches Ok(p) ==> spec_sanitize(entry_path@, dest@) == Ok::<Seq<char>, ArchiveError>(p@)
            && dest@.is_prefix_of(p@),
        r matches Err(e) ==> spec_sanitize(entry_path@, dest@) == Err::<Seq<char>, ArchiveError>(e),
{
    let n: usize = entry_path.unicode_len();
    if n > 0 && entry_path.get_char(0) == '/' {
        return Err(ArchiveError::AbsolutePath);
    }
    let segs: Vec<&str> = split_segments(entry_path);
    let ghost all_segs: Seq<Seq<char>> = seg_split(entry_path@);
    let mut safe: String = String::from_str(dest);
    let mut i: usize = 0;
    while i < segs.len()
        invariant
            i <= segs.len(),
            all_segs == seg_split(entry_path@),
            segs@.len() == all_segs.len(),
            forall|j: int| 0 <= j < segs@.len() ==> segs@[j]@ == all_segs[j],
            forall|j: int| 0 <= j < i ==> !is_parent_seg(all_segs[j]),
            safe@ == spec_join_all(dest@, normal_segs(all_segs.subrange(0, i as int))),
            !spec_is_abs(entry_path@),
        decreases segs.len() - i,
    {
        let seg: &str = segs[i];
        let m: usize = seg.unicode_len();
        let is_parent: bool = m == 2 && seg.get_char(0) == '.' && seg.get_char(1) == '.';
        proof {
            assert(is_parent == is_parent_seg(seg@)) by {
                if m == 2 {
                    assert(seg@ =~= seq![seg@[0], seg@[1]] );
                }
            }
        }
        if is_parent {
            proof {
                assert(is_parent_seg(all_segs[i as int]));
                assert(has_parent_seg(all_segs));
                assert(!spec_is_abs(entry_path@));
                assert(spec_sanitize(entry_path@, dest@) == Err::<Seq<char>, ArchiveError>(
                    ArchiveError::ParentComponent,
                ));
            }
            return Err(ArchiveError::ParentComponent);
        }
        let skipped: bool = m == 0 || (m == 1 && seg.get_char(0) == '.');
        proof {
            assert(skipped == is_skipped_seg(seg@)) by {
                if m == 1 {
                    assert(seg@ =~= seq![seg@[0]]);
                }
            }
        }
        proof {
            let pre = all_segs.subrange(0, i as int);
            let pre1 = all_segs.subrange(0, i as int + 1);
            assert(pre1 =~= pre.push(all_segs[i as int]));
            assert(pre1.drop_last() =~= pre);
            assert(pre1.last() == all_segs[i as int]);
        }
        if !skipped {
            let joined: String = join_path(safe.as_str(), seg);
            proof {
                lemma_join_all_snoc(dest@, normal_segs(all_segs.subrange(0, i as int)), seg@);
            }
            safe = joined;
        }
        i = i + 1;
    }
    proof {
        assert(all_segs.subrange(0, all_segs.len() as int) =~= all_segs);
        lemma_join_all_prefix(dest@, normal_segs(all_segs));
    }
    if starts_with_str(safe.as_str(), dest) {
        Ok(safe)
    } else {
        proof {
            assert(false);
        }
        Err(ArchiveError::EscapesSandbox)
    }
}

/// What kind of filesystem object an archive entry describes.
#[derive(Debug, Clone, Copy, PartialEq, Eq, Structural)]
pub enum EntryKind {
    Directory,
    File,
    Symlink,
}

/// One entry of a bundle, as extraction sees it: its recorded path, its
/// kind, and its Unix mode bits where the header carries them.
#[derive(Debug, Clone)]
pub struct ArchiveEntry {
    pub path: String,
    pub kind: EntryKind,
    pub mode: Option<u32>,
}

/// The model of an archive entry.
pub struct EntryModel {
    pub path: Seq<char>,
    pub kind: EntryKind,
    pub mode: Option<u32>,
}

impl View for ArchiveEntry {
    type V = EntryModel;

    open spec fn view(&self) -> EntryModel {
        EntryModel { path: self.path@, kind: self.kind, mode: self.mode }
    }
}

/// One filesystem effect of extraction: make a directory, or write a
/// regular file (creating its parents) with the given mode bits.
#[derive(Debug, Clone, PartialEq, Eq)]
pub enum EntryAction {
    MakeDir { path: String },
    WriteFile { path: String, mode: Option<u32> },
}

/// The model of an extraction action.
pub enum ActionModel {
    MakeDir { path: Seq<char> },
    WriteFile { path: Seq<char>, mode: Option<u32> },
}

impl View for EntryAction {
    type V = ActionModel;

    open spec fn view(&self) -> ActionModel {
        match self {
            EntryAction::MakeDir { path } => ActionModel::MakeDir { path: path@ },
            EntryAction::WriteFile { path, mode } => ActionModel::WriteFile {
                path: path@,
                mode: *mode,
            },
        }
    }
}

/// The path an action touches.
pub open spec fn action_path(a: ActionModel) -> Seq<char> {
    match a {
        ActionModel::MakeDir { path } => path,
        ActionModel::WriteFile { path, .. } => path,
    }
}

/// What one entry does to the destination: its sanitised path made a
/// directory or written as a file — or its rejection.  Symbolic links are
/// rejected after sanitisation, as extraction checks them in that order.
pub open spec fn spec_plan_entry(e: EntryModel, dest: Seq<char>) -> Result<ActionModel, ArchiveError> {
    match spec_sanitize(e.path, dest) {
        Err(err) => Err(err),
        Ok(safe) => match e.kind {
            EntryKind::Directory => Ok(ActionModel::MakeDir { path: safe }),
            EntryKind::Symlink => Err(ArchiveError::SymlinkEntry),
            EntryKind::File => Ok(ActionModel::WriteFile { path: safe, mode: e.mode }),
        },
    }
}

/// The filesystem effects of a whole archive, entry by entry in order;
/// the first rejected entry aborts the plan with its error.
pub open spec fn spec_plan_extraction(entries: Seq<EntryModel>, dest: Seq<char>) -> Result<
    Seq<ActionModel>,
    ArchiveError,
>
    decreases entries.len(),
{
    if entries.len() == 0 {
        Ok(Seq::empty())
    } else {
        match spec_plan_entry(entries.first(), dest) {
            Err(err) => Err(err),
            Ok(a) => match spec_plan_extraction(entries.drop_first(), dest) {
                Err(err) => Err(err),
                Ok(rest) => Ok(seq![a] + rest),
            },
        }
    }
}

/// The models of a list of entries.
pub open spec fn entry_models(entries: Seq<ArchiveEntry>) -> Seq<EntryModel> {
    entries.map_values(|e: ArchiveEntry| e@)
}

/// The models of a list of actions.
pub open spec fn action_models(actions: Seq<EntryAction>) -> Seq<ActionModel> {
    actions.map_values(|a: EntryAction| a@)
}

/// The effect of one entry, computed.
pub fn plan_entry(entry_path: &str, kind: EntryKind, mode: Option<u32>, dest: &str) -> (r: Result<
    EntryAction,
    ArchiveError,
>)
    ensures
        r matches Ok(a) ==> spec_plan_entry(
            EntryModel { path: entry_path@, kind, mode },
            dest@,
        ) == Ok::<ActionModel, ArchiveError>(a@),
        r matches Err(e) ==> spec_plan_entry(
            EntryModel { path: entry_path@, kind, mode },
            dest@,
        ) == Err::<ActionModel, ArchiveError>(e),
{
    match sanitize_entry_path(entry_path, dest) {
        Err(e) => Err(e),
        Ok(safe) => match kind {
            EntryKind::Directory => Ok(EntryAction::MakeDir { path: safe }),
            EntryKind::Symlink => Err(ArchiveError::SymlinkEntry),
            EntryKind::File => Ok(EntryAction::WriteFile { path: safe, mode }),
        },
    }
}

/// The effects of a whole archive, computed.  Aborts at the first rejected
/// entry, leaving no action for it or anything after it.
pub fn plan_extraction(entries: &Vec<ArchiveEntry>, dest: &str) -> (r: Result<
    Vec<EntryAction>,
    ArchiveError,
>)
    ensures
        r matches Ok(acts) ==> spec_plan_extraction(entry_models(entries@), dest@) == Ok::<
            Seq<ActionModel>,
            ArchiveError,
        >(action_models(acts@)),
        r matches Err(e) ==> spec_plan_extraction(entry_models(entries@), dest@) == Err::<
            Seq<ActionModel>,
            ArchiveError,
        >(e),
{
    let ghost models: Seq<EntryModel> = entry_models(entries@);
    let mut acts: Vec<EntryAction> = Vec::new();
    let mut i: usize = 0;
    while i < entries.len()
        invariant
            i <= entries.len(),
            models == entry_models(entries@),
            models.len() == entries@.len(),
            action_models(acts@).len() == i,
            forall|j: int|
                0 <= j < i ==> spec_plan_entry(models[j], dest@) == Ok::<
                    ActionModel,
                    ArchiveError,
                >(action_models(acts@)[j]),
        decreases entries.len() - i,
    {
        let e: &ArchiveEntry = &entries[i];
        match plan_entry(e.path.as_str(), e.kind, e.mode, dest) {
            Err(err) => {
                proof {
                    lemma_plan_prefix_err(models, dest@, i as int, err);
                }
                return Err(err);
            },
            Ok(a) => {
                acts.push(a);
                proof {
                    assert(action_models(acts@) =~= action_models(acts@.drop_last()).push(a@));
                }
            },
        }
        i = i + 1;
    }
    proof {
        lemma_plan_prefix_ok(models, dest@, action_models(acts@));
    }
    Ok(acts)
}

/// If the first `i` entries plan successfully and entry `i` is rejected,
/// the whole archive is rejected with that error.
proof fn lemma_plan_prefix_err(
    entries: Seq<EntryModel>,
    dest: Seq<char>,
    i: int,
    err: ArchiveError,
)
    requires
        0 <= i < entries.len(),
        forall|j: int| 0 <= j < i ==> spec_plan_entry(entries[j], dest) is Ok,
        spec_plan_entry(entries[i], dest) == Err::<ActionModel, ArchiveError>(err),
    ensures
        spec_plan_extraction(entries, dest) == Err::<Seq<ActionModel>, ArchiveError>(err),
    decreases entries.len(),
{
    if i == 0 {
    } else {
        assert(spec_plan_entry(entries.first(), dest) is Ok);
        assert(entries.drop_first().len() == entries.len() - 1);
        assert(forall|j: int|
            0 <= j < i - 1 ==> entries.drop_first()[j] == entries[j + 1]
                && spec_plan_entry(#[trigger] entries.drop_first()[j], dest) is Ok);
        assert(entries.drop_first()[i - 1] == entries[i]);
        lemma_plan_prefix_err(entries.drop_first(), dest, i - 1, err);
    }
}

/// If every entry plans successfully to the matching action, the whole
/// archive plans to exactly that action list.
proof fn lemma_plan_prefix_ok(entries: Seq<EntryModel>, dest: Seq<char>, acts: Seq<ActionModel>)
    requires
        acts.len() == entries.len(),
        forall|j: int|
            0 <= j < entries.len() ==> spec_plan_entry(entries[j], dest) == Ok::<
                ActionModel,
                ArchiveError,
            >(acts[j]),
    ensures
        spec_plan_extraction(entries, dest) == Ok::<Seq<ActionModel>, ArchiveError>(acts),
    decreases entries.len(),
{
    if entries.len() == 0 {
        assert(acts =~= Seq::<ActionModel>::empty());
    } else {
        assert(forall|j: int|
            0 <= j < entries.len() - 1 ==> entries.drop_first()[j] == entries[j + 1]
                && spec_plan_entry(#[trigger] entries.drop_first()[j], dest) == Ok::<
                ActionModel,
                ArchiveError,
            >(acts.drop_first()[j]));
        lemma_plan_prefix_ok(entries.drop_first(), dest, acts.drop_first());
        assert(acts =~= seq![acts[0]] + acts.drop_first());
    }
}

/// Law: an archive that contains a symbolic-link entry never extracts.
/// Entry `i` being a symlink is enough: the plan is rejected, whether at
/// that entry or at an earlier one.
pub proof fn lemma_symlink_rejected(entries: Seq<EntryModel>, dest: Seq<char>, i: int)
    requires
        0 <= i < entries.len(),
        entries[i].kind == EntryKind::Symlink,
    ensures
        spec_plan_extraction(entries, dest) is Err,
    decreases entries.len(),
{
    if i == 0 {
        assert(spec_plan_entry(entries.first(), dest) is Err);
    } else if spec_plan_entry(entries.first(), dest) is Err {
    } else {
        assert(entries.drop_first()[i - 1] == entries[i]);
        lemma_symlink_rejected(entries.drop_first(), dest, i - 1);
    }
}

/// Law: every action of a successful extraction plan stays under the
/// destination root.
pub proof fn lemma_plan_stays_inside(entries: Seq<EntryModel>, dest: Seq<char>)
    ensures
        spec_plan_extraction(entries, dest) matches Ok(acts) ==> forall|i: int|
            0 <= i < acts.len() ==> dest.is_prefix_of(#[trigger] action_path(acts[i])),
    decreases entries.len(),
{
    if entries.len() > 0 && spec_plan_extraction(entries, dest) is Ok {
        lemma_sanitize_no_escape(entries.first().path, dest);
        lemma_plan_stays_inside(entries.drop_first(), dest);
        let a0 = spec_plan_entry(entries.first(), dest)->Ok_0;
        let rest = spec_plan_extraction(entries.drop_first(), dest)->Ok_0;
        let acts = spec_plan_extraction(entries, dest)->Ok_0;
        assert(acts == seq![a0] + rest);
        assert(dest.is_prefix_of(action_path(a0)));
        assert(forall|i: int|
            1 <= i < acts.len() ==> #[trigger] acts[i] == rest[i - 1]);
    }
}

/// A plain relative path: every segment names a real directory or file —
/// nothing absolute, empty, current or parent.  Archive names produced by
/// packaging a directory have this shape.
pub open spec fn plain_rel_path(p: Seq<char>) -> bool {
    forall|i: int| 0 <= i < seg_split(p).len() ==> is_normal_seg(#[trigger] seg_split(p)[i])
}

proof fn lemma_normal_segs_identity(segs: Seq<Seq<char>>)
    requires
        forall|i: int| 0 <= i < segs.len() ==> is_normal_seg(#[trigger] segs[i]),
    ensures
        normal_segs(segs) == segs,
    decreases segs.len(),
{
    if segs.len() > 0 {
        lemma_normal_segs_identity(segs.drop_last());
        assert(normal_segs(segs) =~= segs);
    } else {
        assert(normal_segs(segs) =~= segs);
    }
}

/// A plain relative path sanitises to itself joined under the destination.
pub proof fn lemma_sanitize_plain(p: Seq<char>, dest: Seq<char>)
    requires
        plain_rel_path(p),
    ensures
        spec_sanitize(p, dest) == Ok::<Seq<char>, ArchiveError>(
            spec_join_all(dest, seg_split(p)),
        ),
{
    lemma_seg_split_nonempty(p);
    if spec_is_abs(p) {
        assert(seg_split(p)[0] =~= Seq::<char>::empty());
        assert(!is_normal_seg(seg_split(p)[0]));
    }
    assert(!has_parent_seg(seg_split(p)));
    lemma_normal_segs_identity(seg_split(p));
}

/// Whether an action reproduces an entry under the destination: same kind,
/// same mode bits, path equal to the entry's segments joined under dest.
pub open spec fn action_matches_entry(a: ActionModel, e: EntryModel, dest: Seq<char>) -> bool {
    match e.kind {
        EntryKind::Directory => a == ActionModel::MakeDir {
            path: spec_join_all(dest, seg_split(e.path)),
        },
        EntryKind::File => a == ActionModel::WriteFile {
            path: spec_join_all(dest, seg_split(e.path)),
            mode: e.mode,
        },
        EntryKind::Symlink => false,
    }
}

/// Law: extraction inverts packaging.  An archive whose entries carry plain
/// relative paths — the shape packaging a directory produces — extracts in
/// full, one action per entry in order, each reproducing its entry's path,
/// kind and mode bits under the destination root.
pub proof fn lemma_round_trip(entries: Seq<EntryModel>, dest: Seq<char>)
    requires
        forall|i: int|
            0 <= i < entries.len() ==> plain_rel_path(#[trigger] entries[i].path)
                && entries[i].kind != EntryKind::Symlink,
    ensures
        spec_plan_extraction(entries, dest) is Ok,
        spec_plan_extraction(entries, dest)->Ok_0.len() == entries.len(),
        forall|i: int|
            0 <= i < entries.len() ==> action_matches_entry(
                #[trigger] spec_plan_extraction(entries, dest)->Ok_0[i],
                entries[i],
                dest,
            ),
    decreases entries.len(),
{
    if entries.len() > 0 {
        lemma_sanitize_plain(entries.first().path, dest);
        assert(forall|i: int|
            0 <= i < entries.drop_first().len() ==> #[trigger] entries.drop_first()[i]
                == entries[i + 1]);
        lemma_round_trip(entries.drop_first(), dest);
        let a0 = spec_plan_entry(entries.first(), dest)->Ok_0;
        let rest = spec_plan_extraction(entries.drop_first(), dest)->Ok_0;
        let acts = spec_plan_extraction(entries, dest)->Ok_0;
        assert(acts == seq![a0] + rest);
        assert(action_matches_entry(a0, entries[0], dest));
        assert(forall|i: int| 1 <= i < acts.len() ==> #[trigger] acts[i] == rest[i - 1]);
    }
}

/// Leading separators of a path, removed.
pub open spec fn drop_leading_slashes(p: Seq<char>) -> Seq<char>
    decreases p.len(),
{
    if p.len() > 0 && p[0] == '/' {
        drop_leading_slashes(p.drop_first())
    } else {
        p
    }
}

proof fn lemma_drop_leading_slashes_at(p: Seq<char>, j: int)
    requires
        0 <= j <= p.len(),
        forall|k: int| 0 <= k < j ==> p[k] == '/',
        j == p.len() || p[j] != '/',
    ensures
        drop_leading_slashes(p) == p.skip(j),
    decreases j,
{
    if j == 0 {
        assert(p.skip(0) =~= p);
    } else {
        assert(p[0] == '/');
        assert(forall|k: int| 0 <= k < j - 1 ==> #[trigger] p.drop_first()[k] == p[k + 1]);
        lemma_drop_leading_slashes_at(p.drop_first(), j - 1);
        assert(p.drop_first().skip(j - 1) =~= p.skip(j));
    }
}

/// The archive name a walked path gets when packaging `root`: the path
/// relative to the root, with any leading separators removed; the root
/// itself gets none and is omitted from the archive.
pub fn pack_entry_path(path: &str, root: &str) -> (r: Option<String>)
    requires
        root@.is_prefix_of(path@),
    ensures
        r is None <==> path@ == root@,
        r matches Some(s) ==> s@ == drop_leading_slashes(path@.skip(root@.len() as int)),
{
    let n: usize = path.unicode_len();
    let m: usize = root.unicode_len();
    if n == m {
        proof {
            assert(path@ =~= root@);
        }
        return None;
    }
    let mut j: usize = m;
    while j < n && path.get_char(j) == '/'
        invariant
            m <= j <= n,
            n == path@.len(),
            m == root@.len(),
            forall|k: int| m <= k < j ==> path@[k] == '/',
        decreases n - j,
    {
        j = j + 1;
    }
    let rel: &str = path.substring_char(j, n);
    proof {
        let suffix = path@.skip(m as int);
        assert(forall|k: int| 0 <= k < j - m ==> #[trigger] suffix[k] == path@[k + m]);
        assert(j == n || suffix[j - m] != '/');
        lemma_drop_leading_slashes_at(suffix, j - m);
        assert(rel@ =~= suffix.skip(j - m));
    }
    Some(String::from_str(rel))
}

} // verus!
