//! Rules for signing keys and trusted-head anchors, which are kept outside the library.

use vstd::prelude::*;
use vstd::string::*;

use crate::control_plane::{join_path, joined};
use crate::error::{IoFailure, IoFailureKind};
use crate::text::{
    chars_of, decimal, decimal_text, holds_text, is_white_space_spec, lemma_holds_at_end,
    lemma_holds_longer, lemma_holds_text, lemma_trimmed_ends, lemma_trimmed_piece, text_of, trim,
    trimmed,
};

verus! {

/// What stands at an artifact's path, links not followed.
#[derive(Clone, Copy, Debug, PartialEq, Eq, Structural)]
pub enum ArtifactKind {
    File,
    Link,
    Other,
}

/// What was observed of an artifact's path.
#[derive(Debug, PartialEq, Eq)]
pub struct ArtifactProbe {
    /// The canonical path of the parent directory, or why it has none.
    pub parent: Result<String, String>,
    /// The canonical path of the library, or why it has none.
    pub library: Result<String, String>,
    /// The entry at the resolved path.
    pub entry: Result<ArtifactKind, IoFailure>,
}

fn labelled(label: &str, rest: &str) -> (message: String)
    ensures
        message@ == label@ + rest@,
{
    let mut message = label.to_owned();
    message.append(rest);
    message
}

/// The position after the last slash of a path.
pub open spec fn name_start(path: Seq<char>) -> int
    decreases path.len(),
{
    if path.len() == 0 || path.last() == '/' {
        path.len() as int
    } else {
        name_start(path.drop_last())
    }
}

/// Whether a path ends in a slash, or in a part that names its own directory.
pub open spec fn has_empty_end(path: Seq<char>) -> bool {
    ||| path.len() > 0 && path.last() == '/'
    ||| path.len() > 1 && path.last() == '.' && path[path.len() - 2] == '/'
}

/// A path without what adds nothing at its end.
pub open spec fn without_end(path: Seq<char>) -> Seq<char>
    decreases path.len(),
{
    if has_empty_end(path) {
        without_end(path.drop_last())
    } else {
        path
    }
}

/// The last part of an absolute path; none for a root or for the parent directory.
pub open spec fn file_name(path: Seq<char>) -> Option<Seq<char>> {
    let plain = without_end(path);
    let name = plain.subrange(name_start(plain), plain.len() as int);
    if name.len() == 0 || name == ".."@ {
        None
    } else {
        Some(name)
    }
}

/// What stands before the last part of an absolute path.
pub open spec fn parent_path(path: Seq<char>) -> Seq<char> {
    let plain = without_end(path);
    let parent = without_end(plain.subrange(0, name_start(plain)));
    if parent.len() == 0 {
        "/"@
    } else {
        parent
    }
}

/// Whether a path lies in a directory: it is the directory or continues it after a slash.
pub open spec fn lies_in(path: Seq<char>, directory: Seq<char>) -> bool {
    let root = without_end(directory);
    &&& path.len() >= root.len()
    &&& path.subrange(0, root.len() as int) == root
    &&& path.len() == root.len() || path[root.len() as int] == '/'
}

fn plain_end(chars: &Vec<char>, from: usize) -> (end: usize)
    requires
        from <= chars@.len(),
    ensures
        end <= from,
        without_end(chars@.subrange(0, from as int)) == chars@.subrange(0, end as int),
{
    let mut end: usize = from;
    while end > 0 && (chars[end - 1] == '/' || (end > 1 && chars[end - 1] == '.' && chars[end - 2]
        == '/'))
        invariant
            end <= from <= chars@.len(),
            without_end(chars@.subrange(0, from as int)) == without_end(
                chars@.subrange(0, end as int),
            ),
        decreases end,
    {
        proof {
            let part = chars@.subrange(0, end as int);
            assert(part.drop_last() =~= chars@.subrange(0, end - 1));
            assert(part.last() == chars@[end - 1]);
            assert(has_empty_end(part));
        }
        end = end - 1;
    }
    proof {
        let part = chars@.subrange(0, end as int);
        if end > 0 {
            assert(part.last() == chars@[end - 1]);
        }
        assert(!has_empty_end(part));
    }
    end
}

fn name_at(chars: &Vec<char>, end: usize) -> (start: usize)
    requires
        end <= chars@.len(),
    ensures
        start <= end,
        start == name_start(chars@.subrange(0, end as int)),
{
    let mut start: usize = end;
    while start > 0 && chars[start - 1] != '/'
        invariant
            start <= end <= chars@.len(),
            name_start(chars@.subrange(0, end as int)) == name_start(
                chars@.subrange(0, start as int),
            ),
        decreases start,
    {
        proof {
            let part = chars@.subrange(0, start as int);
            assert(part.drop_last() =~= chars@.subrange(0, start - 1));
            assert(part.last() == chars@[start - 1]);
        }
        start = start - 1;
    }
    proof {
        let part = chars@.subrange(0, start as int);
        if start > 0 {
            assert(part.last() == chars@[start - 1]);
        }
    }
    start
}

/// Splits an absolute path into its parent and its last part.
pub fn split_artifact_path(path: &str) -> (r: Option<(String, String)>)
    ensures
        match r {
            Some((parent, name)) => file_name(path@) == Some(name@) && parent@ == parent_path(
                path@,
            ),
            None => file_name(path@) is None,
        },
{
    let chars = chars_of(path);
    proof {
        assert(chars@.subrange(0, chars@.len() as int) =~= chars@);
    }
    let end: usize = plain_end(&chars, chars.len());
    let start: usize = name_at(&chars, end);
    let name = text_of(&chars, start, end);
    proof {
        let plain = without_end(path@);
        assert(plain.subrange(start as int, end as int) =~= chars@.subrange(
            start as int,
            end as int,
        ));
        assert(plain.subrange(0, start as int) =~= chars@.subrange(0, start as int));
    }
    if start == end || crate::text::same_text(name.as_str(), "..") {
        return None;
    }
    let parent_end: usize = plain_end(&chars, start);
    let parent = if parent_end == 0 {
        "/".to_owned()
    } else {
        text_of(&chars, 0, parent_end)
    };
    Some((parent, name))
}

fn path_lies_in(path: &str, directory: &str) -> (b: bool)
    ensures
        b == lies_in(path@, directory@),
{
    let inner = chars_of(path);
    let outer = chars_of(directory);
    proof {
        assert(outer@.subrange(0, outer@.len() as int) =~= outer@);
    }
    let n: usize = plain_end(&outer, outer.len());
    if inner.len() < n {
        return false;
    }
    let mut i: usize = 0;
    while i < n && inner[i] == outer[i]
        invariant
            i <= n <= inner@.len(),
            n <= outer@.len(),
            forall|k: int| 0 <= k < i ==> inner@[k] == outer@[k],
        decreases n - i,
    {
        i = i + 1;
    }
    proof {
        let root = outer@.subrange(0, n as int);
        if i == n {
            assert(inner@.subrange(0, n as int) =~= root);
        } else {
            assert(inner@.subrange(0, n as int)[i as int] != root[i as int]);
        }
    }
    i == n && (inner.len() == n || inner[n] == '/')
}

/// Why an artifact path is refused before the filesystem is looked at, or its parts.
pub open spec fn artifact_parts(artifact: Seq<char>, label: Seq<char>) -> Result<
    (Seq<char>, Seq<char>),
    Seq<char>,
> {
    let path = trimmed(artifact);
    if path.len() == 0 {
        Err(label + " path is required."@)
    } else if path[0] != '/' {
        Err(label + " path must be absolute so its external location is unambiguous."@)
    } else {
        match file_name(path) {
            None => Err(label + " path must name a file."@),
            Some(name) => Ok((parent_path(path), name)),
        }
    }
}

/// Checks the form of an artifact path and splits it.
pub fn parse_artifact_path(artifact_path: &str, label: &str) -> (r: Result<
    (String, String),
    String,
>)
    ensures
        match r {
            Ok((parent, name)) => artifact_parts(artifact_path@, label@) == Ok::<
                (Seq<char>, Seq<char>),
                Seq<char>,
            >((parent@, name@)),
            Err(message) => artifact_parts(artifact_path@, label@) == Err::<
                (Seq<char>, Seq<char>),
                Seq<char>,
            >(message@),
        },
{
    let path = trim(artifact_path);
    if path.as_str().unicode_len() == 0 {
        return Err(labelled(label, " path is required."));
    }
    if path.as_str().get_char(0) != '/' {
        return Err(
            labelled(label, " path must be absolute so its external location is unambiguous."),
        );
    }
    match split_artifact_path(path.as_str()) {
        None => Err(labelled(label, " path must name a file.")),
        Some(parts) => Ok(parts),
    }
}

/// Where an artifact is kept, or why it may not be kept there.
pub open spec fn artifact_location(
    parent: Seq<char>,
    name: Seq<char>,
    label: Seq<char>,
    probe: ArtifactProbe,
) -> Result<Seq<char>, Seq<char>> {
    match probe.parent {
        Err(detail) => Err(
            "Cannot access the parent directory for "@ + label + " at "@ + parent + ": "@ + detail@,
        ),
        Ok(canonical) => match probe.library {
            Err(detail) => Err("Cannot resolve the library directory: "@ + detail@),
            Ok(library) => {
                let resolved = joined(canonical@, name);
                if lies_in(resolved, library@) {
                    Err(
                        label
                            + " must be stored outside the library directory; choose a separately retained location."@,
                    )
                } else {
                    match probe.entry {
                        Ok(ArtifactKind::Link) => Err(label + " path must not be a symbolic link."@),
                        Ok(ArtifactKind::Other) => Err(label + " path must name a regular file."@),
                        Ok(ArtifactKind::File) => Ok(resolved),
                        Err(failure) => if failure.kind == IoFailureKind::NotFound {
                            Ok(resolved)
                        } else {
                            Err("Cannot inspect "@ + label + " path: "@ + failure.message@)
                        },
                    }
                }
            },
        },
    }
}

/// Accepts only a regular file outside the library, or a free path, for an artifact.
pub fn place_artifact(parent: &str, name: &str, label: &str, probe: ArtifactProbe) -> (r: Result<
    String,
    String,
>)
    ensures
        match r {
            Ok(path) => artifact_location(parent@, name@, label@, probe) == Ok::<
                Seq<char>,
                Seq<char>,
            >(path@),
            Err(message) => artifact_location(parent@, name@, label@, probe) == Err::<
                Seq<char>,
                Seq<char>,
            >(message@),
        },
{
    let canonical = match probe.parent {
        Ok(canonical) => canonical,
        Err(detail) => {
            let mut message = labelled("Cannot access the parent directory for ", label);
            message.append(" at ");
            message.append(parent);
            message.append(": ");
            message.append(detail.as_str());
            return Err(message);
        },
    };
    let library = match probe.library {
        Ok(library) => library,
        Err(detail) => return Err(
            labelled("Cannot resolve the library directory: ", detail.as_str()),
        ),
    };
    let resolved = join_path(canonical.as_str(), name);
    if path_lies_in(resolved.as_str(), library.as_str()) {
        return Err(
            labelled(
                label,
                " must be stored outside the library directory; choose a separately retained location.",
            ),
        );
    }
    match probe.entry {
        Ok(ArtifactKind::Link) => Err(labelled(label, " path must not be a symbolic link.")),
        Ok(ArtifactKind::Other) => Err(labelled(label, " path must name a regular file.")),
        Ok(ArtifactKind::File) => Ok(resolved),
        Err(failure) => if failure.kind == IoFailureKind::NotFound {
            Ok(resolved)
        } else {
            let mut message = labelled("Cannot inspect ", label);
            message.append(" path: ");
            message.append(failure.message.as_str());
            Err(message)
        },
    }
}

/// The location of an artifact, from its stated path and what the filesystem tells of it.
pub open spec fn artifact_path(artifact: Seq<char>, label: Seq<char>, probe: ArtifactProbe) -> Result<
    Seq<char>,
    Seq<char>,
> {
    match artifact_parts(artifact, label) {
        Err(message) => Err(message),
        Ok((parent, name)) => artifact_location(parent, name, label, probe),
    }
}

/// Resolves a stated artifact path.
pub fn explicit_artifact_path(artifact: &str, label: &str, probe: ArtifactProbe) -> (r: Result<
    String,
    String,
>)
    ensures
        match r {
            Ok(path) => artifact_path(artifact@, label@, probe) == Ok::<Seq<char>, Seq<char>>(
                path@,
            ),
            Err(message) => artifact_path(artifact@, label@, probe) == Err::<Seq<char>, Seq<char>>(
                message@,
            ),
        },
{
    let (parent, name) = parse_artifact_path(artifact, label)?;
    place_artifact(parent.as_str(), name.as_str(), label, probe)
}

/// Accepts only a regular file.
pub fn ensure_regular_file(path: &str, label: &str, entry: Result<ArtifactKind, String>) -> (r:
    Result<(), String>)
    ensures
        match entry {
            Ok(ArtifactKind::File) => r is Ok,
            Ok(ArtifactKind::Link) => r matches Err(message) && message@ == label@
                + " path must not be a symbolic link."@,
            Ok(ArtifactKind::Other) => r matches Err(message) && message@ == label@
                + " path must name a regular file."@,
            Err(detail) => r matches Err(message) && message@ == "Cannot inspect "@ + label@ + " "@
                + path@ + ": "@ + detail@,
        },
{
    match entry {
        Ok(ArtifactKind::File) => Ok(()),
        Ok(ArtifactKind::Link) => Err(labelled(label, " path must not be a symbolic link.")),
        Ok(ArtifactKind::Other) => Err(labelled(label, " path must name a regular file.")),
        Err(detail) => {
            let mut message = labelled("Cannot inspect ", label);
            message.append(" ");
            message.append(path);
            message.append(": ");
            message.append(detail.as_str());
            Err(message)
        },
    }
}

/// Refuses a file above its input limit before it is read.
pub fn require_bounded(length: u64, maximum: u64, label: &str) -> (r: Result<(), String>)
    ensures
        match r {
            Ok(()) => length <= maximum,
            Err(message) => length > maximum && message@ == label@ + " exceeds its "@ + decimal(
                maximum as nat,
            ) + "-byte input limit."@,
        },
{
    if length <= maximum {
        return Ok(());
    }
    let mut message = labelled(label, " exceeds its ");
    message.append(decimal_text(maximum).as_str());
    message.append("-byte input limit.");
    Err(message)
}

/// Refuses a signing key that others may read: its mode grants something beyond the owner.
pub fn require_private_key(path: &str, mode: u32) -> (r: Result<(), String>)
    ensures
        match r {
            Ok(()) => mode % 64 == 0,
            Err(message) => mode % 64 != 0 && message@ == "Signing key "@ + path@
                + " is accessible to group or other users; change its permissions to 0600 before use."@,
        },
{
    if mode % 64 == 0 {
        return Ok(());
    }
    let mut message = labelled("Signing key ", path);
    message.append(
        " is accessible to group or other users; change its permissions to 0600 before use.",
    );
    Err(message)
}

/// A digit of a hexadecimal notation.
pub open spec fn hex_char(d: int) -> char {
    if d < 10 {
        (d + 48) as char
    } else {
        (d + 87) as char
    }
}

fn hex_digit(d: u8) -> (c: char)
    requires
        d < 16,
    ensures
        c == hex_char(d as int),
{
    if d < 10 {
        (d + 48) as char
    } else {
        (d + 87) as char
    }
}

/// The hexadecimal notation of the first `count` bytes.
pub open spec fn hex_text(bytes: Seq<u8>, count: nat) -> Seq<char>
    decreases count,
{
    if count == 0 {
        Seq::empty()
    } else {
        hex_text(bytes, (count - 1) as nat).push(hex_char(bytes[count - 1] as int / 16)).push(
            hex_char(bytes[count - 1] as int % 16),
        )
    }
}

/// The identity of a public key: its first eight bytes.
pub open spec fn key_id(public_key: Seq<u8>) -> Seq<char> {
    hex_text(
        public_key,
        if public_key.len() < 8 {
            public_key.len()
        } else {
            8
        },
    )
}

/// Names a public key by its first eight bytes.
pub fn public_key_id(public_key: &[u8]) -> (id: String)
    ensures
        id@ == key_id(public_key@),
{
    let count: usize = if public_key.len() < 8 {
        public_key.len()
    } else {
        8
    };
    let mut id = String::new();
    let mut i: usize = 0;
    while i < count
        invariant
            i <= count <= public_key@.len(),
            id@ == hex_text(public_key@, i as nat),
        decreases count - i,
    {
        let byte: u8 = public_key[i];
        id.push(hex_digit(byte / 16));
        id.push(hex_digit(byte % 16));
        i = i + 1;
    }
    id
}

/// Under which name a replaced anchor is retained beside its successor.
pub fn previous_anchor_name(file_name: &str, sequence: u64, public_key: &[u8]) -> (name: String)
    ensures
        name@ == file_name@ + ".sequence-"@ + decimal(sequence as nat) + ".key-"@ + key_id(
            public_key@,
        ) + ".previous"@,
{
    let mut name = labelled(file_name, ".sequence-");
    name.append(decimal_text(sequence).as_str());
    name.append(".key-");
    name.append(public_key_id(public_key).as_str());
    name.append(".previous");
    name
}

/// What to do with the anchor at a destination before a new one is written.
#[derive(Debug, PartialEq, Eq)]
pub enum AnchorStep {
    /// Nothing stands there.
    Write,
    /// Read what stands there and compare.
    Compare,
    /// Nothing may be written.
    Refuse(String),
}

/// Decides what a look at the destination of an anchor means.
pub fn anchor_destination(entry: Result<ArtifactKind, IoFailure>) -> (step: AnchorStep)
    ensures
        match entry {
            Ok(ArtifactKind::File) => step is Compare,
            Ok(_) => step matches AnchorStep::Refuse(message) && message@
                == "Trusted-head destination must be a regular file, not a symlink or directory."@,
            Err(failure) => if failure.kind == IoFailureKind::NotFound {
                step is Write
            } else {
                step matches AnchorStep::Refuse(message) && message@
                    == "Cannot inspect trusted-head destination: "@ + failure.message@
            },
        },
{
    match entry {
        Ok(ArtifactKind::File) => AnchorStep::Compare,
        Ok(_) => AnchorStep::Refuse(
            "Trusted-head destination must be a regular file, not a symlink or directory.".to_owned(),
        ),
        Err(failure) => if failure.kind == IoFailureKind::NotFound {
            AnchorStep::Write
        } else {
            AnchorStep::Refuse(
                labelled("Cannot inspect trusted-head destination: ", failure.message.as_str()),
            )
        },
    }
}

/// What to do with a replaced anchor.
#[derive(Debug, PartialEq, Eq)]
pub enum RetainStep {
    /// Its copy already stands there.
    Kept,
    /// Write its copy.
    Write,
    /// It cannot be retained, so it may not be replaced.
    Refuse(String),
}

fn same_bytes(a: &[u8], b: &[u8]) -> (same: bool)
    ensures
        same == (a@ == b@),
{
    if a.len() != b.len() {
        return false;
    }
    let mut i: usize = 0;
    while i < a.len()
        invariant
            i <= a@.len(),
            a@.len() == b@.len(),
            forall|k: int| 0 <= k < i ==> a@[k] == b@[k],
        decreases a@.len() - i,
    {
        if a[i] != b[i] {
            return false;
        }
        i = i + 1;
    }
    proof {
        assert(a@ =~= b@);
    }
    true
}

/// Decides how a replaced anchor is retained; a different copy is never overwritten.
pub fn retain_previous_anchor(path: &str, existing: Result<Vec<u8>, IoFailure>, bytes: &[u8]) -> (step:
    RetainStep)
    ensures
        match existing {
            Ok(copy) => if copy@ == bytes@ {
                step is Kept
            } else {
                step matches RetainStep::Refuse(message) && message@
                    == "Refusing to overwrite a different retained anchor at "@ + path@ + "."@
            },
            Err(failure) => if failure.kind == IoFailureKind::NotFound {
                step is Write
            } else {
                step matches RetainStep::Refuse(message) && message@
                    == "Cannot inspect retained anchor: "@ + failure.message@
            },
        },
{
    match existing {
        Ok(copy) => if same_bytes(copy.as_slice(), bytes) {
            RetainStep::Kept
        } else {
            let mut message = labelled("Refusing to overwrite a different retained anchor at ", path);
            message.append(".");
            RetainStep::Refuse(message)
        },
        Err(failure) => if failure.kind == IoFailureKind::NotFound {
            RetainStep::Write
        } else {
            RetainStep::Refuse(
                labelled("Cannot inspect retained anchor: ", failure.message.as_str()),
            )
        },
    }
}

/// Whether an anchor at the destination must be retained before it is replaced.
pub fn must_retain(previous: &[u8], canonical: &[u8]) -> (b: bool)
    ensures
        b == (previous@ != canonical@),
{
    !same_bytes(previous, canonical)
}

/// Refuses to publish an anchor of a library that did not verify completely.
pub fn require_authenticated(authenticated: bool, finding_count: u64) -> (r: Result<(), String>)
    ensures
        match r {
            Ok(()) => authenticated,
            Err(message) => !authenticated && message@
                == "Refusing to publish the trusted head because full authenticated verification retained "@
                + decimal(finding_count as nat)
                + " finding(s) or incomplete coverage. The library may have changed during verification; investigate it without replacing the external anchor."@,
        },
{
    if authenticated {
        return Ok(());
    }
    let mut message = labelled(
        "Refusing to publish the trusted head because full authenticated verification retained ",
        decimal_text(finding_count).as_str(),
    );
    message.append(
        " finding(s) or incomplete coverage. The library may have changed during verification; investigate it without replacing the external anchor.",
    );
    Err(message)
}

/// What is said of a published anchor; `retained` is where its predecessor was kept.
pub fn published_summary(
    sequence: u64,
    path: &str,
    public_key: &[u8],
    retained: Option<&str>,
) -> (s: String)
    ensures
        s@ == "Full verification passed and trusted manifest head "@ + decimal(sequence as nat)
            + " was signed to "@ + path@ + " (public-key ID "@ + key_id(public_key@) + ")."@ + (
        match retained {
            Some(retained) => " The previous anchor was retained at "@ + retained@ + "."@,
            None => ""@,
        }) + " Keep the anchor separate from every library copy."@,
{
    let kept = match retained {
        Some(retained) => {
            let mut kept = labelled(" The previous anchor was retained at ", retained);
            kept.append(".");
            kept
        },
        None => "".to_owned(),
    };
    let mut s = labelled(
        "Full verification passed and trusted manifest head ",
        decimal_text(sequence).as_str(),
    );
    s.append(" was signed to ");
    s.append(path);
    s.append(" (public-key ID ");
    s.append(public_key_id(public_key).as_str());
    s.append(").");
    s.append(kept.as_str());
    s.append(" Keep the anchor separate from every library copy.");
    s
}

/// An accepted artifact lies outside the library and replaces nothing but a regular file.
pub proof fn law_artifacts_lie_outside_the_library(
    artifact: Seq<char>,
    label: Seq<char>,
    probe: ArtifactProbe,
)
    requires
        artifact_path(artifact, label, probe) is Ok,
    ensures
        probe.library matches Ok(library) && !lies_in(
            artifact_path(artifact, label, probe)->Ok_0,
            library@,
        ),
        !(probe.entry matches Ok(kind) && kind != ArtifactKind::File),
{
}

/// An artifact is placed exactly where its parent and the library can be resolved, its place
/// lies outside the library, and nothing but a regular file stands there; then its place is its
/// own name in the resolved parent.
pub proof fn law_artifacts_are_placed_by_name(
    parent: &str,
    name: &str,
    label: &str,
    probe: ArtifactProbe,
    r: Result<String, String>,
)
    requires
        call_ensures(place_artifact, (parent, name, label, probe), r),
    ensures
        r is Ok ==> probe.parent is Ok && probe.library is Ok,
        r matches Ok(path) ==> {
            let found = probe.parent->Ok_0@;
            &&& found.len() > 0 && found.last() != '/' ==> path@ == found + "/"@ + name@
            &&& found.len() > 0 && found.last() == '/' ==> path@ == found + name@
            &&& probe.entry matches Ok(kind) ==> kind == ArtifactKind::File
            &&& probe.entry matches Err(failure) ==> failure.kind == IoFailureKind::NotFound
        },
        probe.parent is Ok && probe.library is Ok && (match probe.entry {
            Ok(kind) => kind == ArtifactKind::File,
            Err(failure) => failure.kind == IoFailureKind::NotFound,
        }) && r is Err ==> lies_in(
            joined(probe.parent->Ok_0@, name@),
            probe.library->Ok_0@,
        ),
{
}

/// Whatever stands in a library directory, at any depth, is no place for an artifact; a
/// directory whose name only starts like the library's is.
pub proof fn law_library_holds_its_own_paths(library: Seq<char>, rest: Seq<char>, other: char)
    requires
        library.len() > 0,
        library.last() != '/',
        library.last() != '.',
    ensures
        lies_in(library, library),
        lies_in(library + "/"@ + rest, library),
        other != '/' ==> !lies_in(library + seq![other] + rest, library),
{
    reveal_strlit("/");
    assert(library.subrange(0, library.len() as int) =~= library);
    assert((library + "/"@ + rest).subrange(0, library.len() as int) =~= library);
    assert((library + "/"@ + rest)[library.len() as int] == '/');
    assert((library + seq![other] + rest)[library.len() as int] == other);
}

/// A stated path must be absolute, blanks around it aside, and end in a name.
pub proof fn law_stated_paths_are_absolute(
    path: &str,
    label: &str,
    r: Result<(String, String), String>,
)
    requires
        call_ensures(parse_artifact_path, (path, label), r),
    ensures
        r is Ok ==> exists|i: int|
            0 <= i < path@.len() && #[trigger] path@[i] == '/' && forall|k: int|
                0 <= k < i ==> is_white_space_spec(#[trigger] path@[k]),
        r matches Ok((parent, file)) ==> file@.len() > 0 && file@ != ".."@,
{
    if r is Ok {
        let from = lemma_trimmed_piece(path@);
        assert(path@[from] == trimmed(path@)[0]);
    }
}

/// A path made of an absolute directory, a slash and a plain name has these two as its parts.
pub proof fn law_stated_paths_have_their_parts(
    directory: Seq<char>,
    name: Seq<char>,
    path: &str,
    label: &str,
    r: Result<(String, String), String>,
)
    requires
        call_ensures(parse_artifact_path, (path, label), r),
        path@ == directory + "/"@ + name,
        directory.len() > 0,
        directory[0] == '/',
        directory.last() != '/' && directory.last() != '.',
        name.len() > 0,
        !is_white_space_spec(name.last()) && name.last() != '.',
        forall|k: int| 0 <= k < name.len() ==> #[trigger] name[k] != '/',
    ensures
        r matches Ok((parent, file)) && parent@ == directory && file@ == name,
{
    reveal_strlit("/");
    let head = directory + "/"@;
    let start = head.len() as int;
    assert(path@[0] == '/' && path@.last() == name.last()) by {
        assert(path@[0] == directory[0]);
        assert(path@[path@.len() - 1] == name[name.len() - 1]);
    }
    assert(trimmed(path@) == path@) by {
        lemma_trimmed_ends(path@);
    }
    assert(!has_empty_end(path@));
    assert(name_start(path@) == start) by {
        lemma_name_start(head, name);
    }
    assert(path@.subrange(start, path@.len() as int) =~= name);
    assert(path@.subrange(0, start) =~= head);
    assert(without_end(head) == directory) by {
        assert(head.last() == '/');
        assert(head.drop_last() =~= directory);
        assert(!has_empty_end(directory));
        reveal_with_fuel(without_end, 2);
    }
    assert(name != ".."@) by {
        reveal_strlit("..");
        assert(".."@.last() == '.');
    }
}

proof fn lemma_name_start(head: Seq<char>, name: Seq<char>)
    requires
        head.len() > 0,
        head.last() == '/',
        forall|k: int| 0 <= k < name.len() ==> #[trigger] name[k] != '/',
    ensures
        name_start(head + name) == head.len(),
    decreases name.len(),
{
    if name.len() == 0 {
        assert(head + name =~= head);
    } else {
        assert((head + name).drop_last() =~= head + name.drop_last());
        assert((head + name).last() == name.last());
        lemma_name_start(head, name.drop_last());
    }
}

/// A file is taken only if it is regular and within its limit, and a signing key only if nobody
/// but its owner may read, write or run it.
pub proof fn law_only_fit_files_are_taken(
    path: &str,
    label: &str,
    entry: Result<ArtifactKind, String>,
    length: u64,
    maximum: u64,
    mode: u32,
    regular: Result<(), String>,
    bounded: Result<(), String>,
    private: Result<(), String>,
)
    requires
        call_ensures(ensure_regular_file, (path, label, entry), regular),
        call_ensures(require_bounded, (length, maximum, label), bounded),
        call_ensures(require_private_key, (path, mode), private),
    ensures
        regular is Ok <==> (entry matches Ok(kind) && kind == ArtifactKind::File),
        bounded is Ok <==> length <= maximum,
        private is Ok <==> mode & 0o77 == 0,
{
    assert(mode % 64 == 0 <==> mode & 0o77 == 0) by (bit_vector);
}

proof fn lemma_hex_text(bytes: Seq<u8>, count: nat)
    requires
        count <= bytes.len(),
    ensures
        hex_text(bytes, count).len() == 2 * count,
        forall|i: int|
            0 <= i < count ==> hex_text(bytes, count)[2 * i] == hex_char(
                (#[trigger] bytes[i]) as int / 16,
            ) && hex_text(bytes, count)[2 * i + 1] == hex_char(bytes[i] as int % 16),
    decreases count,
{
    if count > 0 {
        lemma_hex_text(bytes, (count - 1) as nat);
    }
}

/// A key is named by two lower-case hexadecimal digits for each of its first eight bytes, so
/// keys of one name agree in these bytes.
pub proof fn law_key_names_tell_their_first_bytes(
    first: &[u8],
    second: &[u8],
    names: (String, String),
)
    requires
        first@.len() >= 8,
        second@.len() >= 8,
        call_ensures(public_key_id, (first,), names.0),
        call_ensures(public_key_id, (second,), names.1),
    ensures
        names.0@.len() == 16,
        forall|i: int|
            0 <= i < 16 ==> ('0' <= #[trigger] names.0@[i] && names.0@[i] <= '9') || ('a'
                <= names.0@[i] && names.0@[i] <= 'f'),
        names.0@ == names.1@ <==> forall|i: int|
            0 <= i < 8 ==> #[trigger] first@[i] == second@[i],
{
    lemma_hex_text(first@, 8);
    lemma_hex_text(second@, 8);
    assert forall|i: int| 0 <= i < 16 implies ('0' <= #[trigger] names.0@[i] && names.0@[i] <= '9')
        || ('a' <= names.0@[i] && names.0@[i] <= 'f') by {
        let byte = first@[i / 2];
        lemma_hex_char(byte as int / 16);
        lemma_hex_char(byte as int % 16);
        assert(i == 2 * (i / 2) || i == 2 * (i / 2) + 1);
    }
    if names.0@ == names.1@ {
        assert forall|i: int| 0 <= i < 8 implies #[trigger] first@[i] == second@[i] by {
            lemma_hex_char(first@[i] as int / 16);
            lemma_hex_char(first@[i] as int % 16);
            lemma_hex_char(second@[i] as int / 16);
            lemma_hex_char(second@[i] as int % 16);
            assert(names.0@[2 * i] == names.1@[2 * i]);
            assert(names.0@[2 * i + 1] == names.1@[2 * i + 1]);
        }
    }
    if forall|i: int| 0 <= i < 8 ==> #[trigger] first@[i] == second@[i] {
        assert forall|i: int| 0 <= i < 16 implies #[trigger] names.0@[i] == names.1@[i] by {
            assert(i == 2 * (i / 2) || i == 2 * (i / 2) + 1);
            assert(first@[i / 2] == second@[i / 2]);
        }
        assert(names.0@ =~= names.1@);
    }
}

proof fn lemma_hex_char(d: int)
    requires
        0 <= d < 16,
    ensures
        hex_char(d) as u32 == if d < 10 {
            d + 48
        } else {
            d + 87
        },
{
}

/// A trusted head is written only where nothing or a regular file stands, what it replaces is
/// retained unless it is the same, and no different copy is ever overwritten.
pub proof fn law_anchors_are_never_lost(
    path: &str,
    entry: Result<ArtifactKind, IoFailure>,
    existing: Result<Vec<u8>, IoFailure>,
    bytes: &[u8],
    previous: &[u8],
    destination: AnchorStep,
    retained: RetainStep,
    must: bool,
)
    requires
        call_ensures(anchor_destination, (entry,), destination),
        call_ensures(retain_previous_anchor, (path, existing, bytes), retained),
        call_ensures(must_retain, (previous, bytes), must),
    ensures
        destination is Write <==> (entry matches Err(failure) && failure.kind
            == IoFailureKind::NotFound),
        destination is Compare <==> (entry matches Ok(kind) && kind == ArtifactKind::File),
        retained is Write <==> (existing matches Err(failure) && failure.kind
            == IoFailureKind::NotFound),
        retained is Kept <==> (existing matches Ok(copy) && copy@ == bytes@),
        must <==> previous@ != bytes@,
{
}

/// Nothing is published of a library that did not verify.
pub proof fn law_only_verified_heads_are_published(
    authenticated: bool,
    finding_count: u64,
    r: Result<(), String>,
)
    requires
        call_ensures(require_authenticated, (authenticated, finding_count), r),
    ensures
        r is Ok <==> authenticated,
        r matches Err(message) ==> holds_text(message@, decimal(finding_count as nat)),
{
    lemma_holds_text(
        "Refusing to publish the trusted head because full authenticated verification retained "@,
        decimal(finding_count as nat),
        " finding(s) or incomplete coverage. The library may have changed during verification; investigate it without replacing the external anchor."@,
    );
}

/// A retained anchor is named after the file, the sequence and the key that it had.
pub proof fn law_retained_anchors_tell_what_they_were(
    file_name: &str,
    sequence: u64,
    public_key: &[u8],
    name: String,
    id: String,
)
    requires
        call_ensures(previous_anchor_name, (file_name, sequence, public_key), name),
        call_ensures(public_key_id, (public_key,), id),
    ensures
        name@.take(file_name@.len() as int) == file_name@,
        holds_text(name@, ".sequence-"@ + decimal(sequence as nat) + ".key-"@),
        holds_text(name@, ".key-"@ + id@ + ".previous"@),
{
    let number = decimal(sequence as nat);
    let first = file_name@ + ".sequence-"@ + number + ".key-"@;
    let part = ".sequence-"@ + number + ".key-"@;
    lemma_holds_at_end(file_name@, ".sequence-"@, number, ".key-"@);
    lemma_holds_longer(first, part, id@);
    lemma_holds_longer(first + id@, part, ".previous"@);
    lemma_holds_at_end(file_name@ + ".sequence-"@ + number, ".key-"@, id@, ".previous"@);
    assert(name@.take(file_name@.len() as int) =~= file_name@);
}

} // verus!
