//! Locating and staging the binary artifact of an external module.
//!
//! An external module named `m` is implemented by a binary artifact whose
//! file name follows the platform's library naming convention, `libm.rlib`.
//! Resolution searches the directory holding the host's own executable for
//! that exact file name; staging copies the artifact into the interactive
//! compiler's destination directory under the same canonical name, so the
//! link step can reference it independently of where it was found.
//!
//! The caller performs the actual directory reads and the copy; the
//! functions here work on directory listings and file contents handed in as
//! plain values.

use vstd::prelude::*;

verus! {

/// An error raised while resolving or staging an artifact.
#[derive(Debug)]
pub enum LinkError {
    /// No file with the expected artifact name was found in the searched
    /// directory. Carries the file name that was looked for.
    NotFound(String),
    /// Copying the artifact into the destination directory failed.
    StagingFailed,
}

/// The canonical artifact file name of a module: `lib<module_name>.rlib`.
pub open spec fn spec_artifact_file_name(module_name: Seq<char>) -> Seq<char> {
    "lib"@ + module_name + ".rlib"@
}

/// The message of a `NotFound` error for a missing artifact file.
pub open spec fn spec_not_found_message(file_name: Seq<char>) -> Seq<char> {
    "did not find file: '"@ + file_name + "'"@
}

impl LinkError {
    /// Renders the error for the host's startup log.
    pub fn message(&self) -> (r: String)
        ensures
            self matches LinkError::NotFound(f) ==> r@ == spec_not_found_message(f@),
            self is StagingFailed ==> r@ == "failed to copy the artifact into the destination directory"@,
    {
        match self {
            LinkError::NotFound(f) => String::from_str("did not find file: '").concat(
                f.as_str(),
            ).concat("'"),
            LinkError::StagingFailed => String::from_str(
                "failed to copy the artifact into the destination directory",
            ),
        }
    }
}

/// Builds the canonical artifact file name for a module.
pub fn artifact_file_name(module_name: &str) -> (r: String)
    ensures
        r@ == spec_artifact_file_name(module_name@),
{
    String::from_str("lib").concat(module_name).concat(".rlib")
}

/// Locates the artifact of `module_name`.
///
/// With an explicit path the path is used unchecked: whether a file is
/// actually there is discovered by the copy that follows. Without one, the
/// file names of the searched directory (the one holding the host's own
/// executable) are scanned for the canonical artifact file name, and the
/// first match is returned; when none matches, resolution fails with
/// `NotFound` naming the file that was looked for.
pub fn resolve(module_name: &str, explicit_path: Option<String>, search_entries: &Vec<String>) -> (r:
    Result<String, LinkError>)
    ensures
        explicit_path matches Some(p) ==> r matches Ok(q) && q == p,
        explicit_path is None ==> ((r is Ok) <==> exists|i: int|
            0 <= i < search_entries@.len() && search_entries@[i]@ == spec_artifact_file_name(
                module_name@,
            )),
        explicit_path is None && r is Ok ==> (r matches Ok(q) && q@ == spec_artifact_file_name(
            module_name@,
        )),
        r is Err ==> (r matches Err(e) && e matches LinkError::NotFound(f) && f@
            == spec_artifact_file_name(module_name@)),
{
    match explicit_path {
        Some(p) => Ok(p),
        None => {
            let target = artifact_file_name(module_name);
            let mut i: usize = 0;
            while i < search_entries.len()
                invariant
                    0 <= i <= search_entries@.len(),
                    explicit_path is None,
                    target@ == spec_artifact_file_name(module_name@),
                    forall|j: int| 0 <= j < i ==> search_entries@[j]@ != target@,
                decreases search_entries@.len() - i,
            {
                if search_entries[i] == target {
                    proof {
                        assert(search_entries@[i as int]@ == spec_artifact_file_name(
                            module_name@,
                        ));
                    }
                    return Ok(target);
                }
                i = i + 1;
            }
            Err(LinkError::NotFound(target))
        },
    }
}

/// A `NotFound` message always names the module the artifact was derived
/// from: the module name occurs verbatim inside the rendered message.
pub proof fn lemma_not_found_message_names_module(module_name: Seq<char>)
    ensures
        exists|k: int|
            0 <= k && k + module_name.len() <= spec_not_found_message(
                spec_artifact_file_name(module_name),
            ).len() && #[trigger] spec_not_found_message(spec_artifact_file_name(
                module_name,
            )).subrange(k, k + module_name.len()) == module_name,
{
    reveal_strlit("did not find file: '");
    reveal_strlit("lib");
    reveal_strlit(".rlib");
    reveal_strlit("'");
    let m = spec_not_found_message(spec_artifact_file_name(module_name));
    let k: int = 23;
    assert(m.subrange(k, k + module_name.len()) =~= module_name);
    assert(0 <= k && k + module_name.len() <= m.len() && #[trigger] m.subrange(
        k,
        k + module_name.len(),
    ) == module_name);
}

/// One file of the destination directory: its name and its bytes.
pub struct FileRecord {
    pub name: String,
    pub content: Vec<u8>,
}

impl View for FileRecord {
    type V = (Seq<char>, Seq<u8>);

    open spec fn view(&self) -> (Seq<char>, Seq<u8>) {
        (self.name@, self.content@)
    }
}

/// The destination directory as named byte strings.
pub open spec fn dir_model(dir: Seq<FileRecord>) -> Seq<(Seq<char>, Seq<u8>)> {
    dir.map_values(|r: FileRecord| r@)
}

/// The index of the first file named `file_name`, or `-1` when there is
/// none.
pub open spec fn find_file(dir: Seq<(Seq<char>, Seq<u8>)>, file_name: Seq<char>) -> int
    decreases dir.len(),
{
    if dir.len() == 0 {
        -1
    } else if dir[0].0 == file_name {
        0
    } else {
        let rest = find_file(dir.drop_first(), file_name);
        if rest == -1 {
            -1
        } else {
            rest + 1
        }
    }
}

/// `find_file` returns `-1` exactly when no file has the name, and
/// otherwise the first index that does.
pub proof fn lemma_find_file(dir: Seq<(Seq<char>, Seq<u8>)>, file_name: Seq<char>)
    ensures
        find_file(dir, file_name) == -1 <==> (forall|i: int|
            0 <= i < dir.len() ==> #[trigger] dir[i].0 != file_name),
        find_file(dir, file_name) != -1 ==> {
            let k = find_file(dir, file_name);
            &&& 0 <= k < dir.len()
            &&& dir[k].0 == file_name
            &&& forall|i: int| 0 <= i < k ==> #[trigger] dir[i].0 != file_name
        },
    decreases dir.len(),
{
    if dir.len() != 0 && dir[0].0 != file_name {
        let rest = dir.drop_first();
        lemma_find_file(rest, file_name);
        assert(forall|i: int| 0 <= i < rest.len() ==> #[trigger] rest[i] == dir[i + 1]);
        if find_file(dir, file_name) == -1 {
            assert forall|i: int| 0 <= i < dir.len() implies #[trigger] dir[i].0 != file_name by {
                if i > 0 {
                    assert(rest[i - 1] == dir[i]);
                    assert(rest[i - 1].0 != file_name);
                }
            }
        } else {
            let k = find_file(dir, file_name);
            let kr = find_file(rest, file_name);
            assert(k == kr + 1);
            assert(dir[k] == rest[kr]);
            assert forall|i: int| 0 <= i < k implies #[trigger] dir[i].0 != file_name by {
                if i > 0 {
                    assert(rest[i - 1] == dir[i]);
                    assert(rest[i - 1].0 != file_name);
                }
            }
        }
    }
}

/// The directory after the artifact of `module_name` with bytes `content`
/// has been staged into it: the canonical file is overwritten in place when
/// already present, and appended otherwise.
pub open spec fn spec_stage(
    dir: Seq<(Seq<char>, Seq<u8>)>,
    module_name: Seq<char>,
    content: Seq<u8>,
) -> Seq<(Seq<char>, Seq<u8>)> {
    let file_name = spec_artifact_file_name(module_name);
    let k = find_file(dir, file_name);
    if k == -1 {
        dir.push((file_name, content))
    } else {
        dir.update(k, (file_name, content))
    }
}

/// Staging is idempotent: staging the same source bytes twice leaves the
/// destination directory exactly as one staging does, the staged file's
/// bytes included.
pub proof fn lemma_stage_idempotent(
    dir: Seq<(Seq<char>, Seq<u8>)>,
    module_name: Seq<char>,
    content: Seq<u8>,
)
    ensures
        spec_stage(spec_stage(dir, module_name, content), module_name, content) == spec_stage(
            dir,
            module_name,
            content,
        ),
{
    let file_name = spec_artifact_file_name(module_name);
    let once = spec_stage(dir, module_name, content);
    let k = find_file(dir, file_name);
    lemma_find_file(dir, file_name);
    lemma_find_file(once, file_name);
    let k2 = find_file(once, file_name);
    if k == -1 {
        assert(once[dir.len() as int].0 == file_name);
        assert(k2 != -1);
        assert(k2 == dir.len()) by {
            assert(once[k2].0 == file_name);
            assert(forall|i: int| 0 <= i < dir.len() ==> #[trigger] once[i].0 != file_name);
        }
        assert(spec_stage(once, module_name, content) =~= once);
    } else {
        assert(once[k].0 == file_name);
        assert(k2 == k) by {
            assert(forall|i: int| 0 <= i < k ==> #[trigger] once[i].0 != file_name);
        }
        assert(spec_stage(once, module_name, content) =~= once);
    }
}

/// Stages `source_content` into the destination directory under the
/// canonical artifact file name of `module_name`, and returns that file
/// name. An existing staged artifact is overwritten; nothing else in the
/// directory changes.
pub fn stage(dest: &mut Vec<FileRecord>, module_name: &str, source_content: &Vec<u8>) -> (staged:
    String)
    ensures
        staged@ == spec_artifact_file_name(module_name@),
        dir_model(final (dest)@) == spec_stage(
            dir_model(old(dest)@),
            module_name@,
            source_content@,
        ),
{
    let target = artifact_file_name(module_name);
    let ghost k = find_file(dir_model(dest@), target@);
    proof {
        lemma_find_file(dir_model(dest@), target@);
    }
    let mut i: usize = 0;
    while i < dest.len()
        invariant
            0 <= i <= dest@.len(),
            dest@ == old(dest)@,
            target@ == spec_artifact_file_name(module_name@),
            k == find_file(dir_model(dest@), target@),
            forall|j: int| 0 <= j < i ==> #[trigger] dir_model(dest@)[j].0 != target@,
            k != -1 ==> i <= k,
        decreases dest@.len() - i,
    {
        proof {
            lemma_find_file(dir_model(dest@), target@);
        }
        if dest[i].name == target {
            let copied = source_content.clone();
            proof {
                assert(dir_model(dest@)[i as int].0 == target@);
                assert(k == i);
                assert(copied@ =~= source_content@);
            }
            dest[i].content = copied;
            proof {
                assert(dir_model(dest@) =~= spec_stage(
                    dir_model(old(dest)@),
                    module_name@,
                    source_content@,
                ));
            }
            return target;
        }
        proof {
            assert(dir_model(dest@)[i as int].0 != target@);
        }
        i = i + 1;
    }
    proof {
        lemma_find_file(dir_model(dest@), target@);
        assert(k == -1);
    }
    let copied = source_content.clone();
    proof {
        assert(copied@ =~= source_content@);
    }
    dest.push(FileRecord { name: target.clone(), content: copied });
    proof {
        assert(dir_model(dest@) =~= spec_stage(
            dir_model(old(dest)@),
            module_name@,
            source_content@,
        ));
    }
    target
}

} // verus!
