//! The atomic-replace discipline for in-place transformation, modelled over
//! a directory as a map from paths to file contents: write the output to a
//! temporary sibling, then rename it over the original. The rename is the
//! atomicity boundary — up to that point the original is untouched, and from
//! that point the path holds exactly the new bytes. Nothing is ever written
//! directly into the original path.

use vstd::prelude::*;

verus! {

/// The temporary sibling for `path`: the same name with ".tmp" appended.
pub open spec fn temp_path(path: Seq<char>) -> Seq<char> {
    path + seq!['.', 't', 'm', 'p']
}

/// A directory after (over)writing the file at `path` with `data`.
pub open spec fn write_file(
    files: Map<Seq<char>, Seq<u8>>,
    path: Seq<char>,
    data: Seq<u8>,
) -> Map<Seq<char>, Seq<u8>> {
    files.insert(path, data)
}

/// A directory after renaming `from` over `to`: `from` disappears and `to`
/// holds what `from` held. Without a source file nothing changes.
pub open spec fn rename_file(
    files: Map<Seq<char>, Seq<u8>>,
    from: Seq<char>,
    to: Seq<char>,
) -> Map<Seq<char>, Seq<u8>> {
    if files.dom().contains(from) {
        files.remove(from).insert(to, files[from])
    } else {
        files
    }
}

/// The temporary sibling is never the original.
pub proof fn lemma_temp_path_differs(path: Seq<char>)
    ensures
        temp_path(path) != path,
{
    assert(temp_path(path).len() == path.len() + 4);
}

/// Law: the rename is the atomicity boundary of an in-place replace.
/// Staging the output under the temporary sibling leaves the original
/// byte-identical to what it held; after the rename the original path holds
/// exactly the new bytes and the temporary name is gone.
pub proof fn lemma_atomic_replace(files: Map<Seq<char>, Seq<u8>>, path: Seq<char>, data: Seq<u8>)
    requires
        files.dom().contains(path),
    ensures
        write_file(files, temp_path(path), data)[path] == files[path],
        write_file(files, temp_path(path), data).dom().contains(path),
        rename_file(write_file(files, temp_path(path), data), temp_path(path), path)[path] == data,
        rename_file(write_file(files, temp_path(path), data), temp_path(path), path).dom().contains(
            path,
        ),
        !rename_file(write_file(files, temp_path(path), data), temp_path(path), path).dom()
            .contains(temp_path(path)),
{
    lemma_temp_path_differs(path);
}

} // verus!
