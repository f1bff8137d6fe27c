//! Naming of the file that downloaded bytes are written to.

use crate::util::filetype::classify;
use crate::util::filetype::get_sig;
use crate::util::filetype::FileType;
use vstd::prelude::*;
use vstd::string::StringExecFns;

verus! {

/// The extension of a file whose contents were classified as `kind`: that of
/// the type, or `bin` for contents of no known type.
pub open spec fn extension_of(kind: Option<FileType>) -> Seq<char> {
    match kind {
        Some(k) => k.extension(),
        None => "bin"@,
    }
}

/// The name of the file that `bytes` are written to under the base name
/// `base_name`: the base name, a dot and the extension of the contents.
pub open spec fn file_name_of(base_name: Seq<char>, bytes: Seq<u8>) -> Seq<char> {
    base_name + "."@ + extension_of(classify(bytes))
}

/// The name of the file that `bytes` are written to: `base_name`, a dot and
/// the extension that the contents are classified as, `bin` when they are of
/// no known type.
pub fn file_name(bytes: &[u8], base_name: &str) -> (name: String)
    ensures
        name@ == file_name_of(base_name@, bytes@),
{
    let extension = match get_sig(bytes) {
        Some(kind) => kind.as_str(),
        None => "bin",
    };
    let mut name = base_name.to_owned();
    name.append(".");
    name.append(extension);
    name
}

/// Contents of no known type are named with the extension `bin`.
pub proof fn lemma_unclassified_is_bin(base_name: Seq<char>, bytes: Seq<u8>)
    requires
        classify(bytes) is None,
    ensures
        file_name_of(base_name, bytes) == base_name + "."@ + "bin"@,
{
}

/// The name of a file starts with the base name and a dot, whatever the
/// contents are.
pub proof fn lemma_file_name_keeps_base(base_name: Seq<char>, bytes: Seq<u8>)
    ensures
        file_name_of(base_name, bytes).len() > base_name.len(),
        file_name_of(base_name, bytes).subrange(0, base_name.len() as int) == base_name,
        file_name_of(base_name, bytes)[base_name.len() as int] == '.',
{
    reveal_strlit(".");
    let name = file_name_of(base_name, bytes);
    assert(name.subrange(0, base_name.len() as int) =~= base_name);
}

} // verus!
