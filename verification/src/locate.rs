//! Module discovery inside materialized layer storage.
//!
//! The fixed expected filename is checked first; failing that, the first
//! directory entry with the module extension is taken. Enumeration order
//! is filesystem-dependent, so "first" is first in the order handed in —
//! an accepted nondeterminism.

use vstd::prelude::*;
use vstd::string::StrSliceExecFns;
use vstd::string::StringExecFns;

use crate::error::Error;
use crate::text::{ends_with_str, spec_ends_with};

verus! {

/// One direct entry of the store directory, as the transport saw it.
pub struct StoreEntry {
    pub name: String,
    pub is_file: bool,
}

/// The filename checked first.
pub open spec fn default_module_name() -> Seq<char> {
    "module.wasm"@
}

/// A name with the module extension: it ends in `.wasm` and has a
/// nonempty stem (a bare `.wasm` is a hidden file, not a module).
pub open spec fn has_module_extension(name: Seq<char>) -> bool {
    spec_ends_with(name, ".wasm"@) && name != ".wasm"@
}

/// The entry is a file named like a module.
pub open spec fn is_module_entry(e: StoreEntry) -> bool {
    e.is_file && has_module_extension(e.name@)
}

/// Some entry is a file carrying the default module name.
pub open spec fn has_default_module(entries: Seq<StoreEntry>) -> bool {
    exists|i: int|
        0 <= i < entries.len() && (#[trigger] entries[i]).is_file && entries[i].name@
            == default_module_name()
}

/// The index of the first module-like file, or the length if none.
pub open spec fn first_module_index(entries: Seq<StoreEntry>, from: int) -> int
    decreases entries.len() - from when 0 <= from <= entries.len()
{
    if from >= entries.len() {
        entries.len() as int
    } else if is_module_entry(entries[from]) {
        from
    } else {
        first_module_index(entries, from + 1)
    }
}

/// `dir` and `name` joined with a single separator.
pub open spec fn path_join(dir: Seq<char>, name: Seq<char>) -> Seq<char> {
    if dir.len() > 0 && dir.last() == '/' {
        dir + name
    } else {
        dir + "/"@ + name
    }
}

fn join_path(dir: &str, name: &str) -> (p: String)
    ensures
        p@ == path_join(dir@, name@),
{
    let n = dir.unicode_len();
    let mut p = String::from_str(dir);
    if n == 0 || dir.get_char(n - 1) != '/' {
        p.append("/");
    }
    p.append(name);
    p
}

fn str_eq(a: &str, b: &str) -> (r: bool)
    ensures
        r == (a@ == b@),
{
    let an = a.unicode_len();
    let bn = b.unicode_len();
    if an != bn {
        return false;
    }
    let r = crate::text::starts_with_str(a, b);
    proof {
        assert(a@.subrange(0, a@.len() as int) =~= a@);
        if crate::text::spec_starts_with(a@, b@) {
            assert(a@ =~= b@);
        }
    }
    r
}

/// Find the runnable module among the store directory's direct entries:
/// the default filename when present, else the first file with the
/// module extension, else a not-found failure naming the searched path.
pub fn locate(store_path: &str, entries: &Vec<StoreEntry>) -> (r: Result<String, Error>)
    ensures
        match r {
            Ok(p) => {
                if has_default_module(entries@) {
                    p@ == path_join(store_path@, default_module_name())
                } else {
                    first_module_index(entries@, 0) < entries@.len() && p@ == path_join(
                        store_path@,
                        entries@[first_module_index(entries@, 0)].name@,
                    )
                }
            },
            Err(e) => {
                &&& !has_default_module(entries@)
                &&& first_module_index(entries@, 0) == entries@.len()
                &&& (e matches Error::ArtifactNotFound(p) && p@ == store_path@)
            },
        },
{
    let n = entries.len();
    let mut i: usize = 0;
    while i < n
        invariant
            n == entries@.len(),
            i <= n,
            forall|j: int|
                0 <= j < i ==> !((#[trigger] entries@[j]).is_file && entries@[j].name@
                    == default_module_name()),
        decreases n - i,
    {
        if entries[i].is_file && str_eq(entries[i].name.as_str(), "module.wasm") {
            proof {
                assert(entries@[i as int].is_file && entries@[i as int].name@
                    == default_module_name());
            }
            return Ok(join_path(store_path, "module.wasm"));
        }
        i = i + 1;
    }
    proof {
        assert(!has_default_module(entries@));
    }
    let mut i: usize = 0;
    while i < n
        invariant
            n == entries@.len(),
            i <= n,
            !has_default_module(entries@),
            first_module_index(entries@, 0) == first_module_index(entries@, i as int),
        decreases n - i,
    {
        let is_mod = entries[i].is_file && ends_with_str(entries[i].name.as_str(), ".wasm")
            && !str_eq(entries[i].name.as_str(), ".wasm");
        proof {
            assert(is_mod == is_module_entry(entries@[i as int]));
        }
        if is_mod {
            proof {
                assert(first_module_index(entries@, i as int) == i as int);
            }
            return Ok(join_path(store_path, entries[i].name.as_str()));
        }
        i = i + 1;
    }
    Err(Error::ArtifactNotFound(String::from_str(store_path)))
}

} // verus!
