//! What the console extension of the guest knows of the host.

use vstd::prelude::*;

verus! {

/// The name of the file that declares the console's types.
pub open spec fn declaration_file() -> Seq<char> {
    "lib.deno_console.d.ts"@
}

/// The file that declares the console's types, relative to the directory
/// in which the extension is kept.
pub fn get_declaration() -> (path: String)
    ensures
        path@ == declaration_file(),
{
    "lib.deno_console.d.ts".to_owned()
}

} // verus!
