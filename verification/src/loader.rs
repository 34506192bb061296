//! The runtime loader's naming logic: from the interpreter's logical
//! library name to the platform file name the dynamic loader opens. The
//! opening itself — with symbols resolved immediately and published
//! process-wide, so that native extension modules loaded later by scripts
//! can resolve the interpreter's symbols — happens outside the library.
use vstd::prelude::*;

verus! {

/// The shared-object file name for a logical library name, following the
/// platform convention the loader uses here: a `lib` prefix and a `.so`
/// suffix around the name unchanged.
pub fn library_filename(name: &str) -> (r: String)
    ensures
        r@ == "lib"@ + name@ + ".so"@,
{
    let mut r = String::from_str("lib");
    r.append(name);
    r.append(".so");
    r
}

} // verus!
