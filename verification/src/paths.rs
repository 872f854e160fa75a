//! Path containment: turning a user-supplied path into an absolute path
//! that is guaranteed to lie under the base directory. Pure path
//! arithmetic on strings — nothing here consults the filesystem.

use vstd::prelude::*;
use crate::config::Args;
use crate::errors::Error;

verus! {

/// A path is absolute when it starts at the root.
pub open spec fn is_absolute_path(p: Seq<char>) -> bool {
    p.len() > 0 && p[0] == '/'
}

/// A relative candidate resolves to the base directory, a separator, and
/// the candidate, exactly.
pub open spec fn joined_path(base: Seq<char>, rel: Seq<char>) -> Seq<char> {
    base + seq!['/'] + rel
}

/// `p` lies under `base`: it is `base` itself, or `base` followed
/// immediately by a separator.
pub open spec fn is_descendant_of(p: Seq<char>, base: Seq<char>) -> bool {
    p == base || (p.len() > base.len() && p.subrange(0, base.len() as int) == base && p[
        base.len() as int
    ] == '/')
}

/// Resolve a candidate path against the configured base directory.
///
/// A relative candidate is joined onto the base directory, with no
/// existence check. An absolute candidate is accepted only if it is a
/// descendant of (or equal to) the base directory; any other absolute
/// path is refused with [`Error::PathOutsideBaseDirectory`]. This is the
/// sole producer of the paths the workflows create, list or open.
pub fn relative_path_to_absolute(args: &Args, filepath: &String) -> (r: Result<String, Error>)
    ensures
        r matches Ok(p) ==> is_descendant_of(p@, args.base_dir@),
        is_absolute_path(args.base_dir@) ==> (r matches Ok(p) ==> is_absolute_path(p@)),
        !is_absolute_path(filepath@) ==> (r matches Ok(p) && p@ == joined_path(
            args.base_dir@,
            filepath@,
        )),
        is_absolute_path(filepath@) && is_descendant_of(filepath@, args.base_dir@) ==> (
        r matches Ok(p) && p@ == filepath@),
        is_absolute_path(filepath@) && !is_descendant_of(filepath@, args.base_dir@) ==> (
        r matches Err(e) && e matches Error::PathOutsideBaseDirectory { candidate, base }
            && candidate@ == filepath@ && base@ == args.base_dir@),
{
    let fp_len: usize = filepath.as_str().unicode_len();
    if fp_len == 0 || filepath.as_str().get_char(0) != '/' {
        let mut joined = args.base_dir.clone();
        joined.append("/");
        joined.append(filepath.as_str());
        proof {
            reveal_strlit("/");
            assert(joined@ =~= joined_path(args.base_dir@, filepath@));
            assert(joined@.subrange(0, args.base_dir@.len() as int) =~= args.base_dir@);
        }
        Ok(joined)
    } else {
        let base_len: usize = args.base_dir.as_str().unicode_len();
        if fp_len < base_len {
            // Shorter than the base directory: it can neither equal it
            // nor extend it.
            return Err(
                Error::PathOutsideBaseDirectory {
                    candidate: filepath.clone(),
                    base: args.base_dir.clone(),
                },
            );
        }
        let mut i: usize = 0;
        while i < base_len
            invariant
                0 <= i <= base_len,
                fp_len == filepath@.len(),
                base_len == args.base_dir@.len(),
                fp_len >= base_len,
                is_absolute_path(filepath@),
                forall|k: int| 0 <= k < i ==> filepath@[k] == args.base_dir@[k],
            decreases base_len - i,
        {
            if filepath.as_str().get_char(i) != args.base_dir.as_str().get_char(i) {
                proof {
                    let ghost bad = i as int;
                    assert(filepath@ != args.base_dir@);
                    if filepath@.len() > args.base_dir@.len() && filepath@.subrange(
                        0,
                        args.base_dir@.len() as int,
                    ) == args.base_dir@ {
                        assert(filepath@.subrange(0, args.base_dir@.len() as int)[bad]
                            == filepath@[bad]);
                    }
                }
                return Err(
                    Error::PathOutsideBaseDirectory {
                        candidate: filepath.clone(),
                        base: args.base_dir.clone(),
                    },
                );
            }
            i = i + 1;
        }
        if fp_len == base_len {
            proof {
                assert(filepath@ =~= args.base_dir@);
            }
            Ok(filepath.clone())
        } else if filepath.as_str().get_char(base_len) == '/' {
            proof {
                assert(filepath@.subrange(0, base_len as int) =~= args.base_dir@);
            }
            Ok(filepath.clone())
        } else {
            // Strictly longer than the base directory but not continuing
            // with a separator: it only shares a prefix with it.
            proof {
                assert(filepath@ != args.base_dir@);
            }
            Err(
                Error::PathOutsideBaseDirectory {
                    candidate: filepath.clone(),
                    base: args.base_dir.clone(),
                },
            )
        }
    }
}

} // verus!
