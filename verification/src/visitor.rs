//! The traversal policy: a capability object that decides which entries a
//! build includes, observes the included ones, and classifies errors as
//! fatal or ignorable.

use std::io::Write;
use vstd::prelude::*;
use vstd::string::StringExecFns;
use crate::errors::ErrorKind;
use crate::errors::TreeError;

verus! {

/// The rendering of a path as text: every component preceded by a slash.
pub open spec fn joined(p: Seq<Seq<char>>) -> Seq<char>
    decreases p.len(),
{
    if p.len() == 0 {
        Seq::empty()
    } else {
        joined(p.drop_last()) + seq!['/'] + p.last()
    }
}

/// Render a path, given as its components, as text with a slash before
/// every component.
pub fn path_display(p: &Vec<String>) -> (r: String)
    ensures
        r@ == joined(p.deep_view()),
{
    let mut r = String::new();
    let mut i: usize = 0;
    proof {
        assert(p.deep_view().take(0) =~= Seq::<Seq<char>>::empty());
    }
    while i < p.len()
        invariant
            i <= p.len(),
            r@ == joined(p.deep_view().take(i as int)),
        decreases p.len() - i,
    {
        r.append("/");
        r.append(p[i].as_str());
        proof {
            reveal_strlit("/");
            assert("/"@ =~= seq!['/']);
            let view = p.deep_view();
            assert(view.take(i + 1).drop_last() =~= view.take(i as int));
            assert(view.take(i + 1).last() == view[i as int]);
            assert(r@ =~= joined(view.take(i + 1)));
        }
        i = i + 1;
    }
    proof {
        assert(p.deep_view().take(p.len() as int) =~= p.deep_view());
    }
    r
}

/// Relies on `writeln` printing to `std::io::stderr`: writes one diagnostic
/// line and computes nothing the library's values depend on.
#[verifier::external_body]
fn log_permission_denied(description: &String, message: &String) {
    let _ = writeln!(
        std::io::stderr(),
        "Permission denied reading {}: {}",
        description,
        message,
    );
}

/// A visitor that decides which paths a build includes and how errors are
/// handled, or just observes paths as the tree is constructed.
///
/// Every operation has a default: include everything, observe nothing, and
/// treat only permission-denied errors as ignorable.  Implementers may
/// override any subset.
pub trait PathVisitor {
    /// Decide whether the entry `name`, found in `directory`, is included.
    ///
    /// `Ok(true)` includes the entry; `Ok(false)` omits it, and for a
    /// directory its whole subtree with it.  On `Err(..)` the entry is
    /// omitted and `handle_error` decides whether the build fails.
    fn filter(&mut self, directory: &Vec<String>, name: &String) -> (r: Result<bool, TreeError>)
        default_ensures
            r == Ok::<bool, TreeError>(true),
    {
        Ok(true)
    }

    /// Observe one included entry.  Called after `filter`, and only for
    /// entries that `filter` included.  On `Err(..)` the entry is treated
    /// as `filter` errors are.
    fn visit(&mut self, directory: &Vec<String>, name: &String) -> (r: Result<(), TreeError>)
        default_ensures
            r == Ok::<(), TreeError>(()),
    {
        Ok(())
    }

    /// Classify an error raised while processing `directory` (and, if
    /// relevant, the entry `entry` within it): `Some(..)` is fatal and
    /// aborts the whole build, `None` skips the offending entry or listing
    /// and continues with siblings.
    ///
    /// Every error the builder meets is routed through here, including
    /// errors from `filter` and `visit`.  The default logs permission-denied
    /// errors to stderr and continues; everything else is fatal.
    fn handle_error(
        &mut self,
        error: TreeError,
        directory: &Vec<String>,
        entry: Option<&String>,
    ) -> (r: Option<TreeError>)
        default_ensures
            error.kind == ErrorKind::PermissionDenied ==> r == None::<TreeError>,
            error.kind != ErrorKind::PermissionDenied ==> r == Some(error),
    {
        match error.kind {
            ErrorKind::PermissionDenied => {
                let mut description = String::new();
                match entry {
                    None => {
                        description.append("item in `");
                        let d = path_display(directory);
                        description.append(d.as_str());
                        description.append("`");
                    },
                    Some(name) => {
                        description.append("`");
                        let d = path_display(directory);
                        description.append(d.as_str());
                        description.append("/");
                        description.append(name.as_str());
                        description.append("`");
                    },
                }
                log_permission_denied(&description, &error.message);
                None
            },
            _ => Some(error),
        }
    }
}

/// The default policy: includes every entry, observes nothing, and treats
/// only permission-denied errors as ignorable.
pub struct DefaultVisitor;

impl PathVisitor for DefaultVisitor {

}

} // verus!
