//! The whole synthesis pass for one annotated declaration: class records for
//! a primary, locally-owned class; category records for a capability-
//! interface overlay; reference accessors and image info for every primary
//! declaration, including one whose class is owned elsewhere.

use vstd::prelude::*;

use crate::category::build_category_records;
use crate::category::category_artifacts_ok;
use crate::category::CategoryArtifacts;
use crate::class_record::build_class_records;
use crate::class_record::class_artifacts_ok;
use crate::class_record::ClassArtifacts;
use crate::descriptor::decl_wf;
use crate::descriptor::Declaration;
use crate::resolver::build_refs;
use crate::resolver::ref_artifacts_ok;
use crate::resolver::RefArtifacts;

verus! {

/// Everything one declaration contributes to the compiled module.
#[derive(Debug)]
pub struct ModuleArtifacts {
    /// The class's own records; absent for category overlays and for
    /// classes owned by another module.
    pub class_records: Option<ClassArtifacts>,
    /// The category records; absent for primary class declarations and for
    /// classes owned by another module.
    pub category_records: Option<CategoryArtifacts>,
    /// The reference accessors and image info; absent only for category
    /// overlays.
    pub refs: Option<RefArtifacts>,
}

/// Runs the full synthesis pass on one well-formed declaration.  `token` is
/// the fresh random identifier that makes a category's name process-unique;
/// it is only read when the declaration is a category overlay.
pub fn synthesize_module(decl: &Declaration, token: &String) -> (r: ModuleArtifacts)
    requires
        decl_wf(*decl),
    ensures
        r.class_records is Some <==> (decl.category is None && !decl.class.is_foreign),
        (r.class_records matches Some(a) ==> class_artifacts_ok(a, decl.class)),
        r.category_records is Some <==> (decl.category is Some && !decl.class.is_foreign),
        (r.category_records matches Some(a) ==> decl.category matches Some(iface)
            && category_artifacts_ok(a, decl.class, iface@, token@)),
        r.refs is Some <==> decl.category is None,
        (r.refs matches Some(a) ==> ref_artifacts_ok(a, decl.class)),
{
    ModuleArtifacts {
        class_records: build_class_records(decl),
        category_records: build_category_records(decl, token),
        refs: build_refs(decl),
    }
}

} // verus!
