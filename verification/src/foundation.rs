//! Descriptors of framework classes this module only references.  Their
//! binary representations are owned by the framework, so a declaration built
//! from one of these emits references and accessors but never class records.

use vstd::prelude::*;

use crate::descriptor::class_wf;
use crate::descriptor::ClassDescriptor;

verus! {

/// The Foundation framework's notification class, declared here only to be
/// messaged: its records live in the framework binary.
#[derive(Debug)]
pub struct NSNotification;

impl NSNotification {
    /// The descriptor under which this framework class enters synthesis: a
    /// foreign subclass of the framework's root class, with no methods, no
    /// fields and no hooks of its own.
    pub fn descriptor() -> (r: ClassDescriptor)
        ensures
            class_wf(r),
            r.declared_name@ == "NSNotification"@,
            r.export_name is None,
            (r.superclass matches Some(s) && s@ == "NSObject"@),
            r.root_class@ == "NSObject"@,
            !r.is_root,
            r.is_foreign,
            !r.is_generic,
            !r.has_ivars,
            !r.needs_construct,
            !r.needs_destruct,
            r.instance_methods@.len() == 0,
            r.class_methods@.len() == 0,
    {
        ClassDescriptor {
            declared_name: String::from_str("NSNotification"),
            export_name: None,
            superclass: Some(String::from_str("NSObject")),
            root_class: String::from_str("NSObject"),
            is_root: false,
            instance_start: 0,
            instance_size: 0,
            has_ivars: false,
            needs_construct: false,
            needs_destruct: false,
            is_foreign: true,
            is_generic: false,
            instance_methods: Vec::new(),
            class_methods: Vec::new(),
        }
    }
}

} // verus!
