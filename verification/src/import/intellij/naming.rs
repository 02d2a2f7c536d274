//! IntelliJ — the naming-convention settings of `JavaCodeStyleSettings`.
//!
//! Part of the `ij_java_*` surface, but they drive code *generation* and inspections, not the
//! formatter, so they are modeled for completeness and deliberately not projected

use vstd::prelude::*;

use crate::import::kv::KvMap;
use crate::import::serde_kv::{Kv, lookup, lookup_bool, opt_view};

verus! {

/// The naming-convention settings of a Java code style (not formatter rules).
#[derive(Debug, Clone, Default, PartialEq, Eq)]
pub struct IntellijNaming {
    /// `FIELD_NAME_PREFIX` in `<JavaCodeStyleSettings>`; `ij_java_field_name_prefix` in `.editorconfig`.
    pub field_name_prefix: Option<String>,
    /// `FIELD_NAME_SUFFIX` in `<JavaCodeStyleSettings>`; `ij_java_field_name_suffix` in `.editorconfig`.
    pub field_name_suffix: Option<String>,
    /// `LOCAL_VARIABLE_NAME_PREFIX` in `<JavaCodeStyleSettings>`; `ij_java_local_variable_name_prefix` in `.editorconfig`.
    pub local_variable_name_prefix: Option<String>,
    /// `LOCAL_VARIABLE_NAME_SUFFIX` in `<JavaCodeStyleSettings>`; `ij_java_local_variable_name_suffix` in `.editorconfig`.
    pub local_variable_name_suffix: Option<String>,
    /// `PARAMETER_NAME_PREFIX` in `<JavaCodeStyleSettings>`; `ij_java_parameter_name_prefix` in `.editorconfig`.
    pub parameter_name_prefix: Option<String>,
    /// `PARAMETER_NAME_SUFFIX` in `<JavaCodeStyleSettings>`; `ij_java_parameter_name_suffix` in `.editorconfig`.
    pub parameter_name_suffix: Option<String>,
    /// `PREFER_LONGER_NAMES` in `<JavaCodeStyleSettings>`; `ij_java_prefer_longer_names` in `.editorconfig`.
    pub prefer_longer_names: Option<bool>,
    /// `STATIC_FIELD_NAME_PREFIX` in `<JavaCodeStyleSettings>`; `ij_java_static_field_name_prefix` in `.editorconfig`.
    pub static_field_name_prefix: Option<String>,
    /// `STATIC_FIELD_NAME_SUFFIX` in `<JavaCodeStyleSettings>`; `ij_java_static_field_name_suffix` in `.editorconfig`.
    pub static_field_name_suffix: Option<String>,
    /// `SUBCLASS_NAME_PREFIX` in `<JavaCodeStyleSettings>`; `ij_java_subclass_name_prefix` in `.editorconfig`.
    pub subclass_name_prefix: Option<String>,
    /// `SUBCLASS_NAME_SUFFIX` in `<JavaCodeStyleSettings>`; `ij_java_subclass_name_suffix` in `.editorconfig`.
    pub subclass_name_suffix: Option<String>,
    /// `TEST_NAME_PREFIX` in `<JavaCodeStyleSettings>`; `ij_java_test_name_prefix` in `.editorconfig`.
    pub test_name_prefix: Option<String>,
    /// `TEST_NAME_SUFFIX` in `<JavaCodeStyleSettings>`; `ij_java_test_name_suffix` in `.editorconfig`.
    pub test_name_suffix: Option<String>,
    /// `VISIBILITY` in `<JavaCodeStyleSettings>`; `ij_java_visibility` in `.editorconfig`.
    pub visibility: Option<String>,
}

impl IntellijNaming {
    /// Whether every field holds what the settings map gives its id.
    #[verifier::opaque]
    pub open spec fn reads(&self, m: Map<Seq<char>, Seq<char>>) -> bool {
        &&& opt_view(self.field_name_prefix) == lookup(m, "FIELD_NAME_PREFIX"@)
        &&& opt_view(self.field_name_suffix) == lookup(m, "FIELD_NAME_SUFFIX"@)
        &&& opt_view(self.local_variable_name_prefix) == lookup(m, "LOCAL_VARIABLE_NAME_PREFIX"@)
        &&& opt_view(self.local_variable_name_suffix) == lookup(m, "LOCAL_VARIABLE_NAME_SUFFIX"@)
        &&& opt_view(self.parameter_name_prefix) == lookup(m, "PARAMETER_NAME_PREFIX"@)
        &&& opt_view(self.parameter_name_suffix) == lookup(m, "PARAMETER_NAME_SUFFIX"@)
        &&& self.prefer_longer_names == lookup_bool(m, "PREFER_LONGER_NAMES"@)
        &&& opt_view(self.static_field_name_prefix) == lookup(m, "STATIC_FIELD_NAME_PREFIX"@)
        &&& opt_view(self.static_field_name_suffix) == lookup(m, "STATIC_FIELD_NAME_SUFFIX"@)
        &&& opt_view(self.subclass_name_prefix) == lookup(m, "SUBCLASS_NAME_PREFIX"@)
        &&& opt_view(self.subclass_name_suffix) == lookup(m, "SUBCLASS_NAME_SUFFIX"@)
        &&& opt_view(self.test_name_prefix) == lookup(m, "TEST_NAME_PREFIX"@)
        &&& opt_view(self.test_name_suffix) == lookup(m, "TEST_NAME_SUFFIX"@)
        &&& opt_view(self.visibility) == lookup(m, "VISIBILITY"@)
    }

    /// Read every field from the flat settings map; an id the map lacks, or a value that
    /// does not parse, leaves the field unset.
    pub fn from_map(m: &KvMap) -> (r: Self)
        ensures
            r.reads(m@),
    {
        reveal(IntellijNaming::reads);
        IntellijNaming {
            field_name_prefix: Kv::field_string(m, "FIELD_NAME_PREFIX"),
            field_name_suffix: Kv::field_string(m, "FIELD_NAME_SUFFIX"),
            local_variable_name_prefix: Kv::field_string(m, "LOCAL_VARIABLE_NAME_PREFIX"),
            local_variable_name_suffix: Kv::field_string(m, "LOCAL_VARIABLE_NAME_SUFFIX"),
            parameter_name_prefix: Kv::field_string(m, "PARAMETER_NAME_PREFIX"),
            parameter_name_suffix: Kv::field_string(m, "PARAMETER_NAME_SUFFIX"),
            prefer_longer_names: Kv::field_bool(m, "PREFER_LONGER_NAMES"),
            static_field_name_prefix: Kv::field_string(m, "STATIC_FIELD_NAME_PREFIX"),
            static_field_name_suffix: Kv::field_string(m, "STATIC_FIELD_NAME_SUFFIX"),
            subclass_name_prefix: Kv::field_string(m, "SUBCLASS_NAME_PREFIX"),
            subclass_name_suffix: Kv::field_string(m, "SUBCLASS_NAME_SUFFIX"),
            test_name_prefix: Kv::field_string(m, "TEST_NAME_PREFIX"),
            test_name_suffix: Kv::field_string(m, "TEST_NAME_SUFFIX"),
            visibility: Kv::field_string(m, "VISIBILITY"),
        }
    }
}

} // verus!
