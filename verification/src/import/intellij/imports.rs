//! IntelliJ — the import-layout settings of `JavaCodeStyleSettings`.
//!
//! `IMPORT_LAYOUT_TABLE` and `PACKAGES_TO_USE_IMPORT_ON_DEMAND` are ordered
//! [`PackageEntryTable`]s, spelled as `<package>` / `<emptyLine/>` elements in XML and as a
//! comma-separated mini-list in `.editorconfig`. The on-demand thresholds need name resolution

use vstd::prelude::*;

use crate::import::kv::KvMap;
use crate::import::serde_kv::{Kv, lookup_bool, lookup_i64};
use super::values::{lookup_table, opt_table_view, PackageEntryTable};

verus! {

/// The import-layout settings of a Java code style.
#[derive(Debug, Clone, Default, PartialEq, Eq)]
pub struct IntellijImports {
    /// `CLASS_COUNT_TO_USE_IMPORT_ON_DEMAND` in `<JavaCodeStyleSettings>`; `ij_java_class_count_to_use_import_on_demand` in `.editorconfig`.
    pub class_count_to_use_import_on_demand: Option<i64>,
    /// `DELETE_UNUSED_MODULE_IMPORTS` in `<JavaCodeStyleSettings>`; `ij_java_delete_unused_module_imports` in `.editorconfig`.
    pub delete_unused_module_imports: Option<bool>,
    /// `IMPORT_LAYOUT_TABLE` in `<JavaCodeStyleSettings>`; `ij_java_imports_layout` in `.editorconfig`.
    pub import_layout_table: Option<PackageEntryTable>,
    /// `INSERT_INNER_CLASS_IMPORTS` in `<JavaCodeStyleSettings>`; `ij_java_insert_inner_class_imports` in `.editorconfig`.
    pub insert_inner_class_imports: Option<bool>,
    /// `LAYOUT_ON_DEMAND_IMPORT_FROM_SAME_PACKAGE_FIRST` in `<JavaCodeStyleSettings>`; `ij_java_layout_on_demand_import_from_same_package_first` in `.editorconfig`.
    pub layout_on_demand_import_from_same_package_first: Option<bool>,
    /// `LAYOUT_STATIC_IMPORTS_SEPARATELY` in `<JavaCodeStyleSettings>`; `ij_java_layout_static_imports_separately` in `.editorconfig`.
    pub layout_static_imports_separately: Option<bool>,
    /// `NAMES_COUNT_TO_USE_IMPORT_ON_DEMAND` in `<JavaCodeStyleSettings>`; `ij_java_names_count_to_use_import_on_demand` in `.editorconfig`.
    pub names_count_to_use_import_on_demand: Option<i64>,
    /// `PACKAGES_TO_USE_IMPORT_ON_DEMAND` in `<JavaCodeStyleSettings>`; `ij_java_packages_to_use_import_on_demand` in `.editorconfig`.
    pub packages_to_use_import_on_demand: Option<PackageEntryTable>,
    /// `PRESERVE_MODULE_IMPORTS` in `<JavaCodeStyleSettings>`; `ij_java_preserve_module_imports` in `.editorconfig`.
    pub preserve_module_imports: Option<bool>,
    /// `USE_FQ_CLASS_NAMES` in `<JavaCodeStyleSettings>`; `ij_java_use_fq_class_names` in `.editorconfig`.
    pub use_fq_class_names: Option<bool>,
    /// `USE_SINGLE_CLASS_IMPORTS` in `<JavaCodeStyleSettings>`; `ij_java_use_single_class_imports` in `.editorconfig`.
    pub use_single_class_imports: Option<bool>,
}

impl IntellijImports {
    /// Whether every field holds what the settings map gives its id.
    #[verifier::opaque]
    pub open spec fn reads(&self, m: Map<Seq<char>, Seq<char>>) -> bool {
        &&& self.class_count_to_use_import_on_demand == lookup_i64(m, "CLASS_COUNT_TO_USE_IMPORT_ON_DEMAND"@)
        &&& self.delete_unused_module_imports == lookup_bool(m, "DELETE_UNUSED_MODULE_IMPORTS"@)
        &&& opt_table_view(self.import_layout_table) == lookup_table(m, "IMPORT_LAYOUT_TABLE"@)
        &&& self.insert_inner_class_imports == lookup_bool(m, "INSERT_INNER_CLASS_IMPORTS"@)
        &&& self.layout_on_demand_import_from_same_package_first == lookup_bool(m, "LAYOUT_ON_DEMAND_IMPORT_FROM_SAME_PACKAGE_FIRST"@)
        &&& self.layout_static_imports_separately == lookup_bool(m, "LAYOUT_STATIC_IMPORTS_SEPARATELY"@)
        &&& self.names_count_to_use_import_on_demand == lookup_i64(m, "NAMES_COUNT_TO_USE_IMPORT_ON_DEMAND"@)
        &&& opt_table_view(self.packages_to_use_import_on_demand) == lookup_table(m, "PACKAGES_TO_USE_IMPORT_ON_DEMAND"@)
        &&& self.preserve_module_imports == lookup_bool(m, "PRESERVE_MODULE_IMPORTS"@)
        &&& self.use_fq_class_names == lookup_bool(m, "USE_FQ_CLASS_NAMES"@)
        &&& self.use_single_class_imports == lookup_bool(m, "USE_SINGLE_CLASS_IMPORTS"@)
    }

    /// Read every field from the flat settings map; an id the map lacks, or a value that
    /// does not parse, leaves the field unset.
    pub fn from_map(m: &KvMap) -> (r: Self)
        ensures
            r.reads(m@),
    {
        reveal(IntellijImports::reads);
        IntellijImports {
            class_count_to_use_import_on_demand: Kv::field_i64(m, "CLASS_COUNT_TO_USE_IMPORT_ON_DEMAND"),
            delete_unused_module_imports: Kv::field_bool(m, "DELETE_UNUSED_MODULE_IMPORTS"),
            import_layout_table: PackageEntryTable::field(m, "IMPORT_LAYOUT_TABLE"),
            insert_inner_class_imports: Kv::field_bool(m, "INSERT_INNER_CLASS_IMPORTS"),
            layout_on_demand_import_from_same_package_first: Kv::field_bool(m, "LAYOUT_ON_DEMAND_IMPORT_FROM_SAME_PACKAGE_FIRST"),
            layout_static_imports_separately: Kv::field_bool(m, "LAYOUT_STATIC_IMPORTS_SEPARATELY"),
            names_count_to_use_import_on_demand: Kv::field_i64(m, "NAMES_COUNT_TO_USE_IMPORT_ON_DEMAND"),
            packages_to_use_import_on_demand: PackageEntryTable::field(m, "PACKAGES_TO_USE_IMPORT_ON_DEMAND"),
            preserve_module_imports: Kv::field_bool(m, "PRESERVE_MODULE_IMPORTS"),
            use_fq_class_names: Kv::field_bool(m, "USE_FQ_CLASS_NAMES"),
            use_single_class_imports: Kv::field_bool(m, "USE_SINGLE_CLASS_IMPORTS"),
        }
    }
}

} // verus!
