//! The fixed descriptive metadata that the shell reports to its frontend.

use vstd::prelude::*;

verus! {

/// The descriptive record the application hands to its frontend: a name,
/// a version, a description, and two privacy-related notices.
pub struct AppInfo {
    pub name: String,
    pub version: String,
    pub description: String,
    pub local_first: bool,
    pub privacy: String,
}

impl AppInfo {
    /// The canonical value of the record: every field pinned to the fixed
    /// text the application reports.
    pub open spec fn is_canonical(self) -> bool {
        &&& self.name@ == "Smartbot Desktop"@
        &&& self.version@ == "0.1.0"@
        &&& self.description@ == "Local-first SMART Recovery companion"@
        &&& self.local_first == true
        &&& self.privacy@ == "All data stays on your device"@
    }
}

/// Returns the metadata record. It takes no input and reads no state, so
/// the reply carries the same fixed fields on every call.
pub fn get_app_info() -> (info: AppInfo)
    ensures
        info.is_canonical(),
{
    AppInfo {
        name: "Smartbot Desktop".to_owned(),
        version: "0.1.0".to_owned(),
        description: "Local-first SMART Recovery companion".to_owned(),
        local_first: true,
        privacy: "All data stays on your device".to_owned(),
    }
}

/// The metadata reply is fixed: any two canonical records agree on every
/// field, so what the frontend sees never depends on prior state.
pub proof fn lemma_app_info_fixed(a: AppInfo, b: AppInfo)
    requires
        a.is_canonical(),
        b.is_canonical(),
    ensures
        a.name@ == b.name@,
        a.version@ == b.version@,
        a.description@ == b.description@,
        a.local_first == b.local_first,
        a.privacy@ == b.privacy@,
{
}

} // verus!
