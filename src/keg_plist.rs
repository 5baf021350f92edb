//! The keys of a keg's `Info.plist`, as plain values.
use vstd::prelude::*;

verus! {

/// The keys of a keg's bundle property list. Flags that the file stores as
/// integers are held as `bool` (non-zero is `true`).
pub struct KegPlist {
    pub advertise_avx: bool,
    pub associations: String,
    pub cf_bundle_development_region: String,
    pub cf_bundle_document_types: Vec<CFBundleDocumentType>,
    pub cf_bundle_executable: String,
    pub cf_bundle_icon_file: String,
    pub cf_bundle_identifier: String,
    pub cf_bundle_info_dictionary_version: String,
    pub cf_bundle_name: String,
    pub cf_bundle_package_type: String,
    pub cf_bundle_short_version_string: String,
    pub cf_bundle_version: String,
    pub cli_custom_commands: String,
    pub cs_resources_file_mapped: bool,
    pub d3d_metal: bool,
    pub dxmt: bool,
    pub dxvk: bool,
    pub debug_mode: bool,
    pub disable_cpus: bool,
    pub fast_math: bool,
    pub gamma_correction: String,
    pub ls_minimum_system_version: String,
    pub metal_hud: bool,
    pub molten_vkcx: bool,
    pub ns_app_transport_security: NSAppTransportSecurity,
    pub ns_bg_only: String,
    pub ns_bluetooth_always_usage_description: String,
    pub ns_bluetooth_peripheral_usage_description: String,
    pub ns_camera_usage_description: String,
    pub ns_desktop_folder_usage_description: String,
    pub ns_documents_folder_usage_description: String,
    pub ns_downloads_folder_usage_description: String,
    pub ns_main_nib_file: String,
    pub ns_microphone_usage_description: String,
    pub ns_network_volumes_usage_description: String,
    pub ns_principal_class: String,
    pub ns_removable_volumes_usage_description: String,
    pub program_flags: String,
    pub program_name_and_path: String,
    pub skip_gecko: bool,
    pub skip_mono: bool,
    pub symlink_desktop: String,
    pub symlink_downloads: String,
    pub symlink_my_documents: String,
    pub symlink_my_music: String,
    pub symlink_my_pictures: String,
    pub symlink_my_videos: String,
    pub symlink_templates: String,
    pub symlinks_in_user_folder: bool,
    pub try_to_use_gpu_info: bool,
    pub wine_debug: String,
    pub wine_esync: bool,
    pub wine_msync: bool,
    pub winetricks_disable_logging: bool,
    pub winetricks_force: bool,
    pub winetricks_silent: bool,
    pub use_start_exe: bool,
    pub cnc_ddraw: bool,
    pub d9vk: bool,
}

/// One document type that a keg's bundle declares.
pub struct CFBundleDocumentType {
    pub cf_bundle_type_extensions: Vec<String>,
    pub cf_bundle_type_role: String,
}

/// The transport-security section of a keg's bundle.
pub struct NSAppTransportSecurity {
    pub ns_allows_arbitrary_loads: bool,
}

} // verus!
