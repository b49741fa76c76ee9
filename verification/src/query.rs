//! The queries a registry client can make, one module each.

pub mod get_package_info;
pub mod get_package_list;
pub mod get_release;
pub mod get_release_list;
pub mod get_release_list2;
