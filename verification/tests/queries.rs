use pear_client::client::HttpPearClient;
use pear_client::context::{Context, EmptyContext, GetRef};
use pear_client::query::get_package_info::GetPackageInfoQuery;
use pear_client::query::get_package_list::GetPackageListQuery;
use pear_client::query::get_release::GetReleaseQuery;
use pear_client::query::get_release_list::GetReleaseListQuery;
use pear_client::query::get_release_list2::GetReleaseList2Query;

#[test]
fn context_swaps_its_url_slot() {
    let cx = EmptyContext::new().set_pear_url("https://pecl.php.net/".to_string());
    let url: &String = cx.get_ref();
    assert_eq!(url.as_str(), "https://pecl.php.net/");
}

#[test]
fn package_list_query_builds_and_views() {
    let q = GetPackageListQuery::new().set_context("cx".to_string());
    let v = q.as_view();
    assert_eq!(v.context.as_str(), "cx");
    let d: GetPackageListQuery<EmptyContext> = Default::default();
    let _ = d.as_view();
}

#[test]
fn package_info_query_builds_and_views() {
    let q = GetPackageInfoQuery::new("protobuf".to_string());
    assert_eq!(q.package.as_str(), "protobuf");
    let q = q.set_context(Context { pear_url: 7u32 });
    let v = q.as_view();
    assert_eq!(v.package, "protobuf");
    assert_eq!(v.context.pear_url, 7);
}

#[test]
fn release_list_queries_build_and_view() {
    let q = GetReleaseListQuery::new("protobuf".to_string());
    let v = q.as_view();
    assert_eq!(v.package, "protobuf");
    let q2 = GetReleaseList2Query::new("protobuf".to_string());
    let v2 = q2.as_view();
    assert_eq!(v2.package, "protobuf");
}

#[test]
fn release_query_keeps_package_and_version() {
    let q = GetReleaseQuery::new("protobuf".to_string(), "4.27.0".to_string());
    let q = q.set_context("cx".to_string());
    let v = q.as_view();
    assert_eq!(v.package, "protobuf");
    assert_eq!(v.version, "4.27.0");
}

#[test]
fn client_wraps_inner_service() {
    let client = HttpPearClient::new(42u8);
    assert_eq!(client.inner, 42);
}
